//! The outbound wire format: one JSON object per message, built directly as
//! a character sequence so that every byte of the payload is pinned down.
//!
//! A transaction message reads `{"slot":<n>,"signature":"<s>","is_vote":<b>}`
//! and an entry message `{"slot":<n>,"idx":<n>,"num_hashes":<n>,
//! "executed_tx_count":<n>}`. Numbers are plain decimal; the signature is a
//! JSON string with the standard escapes.

use vstd::prelude::*;
use vstd::std_specs::iter::IteratorSpec;
use crate::events::CanonicalEntryEvent;
use crate::events::CanonicalTransactionEvent;

verus! {

broadcast use vstd::string::axiom_spec_iter, vstd::string::next_postcondition;

/// The character for a single decimal digit.
pub open spec fn spec_dec_digit(d: int) -> char {
    (((d + 48) as u8) as char)
}

/// The decimal rendering of a non-negative number, most significant digit
/// first, with no leading zeros (a lone zero for zero).
pub open spec fn spec_dec(n: nat) -> Seq<char>
    decreases n,
{
    if n < 10 {
        seq![spec_dec_digit(n as int)]
    } else {
        spec_dec(n / 10) + seq![spec_dec_digit((n % 10) as int)]
    }
}

/// Renders a number in decimal.
pub fn u64_to_dec(n: u64) -> (r: Vec<char>)
    ensures
        r@ == spec_dec(n as nat),
    decreases n,
{
    if n < 10 {
        let mut v: Vec<char> = Vec::new();
        v.push(((n as u8) + 48) as char);
        assert(v@ =~= spec_dec(n as nat));
        v
    } else {
        let mut v = u64_to_dec(n / 10);
        v.push((((n % 10) as u8) + 48) as char);
        assert(v@ =~= spec_dec(n as nat));
        v
    }
}

/// The character for a single lower-case hexadecimal digit.
pub open spec fn spec_hex_digit(d: int) -> char {
    if d < 10 {
        (((d + 48) as u8) as char)
    } else {
        (((d + 87) as u8) as char)
    }
}

/// How one character appears inside a JSON string: the two-character named
/// escapes where JSON has them, a `\u00..` escape for the other control
/// characters, the character itself otherwise.
pub open spec fn spec_escape_char(c: char) -> Seq<char> {
    if c == '"' {
        seq!['\\', '"']
    } else if c == '\\' {
        seq!['\\', '\\']
    } else if c == '\u{8}' {
        seq!['\\', 'b']
    } else if c == '\t' {
        seq!['\\', 't']
    } else if c == '\n' {
        seq!['\\', 'n']
    } else if c == '\u{c}' {
        seq!['\\', 'f']
    } else if c == '\r' {
        seq!['\\', 'r']
    } else if (c as int) < 32 {
        seq!['\\', 'u', '0', '0', spec_hex_digit((c as int) / 16), spec_hex_digit((c as int) % 16)]
    } else {
        seq![c]
    }
}

/// The body of a JSON string: each character escaped in turn.
pub open spec fn spec_escape(s: Seq<char>) -> Seq<char>
    decreases s.len(),
{
    if s.len() == 0 {
        Seq::empty()
    } else {
        spec_escape_char(s[0]) + spec_escape(s.drop_first())
    }
}

/// Escaping a sequence extended by one character appends that character's
/// escape.
proof fn lemma_escape_push(s: Seq<char>, c: char)
    ensures
        spec_escape(s.push(c)) == spec_escape(s) + spec_escape_char(c),
    decreases s.len(),
{
    let t = s.push(c);
    if s.len() == 0 {
        assert(t[0] == c);
        assert(t.drop_first() =~= Seq::<char>::empty());
        assert(spec_escape(t) == spec_escape_char(c) + spec_escape(t.drop_first()));
        assert(spec_escape(t.drop_first()).len() == 0);
        assert(spec_escape(t) =~= spec_escape(s) + spec_escape_char(c));
    } else {
        lemma_escape_push(s.drop_first(), c);
        assert(t[0] == s[0]);
        assert(t.drop_first() =~= s.drop_first().push(c));
        assert(spec_escape(t) == spec_escape_char(s[0]) + spec_escape(s.drop_first().push(c)));
        assert(spec_escape(s) == spec_escape_char(s[0]) + spec_escape(s.drop_first()));
        assert(spec_escape(t) =~= spec_escape(s) + spec_escape_char(c));
    }
}

/// Appends the escape of one character.
fn push_escaped(out: &mut Vec<char>, c: char)
    ensures
        final(out)@ == old(out)@ + spec_escape_char(c),
{
    if c == '"' {
        out.push('\\');
        out.push('"');
    } else if c == '\\' {
        out.push('\\');
        out.push('\\');
    } else if c == '\u{8}' {
        out.push('\\');
        out.push('b');
    } else if c == '\t' {
        out.push('\\');
        out.push('t');
    } else if c == '\n' {
        out.push('\\');
        out.push('n');
    } else if c == '\u{c}' {
        out.push('\\');
        out.push('f');
    } else if c == '\r' {
        out.push('\\');
        out.push('r');
    } else if (c as u32) < 32 {
        out.push('\\');
        out.push('u');
        out.push('0');
        out.push('0');
        let hi: u32 = (c as u32) / 16;
        let lo: u32 = (c as u32) % 16;
        if hi < 10 {
            out.push(((hi as u8) + 48) as char);
        } else {
            out.push(((hi as u8) + 87) as char);
        }
        if lo < 10 {
            out.push(((lo as u8) + 48) as char);
        } else {
            out.push(((lo as u8) + 87) as char);
        }
    } else {
        out.push(c);
    }
    assert(out@ =~= old(out)@ + spec_escape_char(c));
}

/// Appends the characters of a string verbatim.
pub fn append_str(out: &mut Vec<char>, s: &str)
    ensures
        final(out)@ == old(out)@ + s@,
{
    let mut it = s.chars();
    let ghost mut done: Seq<char> = Seq::empty();
    loop
        invariant
            it.obeys_prophetic_iter_laws(),
            it.decrease() is Some,
            done + it.remaining() == s@,
            out@ == old(out)@ + done,
        ensures
            out@ == old(out)@ + s@,
        decreases it.decrease()->0,
    {
        match it.next() {
            Some(c) => {
                out.push(c);
                proof {
                    done = done.push(c);
                    assert(done + it.remaining() =~= s@);
                    assert(out@ =~= old(out)@ + done);
                }
            },
            None => {
                proof {
                    assert(done =~= s@);
                }
                break ;
            },
        }
    }
}

/// Appends the characters of a string as a JSON string body.
pub fn append_escaped(out: &mut Vec<char>, s: &str)
    ensures
        final(out)@ == old(out)@ + spec_escape(s@),
{
    let mut it = s.chars();
    let ghost mut done: Seq<char> = Seq::empty();
    loop
        invariant
            it.obeys_prophetic_iter_laws(),
            it.decrease() is Some,
            done + it.remaining() == s@,
            out@ == old(out)@ + spec_escape(done),
        ensures
            out@ == old(out)@ + spec_escape(s@),
        decreases it.decrease()->0,
    {
        match it.next() {
            Some(c) => {
                push_escaped(out, c);
                proof {
                    lemma_escape_push(done, c);
                    done = done.push(c);
                    assert(done + it.remaining() =~= s@);
                }
            },
            None => {
                proof {
                    assert(done =~= s@);
                }
                break ;
            },
        }
    }
}

/// The JSON text of a transaction message.
pub open spec fn spec_tx_payload(slot: u64, signature: Seq<char>, is_vote: bool) -> Seq<char> {
    "{\"slot\":"@ + spec_dec(slot as nat) + ",\"signature\":\""@ + spec_escape(signature)
        + "\",\"is_vote\":"@ + (if is_vote {
        "true"@
    } else {
        "false"@
    }) + "}"@
}

/// The JSON text of an entry message.
pub open spec fn spec_entry_payload(
    slot: u64,
    index: u64,
    num_hashes: u64,
    executed_tx_count: u64,
) -> Seq<char> {
    "{\"slot\":"@ + spec_dec(slot as nat) + ",\"idx\":"@ + spec_dec(index as nat)
        + ",\"num_hashes\":"@ + spec_dec(num_hashes as nat) + ",\"executed_tx_count\":"@
        + spec_dec(executed_tx_count as nat) + "}"@
}

/// Serializes a canonical transaction event to its JSON payload.
pub fn transaction_payload(ev: &CanonicalTransactionEvent) -> (r: Vec<char>)
    ensures
        r@ == spec_tx_payload(ev.slot, ev.signature@, ev.is_vote),
{
    let mut out: Vec<char> = Vec::new();
    append_str(&mut out, "{\"slot\":");
    let mut digits = u64_to_dec(ev.slot);
    out.append(&mut digits);
    append_str(&mut out, ",\"signature\":\"");
    append_escaped(&mut out, ev.signature.as_str());
    append_str(&mut out, "\",\"is_vote\":");
    if ev.is_vote {
        append_str(&mut out, "true");
    } else {
        append_str(&mut out, "false");
    }
    append_str(&mut out, "}");
    assert(out@ =~= spec_tx_payload(ev.slot, ev.signature@, ev.is_vote));
    out
}

/// Serializes a canonical entry event to its JSON payload.
pub fn entry_payload(ev: &CanonicalEntryEvent) -> (r: Vec<char>)
    ensures
        r@ == spec_entry_payload(ev.slot, ev.index, ev.num_hashes, ev.executed_tx_count),
{
    let mut out: Vec<char> = Vec::new();
    append_str(&mut out, "{\"slot\":");
    let mut digits = u64_to_dec(ev.slot);
    out.append(&mut digits);
    append_str(&mut out, ",\"idx\":");
    let mut digits = u64_to_dec(ev.index);
    out.append(&mut digits);
    append_str(&mut out, ",\"num_hashes\":");
    let mut digits = u64_to_dec(ev.num_hashes);
    out.append(&mut digits);
    append_str(&mut out, ",\"executed_tx_count\":");
    let mut digits = u64_to_dec(ev.executed_tx_count);
    out.append(&mut digits);
    append_str(&mut out, "}");
    assert(out@ =~= spec_entry_payload(ev.slot, ev.index, ev.num_hashes, ev.executed_tx_count));
    out
}

} // verus!
