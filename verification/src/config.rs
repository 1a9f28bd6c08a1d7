//! Broker-address resolution for plugin load time.
//!
//! The host hands the plugin a configuration file; whatever the surrounding
//! code manages to read and parse out of it arrives here as an optional
//! broker-address string. A missing or unparseable configuration falls back
//! to a fixed default address, so that a bad configuration never prevents
//! the plugin from loading.

use vstd::prelude::*;

verus! {

/// The broker address used when the configuration supplies none.
pub open spec fn spec_default_kafka_brokers() -> Seq<char> {
    "localhost:9092"@
}

/// Default broker address for a missing or unparseable configuration.
pub fn default_kafka_brokers() -> (r: String)
    ensures
        r@ == spec_default_kafka_brokers(),
{
    let r: String = "localhost:9092".to_owned();
    proof {
        reveal_strlit("localhost:9092");
    }
    r
}

/// The broker address a load uses: the configured one when the configuration
/// yielded one, the default otherwise.
pub open spec fn spec_resolved_brokers(configured: Option<Seq<char>>) -> Seq<char> {
    match configured {
        Option::Some(s) => s,
        Option::None => spec_default_kafka_brokers(),
    }
}

/// Picks the broker address for a load: the configured address verbatim when
/// one was read, the default otherwise.
pub fn resolve_brokers(configured: Option<String>) -> (r: String)
    ensures
        r@ == spec_resolved_brokers(match configured {
            Option::Some(s) => Option::Some(s@),
            Option::None => Option::None,
        }),
{
    match configured {
        Option::Some(s) => s,
        Option::None => default_kafka_brokers(),
    }
}

} // verus!
