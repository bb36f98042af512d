//! The wire protocol that every exporter of one provider speaks.

use vstd::prelude::*;
use crate::error::ConstructionError;

verus! {

/// The wire protocol of the exporters. One provider uses the same protocol
/// for all three signals.
#[derive(Clone, Copy, Debug, PartialEq, Eq, Structural)]
pub enum WireProtocol {
    /// OTLP over gRPC.
    Grpc,
    /// OTLP over HTTP with a JSON payload.
    HttpJson,
}

/// The protocol that a selector names, if it names one. The selectors are
/// `grpc` and `http_json`, matched exactly.
pub open spec fn selector_protocol(selector: Seq<char>) -> Option<WireProtocol> {
    if selector == "grpc"@ {
        Some(WireProtocol::Grpc)
    } else if selector == "http_json"@ {
        Some(WireProtocol::HttpJson)
    } else {
        None
    }
}

impl WireProtocol {
    /// The selector that names this protocol.
    pub open spec fn spec_selector(self) -> Seq<char> {
        match self {
            WireProtocol::Grpc => "grpc"@,
            WireProtocol::HttpJson => "http_json"@,
        }
    }

    /// The selector that names this protocol.
    pub fn selector(&self) -> (s: &'static str)
        ensures
            s@ == self.spec_selector(),
    {
        match self {
            WireProtocol::Grpc => "grpc",
            WireProtocol::HttpJson => "http_json",
        }
    }

    /// Reads a protocol selector. Anything but `grpc` and `http_json` is a
    /// configuration error; no default is substituted.
    pub fn from_selector(selector: &str) -> (r: Result<WireProtocol, ConstructionError>)
        ensures
            r == match selector_protocol(selector@) {
                Some(p) => Ok::<WireProtocol, ConstructionError>(p),
                None => Err(ConstructionError::InvalidProtocol),
            },
    {
        let given = selector.to_owned();
        if given == "grpc".to_owned() {
            Ok(WireProtocol::Grpc)
        } else if given == "http_json".to_owned() {
            Ok(WireProtocol::HttpJson)
        } else {
            Err(ConstructionError::InvalidProtocol)
        }
    }
}

/// The two selectors differ, so each protocol is read back from its own
/// selector.
pub proof fn lemma_selector_round_trip(p: WireProtocol)
    ensures
        selector_protocol(p.spec_selector()) == Some(p),
{
    reveal_strlit("grpc");
    reveal_strlit("http_json");
    assert("grpc"@.len() == 4);
    assert("http_json"@.len() == 9);
}

/// A selector is accepted only if it is the selector of the protocol read
/// from it: nothing else is mapped onto a protocol.
pub proof fn lemma_selector_exact(selector: Seq<char>)
    ensures
        match selector_protocol(selector) {
            Some(p) => selector == p.spec_selector(),
            None => selector != "grpc"@ && selector != "http_json"@,
        },
{
}

} // verus!
