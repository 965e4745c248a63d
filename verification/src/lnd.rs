//! How the connection to the node is made.
use crate::config::LndConfig;
use crate::encoding::{
    hex_decoded, hex_encoded, law_decoding_undoes_encoding, macaroon_hex, HexError,
};
use vstd::prelude::*;
use vstd::string::*;
use vstd::utf8::*;

verus! {

/// What has become known on the way to a connection.
#[derive(Debug)]
pub enum LndEvent {
    /// Nothing but the configuration.
    Start,
    /// The macaroon file holds these bytes.
    MacaroonRead(Vec<u8>),
    /// The macaroon file cannot be read.
    MacaroonUnreadable,
}

/// What has to be done next.
#[derive(Debug)]
pub enum LndStep {
    /// Read the macaroon file.
    ReadMacaroon { path: String },
    /// Connect to the endpoint, and send the macaroon along with each request.
    Connect { endpoint: String, macaroon: String },
    /// Give up.
    Fail,
}

/// The view of an `LndStep`.
pub enum LndStepView {
    ReadMacaroon { path: Seq<char> },
    Connect { endpoint: Seq<char>, macaroon: Seq<char> },
    Fail,
}

impl View for LndStep {
    type V = LndStepView;

    open spec fn view(&self) -> LndStepView {
        match self {
            LndStep::ReadMacaroon { path } => LndStepView::ReadMacaroon { path: path@ },
            LndStep::Connect { endpoint, macaroon } => LndStepView::Connect {
                endpoint: endpoint@,
                macaroon: macaroon@,
            },
            LndStep::Fail => LndStepView::Fail,
        }
    }
}

/// What follows from what has become known.
pub open spec fn lnd_step(config: LndConfig, event: LndEvent) -> LndStepView {
    match event {
        LndEvent::Start => LndStepView::ReadMacaroon { path: config.macaroon@ },
        LndEvent::MacaroonRead(bytes) => LndStepView::Connect {
            endpoint: config.endpoint@,
            macaroon: hex_encoded(bytes@),
        },
        LndEvent::MacaroonUnreadable => LndStepView::Fail,
    }
}

/// Makes the connection to the node, one step at a time.
pub fn connect_to_lnd(config: &LndConfig, event: &LndEvent) -> (r: LndStep)
    ensures
        r@ == lnd_step(*config, *event),
        event is Start ==> (r matches LndStep::ReadMacaroon { path } && path@ == config.macaroon@),
        event is MacaroonUnreadable ==> r is Fail,
{
    match event {
        LndEvent::Start => LndStep::ReadMacaroon { path: config.macaroon.clone() },
        LndEvent::MacaroonRead(bytes) => LndStep::Connect {
            endpoint: config.endpoint.clone(),
            macaroon: macaroon_hex(bytes.as_slice()),
        },
        LndEvent::MacaroonUnreadable => LndStep::Fail,
    }
}

/// A connection is made only with a macaroon that was read, and what is sent along
/// with each request decodes to the bytes that the file holds.
pub proof fn law_connections_carry_the_macaroon(config: LndConfig, event: LndEvent)
    ensures
        lnd_step(config, event) is Connect <==> event is MacaroonRead,
        lnd_step(config, event) matches LndStepView::Connect { endpoint, macaroon } ==> {
            &&& endpoint == config.endpoint@
            &&& macaroon.len() == 2 * event->MacaroonRead_0@.len()
            &&& hex_decoded(encode_utf8(macaroon)) == Ok::<Seq<u8>, HexError>(
                event->MacaroonRead_0@,
            )
        },
{
    if let LndEvent::MacaroonRead(bytes) = event {
        law_decoding_undoes_encoding(bytes@);
    }
}

/// How the connection is made does not depend on the certificate file.
pub proof fn law_certificate_is_not_used(a: LndConfig, b: LndConfig, event: LndEvent)
    requires
        a.endpoint@ == b.endpoint@,
        a.macaroon@ == b.macaroon@,
    ensures
        lnd_step(a, event) == lnd_step(b, event),
{
}

} // verus!
