//! Datagram decoding events: one message per received datagram, sent from
//! the listener thread to the interactive loop and consumed exactly once.

use vstd::prelude::*;

verus! {

/// rosc's decoded packet type. Opaque to the monitor: packets are carried
/// through the log and rendered as text, never inspected.
#[verifier::external_type_specification]
#[verifier::external_body]
pub struct ExOscPacket(rosc::OscPacket);

/// rosc's decode error type, carried only until it is rendered as text.
#[verifier::external_type_specification]
#[verifier::external_body]
pub struct ExOscError(rosc::OscError);

/// The source of a datagram, as plain values: the peer's host address in its
/// textual form, and its port.
pub struct SourceAddr {
    pub host: String,
    pub port: u16,
}

/// What the listener reports for one datagram: either the decoded packet with
/// its source, or a description of the decode failure.
pub enum ListenerMessage {
    PacketReceived(rosc::OscPacket, SourceAddr),
    Error(String),
}

/// Whether a sequence of bytes decodes as one well-formed protocol datagram.
pub uninterp spec fn osc_decodes(data: Seq<u8>) -> bool;

/// Relies on rosc::decoder::decode_udp: parses one datagram into a packet,
/// and succeeds or fails as a function of the bytes alone.
#[verifier::external_body]
fn decode_datagram(data: &[u8]) -> (r: Result<rosc::OscPacket, rosc::OscError>)
    ensures
        r is Ok <==> osc_decodes(data@),
{
    rosc::decoder::decode_udp(data).map(|decoded| decoded.1)
}

/// Relies on rosc::OscError's Display implementation for the human-readable
/// description of a decode failure.
#[verifier::external_body]
fn decode_error_text(err: &rosc::OscError) -> String {
    format!("{err}")
}

/// Builds the one message a decode outcome produces: a decoded packet becomes
/// `PacketReceived` tagged with its source, a failure becomes `Error`.
pub fn message_for_decode(outcome: Result<rosc::OscPacket, rosc::OscError>, source: SourceAddr) -> (m:
    ListenerMessage)
    ensures
        outcome matches Ok(p) ==> m == ListenerMessage::PacketReceived(p, source),
        outcome is Err ==> m is Error,
{
    match outcome {
        Ok(packet) => ListenerMessage::PacketReceived(packet, source),
        Err(err) => {
            let mut text = String::from_str("Failed decoding packet: ");
            text.append(decode_error_text(&err).as_str());
            ListenerMessage::Error(text)
        },
    }
}

/// Decodes one datagram and builds the single message it produces:
/// `PacketReceived` exactly when the bytes form a well-formed datagram and
/// never otherwise, `Error` exactly when they do not.
pub fn message_for_datagram(data: &[u8], source: SourceAddr) -> (m: ListenerMessage)
    ensures
        m is PacketReceived <==> osc_decodes(data@),
        m is Error <==> !osc_decodes(data@),
        m matches ListenerMessage::PacketReceived(p, a) ==> a == source,
{
    let outcome = decode_datagram(data);
    message_for_decode(outcome, source)
}

} // verus!
