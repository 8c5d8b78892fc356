//! Classification of inbound ArtNet datagrams and the per-tick update step.
//!
//! The socket lives with the caller; this module takes the raw bytes of one
//! datagram (or none), classifies them through the ArtNet decoder, and for
//! an Output command applies the payload to the face registry.  Malformed
//! bytes and non-Output commands are reported for logging and change
//! nothing; they are never a failure.

use vstd::prelude::*;
use crate::registry::{FaceRegistry, frame_applied};

verus! {

/// What one inbound datagram's bytes mean: `None` for bytes that do not
/// decode as an ArtNet command, `Some(None)` for a well-formed command of a
/// kind other than Output, and `Some(Some(p))` for an Output command whose
/// DMX payload is p.  Names the result of
/// `artnet_protocol::ArtCommand::from_buffer`, which depends on the bytes
/// alone.
pub uninterp spec fn artnet_decode(bytes: Seq<u8>) -> Option<Option<Seq<u8>>>;

/// One decoded datagram, as the rig cares about it.
#[derive(Debug)]
pub enum Datagram {
    /// An ArtNet Output (ArtDmx) command, with its DMX payload.
    Output(Vec<u8>),
    /// A well-formed ArtNet command of another kind (Poll, PollReply, ...).
    OtherCommand,
    /// Bytes that do not decode as an ArtNet command.
    Invalid,
}

/// Relies on `artnet_protocol::ArtCommand::from_buffer`: it parses one
/// ArtNet datagram from the given bytes and nothing else, returning the
/// decoded command or a decode error; `artnet_decode` names its outcome.
#[verifier::external_body]
fn decode_datagram(bytes: &[u8]) -> (r: Datagram)
    ensures
        (match artnet_decode(bytes@) {
            Option::Some(inner) => match inner {
                Option::Some(p) => r matches Datagram::Output(d) && d@ == p,
                Option::None => r is OtherCommand,
            },
            Option::None => r is Invalid,
        }),
{
    match artnet_protocol::ArtCommand::from_buffer(bytes) {
        Ok(artnet_protocol::ArtCommand::Output(output)) => {
            Datagram::Output(output.data.as_ref().clone())
        },
        Ok(_) => Datagram::OtherCommand,
        Err(_) => Datagram::Invalid,
    }
}

/// The outcome of one control tick, for the caller to log.
#[derive(Clone, Copy, PartialEq, Eq, Structural, Debug)]
pub enum TickOutcome {
    /// An Output payload arrived and was applied to the faces.
    Applied,
    /// A well-formed non-Output command arrived; it was ignored.
    OtherCommand,
    /// The datagram did not decode; it was dropped.
    DecodeError,
    /// No datagram arrived this tick.
    NothingReceived,
}

/// One tick of the control mapper: classify what the non-blocking poll
/// handed in, and for an Output command apply its payload positionally to
/// the faces.  Every other outcome leaves the registry exactly as it was.
pub fn tick(reg: &mut FaceRegistry, incoming: Option<&[u8]>) -> (r: TickOutcome)
    ensures
        (match incoming {
            Option::Some(bytes) => match artnet_decode(bytes@) {
                Option::Some(inner) => match inner {
                    Option::Some(p) => r is Applied && frame_applied(
                        old(reg).faces@,
                        final(reg).faces@,
                        p,
                    ),
                    Option::None => r is OtherCommand && *final(reg) == *old(reg),
                },
                Option::None => r is DecodeError && *final(reg) == *old(reg),
            },
            Option::None => r is NothingReceived && *final(reg) == *old(reg),
        }),
{
    match incoming {
        None => TickOutcome::NothingReceived,
        Some(bytes) => match decode_datagram(bytes) {
            Datagram::Output(payload) => {
                reg.apply_frame(payload.as_slice());
                TickOutcome::Applied
            },
            Datagram::OtherCommand => TickOutcome::OtherCommand,
            Datagram::Invalid => TickOutcome::DecodeError,
        },
    }
}

} // verus!
