//! The build-id handshake that precedes all typed messages: the daemon sends
//! its build id as a raw frame, and the parent refuses the spawn unless it is
//! its own.

use vstd::prelude::*;

use crate::channel::sender::{send_begin, SendNext, SendStep, Sender};
use crate::error::{ChannelRecvError, HandshakeError};
use crate::text::text_equal;
use crate::utf8::is_utf8_fault;

verus! {

/// How many seconds the parent waits for the daemon's build id, over the whole
/// two-stage startup.
pub const HANDSHAKE_TIMEOUT_SECS: u64 = 10;

/// Whether `verdict` is what the parent concludes from the handshake bytes, of
/// which `expected` is the text it expects.
pub open spec fn is_verdict<C>(
    client: C,
    received: Result<Vec<u8>, ChannelRecvError>,
    expected: Seq<char>,
    verdict: Result<C, HandshakeError>,
) -> bool {
    match received {
        Err(err) => verdict == Err::<C, HandshakeError>(HandshakeError::Recv(err)),
        Ok(bytes) => if !vstd::utf8::valid_utf8(bytes@) {
            verdict matches Err(HandshakeError::InvalidUtf8(err)) && is_utf8_fault(bytes@, err)
        } else if bytes@ == vstd::utf8::encode_utf8(expected) {
            verdict == Ok::<C, HandshakeError>(client)
        } else {
            verdict matches Err(HandshakeError::Mismatch { expected: e, received: r }) && e@
                == expected && vstd::utf8::encode_utf8(r@) == bytes@
        },
    }
}

/// Check the build id that the daemon sent against the one that is expected,
/// and return the client unchanged where they are equal.
pub fn validate_handshake_and_build_client<C>(
    client: C,
    received: Result<Vec<u8>, ChannelRecvError>,
    expected_build_id: &str,
) -> (verdict: Result<C, HandshakeError>)
    ensures
        is_verdict(client, received, expected_build_id@, verdict),
        verdict is Ok <==> (received matches Ok(bytes) && bytes@ == vstd::utf8::encode_utf8(
            expected_build_id@,
        )),
{
    let bytes = match received {
        Ok(bytes) => bytes,
        Err(err) => {
            return Err(HandshakeError::Recv(err));
        },
    };
    proof {
        vstd::utf8::encode_utf8_valid_utf8(expected_build_id@);
    }
    match std::str::from_utf8(bytes.as_slice()) {
        Err(err) => {
            assert(is_utf8_fault(bytes@, err));
            Err(HandshakeError::InvalidUtf8(err))
        },
        Ok(text) => {
            proof {
                vstd::utf8::encode_utf8_decode_utf8(text@);
                vstd::utf8::encode_utf8_decode_utf8(expected_build_id@);
            }
            if !text_equal(text, expected_build_id) {
                return Err(
                    HandshakeError::Mismatch {
                        expected: expected_build_id.to_string(),
                        received: text.to_string(),
                    },
                );
            }
            Ok(client)
        },
    }
}

/// Begin to send the build id to the parent, as the bytes of its UTF-8 encoding
/// in one raw frame.
pub fn send_handshake(sender: &Sender, build_id: &str) -> (step: SendStep)
    ensures
        step@ == send_begin(sender.poisoned(), vstd::utf8::encode_utf8(build_id@)),
{
    let bytes = vstd::slice::slice_to_vec(build_id.as_bytes());
    sender.send_raw(bytes)
}

/// Parent and daemon agree exactly where their build ids do: the handshake of a
/// daemon whose id is `sent` passes a parent that expects `expected` if and
/// only if the two are the same text, and otherwise the parent's error names
/// both.
pub proof fn law_handshake_accepts_equal_build_ids_only<C>(
    client: C,
    sent: Seq<char>,
    received: Vec<u8>,
    expected: Seq<char>,
    verdict: Result<C, HandshakeError>,
)
    requires
        received@ == vstd::utf8::encode_utf8(sent),
        is_verdict(client, Ok(received), expected, verdict),
    ensures
        sent == expected ==> verdict == Ok::<C, HandshakeError>(client),
        sent != expected ==> (verdict matches Err(
            HandshakeError::Mismatch { expected: e, received: r },
        ) && e@ == expected && r@ == sent),
{
    vstd::utf8::encode_utf8_valid_utf8(sent);
    vstd::utf8::encode_utf8_decode_utf8(sent);
    vstd::utf8::encode_utf8_decode_utf8(expected);
    if sent != expected {
        if let Err(HandshakeError::Mismatch { expected: e, received: r }) = verdict {
            vstd::utf8::encode_utf8_decode_utf8(r@);
        }
    }
}

/// The handshake of a daemon passes its parent if and only if both have the same
/// build id: what the daemon's end sends for its id is what the parent's end
/// accepts for its own.
pub proof fn law_sent_handshake_passes_for_equal_ids<C>(
    sender: &Sender,
    sent: &str,
    step: SendStep,
    client: C,
    received: Vec<u8>,
    expected: &str,
    verdict: Result<C, HandshakeError>,
)
    requires
        !sender.poisoned(),
        call_ensures(send_handshake, (sender, sent), step),
        step@ matches SendNext::Write(head, Some(payload)) && payload == received@,
        call_ensures(
            validate_handshake_and_build_client::<C>,
            (client, Ok::<Vec<u8>, ChannelRecvError>(received), expected),
            verdict,
        ),
    ensures
        verdict is Ok <==> sent@ == expected@,
        verdict is Ok ==> verdict->Ok_0 == client,
        verdict is Err ==> (verdict matches Err(
            HandshakeError::Mismatch { expected: e, received: r },
        ) && e@ == expected@ && r@ == sent@),
        HANDSHAKE_TIMEOUT_SECS == 10,
{
    law_handshake_accepts_equal_build_ids_only(client, sent@, received, expected@, verdict);
}

/// A handshake that did not arrive is reported as such, with its error, and bytes
/// that are no text are reported as such; neither passes.
pub proof fn law_broken_handshake_never_passes<C>(
    client: C,
    received: Result<Vec<u8>, ChannelRecvError>,
    expected: &str,
    verdict: Result<C, HandshakeError>,
)
    requires
        call_ensures(
            validate_handshake_and_build_client::<C>,
            (client, received, expected),
            verdict,
        ),
    ensures
        received matches Err(err) ==> verdict == Err::<C, HandshakeError>(HandshakeError::Recv(err)),
        received matches Ok(bytes) ==> !vstd::utf8::valid_utf8(bytes@) ==> (verdict matches Err(
            HandshakeError::InvalidUtf8(_),
        )),
{
}

/// Every handshake is judged, whatever came in and whatever is expected.
pub proof fn law_every_handshake_is_judged(
    received: Result<Vec<u8>, ChannelRecvError>,
    expected: &str,
    sender: &Sender,
)
    ensures
        call_requires(validate_handshake_and_build_client::<()>, ((), received, expected)),
        call_requires(send_handshake, (sender, expected)),
{
}

} // verus!
