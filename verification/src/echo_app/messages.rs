//! The messages between the foreground and its daemon, and their encoding.

use vstd::prelude::*;

use crate::channel::receiver::decoded;
use crate::error::{ChannelRecvError, CodecError};

verus! {

/// A number to echo.
#[derive(Debug, PartialEq, Eq)]
pub struct TestRequest {
    pub v: i32,
}

/// The daemon's answer, with what it saw of itself.
#[derive(Debug, PartialEq, Eq)]
pub struct TestResponse {
    /// The number that was sent, plus one.
    pub v: i32,
    /// The daemon's working directory.
    pub daemon_cwd: String,
    /// Whether the environment holds the marker of a daemon child.
    pub marker: String,
    /// Whether the daemon has arguments.
    pub argv1: String,
    /// The daemon's process id.
    pub pid: u32,
    /// The daemon's session id.
    pub sid: i32,
}

/// A `TestResponse` with its texts as sequences.
pub struct ResponseView {
    pub v: i32,
    pub daemon_cwd: Seq<char>,
    pub marker: Seq<char>,
    pub argv1: Seq<char>,
    pub pid: u32,
    pub sid: i32,
}

impl View for TestResponse {
    type V = ResponseView;

    open spec fn view(&self) -> ResponseView {
        ResponseView {
            v: self.v,
            daemon_cwd: self.daemon_cwd@,
            marker: self.marker@,
            argv1: self.argv1@,
            pid: self.pid,
            sid: self.sid,
        }
    }
}

/// The error type of `postcard`.
#[verifier::external_type_specification]
#[verifier::external_body]
pub struct ExPostcardError(postcard::Error);

/// `postcard`'s encoding of a record whose only field is the number `v`.
pub uninterp spec fn encoded_number(v: i32) -> Seq<u8>;

/// What `postcard` reads in these bytes as a record whose only field is a
/// number.
pub uninterp spec fn number_in(bytes: Seq<u8>) -> Option<i32>;

/// `postcard`'s encoding of a record of a number, three texts and two ids, in
/// this order.
pub uninterp spec fn encoded_answer(
    v: i32,
    daemon_cwd: Seq<char>,
    marker: Seq<char>,
    argv1: Seq<char>,
    pid: u32,
    sid: i32,
) -> Seq<u8>;

/// What `postcard` reads in these bytes as a record of a number, three texts and
/// two ids.
pub uninterp spec fn answer_in(bytes: Seq<u8>) -> Option<
    (i32, Seq<char>, Seq<char>, Seq<char>, u32, i32),
>;

/// `postcard::to_stdvec` on a record of one number. It writes to a growing
/// buffer and does not fail, and the number is read back from what it writes.
#[verifier::external_body]
fn encode_number(v: i32) -> (bytes: Result<Vec<u8>, postcard::Error>)
    ensures
        bytes is Ok,
        bytes matches Ok(b) ==> b@ == encoded_number(v),
        bytes matches Ok(b) ==> number_in(b@) == Some(v),
{
    postcard::to_stdvec(&(v,))
}

/// `postcard::from_bytes` for a record of one number.
#[verifier::external_body]
fn decode_number(bytes: &[u8]) -> (v: Result<i32, postcard::Error>)
    ensures
        match v {
            Ok(v) => number_in(bytes@) == Some(v),
            Err(_) => number_in(bytes@) is None,
        },
{
    let record: (i32,) = postcard::from_bytes(bytes)?;
    Ok(record.0)
}

/// `postcard::to_stdvec` on a record of a number, three texts and two ids. It
/// does not fail, and the record is read back from what it writes.
#[verifier::external_body]
fn encode_answer(v: i32, daemon_cwd: &str, marker: &str, argv1: &str, pid: u32, sid: i32) -> (bytes:
    Result<Vec<u8>, postcard::Error>)
    ensures
        bytes is Ok,
        bytes matches Ok(b) ==> b@ == encoded_answer(v, daemon_cwd@, marker@, argv1@, pid, sid),
        bytes matches Ok(b) ==> answer_in(b@) == Some(
            (v, daemon_cwd@, marker@, argv1@, pid, sid),
        ),
{
    postcard::to_stdvec(&(v, daemon_cwd, marker, argv1, pid, sid))
}

/// `postcard::from_bytes` for a record of a number, three texts and two ids.
#[verifier::external_body]
fn decode_answer(bytes: &[u8]) -> (answer: Result<
    (i32, String, String, String, u32, i32),
    postcard::Error,
>)
    ensures
        match answer {
            Ok((v, daemon_cwd, marker, argv1, pid, sid)) => answer_in(bytes@) == Some(
                (v, daemon_cwd@, marker@, argv1@, pid, sid),
            ),
            Err(_) => answer_in(bytes@) is None,
        },
{
    postcard::from_bytes(bytes)
}

/// The text that `postcard` shows for an error. What the text says is left
/// open.
#[verifier::external_body]
fn codec_error_text(err: &postcard::Error) -> (text: String)
{
    format!("{}", err)
}

/// The debug output of an error of `postcard`. What it says is left open.
#[verifier::external_body]
fn codec_error_debug(err: &postcard::Error) -> (text: String)
{
    format!("{:?}", err)
}

/// Whether `err` is the library's error for `fault`: its texts are those that
/// `postcard` shows for that very error.
spec fn maps_fault(fault: postcard::Error, err: CodecError) -> bool {
    &&& call_ensures(codec_error_text, (&fault,), err.message)
    &&& call_ensures(codec_error_debug, (&fault,), err.debug)
}

/// The library's error for an error of `postcard`.
fn codec_error(err: postcard::Error) -> (mapped: CodecError)
    ensures
        maps_fault(err, mapped),
{
    CodecError { message: codec_error_text(&err), debug: codec_error_debug(&err) }
}

/// Whether `err` reports why `postcard` reads no number in these bytes: its
/// texts are those that `postcard` shows for the error that it returned.
pub closed spec fn is_number_fault(bytes: Seq<u8>, err: CodecError) -> bool {
    exists|slice: &[u8], fault: postcard::Error|
        slice@ == bytes && #[trigger] call_ensures(
            decode_number,
            (slice,),
            Err::<i32, postcard::Error>(fault),
        ) && maps_fault(fault, err)
}

/// Whether `err` reports why `postcard` reads no answer in these bytes: its
/// texts are those that `postcard` shows for the error that it returned.
pub closed spec fn is_answer_fault(bytes: Seq<u8>, err: CodecError) -> bool {
    exists|slice: &[u8], fault: postcard::Error|
        slice@ == bytes && #[trigger] call_ensures(
            decode_answer,
            (slice,),
            Err::<(i32, String, String, String, u32, i32), postcard::Error>(fault),
        ) && maps_fault(fault, err)
}

impl TestRequest {
    /// The bytes that carry the request.
    pub fn encode(&self) -> (bytes: Result<Vec<u8>, CodecError>)
        ensures
            bytes matches Ok(b) && b@ == encoded_number(self.v) && number_in(b@) == Some(self.v),
    {
        match encode_number(self.v) {
            Ok(bytes) => Ok(bytes),
            Err(err) => Err(codec_error(err)),
        }
    }

    /// The request that the bytes carry.
    pub fn decode(bytes: &[u8]) -> (request: Result<TestRequest, CodecError>)
        ensures
            match request {
                Ok(request) => number_in(bytes@) == Some(request.v),
                Err(err) => number_in(bytes@) is None && is_number_fault(bytes@, err),
            },
    {
        match decode_number(bytes) {
            Ok(v) => Ok(TestRequest { v }),
            Err(err) => Err(codec_error(err)),
        }
    }
}

/// What `postcard` writes for a response.
pub open spec fn encoded_response(r: ResponseView) -> Seq<u8> {
    encoded_answer(r.v, r.daemon_cwd, r.marker, r.argv1, r.pid, r.sid)
}

/// The response that `postcard` reads in these bytes.
pub open spec fn response_in(bytes: Seq<u8>) -> Option<ResponseView> {
    match answer_in(bytes) {
        Some((v, daemon_cwd, marker, argv1, pid, sid)) => Some(
            ResponseView { v, daemon_cwd, marker, argv1, pid, sid },
        ),
        None => None,
    }
}

impl TestResponse {
    /// The bytes that carry the response.
    pub fn encode(&self) -> (bytes: Result<Vec<u8>, CodecError>)
        ensures
            bytes matches Ok(b) && b@ == encoded_response(self@) && response_in(b@) == Some(self@),
    {
        match encode_answer(
            self.v,
            self.daemon_cwd.as_str(),
            self.marker.as_str(),
            self.argv1.as_str(),
            self.pid,
            self.sid,
        ) {
            Ok(bytes) => Ok(bytes),
            Err(err) => Err(codec_error(err)),
        }
    }

    /// The response that the bytes carry.
    pub fn decode(bytes: &[u8]) -> (response: Result<TestResponse, CodecError>)
        ensures
            match response {
                Ok(response) => response_in(bytes@) == Some(response@),
                Err(err) => response_in(bytes@) is None && is_answer_fault(bytes@, err),
            },
    {
        match decode_answer(bytes) {
            Ok((v, daemon_cwd, marker, argv1, pid, sid)) => Ok(
                TestResponse { v, daemon_cwd, marker, argv1, pid, sid },
            ),
            Err(err) => Err(codec_error(err)),
        }
    }
}

/// Whether `request` is the request in what was received: its decoding where
/// there are bytes, or the error where there are none.
pub open spec fn is_received_request(
    received: Result<Vec<u8>, ChannelRecvError>,
    request: Result<TestRequest, ChannelRecvError>,
) -> bool {
    match received {
        Err(err) => request == Err::<TestRequest, ChannelRecvError>(err),
        Ok(bytes) => match number_in(bytes@) {
            Some(v) => request == Ok::<TestRequest, ChannelRecvError>(TestRequest { v }),
            None => request matches Err(ChannelRecvError::Decode(err)) && is_number_fault(
                bytes@,
                err,
            ),
        },
    }
}

/// Whether `response` is the response in what was received: its decoding where
/// there are bytes, or the error where there are none.
pub open spec fn is_received_response(
    received: Result<Vec<u8>, ChannelRecvError>,
    response: Result<TestResponse, ChannelRecvError>,
) -> bool {
    match received {
        Err(err) => response == Err::<TestResponse, ChannelRecvError>(err),
        Ok(bytes) => match response_in(bytes@) {
            Some(r) => response matches Ok(response) && response@ == r,
            None => response matches Err(ChannelRecvError::Decode(err)) && is_answer_fault(
                bytes@,
                err,
            ),
        },
    }
}

/// The request in what was received.
pub fn received_request(received: Result<Vec<u8>, ChannelRecvError>) -> (request: Result<
    TestRequest,
    ChannelRecvError,
>)
    ensures
        is_received_request(received, request),
{
    match received {
        Ok(bytes) => decoded(TestRequest::decode(bytes.as_slice())),
        Err(err) => Err(err),
    }
}

/// The response in what was received.
pub fn received_response(received: Result<Vec<u8>, ChannelRecvError>) -> (response: Result<
    TestResponse,
    ChannelRecvError,
>)
    ensures
        is_received_response(received, response),
{
    match received {
        Ok(bytes) => decoded(TestResponse::decode(bytes.as_slice())),
        Err(err) => Err(err),
    }
}

/// A message survives its encoding: what one end encodes as a request or as a
/// response, the other end decodes as the same one, field by field.
pub proof fn law_message_survives_its_encoding(
    request: &TestRequest,
    request_bytes: Result<Vec<u8>, CodecError>,
    request_slice: &[u8],
    read_request: Result<TestRequest, CodecError>,
    response: &TestResponse,
    response_bytes: Result<Vec<u8>, CodecError>,
    response_slice: &[u8],
    read_response: Result<TestResponse, CodecError>,
)
    requires
        call_ensures(TestRequest::encode, (request,), request_bytes),
        request_bytes is Ok ==> request_slice@ == request_bytes->Ok_0@,
        call_ensures(TestRequest::decode, (request_slice,), read_request),
        call_ensures(TestResponse::encode, (response,), response_bytes),
        response_bytes is Ok ==> response_slice@ == response_bytes->Ok_0@,
        call_ensures(TestResponse::decode, (response_slice,), read_response),
    ensures
        read_request matches Ok(r) && r.v == request.v,
        read_response matches Ok(r) && r.v == response.v && r.daemon_cwd@ == response.daemon_cwd@
            && r.marker@ == response.marker@ && r.argv1@ == response.argv1@ && r.pid == response.pid
            && r.sid == response.sid,
{
}

/// What was received is decoded where there is something, and its error is kept
/// where there is nothing: decoding never turns a failed receive into a message,
/// and reports its own failure as such.
pub proof fn law_failed_receive_stays_one(
    received: Result<Vec<u8>, ChannelRecvError>,
    request: Result<TestRequest, ChannelRecvError>,
    response: Result<TestResponse, ChannelRecvError>,
)
    requires
        call_ensures(received_request, (received,), request),
        call_ensures(received_response, (received,), response),
    ensures
        received matches Err(err) ==> request == Err::<TestRequest, ChannelRecvError>(err)
            && response == Err::<TestResponse, ChannelRecvError>(err),
        received matches Ok(bytes) ==> (request matches Ok(r) ==> number_in(bytes@) == Some(r.v)),
        received matches Ok(bytes) ==> (request matches Err(err) ==> err is Decode && number_in(bytes@)
            is None),
        received matches Ok(bytes) ==> (response matches Ok(r) ==> response_in(bytes@) == Some(r@)),
        received matches Ok(bytes) ==> (response matches Err(err) ==> err is Decode && response_in(
            bytes@,
        ) is None),
{
}

} // verus!
