//! The command codec: from the outcome of one command call to the response
//! that reports it.

use crate::delivery::{
    fixed_values_are_taken, http_accepts, response_is_taken, text_response_is_taken,
};
use crate::message::{
    bad_request, first_value, internal_server_err, response, response_content_type,
    text_response, Response, ResponseView, APPLICATION_JSON, CONTENT_TYPE, STATUS_BAD_REQUEST,
    STATUS_INTERNAL_SERVER_ERROR, STATUS_OK, TEXT_PLAIN,
};
use vstd::prelude::*;
use vstd::utf8::encode_utf8;

verus! {

/// Whether `bytes` are the text of one JSON value, as the JSON parser of
/// `serde_json` judges it.
pub uninterp spec fn json_text(bytes: Seq<u8>) -> bool;

/// Whether `bytes` parse as a JSON value.
///
/// Calls `serde_json::from_slice` at the type `serde_json::Value` and tells
/// whether it returned a value. The parser reads nothing but the bytes, so the
/// answer is a function of them; the contract gives that function the name
/// [`json_text`] and says no more of it.
#[verifier::external_body]
fn parses_as_json(bytes: &[u8]) -> (parsed: bool)
    ensures
        parsed == json_text(bytes@),
{
    serde_json::from_slice::<serde_json::Value>(bytes).is_ok()
}

/// What became of one command call.
#[derive(Debug)]
pub enum CommandOutcome {
    /// The request body did not decode as the command's input. Holds the
    /// decoder's description of the fault.
    DecodeError(String),
    /// The command returned an error. Holds the error's description.
    HandlerError(String),
    /// The command's result could not be encoded. Holds the encoder's
    /// description of the fault.
    EncodeError(String),
    /// The command's result, encoded.
    Encoded(Vec<u8>),
}

impl CommandOutcome {
    /// The outcome is an encoded result that is the text of a JSON value.
    pub open spec fn is_structured(self) -> bool {
        self matches CommandOutcome::Encoded(body) && json_text(body@)
    }
}

/// The media type of an encoded result: structured data where the bytes are
/// such, plain text where they are not.
pub open spec fn media_type(structured: bool) -> Seq<char> {
    if structured {
        APPLICATION_JSON@
    } else {
        TEXT_PLAIN@
    }
}

/// The response that carries an encoded result.
pub open spec fn encoded(body: Seq<u8>, structured: bool) -> ResponseView {
    response(STATUS_OK, media_type(structured), body)
}

/// The response that reports `outcome`, where `structured` says whether an
/// encoded result is structured data.
pub open spec fn outcome_response(outcome: CommandOutcome, structured: bool) -> ResponseView {
    match outcome {
        CommandOutcome::DecodeError(text) => text_response(STATUS_BAD_REQUEST, text@),
        CommandOutcome::HandlerError(text) => text_response(STATUS_INTERNAL_SERVER_ERROR, text@),
        CommandOutcome::EncodeError(text) => text_response(STATUS_INTERNAL_SERVER_ERROR, text@),
        CommandOutcome::Encoded(body) => encoded(body@, structured),
    }
}

/// `outcome` is what comes of one call of a command on `body`: the body is
/// decoded once; if that succeeds the command is called once, on the decoded
/// value itself; if that succeeds its result is encoded once.
pub open spec fn command_ran<D, S, Dec, F, Enc>(
    decode: Dec,
    handler: F,
    encode: Enc,
    body: &[u8],
    outcome: CommandOutcome,
) -> bool where
    Dec: Fn(&[u8]) -> Result<D, String>,
    F: Fn(D) -> Result<S, String>,
    Enc: Fn(&S) -> Result<Vec<u8>, String>,
{
    exists|decoded: Result<D, String>| #[trigger]
        call_ensures(decode, (body,), decoded) && match decoded {
            Err(text) => outcome == CommandOutcome::DecodeError(text),
            Ok(input) => exists|returned: Result<S, String>| #[trigger]
                call_ensures(handler, (input,), returned) && match returned {
                    Err(text) => outcome == CommandOutcome::HandlerError(text),
                    Ok(output) => exists|bytes: Result<Vec<u8>, String>| #[trigger]
                        call_ensures(encode, (&output,), bytes) && match bytes {
                            Err(text) => outcome == CommandOutcome::EncodeError(text),
                            Ok(body) => outcome == CommandOutcome::Encoded(body),
                        },
                },
        }
}

/// The response that carries an encoded result: status 200, the media type
/// that `structured` selects, and the bytes as they are.
pub fn encoded_response(body: Vec<u8>, structured: bool) -> (r: Response)
    ensures
        r@ == encoded(body@, structured),
{
    if structured {
        Response::new(STATUS_OK, APPLICATION_JSON, body)
    } else {
        Response::new(STATUS_OK, TEXT_PLAIN, body)
    }
}

/// The response that reports `outcome`: 400 for a body that did not decode,
/// 500 for a command that failed or a result that did not encode, each with the
/// description as plain text; 200 for an encoded result, as structured data
/// where its bytes parse as such and as plain text where they do not.
pub fn command_response(outcome: CommandOutcome) -> (r: Response)
    ensures
        r@ == outcome_response(outcome, outcome.is_structured()),
{
    match outcome {
        CommandOutcome::DecodeError(text) => bad_request(text.as_str()),
        CommandOutcome::HandlerError(text) => internal_server_err(text.as_str()),
        CommandOutcome::EncodeError(text) => internal_server_err(text.as_str()),
        CommandOutcome::Encoded(body) => {
            let structured = parses_as_json(body.as_slice());
            encoded_response(body, structured)
        },
    }
}

/// Calls a command once on a request body: decodes the body, calls the
/// command on the decoded value, encodes what it returned.
pub fn call_command<D, S, Dec, F, Enc>(
    body: &[u8],
    decode: &Dec,
    handler: &F,
    encode: &Enc,
) -> (outcome: CommandOutcome) where
    Dec: Fn(&[u8]) -> Result<D, String>,
    F: Fn(D) -> Result<S, String>,
    Enc: Fn(&S) -> Result<Vec<u8>, String>,

    requires
        call_requires(*decode, (body,)),
        forall|input: D| call_requires(*handler, (input,)),
        forall|output: &S| call_requires(*encode, (output,)),
    ensures
        command_ran(*decode, *handler, *encode, body, outcome),
{
    match decode(body) {
        Err(text) => CommandOutcome::DecodeError(text),
        Ok(input) => match handler(input) {
            Err(text) => CommandOutcome::HandlerError(text),
            Ok(output) => match encode(&output) {
                Err(text) => CommandOutcome::EncodeError(text),
                Ok(bytes) => CommandOutcome::Encoded(bytes),
            },
        },
    }
}

/// Answers a request body with a typed command: the uniform handler that a
/// decoder, a command and an encoder make together.
pub fn run_command<D, S, Dec, F, Enc>(
    body: &[u8],
    decode: &Dec,
    handler: &F,
    encode: &Enc,
) -> (r: Response) where
    Dec: Fn(&[u8]) -> Result<D, String>,
    F: Fn(D) -> Result<S, String>,
    Enc: Fn(&S) -> Result<Vec<u8>, String>,

    requires
        call_requires(*decode, (body,)),
        forall|input: D| call_requires(*handler, (input,)),
        forall|output: &S| call_requires(*encode, (output,)),
    ensures
        r.is_bridge_response(),
        http_accepts(r@),
        exists|outcome: CommandOutcome| #[trigger]
            command_ran(*decode, *handler, *encode, body, outcome) && r@ == outcome_response(
                outcome,
                outcome.is_structured(),
            ),
{
    let outcome = call_command(body, decode, handler, encode);
    proof {
        outcome_response_is_taken(outcome, outcome.is_structured());
    }
    let r = command_response(outcome);
    proof {
        use_type_invariant(&r);
    }
    r
}

/// Whatever became of a command call, the response that reports it is one
/// that `http` takes.
pub proof fn outcome_response_is_taken(outcome: CommandOutcome, structured: bool)
    ensures
        http_accepts(outcome_response(outcome, structured)),
{
    fixed_values_are_taken();
    match outcome {
        CommandOutcome::DecodeError(text) => text_response_is_taken(STATUS_BAD_REQUEST, text@),
        CommandOutcome::HandlerError(text) => text_response_is_taken(
            STATUS_INTERNAL_SERVER_ERROR,
            text@,
        ),
        CommandOutcome::EncodeError(text) => text_response_is_taken(
            STATUS_INTERNAL_SERVER_ERROR,
            text@,
        ),
        CommandOutcome::Encoded(body) => response_is_taken(
            STATUS_OK,
            media_type(structured),
            body@,
        ),
    }
}

/// A request body that does not decode is answered with status 400, whatever
/// the command and the encoder are.
pub proof fn malformed_body_is_bad_request<D, S, Dec, F, Enc>(
    decode: Dec,
    handler: F,
    encode: Enc,
    body: &[u8],
    outcome: CommandOutcome,
) where
    Dec: Fn(&[u8]) -> Result<D, String>,
    F: Fn(D) -> Result<S, String>,
    Enc: Fn(&S) -> Result<Vec<u8>, String>,

    requires
        command_ran(decode, handler, encode, body, outcome),
        forall|decoded: Result<D, String>|
            call_ensures(decode, (body,), decoded) ==> decoded is Err,
    ensures
        outcome is DecodeError,
        outcome_response(outcome, outcome.is_structured()).status == STATUS_BAD_REQUEST,
{
}

/// The UTF-8 form of a text that is not empty is not empty.
pub proof fn utf8_of_text_is_not_empty(text: Seq<char>)
    requires
        text.len() > 0,
    ensures
        encode_utf8(text).len() > 0,
{
}

/// A command that returns an error with a description that is not empty is
/// answered with status 500 and a plain-text body that is not empty.
pub proof fn handler_error_is_server_error<D, S, Dec, F, Enc>(
    decode: Dec,
    handler: F,
    encode: Enc,
    body: &[u8],
    outcome: CommandOutcome,
) where
    Dec: Fn(&[u8]) -> Result<D, String>,
    F: Fn(D) -> Result<S, String>,
    Enc: Fn(&S) -> Result<Vec<u8>, String>,

    requires
        command_ran(decode, handler, encode, body, outcome),
        forall|decoded: Result<D, String>|
            call_ensures(decode, (body,), decoded) ==> decoded is Ok,
        forall|input: D, returned: Result<S, String>|
            call_ensures(handler, (input,), returned) ==> returned is Err && returned->Err_0@.len()
                > 0,
    ensures
        outcome is HandlerError,
        outcome_response(outcome, outcome.is_structured()).status == STATUS_INTERNAL_SERVER_ERROR,
        first_value(outcome_response(outcome, outcome.is_structured()).headers, CONTENT_TYPE@)
            == Some(TEXT_PLAIN@),
        outcome_response(outcome, outcome.is_structured()).body.len() > 0,
{
    let text = outcome->HandlerError_0;
    utf8_of_text_is_not_empty(text@);
    response_content_type(STATUS_INTERNAL_SERVER_ERROR, TEXT_PLAIN@, encode_utf8(text@));
}

/// The command is called on the very value that the body decodes to: where
/// the decoder gives `input` for the body, what the command returns for
/// `input` is what is answered.
pub proof fn decoded_value_reaches_handler<D, S, Dec, F, Enc>(
    decode: Dec,
    handler: F,
    encode: Enc,
    body: &[u8],
    input: D,
    outcome: CommandOutcome,
) where
    Dec: Fn(&[u8]) -> Result<D, String>,
    F: Fn(D) -> Result<S, String>,
    Enc: Fn(&S) -> Result<Vec<u8>, String>,

    requires
        command_ran(decode, handler, encode, body, outcome),
        forall|decoded: Result<D, String>|
            call_ensures(decode, (body,), decoded) ==> decoded == Ok::<D, String>(input),
    ensures
        !(outcome is DecodeError),
        exists|returned: Result<S, String>| #[trigger]
            call_ensures(handler, (input,), returned) && match returned {
                Err(text) => outcome == CommandOutcome::HandlerError(text),
                Ok(output) => outcome is EncodeError || outcome is Encoded,
            },
{
}

} // verus!
