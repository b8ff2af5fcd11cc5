use vstd::prelude::*;
use crate::error::{DecodeError, Error, spec_status};
use crate::interaction::{decode, decodes_to, CommandRequest};
use crate::json::{json_parse, Json};
use crate::response::{
    fields_of, json_content_type, object_of, renders, text_at, CommandResponse, WireResponse,
};
use crate::signature::{hex_decoded, is_authentic, missing_headers_text, validate_headers};

verus! {

/// What the dispatcher decided: a reply, or an event to create first.
#[derive(Debug)]
pub enum Dispatch {
    /// Reply with this outcome.
    Respond(CommandResponse),
    /// Create an event from the submitted name, description, location, date,
    /// time and duration, then reply with `event_outcome` of the result.
    CreateEvent(String, String, String, String, String, String),
}

/// Whether `d` is the dispatch decision for the interaction `req`.
pub open spec fn dispatches_to(req: CommandRequest, d: Dispatch) -> bool {
    match req {
        CommandRequest::Ping => d matches Dispatch::Respond(CommandResponse::Pong),
        CommandRequest::NewEvent => d matches Dispatch::Respond(CommandResponse::Modal),
        CommandRequest::ModalSubmit(a, b, c, e, f, g) => match d {
            Dispatch::CreateEvent(a2, b2, c2, e2, f2, g2) => {
                &&& a2@ == a@
                &&& b2@ == b@
                &&& c2@ == c@
                &&& e2@ == e@
                &&& f2@ == f@
                &&& g2@ == g@
            },
            _ => false,
        },
    }
}

/// Maps an interaction to its outcome; a submitted form becomes a request to
/// create the event with exactly the submitted values.
pub fn dispatch(req: CommandRequest) -> (r: Dispatch)
    ensures
        dispatches_to(req, r),
{
    match req {
        CommandRequest::Ping => Dispatch::Respond(CommandResponse::Pong),
        CommandRequest::NewEvent => Dispatch::Respond(CommandResponse::Modal),
        CommandRequest::ModalSubmit(a, b, c, d, e, f) => Dispatch::CreateEvent(a, b, c, d, e, f),
    }
}

/// The outcome of creating an event: its reference on success; any failure
/// becomes `EventFail` and is never passed on as an error.
pub fn event_outcome(result: Result<String, Error>) -> (r: CommandResponse)
    ensures
        match result {
            Ok(link) => r matches CommandResponse::EventSuccess(l) && l@ == link@,
            Err(_) => r matches CommandResponse::EventFail,
        },
{
    match result {
        Ok(link) => CommandResponse::EventSuccess(link),
        Err(_) => CommandResponse::EventFail,
    }
}

/// Whether `r` is what handling the body `body` gives.
pub open spec fn handles_to(body: Seq<u8>, r: Result<Dispatch, Error>) -> bool {
    match json_parse(body) {
        None => r matches Err(Error::ParsingError(DecodeError::Malformed)),
        Some(root) => match r {
            Ok(d) => exists|req: CommandRequest|
                decodes_to(root, Ok(req)) && #[trigger] dispatches_to(req, d),
            Err(Error::ParsingError(e)) => decodes_to(root, Err(e)),
            Err(_) => false,
        },
    }
}

/// Decodes an authenticated body and dispatches the interaction.
pub fn handle_commands(body: &[u8]) -> (r: Result<Dispatch, Error>)
    ensures
        handles_to(body@, r),
{
    match decode(body) {
        Ok(req) => {
            let ghost g = req;
            let d = dispatch(req);
            assert(dispatches_to(g, d));
            Ok(d)
        },
        Err(e) => Err(Error::ParsingError(e)),
    }
}

/// The whole gate: authenticate the request, then decode and dispatch its
/// body. Nothing of the body is read unless the signature verifies.
pub fn handle_request(
    signature: Option<&[u8]>,
    timestamp: Option<&[u8]>,
    body: &[u8],
    public_key: &[u8],
) -> (r: Result<Dispatch, Error>)
    ensures
        (signature.is_none() || timestamp.is_none()) <==> (r matches Err(Error::InvalidInput(_))),
        r matches Err(Error::InvalidInput(m)) ==> m@ == missing_headers_text(),
        (r matches Err(Error::DecodingError)) <==> signature.is_some() && timestamp.is_some() && (
        hex_decoded(public_key@).is_none() || hex_decoded(signature.unwrap()@).is_none()),
        (r matches Err(Error::DecryptingError)) <==> signature.is_some() && timestamp.is_some()
            && hex_decoded(public_key@).is_some() && hex_decoded(signature.unwrap()@).is_some()
            && !is_authentic(signature.unwrap()@, timestamp.unwrap()@, body@, public_key@),
        signature.is_some() && timestamp.is_some() && is_authentic(
            signature.unwrap()@,
            timestamp.unwrap()@,
            body@,
            public_key@,
        ) ==> handles_to(body@, r),
{
    match validate_headers(signature, timestamp, body, public_key) {
        Ok(()) => handle_commands(body),
        Err(e) => Err(e),
    }
}

/// The description of a decode failure.
pub open spec fn decode_error_text(e: DecodeError) -> Seq<char> {
    match e {
        DecodeError::Malformed => "the body is not an interaction object"@,
        DecodeError::MissingDiscriminant => "missing field `type`"@,
        DecodeError::UnknownInteractionType(_) => "unknown interaction type"@,
        DecodeError::MissingField => "incomplete form submission"@,
    }
}

/// The message reported for an error. Bad hexadecimal and a bad signature
/// read alike, so that a forger learns nothing of which check failed.
pub open spec fn error_text(e: Error) -> Seq<char> {
    match e {
        Error::InvalidInput(m) => "Invalid Input: "@ + m@,
        Error::VarError(name) => "Invalid Environment Variable: "@ + name@,
        Error::DecodingError => "Invalid request signature"@,
        Error::DecryptingError => "Invalid request signature"@,
        Error::ParsingError(d) => "Parsing Body Error: "@ + decode_error_text(d),
        Error::RequestError => "Request Error"@,
    }
}

/// An error reply: an object whose one member `message` holds `text`.
pub open spec fn error_body(j: Json, text: Seq<char>) -> bool {
    object_of(j, 1) && text_at(fields_of(j), 0, "message"@, text)
}

fn describe(e: DecodeError) -> (r: &'static str)
    ensures
        r@ == decode_error_text(e),
{
    match e {
        DecodeError::Malformed => "the body is not an interaction object",
        DecodeError::MissingDiscriminant => "missing field `type`",
        DecodeError::UnknownInteractionType(_) => "unknown interaction type",
        DecodeError::MissingField => "incomplete form submission",
    }
}

impl Error {
    /// The message reported for this error.
    pub fn message(&self) -> (r: String)
        ensures
            r@ == error_text(*self),
    {
        match self {
            Error::InvalidInput(m) => {
                let mut s = "Invalid Input: ".to_owned();
                s.append(m.as_str());
                s
            },
            Error::VarError(name) => {
                let mut s = "Invalid Environment Variable: ".to_owned();
                s.append(name.as_str());
                s
            },
            Error::DecodingError => "Invalid request signature".to_owned(),
            Error::DecryptingError => "Invalid request signature".to_owned(),
            Error::ParsingError(d) => {
                let mut s = "Parsing Body Error: ".to_owned();
                s.append(describe(*d));
                s
            },
            Error::RequestError => "Request Error".to_owned(),
        }
    }

    /// Renders the error: 400 for caller input, 500 otherwise, with its message.
    pub fn into_response(self) -> (r: WireResponse)
        ensures
            r.status == spec_status(self),
            r.content_type@ == json_content_type(),
            error_body(r.body, error_text(self)),
    {
        let status = self.status();
        let text = self.message();
        let body = Json::Object(vec![("message".to_owned(), Json::Str(text))]);
        WireResponse { status, content_type: "application/json".to_owned(), body }
    }
}

/// The reply for the result of handling a request.
pub fn respond(result: Result<CommandResponse, Error>) -> (r: WireResponse)
    ensures
        r.content_type@ == json_content_type(),
        match result {
            Ok(c) => r.status == 200 && renders(c, r.body),
            Err(e) => r.status == spec_status(e) && error_body(r.body, error_text(e)),
        },
{
    match result {
        Ok(c) => c.into_response(),
        Err(e) => e.into_response(),
    }
}

/// The kind of a dispatch decision: the outcome for a reply, nothing more
/// for an event to create.
pub open spec fn shape(d: Dispatch) -> Option<CommandResponse> {
    match d {
        Dispatch::Respond(CommandResponse::EventSuccess(_)) => None,
        Dispatch::Respond(c) => Some(c),
        Dispatch::CreateEvent(..) => None,
    }
}

/// Dispatch is deterministic: interactions of the same kind always lead to
/// decisions of the same kind, a ping to a pong and a command to the form.
pub proof fn lemma_dispatch_deterministic(
    q1: CommandRequest,
    q2: CommandRequest,
    d1: Dispatch,
    d2: Dispatch,
)
    requires
        dispatches_to(q1, d1),
        dispatches_to(q2, d2),
        (q1 is Ping && q2 is Ping) || (q1 is NewEvent && q2 is NewEvent) || (q1 is ModalSubmit
            && q2 is ModalSubmit),
    ensures
        shape(d1) == shape(d2),
        d1 is CreateEvent <==> d2 is CreateEvent,
        q1 is Ping ==> d1 matches Dispatch::Respond(CommandResponse::Pong),
        q1 is NewEvent ==> d1 matches Dispatch::Respond(CommandResponse::Modal),
{
}

} // verus!
