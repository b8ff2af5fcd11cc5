use vstd::prelude::*;
use crate::error::DecodeError;
use crate::json::{field, get, member, parse, json_parse, Json};

verus! {

/// The kinds of interaction the platform sends, by their `type` discriminant:
/// 1, 2 and 5.
#[derive(Debug, Clone, Copy, PartialEq, Eq, Structural)]
pub enum InteractionRequestType {
    Ping,
    ApplicationCommand,
    ModalSubmit,
}

pub open spec fn spec_interaction_type(n: i64) -> Option<InteractionRequestType> {
    if n == 1 {
        Some(InteractionRequestType::Ping)
    } else if n == 2 {
        Some(InteractionRequestType::ApplicationCommand)
    } else if n == 5 {
        Some(InteractionRequestType::ModalSubmit)
    } else {
        None
    }
}

impl InteractionRequestType {
    /// The kind with discriminant `n`, if `n` is one of the recognized values.
    pub fn from_i64(n: i64) -> (r: Option<InteractionRequestType>)
        ensures
            r == spec_interaction_type(n),
    {
        if n == 1 {
            Some(InteractionRequestType::Ping)
        } else if n == 2 {
            Some(InteractionRequestType::ApplicationCommand)
        } else if n == 5 {
            Some(InteractionRequestType::ModalSubmit)
        } else {
            None
        }
    }

    /// The discriminant of this kind.
    pub fn code(&self) -> (r: i64)
        ensures
            spec_interaction_type(r) == Some(*self),
    {
        match self {
            InteractionRequestType::Ping => 1,
            InteractionRequestType::ApplicationCommand => 2,
            InteractionRequestType::ModalSubmit => 5,
        }
    }
}

/// A decoded interaction.
#[derive(Debug, Clone)]
pub enum CommandRequest {
    /// A connectivity probe.
    Ping,
    /// The command was invoked; the event form is to be shown.
    NewEvent,
    /// The event form was submitted: name, description, location, date, time
    /// and duration, in that order.
    ModalSubmit(String, String, String, String, String, String),
}

/// The `custom_id` of each input of the event form, in the order of the form.
pub open spec fn form_ids() -> Seq<Seq<char>> {
    seq!["name"@, "description"@, "location"@, "date"@, "time"@, "duration"@]
}

/// The text of a submitted input, where its `custom_id` is `id`.
pub open spec fn input_value(input: Json, id: Seq<char>) -> Option<Seq<char>> {
    match (member(input, "custom_id"@), member(input, "value"@)) {
        (Some(Json::Str(k)), Some(Json::Str(v))) => if k@ == id {
            Some(v@)
        } else {
            None
        },
        _ => None,
    }
}

/// The text of the first input among `inputs` whose `custom_id` is `id`.
pub open spec fn value_in_inputs(inputs: Seq<Json>, id: Seq<char>) -> Option<Seq<char>>
    decreases inputs.len(),
{
    if inputs.len() == 0 {
        None
    } else {
        match input_value(inputs[0], id) {
            Some(v) => Some(v),
            None => value_in_inputs(inputs.drop_first(), id),
        }
    }
}

/// The inputs of one row of a submitted form.
pub open spec fn row_inputs(row: Json) -> Seq<Json> {
    match member(row, "components"@) {
        Some(Json::Array(a)) => a@,
        _ => Seq::empty(),
    }
}

/// The text of the first input whose `custom_id` is `id`, row by row.
pub open spec fn value_in_rows(rows: Seq<Json>, id: Seq<char>) -> Option<Seq<char>>
    decreases rows.len(),
{
    if rows.len() == 0 {
        None
    } else {
        match value_in_inputs(row_inputs(rows[0]), id) {
            Some(v) => Some(v),
            None => value_in_rows(rows.drop_first(), id),
        }
    }
}

/// The rows of a submitted form: the array `data.components`.
pub open spec fn form_rows(root: Json) -> Seq<Json> {
    match member(root, "data"@) {
        Some(data) => match member(data, "components"@) {
            Some(Json::Array(a)) => a@,
            _ => Seq::empty(),
        },
        None => Seq::empty(),
    }
}

/// The text submitted for the input `id` of the form carried by `root`.
pub open spec fn form_value(root: Json, id: Seq<char>) -> Option<Seq<char>> {
    value_in_rows(form_rows(root), id)
}

pub open spec fn form_complete(root: Json) -> bool {
    forall|k: int| 0 <= k < 6 ==> (#[trigger] form_value(root, form_ids()[k])).is_some()
}

/// The `type` discriminant of a body, or why there is none.
pub open spec fn discriminant(root: Json) -> Result<i64, DecodeError> {
    match root {
        Json::Object(fields) => match field(fields@, "type"@) {
            None => Err(DecodeError::MissingDiscriminant),
            Some(Json::Number(Some(n))) => Ok(n),
            Some(_) => Err(DecodeError::Malformed),
        },
        _ => Err(DecodeError::Malformed),
    }
}

/// Whether `r` is the interaction that the document `root` describes.
pub open spec fn decodes_to(root: Json, r: Result<CommandRequest, DecodeError>) -> bool {
    match discriminant(root) {
        Err(e) => r == Err::<CommandRequest, DecodeError>(e),
        Ok(n) => match spec_interaction_type(n) {
            None => r == Err::<CommandRequest, DecodeError>(DecodeError::UnknownInteractionType(n)),
            Some(InteractionRequestType::Ping) => r == Ok::<CommandRequest, DecodeError>(
                CommandRequest::Ping,
            ),
            Some(InteractionRequestType::ApplicationCommand) => r == Ok::<
                CommandRequest,
                DecodeError,
            >(CommandRequest::NewEvent),
            Some(InteractionRequestType::ModalSubmit) => if form_complete(root) {
                match r {
                    Ok(CommandRequest::ModalSubmit(a, b, c, d, e, f)) => {
                        &&& Some(a@) == form_value(root, form_ids()[0])
                        &&& Some(b@) == form_value(root, form_ids()[1])
                        &&& Some(c@) == form_value(root, form_ids()[2])
                        &&& Some(d@) == form_value(root, form_ids()[3])
                        &&& Some(e@) == form_value(root, form_ids()[4])
                        &&& Some(f@) == form_value(root, form_ids()[5])
                    },
                    _ => false,
                }
            } else {
                r == Err::<CommandRequest, DecodeError>(DecodeError::MissingField)
            },
        },
    }
}

fn text_member<'a>(j: &'a Json, key: &String) -> (r: Option<&'a String>)
    ensures
        match r {
            Some(s) => member(*j, key@) == Some(Json::Str(*s)),
            None => !(member(*j, key@) matches Some(Json::Str(_))),
        },
{
    match get(j, key) {
        Some(Json::Str(s)) => Some(s),
        _ => None,
    }
}

fn input_text(input: &Json, id: &String) -> (r: Option<String>)
    ensures
        match r {
            Some(s) => input_value(*input, id@) == Some(s@),
            None => input_value(*input, id@).is_none(),
        },
{
    let k = text_member(input, &"custom_id".to_owned());
    let v = text_member(input, &"value".to_owned());
    match (k, v) {
        (Some(k), Some(v)) => if *k == *id {
            Some(v.clone())
        } else {
            None
        },
        _ => None,
    }
}

fn text_in_inputs(inputs: &Vec<Json>, id: &String) -> (r: Option<String>)
    ensures
        match r {
            Some(s) => value_in_inputs(inputs@, id@) == Some(s@),
            None => value_in_inputs(inputs@, id@).is_none(),
        },
{
    let mut i: usize = 0;
    assert(inputs@.subrange(0, inputs@.len() as int) =~= inputs@);
    while i < inputs.len()
        invariant
            i <= inputs@.len(),
            value_in_inputs(inputs@, id@) == value_in_inputs(
                inputs@.subrange(i as int, inputs@.len() as int),
                id@,
            ),
        decreases inputs.len() - i,
    {
        let ghost rest = inputs@.subrange(i as int, inputs@.len() as int);
        assert(rest[0] == inputs@[i as int]);
        assert(rest.drop_first() =~= inputs@.subrange(i + 1, inputs@.len() as int));
        let found = input_text(&inputs[i], id);
        if found.is_some() {
            return found;
        }
        i = i + 1;
    }
    None
}

fn text_in_rows(rows: &Vec<Json>, id: &String) -> (r: Option<String>)
    ensures
        match r {
            Some(s) => value_in_rows(rows@, id@) == Some(s@),
            None => value_in_rows(rows@, id@).is_none(),
        },
{
    let mut i: usize = 0;
    assert(rows@.subrange(0, rows@.len() as int) =~= rows@);
    while i < rows.len()
        invariant
            i <= rows@.len(),
            value_in_rows(rows@, id@) == value_in_rows(
                rows@.subrange(i as int, rows@.len() as int),
                id@,
            ),
        decreases rows.len() - i,
    {
        let ghost rest = rows@.subrange(i as int, rows@.len() as int);
        assert(rest[0] == rows@[i as int]);
        assert(rest.drop_first() =~= rows@.subrange(i + 1, rows@.len() as int));
        let found = match get(&rows[i], &"components".to_owned()) {
            Some(Json::Array(inputs)) => text_in_inputs(inputs, id),
            _ => {
                assert(row_inputs(rows@[i as int]) =~= Seq::<Json>::empty());
                None
            },
        };
        if found.is_some() {
            return found;
        }
        i = i + 1;
    }
    None
}

/// The text submitted for the input `id` of the form carried by `root`.
pub fn submitted_text(root: &Json, id: &String) -> (r: Option<String>)
    ensures
        match r {
            Some(s) => form_value(*root, id@) == Some(s@),
            None => form_value(*root, id@).is_none(),
        },
{
    match get(root, &"data".to_owned()) {
        Some(data) => match get(data, &"components".to_owned()) {
            Some(Json::Array(rows)) => text_in_rows(rows, id),
            _ => None,
        },
        None => None,
    }
}

fn discriminant_of(root: &Json) -> (r: Result<i64, DecodeError>)
    ensures
        r == discriminant(*root),
{
    match root {
        Json::Object(_) => match get(root, &"type".to_owned()) {
            None => Err(DecodeError::MissingDiscriminant),
            Some(Json::Number(Some(n))) => Ok(*n),
            Some(_) => Err(DecodeError::Malformed),
        },
        _ => Err(DecodeError::Malformed),
    }
}

/// Reads the interaction that a parsed body describes.
///
/// Only the `type` member decides the kind; a submitted form must carry all
/// six of its text values.
pub fn decode_value(root: &Json) -> (r: Result<CommandRequest, DecodeError>)
    ensures
        decodes_to(*root, r),
{
    let n = match discriminant_of(root) {
        Ok(n) => n,
        Err(e) => return Err(e),
    };
    match InteractionRequestType::from_i64(n) {
        None => Err(DecodeError::UnknownInteractionType(n)),
        Some(InteractionRequestType::Ping) => Ok(CommandRequest::Ping),
        Some(InteractionRequestType::ApplicationCommand) => Ok(CommandRequest::NewEvent),
        Some(InteractionRequestType::ModalSubmit) => {
            let name = submitted_text(root, &"name".to_owned());
            let description = submitted_text(root, &"description".to_owned());
            let location = submitted_text(root, &"location".to_owned());
            let date = submitted_text(root, &"date".to_owned());
            let time = submitted_text(root, &"time".to_owned());
            let duration = submitted_text(root, &"duration".to_owned());
            match (name, description, location, date, time, duration) {
                (Some(a), Some(b), Some(c), Some(d), Some(e), Some(f)) => {
                    assert(form_complete(*root)) by {
                        assert forall|k: int| 0 <= k < 6 implies (#[trigger] form_value(
                            *root,
                            form_ids()[k],
                        )).is_some() by {
                            if k == 0 {
                            } else if k == 1 {
                            } else if k == 2 {
                            } else if k == 3 {
                            } else if k == 4 {
                            } else {
                            }
                        }
                    }
                    Ok(CommandRequest::ModalSubmit(a, b, c, d, e, f))
                },
                (name, description, location, date, time, duration) => {
                    assert(!form_complete(*root)) by {
                        if name.is_none() {
                            assert(form_value(*root, form_ids()[0]).is_none());
                        } else if description.is_none() {
                            assert(form_value(*root, form_ids()[1]).is_none());
                        } else if location.is_none() {
                            assert(form_value(*root, form_ids()[2]).is_none());
                        } else if date.is_none() {
                            assert(form_value(*root, form_ids()[3]).is_none());
                        } else if time.is_none() {
                            assert(form_value(*root, form_ids()[4]).is_none());
                        } else {
                            assert(form_value(*root, form_ids()[5]).is_none());
                        }
                    }
                    Err(DecodeError::MissingField)
                },
            }
        },
    }
}

/// Reads the interaction that a request body describes; a body that is not
/// JSON is `Malformed`.
pub fn decode(body: &[u8]) -> (r: Result<CommandRequest, DecodeError>)
    ensures
        match json_parse(body@) {
            None => r == Err::<CommandRequest, DecodeError>(DecodeError::Malformed),
            Some(root) => decodes_to(root, r),
        },
{
    match parse(body) {
        None => Err(DecodeError::Malformed),
        Some(root) => decode_value(&root),
    }
}

/// Every integer discriminant other than 1, 2 and 5 is refused as an
/// unknown interaction type, whatever else the body holds.
pub proof fn lemma_unknown_discriminant_rejected(root: Json, r: Result<CommandRequest, DecodeError>)
    requires
        discriminant(root) is Ok,
        spec_interaction_type(discriminant(root)->Ok_0).is_none(),
        decodes_to(root, r),
    ensures
        r == Err::<CommandRequest, DecodeError>(
            DecodeError::UnknownInteractionType(discriminant(root)->Ok_0),
        ),
{
}

/// Decoding is total and single-valued: each document describes at most one
/// interaction, and a refused one is refused for exactly one reason.
pub proof fn lemma_decode_unique(
    root: Json,
    r1: Result<CommandRequest, DecodeError>,
    r2: Result<CommandRequest, DecodeError>,
)
    requires
        decodes_to(root, r1),
        decodes_to(root, r2),
    ensures
        r1 is Err ==> r1 == r2,
        r1 is Ok <==> r2 is Ok,
{
}

} // verus!
