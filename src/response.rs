use vstd::prelude::*;
use crate::interaction::form_ids;
use crate::json::{to_text, json_text, Json};

verus! {

/// The reply kinds of the platform, by their `type` discriminant: 1, 4 and 9.
#[derive(Debug, Clone, Copy, PartialEq, Eq, Structural)]
pub enum CommandResponseType {
    Pong,
    ChannelMessageWithSource,
    Modal,
}

impl CommandResponseType {
    pub open spec fn spec_code(self) -> i64 {
        match self {
            CommandResponseType::Pong => 1,
            CommandResponseType::ChannelMessageWithSource => 4,
            CommandResponseType::Modal => 9,
        }
    }

    pub fn code(&self) -> (r: i64)
        ensures
            r == self.spec_code(),
    {
        match self {
            CommandResponseType::Pong => 1,
            CommandResponseType::ChannelMessageWithSource => 4,
            CommandResponseType::Modal => 9,
        }
    }
}

/// Message flags; `Ephemeral` (bit 64) shows a message to its invoker only.
#[derive(Debug, Clone, Copy, PartialEq, Eq, Structural)]
pub enum CommandResponseFlag {
    Ephemeral,
}

impl CommandResponseFlag {
    pub open spec fn spec_code(self) -> i64 {
        64
    }

    pub fn code(&self) -> (r: i64)
        ensures
            r == self.spec_code(),
    {
        64
    }
}

/// The style of a form input: 1 for a single line, 2 for several.
#[derive(Debug, Clone, Copy, PartialEq, Eq, Structural)]
pub enum MessageStyle {
    Short,
    Long,
}

impl MessageStyle {
    pub open spec fn spec_code(self) -> i64 {
        match self {
            MessageStyle::Short => 1,
            MessageStyle::Long => 2,
        }
    }

    pub fn code(&self) -> (r: i64)
        ensures
            r == self.spec_code(),
    {
        match self {
            MessageStyle::Short => 1,
            MessageStyle::Long => 2,
        }
    }
}

/// The outcome of an interaction, to be rendered as the platform's reply.
#[derive(Debug, Clone)]
pub enum CommandResponse {
    /// Answer a connectivity probe.
    Pong,
    /// Show the event form.
    Modal,
    /// An event was created; holds a reference to it.
    EventSuccess(String),
    /// Creating the event failed.
    EventFail,
}

/// An HTTP reply: status, content type and JSON body.
#[derive(Debug)]
pub struct WireResponse {
    pub status: u16,
    pub content_type: String,
    pub body: Json,
}

impl WireResponse {
    /// The body as JSON text.
    pub fn body_text(&self) -> (r: String)
        ensures
            r@ == json_text(self.body),
    {
        to_text(&self.body)
    }
}

pub open spec fn json_content_type() -> Seq<char> {
    "application/json"@
}

/// The members of an object, in order; nothing for any other document.
pub open spec fn fields_of(j: Json) -> Seq<(String, Json)> {
    match j {
        Json::Object(fs) => fs@,
        _ => Seq::empty(),
    }
}

/// The elements of an array; nothing for any other document.
pub open spec fn items_of(j: Json) -> Seq<Json> {
    match j {
        Json::Array(a) => a@,
        _ => Seq::empty(),
    }
}

pub open spec fn key_at(fs: Seq<(String, Json)>, i: int, key: Seq<char>) -> bool {
    0 <= i < fs.len() && fs[i].0@ == key
}

pub open spec fn num_at(fs: Seq<(String, Json)>, i: int, key: Seq<char>, n: i64) -> bool {
    key_at(fs, i, key) && fs[i].1 == Json::Number(Some(n))
}

pub open spec fn text_at(fs: Seq<(String, Json)>, i: int, key: Seq<char>, t: Seq<char>) -> bool {
    key_at(fs, i, key) && match fs[i].1 {
        Json::Str(s) => s@ == t,
        _ => false,
    }
}

pub open spec fn bool_at(fs: Seq<(String, Json)>, i: int, key: Seq<char>, b: bool) -> bool {
    key_at(fs, i, key) && fs[i].1 == Json::Bool(b)
}

/// An object of exactly `len` members.
pub open spec fn object_of(j: Json, len: nat) -> bool {
    j is Object && fields_of(j).len() == len
}

pub open spec fn form_labels() -> Seq<Seq<char>> {
    seq!["Name"@, "Description"@, "Location"@, "Date"@, "Time"@, "Duration"@]
}

pub open spec fn form_placeholders() -> Seq<Seq<char>> {
    seq![
        "Event name"@,
        "A concise description"@,
        "online"@,
        "15/12/2022"@,
        "12:30pm"@,
        "1h30m"@,
    ]
}

pub open spec fn form_styles() -> Seq<MessageStyle> {
    seq![
        MessageStyle::Short,
        MessageStyle::Long,
        MessageStyle::Short,
        MessageStyle::Short,
        MessageStyle::Short,
        MessageStyle::Short,
    ]
}

/// A required text input of 1 to 100 characters.
pub open spec fn text_input(
    j: Json,
    id: Seq<char>,
    label: Seq<char>,
    placeholder: Seq<char>,
    style: MessageStyle,
) -> bool {
    let fs = fields_of(j);
    &&& object_of(j, 8)
    &&& num_at(fs, 0, "type"@, 4)
    &&& text_at(fs, 1, "custom_id"@, id)
    &&& text_at(fs, 2, "label"@, label)
    &&& num_at(fs, 3, "style"@, style.spec_code())
    &&& num_at(fs, 4, "min_length"@, 1)
    &&& num_at(fs, 5, "max_length"@, 100)
    &&& text_at(fs, 6, "placeholder"@, placeholder)
    &&& bool_at(fs, 7, "required"@, true)
}

/// A row of a form holding the `k`-th input of the event form.
pub open spec fn form_row(j: Json, k: int) -> bool {
    let fs = fields_of(j);
    &&& object_of(j, 2)
    &&& num_at(fs, 0, "type"@, 1)
    &&& key_at(fs, 1, "components"@)
    &&& fs[1].1 is Array
    &&& items_of(fs[1].1).len() == 1
    &&& text_input(
        items_of(fs[1].1)[0],
        form_ids()[k],
        form_labels()[k],
        form_placeholders()[k],
        form_styles()[k],
    )
}

/// The reply that shows the event form.
pub open spec fn modal_body(j: Json) -> bool {
    let fs = fields_of(j);
    let d = fields_of(fs[1].1);
    &&& object_of(j, 2)
    &&& num_at(fs, 0, "type"@, 9)
    &&& key_at(fs, 1, "data"@)
    &&& object_of(fs[1].1, 3)
    &&& text_at(d, 0, "title"@, "New Event"@)
    &&& text_at(d, 1, "custom_id"@, "new_event"@)
    &&& key_at(d, 2, "components"@)
    &&& d[2].1 is Array
    &&& items_of(d[2].1).len() == 6
    &&& forall|k: int| 0 <= k < 6 ==> form_row(#[trigger] items_of(d[2].1)[k], k)
}

/// A channel message with this text; an ephemeral one also carries the flag.
pub open spec fn message_body(j: Json, content: Seq<char>, ephemeral: bool) -> bool {
    let fs = fields_of(j);
    let d = fields_of(fs[1].1);
    &&& object_of(j, 2)
    &&& num_at(fs, 0, "type"@, 4)
    &&& key_at(fs, 1, "data"@)
    &&& text_at(d, 0, "content"@, content)
    &&& if ephemeral {
        object_of(fs[1].1, 2) && num_at(d, 1, "flags"@, 64)
    } else {
        object_of(fs[1].1, 1)
    }
}

/// The liveness reply: the discriminant 1 and nothing else.
pub open spec fn pong_body(j: Json) -> bool {
    object_of(j, 1) && num_at(fields_of(j), 0, "type"@, 1)
}

pub open spec fn success_text(link: Seq<char>) -> Seq<char> {
    "An event was just created: "@ + link
}

pub open spec fn failure_text() -> Seq<char> {
    "There was an error creating your event"@
}

/// Whether `j` is the reply body for the outcome `c`.
pub open spec fn renders(c: CommandResponse, j: Json) -> bool {
    match c {
        CommandResponse::Pong => pong_body(j),
        CommandResponse::Modal => modal_body(j),
        CommandResponse::EventSuccess(link) => message_body(j, success_text(link@), false),
        CommandResponse::EventFail => message_body(j, failure_text(), true),
    }
}

fn entry(key: &str, value: Json) -> (r: (String, Json))
    ensures
        r.0@ == key@,
        r.1 == value,
{
    (key.to_owned(), value)
}

fn text(s: &str) -> (r: Json)
    ensures
        match r {
            Json::Str(t) => t@ == s@,
            _ => false,
        },
{
    Json::Str(s.to_owned())
}

/// The `k`-th input of the event form: id, label, placeholder and style.
fn form_input(k: usize) -> (r: (&'static str, &'static str, &'static str, MessageStyle))
    requires
        k < 6,
    ensures
        r.0@ == form_ids()[k as int],
        r.1@ == form_labels()[k as int],
        r.2@ == form_placeholders()[k as int],
        r.3 == form_styles()[k as int],
{
    if k == 0 {
        ("name", "Name", "Event name", MessageStyle::Short)
    } else if k == 1 {
        ("description", "Description", "A concise description", MessageStyle::Long)
    } else if k == 2 {
        ("location", "Location", "online", MessageStyle::Short)
    } else if k == 3 {
        ("date", "Date", "15/12/2022", MessageStyle::Short)
    } else if k == 4 {
        ("time", "Time", "12:30pm", MessageStyle::Short)
    } else {
        ("duration", "Duration", "1h30m", MessageStyle::Short)
    }
}

/// A form row holding one required text input.
pub fn get_modal_component_json(id: &str, label: &str, placeholder: &str, style: MessageStyle) -> (r:
    Json)
    ensures
        ({
            let fs = fields_of(r);
            &&& object_of(r, 2)
            &&& num_at(fs, 0, "type"@, 1)
            &&& key_at(fs, 1, "components"@)
            &&& fs[1].1 is Array
            &&& items_of(fs[1].1).len() == 1
            &&& text_input(items_of(fs[1].1)[0], id@, label@, placeholder@, style)
        }),
{
    let input = Json::Object(
        vec![
            entry("type", Json::Number(Some(4))),
            entry("custom_id", text(id)),
            entry("label", text(label)),
            entry("style", Json::Number(Some(style.code()))),
            entry("min_length", Json::Number(Some(1))),
            entry("max_length", Json::Number(Some(100))),
            entry("placeholder", text(placeholder)),
            entry("required", Json::Bool(true)),
        ],
    );
    Json::Object(
        vec![entry("type", Json::Number(Some(1))), entry("components", Json::Array(vec![input]))],
    )
}

/// The reply that shows the event form.
pub fn get_modal_json() -> (r: Json)
    ensures
        modal_body(r),
{
    let mut rows: Vec<Json> = Vec::new();
    let mut k: usize = 0;
    while k < 6
        invariant
            k <= 6,
            rows@.len() == k,
            forall|i: int| 0 <= i < k ==> form_row(#[trigger] rows@[i], i),
        decreases 6 - k,
    {
        let (id, label, placeholder, style) = form_input(k);
        rows.push(get_modal_component_json(id, label, placeholder, style));
        k = k + 1;
    }
    let data = Json::Object(
        vec![
            entry("title", text("New Event")),
            entry("custom_id", text("new_event")),
            entry("components", Json::Array(rows)),
        ],
    );
    Json::Object(
        vec![
            entry("type", Json::Number(Some(CommandResponseType::Modal.code()))),
            entry("data", data),
        ],
    )
}

/// The message announcing a created event, with its reference.
pub fn get_message_success_json(link: &str) -> (r: Json)
    ensures
        message_body(r, success_text(link@), false),
{
    let mut content = "An event was just created: ".to_owned();
    content.append(link);
    let data = Json::Object(vec![entry("content", Json::Str(content))]);
    Json::Object(
        vec![
            entry("type", Json::Number(Some(CommandResponseType::ChannelMessageWithSource.code()))),
            entry("data", data),
        ],
    )
}

/// The message, shown to its invoker only, that creating the event failed.
pub fn get_message_fail_json() -> (r: Json)
    ensures
        message_body(r, failure_text(), true),
{
    let data = Json::Object(
        vec![
            entry("content", text("There was an error creating your event")),
            entry("flags", Json::Number(Some(CommandResponseFlag::Ephemeral.code()))),
        ],
    );
    Json::Object(
        vec![
            entry("type", Json::Number(Some(CommandResponseType::ChannelMessageWithSource.code()))),
            entry("data", data),
        ],
    )
}

/// The liveness reply.
pub fn get_pong_json() -> (r: Json)
    ensures
        pong_body(r),
{
    Json::Object(vec![entry("type", Json::Number(Some(CommandResponseType::Pong.code())))])
}

impl CommandResponse {
    /// Renders the outcome: always status 200 with a JSON body, since a failed
    /// action is reported in the body.
    pub fn into_response(self) -> (r: WireResponse)
        ensures
            r.status == 200,
            r.content_type@ == json_content_type(),
            renders(self, r.body),
    {
        let body = match self {
            CommandResponse::Pong => get_pong_json(),
            CommandResponse::Modal => get_modal_json(),
            CommandResponse::EventSuccess(link) => get_message_success_json(link.as_str()),
            CommandResponse::EventFail => get_message_fail_json(),
        };
        WireResponse { status: 200, content_type: "application/json".to_owned(), body }
    }
}

/// The success message carries the event's reference verbatim, right after
/// its fixed opening.
pub proof fn lemma_success_embeds_reference(link: Seq<char>)
    ensures
        success_text(link).subrange(
            success_text(link).len() - link.len(),
            success_text(link).len() as int,
        ) == link,
        success_text(link).len() == "An event was just created: "@.len() + link.len(),
{
    assert(success_text(link).subrange(
        success_text(link).len() - link.len(),
        success_text(link).len() as int,
    ) =~= link);
}

/// The failure reply is always ephemeral: its data carries the flag 64.
pub proof fn lemma_failure_is_ephemeral(j: Json)
    requires
        renders(CommandResponse::EventFail, j),
    ensures
        num_at(fields_of(fields_of(j)[1].1), 1, "flags"@, CommandResponseFlag::Ephemeral.spec_code()),
{
}

} // verus!
