use vstd::prelude::*;
use crate::json::{json_text, to_text, Json};
use crate::response::{fields_of, num_at, object_of, text_at};

verus! {

/// The address at which the commands of an application are registered.
pub open spec fn commands_url(application_id: Seq<char>) -> Seq<char> {
    "https://discord.com/api/v10/applications/"@ + application_id + "/commands"@
}

/// The address at which the commands of `application_id` are registered.
pub fn command_url(application_id: &str) -> (r: String)
    ensures
        r@ == commands_url(application_id@),
{
    let mut url = "https://discord.com/api/v10/applications/".to_owned();
    url.append(application_id);
    url.append("/commands");
    url
}

/// The declaration of the `new_event` command: its name, `type_value` 1
/// and description.
pub open spec fn command_declaration(j: Json) -> bool {
    &&& object_of(j, 3)
    &&& text_at(fields_of(j), 0, "name"@, "new_event"@)
    &&& num_at(fields_of(j), 1, "type_value"@, 1)
    &&& text_at(fields_of(j), 2, "description"@, "Create a new event on GitEvents"@)
}

/// The declaration of the `new_event` command.
pub fn command_json() -> (r: Json)
    ensures
        command_declaration(r),
{
    Json::Object(
        vec![
            ("name".to_owned(), Json::Str("new_event".to_owned())),
            ("type_value".to_owned(), Json::Number(Some(1))),
            ("description".to_owned(), Json::Str("Create a new event on GitEvents".to_owned())),
        ],
    )
}

/// The declaration of the `new_event` command as JSON text.
pub fn command_body() -> (r: String)
    ensures
        exists|j: Json| command_declaration(j) && r@ == #[trigger] json_text(j),
{
    let j = command_json();
    let r = to_text(&j);
    assert(command_declaration(j) && r@ == json_text(j));
    r
}

/// The value of the `Authorization` header for a bot credential.
pub fn bot_authorization(token: &str) -> (r: String)
    ensures
        r@ == "Bot "@ + token@,
{
    let mut value = "Bot ".to_owned();
    value.append(token);
    value
}

} // verus!
