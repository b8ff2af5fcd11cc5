use ed25519_dalek::{Keypair, PublicKey, SecretKey, Signer};
use gitevents_discord::error::{DecodeError, Error};
use gitevents_discord::handler::{
    dispatch, event_outcome, handle_commands, handle_request, respond, Dispatch,
};
use gitevents_discord::interaction::CommandRequest;
use gitevents_discord::registration::{bot_authorization, command_body, command_url};
use gitevents_discord::json::Json;
use gitevents_discord::response::{CommandResponse, WireResponse};
use gitevents_discord::signature::validate_headers;

const TIMESTAMP: &str = "1670000000";

fn keypair() -> Keypair {
    let secret = SecretKey::from_bytes(&[7u8; 32]).unwrap();
    let public = PublicKey::from(&secret);
    Keypair { secret, public }
}

fn public_key_hex() -> String {
    hex::encode(keypair().public.to_bytes())
}

fn sign(timestamp: &str, body: &[u8]) -> String {
    let mut message = timestamp.as_bytes().to_vec();
    message.extend_from_slice(body);
    hex::encode(keypair().sign(&message).to_bytes())
}

fn run(signature: Option<&str>, timestamp: Option<&str>, body: &[u8]) -> WireResponse {
    let key = public_key_hex();
    let result = handle_request(
        signature.map(|s| s.as_bytes()),
        timestamp.map(|t| t.as_bytes()),
        body,
        key.as_bytes(),
    );
    let outcome = match result {
        Ok(Dispatch::Respond(c)) => Ok(c),
        Ok(Dispatch::CreateEvent(..)) => Ok(event_outcome(Err(Error::RequestError))),
        Err(e) => Err(e),
    };
    respond(outcome)
}

fn member<'a>(j: &'a Json, key: &str) -> &'a Json {
    match j {
        Json::Object(fields) => &fields.iter().find(|(k, _)| k == key).unwrap().1,
        _ => panic!("not an object"),
    }
}

fn text(j: &Json) -> &str {
    match j {
        Json::Str(s) => s.as_str(),
        _ => panic!("not a string"),
    }
}

fn items(j: &Json) -> &Vec<Json> {
    match j {
        Json::Array(a) => a,
        _ => panic!("not an array"),
    }
}

#[test]
fn scenario_missing_headers_is_bad_request() {
    let r = run(None, None, br#"{"type":1}"#);
    assert_eq!(r.status, 400);
    assert_eq!(r.content_type, "application/json");
    assert_eq!(
        text(member(&r.body, "message")),
        "Invalid Input: You need to provide both signature and timestamp"
    );
}

#[test]
fn scenario_signed_ping_gets_pong() {
    let body = br#"{"type":1}"#;
    let sig = sign(TIMESTAMP, body);
    let r = run(Some(&sig), Some(TIMESTAMP), body);
    assert_eq!(r.status, 200);
    assert_eq!(r.body_text(), r#"{"type":1}"#);
}

#[test]
fn scenario_signed_command_gets_modal() {
    let body = br#"{"type":2,"data":{"name":"new_event"}}"#;
    let sig = sign(TIMESTAMP, body);
    let r = run(Some(&sig), Some(TIMESTAMP), body);
    assert_eq!(r.status, 200);
    assert_eq!(member(&r.body, "type"), &Json::Number(Some(9)));
    let data = member(&r.body, "data");
    assert_eq!(text(member(data, "title")), "New Event");
    assert_eq!(text(member(data, "custom_id")), "new_event");
    let rows = items(member(data, "components"));
    let ids: Vec<&str> = rows
        .iter()
        .map(|row| text(member(&items(member(row, "components"))[0], "custom_id")))
        .collect();
    assert_eq!(ids, vec!["name", "description", "location", "date", "time", "duration"]);
    let labels: Vec<&str> = rows
        .iter()
        .map(|row| text(member(&items(member(row, "components"))[0], "label")))
        .collect();
    assert_eq!(labels, vec!["Name", "Description", "Location", "Date", "Time", "Duration"]);
    let styles: Vec<&Json> =
        rows.iter().map(|row| member(&items(member(row, "components"))[0], "style")).collect();
    assert_eq!(styles[0], &Json::Number(Some(1)));
    assert_eq!(styles[1], &Json::Number(Some(2)));
    let description = &items(member(&rows[1], "components"))[0];
    assert_eq!(text(member(description, "placeholder")), "A concise description");
    assert_eq!(member(description, "min_length"), &Json::Number(Some(1)));
    assert_eq!(member(description, "max_length"), &Json::Number(Some(100)));
    assert_eq!(member(description, "required"), &Json::Bool(true));
}

#[test]
fn scenario_unknown_type_is_server_error() {
    let body = br#"{"type":99}"#;
    let sig = sign(TIMESTAMP, body);
    let r = run(Some(&sig), Some(TIMESTAMP), body);
    assert_eq!(r.status, 500);
    assert_eq!(text(member(&r.body, "message")), "Parsing Body Error: unknown interaction type");
}

#[test]
fn scenario_tampered_submission_is_rejected() {
    let body = br#"{"type":5,"data":{"components":[]}}"#;
    let mut sig = sign(TIMESTAMP, body).into_bytes();
    sig[0] = if sig[0] == b'0' { b'1' } else { b'0' };
    let sig = String::from_utf8(sig).unwrap();
    let key = public_key_hex();
    let result = handle_request(Some(sig.as_bytes()), Some(TIMESTAMP.as_bytes()), body, key.as_bytes());
    assert!(matches!(result, Err(Error::DecryptingError)));
    let r = run(Some(&sig), Some(TIMESTAMP), body);
    assert_eq!(r.status, 500);
    assert_eq!(text(member(&r.body, "message")), "Invalid request signature");
}

#[test]
fn each_missing_header_is_invalid_input() {
    let body = b"not even json";
    let sig = sign(TIMESTAMP, body);
    let key = public_key_hex();
    let only_sig = validate_headers(Some(sig.as_bytes()), None, body, key.as_bytes());
    let only_ts = validate_headers(None, Some(TIMESTAMP.as_bytes()), body, key.as_bytes());
    assert!(matches!(only_sig, Err(Error::InvalidInput(_))));
    assert!(matches!(only_ts, Err(Error::InvalidInput(_))));
    assert_eq!(only_ts.unwrap_err().status(), 400);
}

#[test]
fn valid_signature_is_accepted() {
    let body = br#"{"type":1}"#;
    let sig = sign(TIMESTAMP, body);
    let key = public_key_hex();
    assert!(validate_headers(Some(sig.as_bytes()), Some(TIMESTAMP.as_bytes()), body, key.as_bytes()).is_ok());
    let upper = key.to_uppercase();
    assert!(validate_headers(Some(sig.as_bytes()), Some(TIMESTAMP.as_bytes()), body, upper.as_bytes()).is_ok());
}

#[test]
fn mutated_body_or_timestamp_is_rejected() {
    let body = br#"{"type":1}"#;
    let sig = sign(TIMESTAMP, body);
    let key = public_key_hex();
    let other_body = br#"{"type":3}"#;
    let r1 = validate_headers(Some(sig.as_bytes()), Some(TIMESTAMP.as_bytes()), other_body, key.as_bytes());
    assert!(matches!(r1, Err(Error::DecryptingError)));
    let r2 = validate_headers(Some(sig.as_bytes()), Some(b"1670000001"), body, key.as_bytes());
    assert!(matches!(r2, Err(Error::DecryptingError)));
}

#[test]
fn bad_hex_is_decoding_error_with_same_message() {
    let body = br#"{"type":1}"#;
    let key = public_key_hex();
    let r = validate_headers(Some(b"zz"), Some(TIMESTAMP.as_bytes()), body, key.as_bytes());
    assert!(matches!(r, Err(Error::DecodingError)));
    let odd = validate_headers(Some(b"abc"), Some(TIMESTAMP.as_bytes()), body, key.as_bytes());
    assert!(matches!(odd, Err(Error::DecodingError)));
    let sig = sign(TIMESTAMP, body);
    let bad_key = validate_headers(Some(sig.as_bytes()), Some(TIMESTAMP.as_bytes()), body, b"xyz1");
    assert!(matches!(bad_key, Err(Error::DecodingError)));
    assert_eq!(Error::DecodingError.message(), Error::DecryptingError.message());
    assert_eq!(Error::DecodingError.status(), 500);
}

#[test]
fn wrong_length_key_or_signature_is_signature_invalid() {
    let body = br#"{"type":1}"#;
    let sig = sign(TIMESTAMP, body);
    let key = public_key_hex();
    let short_key = &key[..62];
    let r1 = validate_headers(Some(sig.as_bytes()), Some(TIMESTAMP.as_bytes()), body, short_key.as_bytes());
    assert!(matches!(r1, Err(Error::DecryptingError)));
    let short_sig = &sig[..126];
    let r2 = validate_headers(Some(short_sig.as_bytes()), Some(TIMESTAMP.as_bytes()), body, key.as_bytes());
    assert!(matches!(r2, Err(Error::DecryptingError)));
}

#[test]
fn form_submission_becomes_event_request() {
    let body = br#"{"type":5,"data":{"custom_id":"new_event","components":[
        {"type":1,"components":[{"type":4,"custom_id":"name","value":"Meetup"}]},
        {"type":1,"components":[{"type":4,"custom_id":"description","value":"Monthly"}]},
        {"type":1,"components":[{"type":4,"custom_id":"location","value":"online"}]},
        {"type":1,"components":[{"type":4,"custom_id":"date","value":"15/12/2022"}]},
        {"type":1,"components":[{"type":4,"custom_id":"time","value":"12:30pm"}]},
        {"type":1,"components":[{"type":4,"custom_id":"duration","value":"1h30m"}]}]}}"#;
    match handle_commands(body) {
        Ok(Dispatch::CreateEvent(a, b, c, d, e, f)) => {
            assert_eq!(a, "Meetup");
            assert_eq!(b, "Monthly");
            assert_eq!(c, "online");
            assert_eq!(d, "15/12/2022");
            assert_eq!(e, "12:30pm");
            assert_eq!(f, "1h30m");
        }
        other => panic!("unexpected {:?}", other),
    }
}

#[test]
fn incomplete_form_is_missing_field() {
    let body = br#"{"type":5,"data":{"components":[
        {"type":1,"components":[{"type":4,"custom_id":"name","value":"Meetup"}]}]}}"#;
    assert!(matches!(handle_commands(body), Err(Error::ParsingError(DecodeError::MissingField))));
}

#[test]
fn body_without_type_is_missing_discriminant() {
    let r = handle_commands(br#"{"kind":1}"#);
    assert!(matches!(r, Err(Error::ParsingError(DecodeError::MissingDiscriminant))));
    assert_eq!(r.unwrap_err().message(), "Parsing Body Error: missing field `type`");
}

#[test]
fn malformed_bodies_are_refused() {
    for body in [&b"not json"[..], br#"[1]"#, br#"{"type":"1"}"#, br#"{"type":1.5}"#] {
        assert!(matches!(handle_commands(body), Err(Error::ParsingError(DecodeError::Malformed))));
    }
}

#[test]
fn unknown_discriminants_are_refused() {
    for n in [0i64, 3, 4, 6, -1, 99] {
        let body = format!("{{\"type\":{}}}", n);
        match handle_commands(body.as_bytes()) {
            Err(Error::ParsingError(DecodeError::UnknownInteractionType(m))) => assert_eq!(m, n),
            other => panic!("unexpected {:?}", other),
        }
    }
}

#[test]
fn other_members_do_not_change_the_kind() {
    let r = handle_commands(br#"{"data":{"x":[1,2]},"type":1,"id":"abc"}"#);
    assert!(matches!(r, Ok(Dispatch::Respond(CommandResponse::Pong))));
}

#[test]
fn event_outcomes_render_as_messages() {
    let ok = event_outcome(Ok("https://example.org/e/1".to_string()));
    let r = ok.into_response();
    assert_eq!(r.status, 200);
    assert_eq!(
        r.body_text(),
        r#"{"data":{"content":"An event was just created: https://example.org/e/1"},"type":4}"#
    );
    let fail = event_outcome(Err(Error::RequestError)).into_response();
    assert_eq!(fail.status, 200);
    let data = member(&fail.body, "data");
    assert_eq!(member(data, "flags"), &Json::Number(Some(64)));
    assert_eq!(text(member(data, "content")), "There was an error creating your event");
}

#[test]
fn error_replies_carry_status_and_message() {
    let r = respond(Err(Error::VarError("DISCORD_PUBLIC_KEY".to_string())));
    assert_eq!(r.status, 500);
    assert_eq!(r.body_text(), r#"{"message":"Invalid Environment Variable: DISCORD_PUBLIC_KEY"}"#);
}

#[test]
fn registration_request_parts() {
    assert_eq!(command_url("42"), "https://discord.com/api/v10/applications/42/commands");
    assert_eq!(bot_authorization("token123"), "Bot token123");
    assert_eq!(
        command_body(),
        r#"{"description":"Create a new event on GitEvents","name":"new_event","type_value":1}"#
    );
}

#[test]
fn dispatch_is_by_kind() {
    for _ in 0..2 {
        assert!(matches!(dispatch(CommandRequest::Ping), Dispatch::Respond(CommandResponse::Pong)));
        assert!(matches!(dispatch(CommandRequest::NewEvent), Dispatch::Respond(CommandResponse::Modal)));
    }
    let s = |t: &str| t.to_string();
    match dispatch(CommandRequest::ModalSubmit(s("a"), s("b"), s("c"), s("d"), s("e"), s("f"))) {
        Dispatch::CreateEvent(a, _, _, _, _, f) => {
            assert_eq!(a, "a");
            assert_eq!(f, "f");
        }
        other => panic!("unexpected {:?}", other),
    }
}

#[test]
fn non_utf8_body_with_headers_is_server_error() {
    let body = [0xffu8, 0xfe, 0x00, 0x80];
    let sig = sign(TIMESTAMP, br#"{"type":1}"#);
    let r = run(Some(&sig), Some(TIMESTAMP), &body);
    assert_eq!(r.status, 500);
    assert_eq!(text(member(&r.body, "message")), "Invalid request signature");
    let signed = sign(TIMESTAMP, &body);
    let r2 = run(Some(&signed), Some(TIMESTAMP), &body);
    assert_eq!(r2.status, 500);
    assert_eq!(text(member(&r2.body, "message")), "Parsing Body Error: the body is not an interaction object");
}
