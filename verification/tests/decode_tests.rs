use relay_core::decode::{decode, DecodeError};

fn frames(payload: &str) -> Vec<Vec<u8>> {
    vec![b"sender".to_vec(), payload.as_bytes().to_vec()]
}

#[test]
fn empty_message_has_too_few_frames() {
    let r = decode(&Vec::new());
    assert_eq!(r.unwrap_err(), DecodeError::TooFewFrames);
}

#[test]
fn single_frame_has_too_few_frames() {
    let r = decode(&vec![b"only".to_vec()]);
    assert_eq!(r.unwrap_err(), DecodeError::TooFewFrames);
}

#[test]
fn non_utf8_payload_is_invalid_encoding() {
    let r = decode(&vec![b"sender".to_vec(), vec![0xff, 0xfe, 0x20]]);
    assert_eq!(r.unwrap_err(), DecodeError::InvalidEncoding);
}

#[test]
fn broken_json_is_malformed() {
    let r = decode(&frames("[\"env0\", {"));
    assert_eq!(r.unwrap_err(), DecodeError::MalformedJson);
}

#[test]
fn non_array_payload_is_short_envelope() {
    let r = decode(&frames("{\"text\":\"hello\"}"));
    assert_eq!(r.unwrap_err(), DecodeError::ShortEnvelope);
}

#[test]
fn two_element_array_is_short_envelope() {
    let r = decode(&frames("[\"env0\",\"env1\"]"));
    assert_eq!(r.unwrap_err(), DecodeError::ShortEnvelope);
}

#[test]
fn non_object_command_is_invalid_shape() {
    let r = decode(&frames("[\"env0\",\"env1\",42]"));
    assert_eq!(r.unwrap_err(), DecodeError::InvalidCommandShape);
}

#[test]
fn missing_text_is_invalid_shape() {
    let r = decode(&frames("[\"env0\",\"env1\",{\"chat_id\":5}]"));
    assert_eq!(r.unwrap_err(), DecodeError::InvalidCommandShape);
}

#[test]
fn numeric_text_is_invalid_shape() {
    let r = decode(&frames("[\"env0\",\"env1\",{\"text\":7}]"));
    assert_eq!(r.unwrap_err(), DecodeError::InvalidCommandShape);
}

#[test]
fn string_chat_id_is_invalid_shape() {
    let r = decode(&frames("[\"env0\",\"env1\",{\"text\":\"hi\",\"chat_id\":\"5\"}]"));
    assert_eq!(r.unwrap_err(), DecodeError::InvalidCommandShape);
}

#[test]
fn float_chat_id_is_invalid_shape() {
    let r = decode(&frames("[\"env0\",\"env1\",{\"text\":\"hi\",\"chat_id\":5.5}]"));
    assert_eq!(r.unwrap_err(), DecodeError::InvalidCommandShape);
}

#[test]
fn minimal_command_defaults_optional_fields() {
    let cmd = decode(&frames("[\"env0\",\"env1\",{\"text\":\"hello\"}]")).unwrap();
    assert_eq!(cmd.text, "hello");
    assert_eq!(cmd.destination_chat_id, None);
    assert_eq!(cmd.subscriber_list_name, None);
    assert_eq!(cmd.image_path, None);
}

#[test]
fn null_optional_fields_default_too() {
    let cmd = decode(
        &frames("[\"env0\",\"env1\",{\"text\":\"hi\",\"chat_id\":null,\"subscriber_list\":null,\"image_path\":null}]"),
    )
    .unwrap();
    assert_eq!(cmd.text, "hi");
    assert_eq!(cmd.destination_chat_id, None);
    assert_eq!(cmd.subscriber_list_name, None);
    assert_eq!(cmd.image_path, None);
}

#[test]
fn full_command_decodes_every_field() {
    let cmd = decode(&frames(
        "[\"env0\",\"env1\",{\"text\":\"alert\",\"chat_id\":-42,\"subscriber_list\":\"ops\",\"image_path\":\"/tmp/a.png\"}]",
    ))
    .unwrap();
    assert_eq!(cmd.text, "alert");
    assert_eq!(cmd.destination_chat_id, Some(-42));
    assert_eq!(cmd.subscriber_list_name, Some("ops".to_string()));
    assert_eq!(cmd.image_path, Some("/tmp/a.png".to_string()));
}

#[test]
fn unknown_members_are_ignored() {
    let cmd = decode(&frames(
        "[\"env0\",\"env1\",{\"text\":\"hello\",\"extra\":true,\"more\":[1,2]}]",
    ))
    .unwrap();
    assert_eq!(cmd.text, "hello");
    assert_eq!(cmd.destination_chat_id, None);
}

#[test]
fn envelope_elements_are_ignored() {
    // The first two array elements may be anything at all.
    let cmd = decode(&frames("[17,{\"weird\":null},{\"text\":\"ok\",\"chat_id\":1}]")).unwrap();
    assert_eq!(cmd.text, "ok");
    assert_eq!(cmd.destination_chat_id, Some(1));
}

#[test]
fn extra_frames_are_tolerated() {
    let f = vec![
        b"sender".to_vec(),
        b"[\"e0\",\"e1\",{\"text\":\"hi\"}]".to_vec(),
        b"trailing".to_vec(),
    ];
    let cmd = decode(&f).unwrap();
    assert_eq!(cmd.text, "hi");
}
