//! The frame decoder: recovers a typed outbound command from the raw
//! multi-frame byte message that one receive operation on the transport
//! produced.
//!
//! The wire layout: the second frame is UTF-8 text holding a JSON array of at
//! least three elements; the first two elements are envelope metadata and are
//! ignored; the element at index 2 is an object carrying the command fields.

use vstd::prelude::*;
use vstd::utf8::{valid_utf8, decode_utf8};
use crate::json::{Json, json_of, value_model, parse_json, value_as_array, value_get,
    value_as_i64, value_as_str, value_is_null};

verus! {

/// Why a raw message was rejected.
#[derive(Debug, Clone, Copy, PartialEq, Eq, Structural)]
pub enum DecodeError {
    /// The message had fewer than two frames.
    TooFewFrames,
    /// The payload frame was not UTF-8 text.
    InvalidEncoding,
    /// The payload text was not well-formed JSON.
    MalformedJson,
    /// The payload JSON was not an array of at least three elements.
    ShortEnvelope,
    /// The element at index 2 did not have the command shape.
    InvalidCommandShape,
}

/// Mathematical model of a decoded command.
pub struct CommandModel {
    pub destination_chat_id: Option<i64>,
    pub subscriber_list_name: Option<Seq<char>>,
    pub text: Seq<char>,
    pub image_path: Option<Seq<char>>,
}

/// The semantic unit extracted from a raw message: an explicit direct target,
/// or a named subscriber list, or neither; the required message body; and an
/// optional image attachment path.
#[derive(Debug)]
pub struct DecodedCommand {
    pub destination_chat_id: Option<i64>,
    pub subscriber_list_name: Option<String>,
    pub text: String,
    pub image_path: Option<String>,
}

pub open spec fn opt_string_view(o: Option<String>) -> Option<Seq<char>> {
    match o {
        Some(s) => Some(s@),
        None => None,
    }
}

impl View for DecodedCommand {
    type V = CommandModel;

    open spec fn view(&self) -> CommandModel {
        CommandModel {
            destination_chat_id: self.destination_chat_id,
            subscriber_list_name: opt_string_view(self.subscriber_list_name),
            text: self.text@,
            image_path: opt_string_view(self.image_path),
        }
    }
}

/// An optional integer command field: absent or null means `None`; an `i64`
/// number means that number; any other value does not fit the command shape.
pub open spec fn opt_i64_field(m: Map<Seq<char>, Json>, key: Seq<char>) -> Option<Option<i64>> {
    if !m.contains_key(key) {
        Some(None)
    } else {
        match m[key] {
            Json::Null => Some(None),
            Json::IntNum(n) => Some(Some(n)),
            _ => None,
        }
    }
}

/// An optional string command field: absent or null means `None`; a string
/// means that string; any other value does not fit the command shape.
pub open spec fn opt_text_field(m: Map<Seq<char>, Json>, key: Seq<char>) -> Option<
    Option<Seq<char>>,
> {
    if !m.contains_key(key) {
        Some(None)
    } else {
        match m[key] {
            Json::Null => Some(None),
            Json::Text(s) => Some(Some(s)),
            _ => None,
        }
    }
}

/// The command a JSON value describes, if it has the command shape: an object
/// whose `text` member is a string, whose `chat_id` member (if any) is an
/// `i64`, and whose `subscriber_list` and `image_path` members (if any) are
/// strings.
pub open spec fn command_of(j: Json) -> Option<CommandModel> {
    match j {
        Json::Obj(m) => {
            if m.contains_key("text"@) && m["text"@] is Text {
                match (
                    opt_i64_field(m, "chat_id"@),
                    opt_text_field(m, "subscriber_list"@),
                    opt_text_field(m, "image_path"@),
                ) {
                    (Some(cid), Some(sl), Some(ip)) => Some(
                        CommandModel {
                            destination_chat_id: cid,
                            subscriber_list_name: sl,
                            text: m["text"@]->Text_0,
                            image_path: ip,
                        },
                    ),
                    _ => None,
                }
            } else {
                None
            }
        },
        _ => None,
    }
}

/// What decoding a raw multi-frame message yields.
pub open spec fn decode_model(frames: Seq<Seq<u8>>) -> Result<CommandModel, DecodeError> {
    if frames.len() < 2 {
        Err(DecodeError::TooFewFrames)
    } else if !valid_utf8(frames[1]) {
        Err(DecodeError::InvalidEncoding)
    } else {
        match json_of(decode_utf8(frames[1])) {
            None => Err(DecodeError::MalformedJson),
            Some(doc) => if !(doc is Arr) || doc->Arr_0.len() < 3 {
                Err(DecodeError::ShortEnvelope)
            } else {
                match command_of(doc->Arr_0[2]) {
                    Some(c) => Ok(c),
                    None => Err(DecodeError::InvalidCommandShape),
                }
            },
        }
    }
}

/// Relies on `core::str::from_utf8`: succeeds exactly on valid UTF-8 and
/// yields the text those bytes encode.
#[verifier::external_body]
fn frame_as_utf8(bytes: &[u8]) -> (r: Option<&str>)
    ensures
        r is Some <==> valid_utf8(bytes@),
        r matches Some(s) ==> s@ == decode_utf8(bytes@),
{
    core::str::from_utf8(bytes).ok()
}

/// Read an optional integer field of a command object.
fn extract_opt_i64(obj: &serde_json::Value, key: &str) -> (r: Result<Option<i64>, DecodeError>)
    requires
        value_model(*obj) is Obj,
    ensures
        match r {
            Ok(x) => opt_i64_field(value_model(*obj)->Obj_0, key@) == Some(x),
            Err(e) => opt_i64_field(value_model(*obj)->Obj_0, key@) is None && e
                == DecodeError::InvalidCommandShape,
        },
{
    match value_get(obj, key) {
        None => Ok(None),
        Some(f) => {
            if value_is_null(f) {
                Ok(None)
            } else {
                match value_as_i64(f) {
                    Some(n) => Ok(Some(n)),
                    None => Err(DecodeError::InvalidCommandShape),
                }
            }
        },
    }
}

/// Read an optional string field of a command object.
fn extract_opt_text(obj: &serde_json::Value, key: &str) -> (r: Result<
    Option<String>,
    DecodeError,
>)
    requires
        value_model(*obj) is Obj,
    ensures
        match r {
            Ok(x) => opt_text_field(value_model(*obj)->Obj_0, key@) == Some(opt_string_view(x)),
            Err(e) => opt_text_field(value_model(*obj)->Obj_0, key@) is None && e
                == DecodeError::InvalidCommandShape,
        },
{
    match value_get(obj, key) {
        None => Ok(None),
        Some(f) => {
            if value_is_null(f) {
                Ok(None)
            } else {
                match value_as_str(f) {
                    Some(s) => Ok(Some(s.to_owned())),
                    None => Err(DecodeError::InvalidCommandShape),
                }
            }
        },
    }
}

/// Extract the command that a JSON value describes, exactly when it has the
/// command shape.
fn extract_command(v: &serde_json::Value) -> (r: Result<DecodedCommand, DecodeError>)
    ensures
        match r {
            Ok(c) => command_of(value_model(*v)) == Some(c@),
            Err(e) => command_of(value_model(*v)) is None && e == DecodeError::InvalidCommandShape,
        },
{
    let text_field = match value_get(v, "text") {
        Some(f) => f,
        None => {
            return Err(DecodeError::InvalidCommandShape);
        },
    };
    let text = match value_as_str(text_field) {
        Some(s) => s.to_owned(),
        None => {
            return Err(DecodeError::InvalidCommandShape);
        },
    };
    let destination_chat_id = match extract_opt_i64(v, "chat_id") {
        Ok(x) => x,
        Err(e) => {
            return Err(e);
        },
    };
    let subscriber_list_name = match extract_opt_text(v, "subscriber_list") {
        Ok(x) => x,
        Err(e) => {
            return Err(e);
        },
    };
    let image_path = match extract_opt_text(v, "image_path") {
        Ok(x) => x,
        Err(e) => {
            return Err(e);
        },
    };
    Ok(DecodedCommand { destination_chat_id, subscriber_list_name, text, image_path })
}

/// Decode one raw multi-frame message into a command, reporting exactly why a
/// message is rejected. Pure: the result depends on the frame bytes alone.
pub fn decode(frames: &Vec<Vec<u8>>) -> (r: Result<DecodedCommand, DecodeError>)
    ensures
        match r {
            Ok(c) => decode_model(frames.deep_view()) == Ok::<CommandModel, DecodeError>(c@),
            Err(e) => decode_model(frames.deep_view()) == Err::<CommandModel, DecodeError>(e),
        },
{
    if frames.len() < 2 {
        return Err(DecodeError::TooFewFrames);
    }
    proof {
        assert(frames.deep_view()[1] =~= frames@[1]@);
    }
    let payload = match frame_as_utf8(frames[1].as_slice()) {
        Some(s) => s,
        None => {
            return Err(DecodeError::InvalidEncoding);
        },
    };
    let doc = match parse_json(payload) {
        Some(d) => d,
        None => {
            return Err(DecodeError::MalformedJson);
        },
    };
    let items = match value_as_array(&doc) {
        Some(a) => a,
        None => {
            return Err(DecodeError::ShortEnvelope);
        },
    };
    if items.len() < 3 {
        return Err(DecodeError::ShortEnvelope);
    }
    extract_command(&items[2])
}

/// Any message of fewer than two frames is rejected for exactly that reason.
pub proof fn lemma_too_few_frames_rejected(frames: Seq<Seq<u8>>)
    requires
        frames.len() < 2,
    ensures
        decode_model(frames) == Err::<CommandModel, DecodeError>(DecodeError::TooFewFrames),
{
}

/// A command object with only the required `text` member decodes with every
/// optional field at its default, `None`.
pub proof fn lemma_absent_fields_default(j: Json)
    requires
        j is Obj,
        j->Obj_0.contains_key("text"@),
        j->Obj_0["text"@] is Text,
        !j->Obj_0.contains_key("chat_id"@),
        !j->Obj_0.contains_key("subscriber_list"@),
        !j->Obj_0.contains_key("image_path"@),
    ensures
        command_of(j) == Some(
            CommandModel {
                destination_chat_id: None,
                subscriber_list_name: None,
                text: j->Obj_0["text"@]->Text_0,
                image_path: None,
            },
        ),
{
}

/// A payload that is a JSON array of at least three elements whose element at
/// index 2 has the command shape always decodes successfully, to that command.
pub proof fn lemma_well_formed_payload_decodes(frames: Seq<Seq<u8>>, doc: Json, c: CommandModel)
    requires
        frames.len() >= 2,
        valid_utf8(frames[1]),
        json_of(decode_utf8(frames[1])) == Some(doc),
        doc is Arr,
        doc->Arr_0.len() >= 3,
        command_of(doc->Arr_0[2]) == Some(c),
    ensures
        decode_model(frames) == Ok::<CommandModel, DecodeError>(c),
{
}

} // verus!
