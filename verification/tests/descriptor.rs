use botapi::{
    CanSendChatAction, Chat, ChatAction, ChatId, Params, Request, SendChatAction, WireValue,
};

fn params_to_json(p: &Params) -> serde_json::Value {
    let mut map = serde_json::Map::new();
    let mut i = 0;
    while i < p.len() {
        let pair = p.get(i);
        let value = match &pair.1 {
            WireValue::Int(n) => serde_json::Value::Number(serde_json::Number::from(*n)),
            WireValue::Str(s) => serde_json::Value::String(s.clone()),
            WireValue::Bool(b) => serde_json::Value::Bool(*b),
        };
        map.insert(pair.0.clone(), value);
        i += 1;
    }
    serde_json::Value::Object(map)
}

#[test]
fn endpoint_name() {
    assert_eq!(SendChatAction::name(), "sendChatAction");
}

#[test]
fn mapper_discards_truthy_marker() {
    assert_eq!(SendChatAction::map(true), ());
    assert_eq!(SendChatAction::map(false), ());
}

#[test]
fn new_from_numeric_id() {
    let d = SendChatAction::new(&123i64, ChatAction::Typing);
    assert_eq!(d.chat_id, ChatId::Id(123));
    assert_eq!(d.action, ChatAction::Typing);
}

#[test]
fn new_from_username() {
    let d = SendChatAction::new(&String::from("durov"), ChatAction::UploadPhoto);
    assert_eq!(d.chat_id, ChatId::Username(String::from("durov")));
    assert_eq!(d.action, ChatAction::UploadPhoto);
}

#[test]
fn chat_action_capability() {
    let d = 42i64.chat_action(ChatAction::RecordVideo);
    assert_eq!(d.chat_id, ChatId::Id(42));
    assert_eq!(d.action, ChatAction::RecordVideo);

    let chat = Chat { id: 9 };
    let d = chat.chat_action(ChatAction::Typing);
    assert_eq!(d.chat_id, ChatId::Id(9));

    let d = ChatId::from_username(String::from("durov")).chat_action(ChatAction::Typing);
    assert_eq!(d.chat_id, ChatId::Username(String::from("durov")));
}

#[test]
fn action_wire_table() {
    assert_eq!(ChatAction::Typing.wire_str(), "typing");
    assert_eq!(ChatAction::UploadPhoto.wire_str(), "upload_photo");
    assert_eq!(ChatAction::RecordVideo.wire_str(), "record_video");
    assert_eq!(ChatAction::UploadVideo.wire_str(), "upload_video");
    assert_eq!(ChatAction::RecordAudio.wire_str(), "record_audio");
    assert_eq!(ChatAction::UploadAudio.wire_str(), "upload_audio");
    assert_eq!(ChatAction::UploadDocument.wire_str(), "upload_document");
    assert_eq!(ChatAction::FindLocation.wire_str(), "find_location");
}

#[test]
fn round_trip_parameter_names() {
    let d = SendChatAction::new(&123i64, ChatAction::Typing);
    let params = d.to_params();
    let encoded = serde_json::to_string(&params_to_json(&params)).unwrap();
    let decoded: serde_json::Value = serde_json::from_str(&encoded).unwrap();
    let obj = decoded.as_object().unwrap();
    assert_eq!(obj.len(), 2);
    assert_eq!(obj.get("chat_id"), Some(&serde_json::Value::Number(123.into())));
    assert_eq!(
        obj.get("action"),
        Some(&serde_json::Value::String(String::from("typing")))
    );
}

#[test]
fn round_trip_parameter_names_username() {
    let d = SendChatAction::new(&String::from("durov"), ChatAction::FindLocation);
    let params = d.to_params();
    let encoded = serde_json::to_string(&params_to_json(&params)).unwrap();
    let decoded: serde_json::Value = serde_json::from_str(&encoded).unwrap();
    let obj = decoded.as_object().unwrap();
    assert_eq!(obj.len(), 2);
    assert_eq!(
        obj.get("chat_id"),
        Some(&serde_json::Value::String(String::from("durov")))
    );
    assert_eq!(
        obj.get("action"),
        Some(&serde_json::Value::String(String::from("find_location")))
    );
}

#[test]
fn chat_id_wire_forms_exclusive() {
    let numeric = ChatId::from_id(5).wire_value();
    let named = ChatId::from_username(String::from("durov")).wire_value();
    assert!(matches!(numeric, WireValue::Int(5)));
    assert!(matches!(named, WireValue::Str(ref s) if s == "durov"));
    assert!(!matches!(numeric, WireValue::Str(_)));
    assert!(!matches!(named, WireValue::Int(_)));
}
