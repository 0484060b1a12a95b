use gitter::models::{OutMessage, User};
use serde_json::Value;

fn text(object: &Value, field: &str) -> String {
    object[field].as_str().unwrap().to_string()
}

/// Reads a user out of a decoded JSON object, field by field.
fn user_from(object: &Value) -> User {
    User {
        id: text(object, "id"),
        username: text(object, "username"),
        display_name: text(object, "displayName"),
        url: text(object, "url"),
        avatar_url_small: text(object, "avatarUrlSmall"),
        avatar_url_medium: text(object, "avatarUrlMedium"),
    }
}

/// Writes an outgoing message as a JSON object.
fn out_message_json(message: &OutMessage) -> Value {
    let mut object = serde_json::Map::new();
    object.insert("text".to_string(), Value::String(message.text.clone()));
    Value::Object(object)
}

#[test]
fn deserialize_user() {
    let user_json_str = "[{
  \"id\": \"53307734c3599d1de448e192\",
  \"username\": \"malditogeek\",
  \"displayName\": \"Mauro Pompilio\",
  \"url\": \"/malditogeek\",
  \"avatarUrlSmall\": \"https://avatars.githubusercontent.com/u/14751?\",
  \"avatarUrlMedium\": \"https://avatars.githubusercontent.com/u/14751?\"
}]";

    let decoded = serde_json::from_str::<Value>(user_json_str).unwrap();
    let user: Vec<User> = decoded.as_array().unwrap().iter().map(user_from).collect();

    assert_eq!("53307734c3599d1de448e192", user[0].id);
}

#[test]
fn serialize_out_message() {
    let out_msg = OutMessage { text: "test `message` from @shmutalov".to_string() };
    let out_msg_expected = "{\"text\":\"test `message` from @shmutalov\"}";
    let out_msg_json = serde_json::to_string(&out_message_json(&out_msg)).unwrap();

    assert_eq!(&out_msg_expected, &out_msg_json);
}
