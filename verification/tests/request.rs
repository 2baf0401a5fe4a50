use scoop::config::{load_credentials, parse_credentials, read_credentials, CONFIG_FILE};
use scoop::conversation::Conversation;
use scoop::error::{StartupError, TurnError};
use scoop::json::{parse, Json};
use scoop::message::{copy_messages, Message, Role};
use scoop::request::{
    authorization, build_request, Credentials, RequestConfig, DEFAULT_ENDPOINT, DEFAULT_MODEL,
    MAX_TOKENS,
};

fn credentials(key: &str, secret: &str) -> Credentials {
    Credentials { key: key.to_string(), secret: secret.to_string() }
}

#[test]
fn authorization_joins_key_and_secret() {
    assert_eq!(authorization(&credentials("k", "s")), Ok("Bearer k:s".to_string()));
    assert_eq!(
        authorization(&credentials("abc123", "S3cr3t/+=")),
        Ok("Bearer abc123:S3cr3t/+=".to_string())
    );
    assert_eq!(authorization(&credentials("", "")), Ok("Bearer :".to_string()));
}

#[test]
fn authorization_takes_tabs_spaces_and_bytes_above_ascii() {
    assert_eq!(authorization(&credentials("a b", "c\td")), Ok("Bearer a b:c\td".to_string()));
    assert_eq!(authorization(&credentials("\u{e9}", "~")), Ok("Bearer \u{e9}:~".to_string()));
}

#[test]
fn authorization_fails_on_control_characters() {
    assert_eq!(authorization(&credentials("k\n", "s")), Err(TurnError::RequestBuild));
    assert_eq!(authorization(&credentials("k", "s\r")), Err(TurnError::RequestBuild));
    assert_eq!(authorization(&credentials("\u{0}", "s")), Err(TurnError::RequestBuild));
    assert_eq!(authorization(&credentials("k", "\u{7f}")), Err(TurnError::RequestBuild));
    assert_eq!(authorization(&credentials("k", "\u{1f}")), Err(TurnError::RequestBuild));
}

#[test]
fn default_config_names_model_and_endpoint() {
    let config = RequestConfig::default();
    assert_eq!(config.model, "generalv3.5");
    assert_eq!(config.endpoint, "https://spark-api-open.xf-yun.com/v1/chat/completions");
    assert_eq!(DEFAULT_MODEL, "generalv3.5");
    assert_eq!(DEFAULT_ENDPOINT, "https://spark-api-open.xf-yun.com/v1/chat/completions");
    assert_eq!(MAX_TOKENS, 4096);
}

#[test]
fn build_request_copies_the_conversation() {
    let mut conversation = Conversation::new();
    conversation.append(Message::user("q1".to_string()));
    conversation.append(Message::assistant("a1".to_string()));
    conversation.append(Message::user("q2".to_string()));
    let request = build_request(&RequestConfig::default(), &conversation);
    assert_eq!(request.model, "generalv3.5");
    assert_eq!(request.max_tokens, 4096);
    assert!(request.stream);
    let listed: Vec<(Role, &str)> =
        request.messages.iter().map(|message| (message.role, message.content.as_str())).collect();
    assert_eq!(listed, vec![(Role::User, "q1"), (Role::Assistant, "a1"), (Role::User, "q2")]);
    conversation.clear();
    assert_eq!(request.messages.len(), 3);
}

#[test]
fn build_request_of_an_empty_conversation_has_no_messages() {
    let request = build_request(&RequestConfig::default(), &Conversation::new());
    assert!(request.messages.is_empty());
}

#[test]
fn conversation_keeps_what_is_appended_in_order() {
    let mut conversation = Conversation::new();
    assert!(conversation.is_empty());
    assert_eq!(conversation.len(), 0);
    conversation.append(Message::user("a".to_string()));
    conversation.append(Message::user("b".to_string()));
    conversation.append(Message::assistant("c".to_string()));
    assert_eq!(conversation.len(), 3);
    assert!(!conversation.is_empty());
    let snapshot = conversation.snapshot();
    assert_eq!(snapshot.len(), 3);
    assert_eq!(snapshot[0].content, "a");
    assert_eq!(snapshot[1].role, Role::User);
    assert_eq!(snapshot[1].content, "b");
    assert_eq!(snapshot[2].role, Role::Assistant);
    assert_eq!(conversation.messages()[2].content, "c");
    conversation.clear();
    assert!(conversation.is_empty());
    assert_eq!(conversation.snapshot().len(), 0);
    assert_eq!(snapshot.len(), 3);
}

#[test]
fn copy_messages_copies_each_message() {
    let messages = vec![Message::user("a".to_string()), Message::assistant("b".to_string())];
    let copy = copy_messages(&messages);
    assert_eq!(copy.len(), 2);
    assert_eq!((copy[0].role, copy[0].content.as_str()), (Role::User, "a"));
    assert_eq!((copy[1].role, copy[1].content.as_str()), (Role::Assistant, "b"));
}

#[test]
fn credentials_are_read_from_the_configuration() {
    let found = parse_credentials("{\"sd_apikey\":\"k1\",\"sd_apisecret\":\"s1\"}").unwrap();
    assert_eq!(found.key, "k1");
    assert_eq!(found.secret, "s1");
    let spaced =
        parse_credentials("{\n  \"sd_apisecret\": \"s2\",\n  \"note\": 1,\n  \"sd_apikey\": \"k2\"\n}\n")
            .unwrap();
    assert_eq!(spaced.key, "k2");
    assert_eq!(spaced.secret, "s2");
}

#[test]
fn configuration_without_both_strings_is_malformed() {
    for text in [
        "",
        "not json",
        "{}",
        "{\"sd_apikey\":\"k\"}",
        "{\"sd_apisecret\":\"s\"}",
        "{\"sd_apikey\":1,\"sd_apisecret\":\"s\"}",
        "{\"sd_apikey\":\"k\",\"sd_apisecret\":null}",
        "{\"key\":\"k\",\"secret\":\"s\"}",
        "[\"k\",\"s\"]",
        "\"k\"",
    ] {
        assert_eq!(parse_credentials(text).err(), Some(StartupError::ConfigMalformed), "{text}");
    }
}

#[test]
fn read_credentials_works_on_a_value_built_by_hand() {
    let document = Json::Object(vec![
        ("sd_apikey".to_string(), Json::Text("k".to_string())),
        ("sd_apisecret".to_string(), Json::Text("s".to_string())),
    ]);
    let found = read_credentials(&document).unwrap();
    assert_eq!((found.key.as_str(), found.secret.as_str()), ("k", "s"));
    assert!(read_credentials(&parse("{\"sd_apikey\":\"k\"}").unwrap()).is_none());
    assert!(read_credentials(&Json::Null).is_none());
}

#[test]
fn missing_configuration_is_told_apart_from_a_malformed_one() {
    assert_eq!(load_credentials(None).err(), Some(StartupError::ConfigMissing));
    assert_eq!(load_credentials(Some("{}")).err(), Some(StartupError::ConfigMalformed));
    let found = load_credentials(Some("{\"sd_apikey\":\"k\",\"sd_apisecret\":\"s\"}")).unwrap();
    assert_eq!((found.key.as_str(), found.secret.as_str()), ("k", "s"));
    assert!(!StartupError::ConfigMissing.is_fatal());
    assert!(StartupError::ConfigMalformed.is_fatal());
    assert_eq!(CONFIG_FILE, ".config/scoop/config.json");
}
