use openai_chat::ApiError;
use openai_chat::Message;
use openai_chat::Model;
use openai_chat::Openai;

#[test]
fn test_model_format() {
    assert_eq!(Model::Gpt35Turbo.format(), "gpt-3.5-turbo");
    assert_eq!(Model::Gpt35Turbo16k.format(), "gpt-3.5-turbo-16k");
    assert_eq!(Model::Gpt35TurboInstruct.format(), "gpt-3.5-turbo-instruct");
    assert_eq!(Model::Gpt35Turbo1106.format(), "gpt-3.5-turbo-1106");
    assert_eq!(Model::Gpt41106Preview.format(), "gpt-4-1106-preview");
    assert_eq!(Model::Gpt4.format(), "gpt-4");
    assert_eq!(Model::Gpt432k.format(), "gpt-4-32k");
    assert_eq!(Model::Gpt4Instruct.format(), "gpt-4-instruct");
    assert_eq!(Model::Gpt432k0613.format(), "gpt-4-32k-0613");
}

#[test]
fn test_openai_new() {
    let openai = Openai::new("test_api_key".to_string(), Model::Gpt4);
    assert_eq!(openai.api_key(), "test_api_key");
    assert_eq!(openai.model().format(), "gpt-4");
}

#[test]
fn format_is_deterministic_and_injective() {
    let all = [
        Model::Gpt35Turbo,
        Model::Gpt35Turbo16k,
        Model::Gpt35TurboInstruct,
        Model::Gpt35Turbo1106,
        Model::Gpt41106Preview,
        Model::Gpt4,
        Model::Gpt432k,
        Model::Gpt4Instruct,
        Model::Gpt432k0613,
    ];
    for m in all.iter() {
        let first = m.format();
        let second = m.format();
        assert_eq!(first, second);
        assert!(!first.is_empty());
        assert!(first.starts_with("gpt-"));
        assert!(first
            .chars()
            .all(|c| c.is_ascii_lowercase() || c.is_ascii_digit() || c == '.' || c == '-'));
    }
    for (i, a) in all.iter().enumerate() {
        for (j, b) in all.iter().enumerate() {
            if i != j {
                assert_ne!(a.format(), b.format());
            }
        }
    }
}

#[test]
fn new_accepts_empty_key_and_stores_fields() {
    let openai = Openai::new(String::new(), Model::Gpt35Turbo16k);
    assert_eq!(openai.api_key(), "");
    assert_eq!(openai.model().format(), Model::Gpt35Turbo16k.format());
}

#[test]
fn request_body_exact_for_one_message() {
    let openai = Openai::new("k".to_string(), Model::Gpt4);
    let messages = vec![Message {
        role: "user".to_string(),
        content: "Hello, I'm a user!".to_string(),
    }];
    assert_eq!(
        openai.request_body(&messages),
        "{\"model\":\"gpt-4\",\"messages\":[{\"role\":\"user\",\"content\":\"Hello, I'm a user!\"}]}"
    );
}

#[test]
fn request_body_preserves_message_order() {
    let openai = Openai::new("k".to_string(), Model::Gpt35Turbo);
    let messages = vec![
        Message {
            role: "system".to_string(),
            content: "be brief".to_string(),
        },
        Message {
            role: "user".to_string(),
            content: "hi".to_string(),
        },
        Message {
            role: "assistant".to_string(),
            content: "hello".to_string(),
        },
    ];
    let body = openai.request_body(&messages);
    assert_eq!(
        body,
        "{\"model\":\"gpt-3.5-turbo\",\"messages\":[\
         {\"role\":\"system\",\"content\":\"be brief\"},\
         {\"role\":\"user\",\"content\":\"hi\"},\
         {\"role\":\"assistant\",\"content\":\"hello\"}]}"
    );
    let parsed: serde_json::Value = serde_json::from_str(&body).unwrap();
    let roles: Vec<&str> = parsed["messages"]
        .as_array()
        .unwrap()
        .iter()
        .map(|m| m["role"].as_str().unwrap())
        .collect();
    assert_eq!(roles, ["system", "user", "assistant"]);
}

#[test]
fn request_body_empty_conversation() {
    let openai = Openai::new("k".to_string(), Model::Gpt432k);
    let messages: Vec<Message> = vec![];
    assert_eq!(
        openai.request_body(&messages),
        "{\"model\":\"gpt-4-32k\",\"messages\":[]}"
    );
}

#[test]
fn request_body_escapes_like_standard_json() {
    let openai = Openai::new("k".to_string(), Model::Gpt4);
    let messages = vec![Message {
        role: "user".to_string(),
        content: "a\"b\\c\nd\te\u{1}f".to_string(),
    }];
    let body = openai.request_body(&messages);
    assert_eq!(
        body,
        "{\"model\":\"gpt-4\",\"messages\":[{\"role\":\"user\",\
         \"content\":\"a\\\"b\\\\c\\nd\\te\\u0001f\"}]}"
    );
    let parsed: serde_json::Value = serde_json::from_str(&body).unwrap();
    assert_eq!(
        parsed["messages"][0]["content"].as_str().unwrap(),
        "a\"b\\c\nd\te\u{1}f"
    );
}

#[test]
fn endpoint_and_auth_header() {
    assert_eq!(
        Openai::endpoint_url(),
        "https://api.openai.com/v1/chat/completions"
    );
    let openai = Openai::new("test_api_key".to_string(), Model::Gpt4);
    assert_eq!(openai.auth_header_value(), "Bearer test_api_key");
}

#[test]
fn transport_failure_is_a_transport_error() {
    let r = Openai::interpret_response(Err("connection refused".to_string()));
    match r {
        Err(ApiError::Transport(m)) => assert_eq!(m, "connection refused"),
        _ => panic!("expected a transport error"),
    }
}

#[test]
fn ok_body_is_returned_unchanged() {
    let r = Openai::interpret_response(Ok("{\"choices\":[]}".to_string()));
    let v = r.unwrap();
    let expected: serde_json::Value = serde_json::from_str("{\"choices\":[]}").unwrap();
    assert_eq!(v, expected);
    assert!(v["choices"].as_array().unwrap().is_empty());
}

#[test]
fn error_body_is_still_a_success() {
    let body = "{\"error\":{\"message\":\"rate limited\"}}";
    let r = Openai::interpret_response(Ok(body.to_string()));
    let v = r.unwrap();
    let expected: serde_json::Value = serde_json::from_str(body).unwrap();
    assert_eq!(v, expected);
    assert_eq!(v["error"]["message"].as_str().unwrap(), "rate limited");
}

#[test]
fn non_json_body_is_a_decode_error() {
    let empty = Openai::interpret_response(Ok(String::new()));
    assert!(matches!(empty, Err(ApiError::Decode)));
    let malformed = Openai::interpret_response(Ok("not json {".to_string()));
    assert!(matches!(malformed, Err(ApiError::Decode)));
}
