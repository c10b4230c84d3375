use ask_ai::ask_ai::{
    anthropic_answer, anthropic_request, conclude_question, openai_answer, openai_request,
    prepare_question, HttpReply, Outbound, Reply,
};
use ask_ai::config::{AiConfig, AiPrompt, Framework, Question};
use ask_ai::error::AppError;
use serde_json::Value;

fn header<'a>(headers: &'a [(String, String)], name: &str) -> Option<&'a str> {
    headers
        .iter()
        .find(|(n, _)| n == name)
        .map(|(_, v)| v.as_str())
}

#[test]
fn openai_reqwest_httpmock_success() {
    let ai_config = AiConfig {
        llm: Framework::OpenAI,
        model: "gpt-3.5-turbo".to_string(),
        max_token: Some(1000),
    };
    let question = Question {
        system_prompt: None,
        messages: None,
        new_prompt: "Say something, please.".to_string(),
    };
    let endpoint = format!("{}/v1/chat/completions", "http://127.0.0.1:5000");

    let call = prepare_question(
        &ai_config,
        &question,
        Ok("open_api_testkey".to_string()),
        Some(endpoint.clone()),
    )
    .expect("Should succeed");
    let request = match call {
        Outbound::Http(request) => request,
        other => panic!("Expected an HTTP request, got {:?}", other),
    };
    assert_eq!(request.url, endpoint);
    assert_eq!(
        header(&request.headers, "Authorization"),
        Some("Bearer open_api_testkey")
    );
    assert_eq!(
        header(&request.headers, "Content-Type"),
        Some("application/json")
    );
    assert!(request.body.contains("Say something, please."));

    let reply = HttpReply::Received {
        status: 200,
        body: r#"{
                "choices": [
                    { "message": { "content": "Hello from OpenAI (mock)!" } }
                ]
            }"#
        .to_string(),
    };
    let answer = conclude_question(&ai_config, Reply::Http(reply)).expect("Should succeed");
    assert_eq!(answer, "Hello from OpenAI (mock)!");
}

#[test]
fn anthropic_reqwest_httpmock_success() {
    let ai_config = AiConfig {
        llm: Framework::Anthropic,
        model: "anthropic-2".to_string(),
        max_token: Some(80),
    };
    let question = Question {
        system_prompt: Some("You are friendly.".to_string()),
        messages: None,
        new_prompt: "Anthropic question!".to_string(),
    };
    let endpoint = format!("{}/v1/messages", "http://127.0.0.1:5000");

    let call = prepare_question(
        &ai_config,
        &question,
        Ok("anthropic_testkey".to_string()),
        Some(endpoint.clone()),
    )
    .expect("Should succeed");
    let request = match call {
        Outbound::Http(request) => request,
        other => panic!("Expected an HTTP request, got {:?}", other),
    };
    assert_eq!(request.url, endpoint);
    assert_eq!(header(&request.headers, "x-api-key"), Some("anthropic_testkey"));
    assert_eq!(header(&request.headers, "anthropic-version"), Some("2023-06-01"));
    assert_eq!(
        header(&request.headers, "content-type"),
        Some("application/json")
    );
    assert!(request.body.contains("Anthropic question!"));

    let payload: Value = serde_json::from_str(&request.body).expect("the body is JSON");
    assert_eq!(payload["system"], "You are friendly.");
    let messages = payload["messages"].as_array().expect("messages");
    let last = messages.last().expect("a final message");
    assert_eq!(last["content"][0]["type"], "text");
    assert_eq!(last["content"][0]["text"], "Anthropic question!");

    let reply = HttpReply::Received {
        status: 200,
        body: r#"{
                "content": [
                    { "text": "Answers from Anthropic (mock)!" }
                ]
            }"#
        .to_string(),
    };
    let answer = conclude_question(&ai_config, Reply::Http(reply)).expect("Should succeed");
    assert_eq!(answer, "Answers from Anthropic (mock)!");
}

#[test]
fn openai_reqwest_httpmock_error() {
    let ai_config = AiConfig {
        llm: Framework::OpenAI,
        model: "gpt-3.5-turbo".to_string(),
        max_token: Some(1000),
    };
    let reply = HttpReply::Received {
        status: 401,
        body: r#"{ "error": "unauthorized" }"#.to_string(),
    };
    match conclude_question(&ai_config, Reply::Http(reply)) {
        Err(AppError::ApiError {
            model_name,
            failure_str,
        }) => {
            assert_eq!(model_name, "openai");
            assert!(failure_str.contains("Status 401"));
            assert_eq!(
                failure_str,
                r#"Status 401 Unauthorized: { "error": "unauthorized" }"#
            );
        }
        other => panic!("Expected AppError::ApiError, got {:?}", other),
    };
}

#[test]
fn anthropic_reqwest_httpmock_error_model_parse() {
    let ai_config = AiConfig {
        llm: Framework::Anthropic,
        model: "anthropic-2".to_string(),
        max_token: Some(80),
    };
    let reply = HttpReply::Received {
        status: 200,
        body: r#"{
                "content": []
            }"#
        .to_string(),
    };
    match conclude_question(&ai_config, Reply::Http(reply)) {
        Err(AppError::ModelError {
            model_name,
            failure_str,
        }) => {
            assert_eq!(model_name, "anthropic-2");
            assert!(failure_str.contains("Failed to extract content"));
        }
        other => panic!("Expected AppError::ModelError, got {:?}", other),
    };
}

#[test]
fn anthropic_error_unsupported_model_httpmock() {
    let model_name = "anthropic-nonexistent-model";
    let body = format!(
        r#"{{
            "type": "error",
            "error": {{
                "type": "model_not_supported",
                "message": "Model not supported: {}"
            }}
        }}"#,
        model_name
    );
    let ai_config = AiConfig {
        llm: Framework::Anthropic,
        model: model_name.to_string(),
        max_token: Some(256),
    };
    let question = Question {
        system_prompt: None,
        messages: None,
        new_prompt: "Will this fail?".to_string(),
    };
    let request = anthropic_request(
        &question,
        &ai_config,
        Ok("fake_anthropic_key".to_string()),
        None,
    )
    .expect("a request");
    assert_eq!(header(&request.headers, "x-api-key"), Some("fake_anthropic_key"));

    let err = anthropic_answer(&ai_config, HttpReply::Received { status: 400, body })
        .err()
        .expect("Should fail for unsupported model");
    match err {
        AppError::ApiError {
            model_name: n,
            failure_str,
        } => {
            assert_eq!(n, "anthropic");
            assert!(
                failure_str.contains("model_not_supported")
                    || failure_str.contains("Model not supported"),
                "failure_str: {}",
                failure_str
            );
        }
        other => panic!("Expected AppError::ApiError, got {:?}", other),
    }
}

#[test]
fn replicate_get_anthropic_response_step_by_step() {
    let ai_config = AiConfig {
        llm: Framework::Anthropic,
        model: "anthropic-2".to_string(),
        max_token: Some(256),
    };
    let question = Question {
        system_prompt: Some("You are a test system.".to_string()),
        messages: Some(vec![
            AiPrompt {
                content: "Hello, assistant!".into(),
                output: "Hi there, user!".into(),
            },
            AiPrompt {
                content: "What's up?".into(),
                output: "Answer.".into(),
            },
        ]),
        new_prompt: "Why is the sky blue?".into(),
    };
    let request = anthropic_request(&question, &ai_config, Ok("key".to_string()), None)
        .expect("a request");
    assert_eq!(request.url, "https://api.anthropic.com/v1/messages");

    let payload: Value = serde_json::from_str(&request.body).expect("the body is JSON");
    let messages = payload["messages"].as_array().expect("messages");
    assert_eq!(messages.len(), 5);
    assert_eq!(messages[0]["role"], "user");
    assert_eq!(messages[1]["role"], "assistant");
    assert_eq!(messages[2]["role"], "user");
    assert_eq!(messages[3]["role"], "assistant");
    assert_eq!(messages[4]["role"], "user");
    assert_eq!(messages[0]["content"][0]["text"], "Hello, assistant!");
    assert_eq!(messages[1]["content"][0]["text"], "Hi there, user!");
    assert_eq!(messages[4]["content"][0]["text"], "Why is the sky blue?");
    assert!(payload["system"].as_str().unwrap().contains("test system"));
    assert_eq!(payload["model"], "anthropic-2");
    assert_eq!(payload["max_tokens"], 256);
    assert_eq!(payload["system"], "You are a test system.");
}

#[test]
fn openai_payload_lists_system_history_and_prompt() {
    let ai_config = AiConfig {
        llm: Framework::OpenAI,
        model: "gpt-4".to_string(),
        max_token: None,
    };
    let question = Question {
        system_prompt: Some("Be brief.".to_string()),
        messages: Some(vec![AiPrompt {
            content: "Hi".into(),
            output: "Hello".into(),
        }]),
        new_prompt: "Bye".into(),
    };
    let request = openai_request(&question, &ai_config, Ok("k".to_string()), None)
        .expect("a request");
    assert_eq!(request.url, "https://api.openai.com/v1/chat/completions");
    let payload: Value = serde_json::from_str(&request.body).expect("the body is JSON");
    assert_eq!(payload["model"], "gpt-4");
    let messages = payload["messages"].as_array().expect("messages");
    let pairs: Vec<(String, String)> = messages
        .iter()
        .map(|m| {
            (
                m["role"].as_str().unwrap().to_string(),
                m["content"].as_str().unwrap().to_string(),
            )
        })
        .collect();
    assert_eq!(
        pairs,
        vec![
            ("system".to_string(), "Be brief.".to_string()),
            ("user".to_string(), "Hi".to_string()),
            ("assistant".to_string(), "Hello".to_string()),
            ("user".to_string(), "Bye".to_string()),
        ]
    );
}

#[test]
fn openai_body_is_exact_text() {
    let ai_config = AiConfig {
        llm: Framework::OpenAI,
        model: "m".to_string(),
        max_token: None,
    };
    let question = Question {
        system_prompt: None,
        messages: None,
        new_prompt: "say \"hi\"".into(),
    };
    let request = openai_request(&question, &ai_config, Ok("k".to_string()), None)
        .expect("a request");
    assert_eq!(
        request.body,
        r#"{"model":"m","messages":[{"role":"system","content":""},{"role":"user","content":"say \"hi\""}]}"#
    );
}

#[test]
fn anthropic_body_is_exact_text_with_default_tokens() {
    let ai_config = AiConfig {
        llm: Framework::Anthropic,
        model: "anthropic-2".to_string(),
        max_token: None,
    };
    let question = Question {
        system_prompt: None,
        messages: None,
        new_prompt: "".into(),
    };
    let request = anthropic_request(&question, &ai_config, Ok("k".to_string()), None)
        .expect("a request");
    assert_eq!(
        request.body,
        r#"{"model":"anthropic-2","max_tokens":1024,"messages":[{"role":"user","content":[{"type":"text","text":"."}]}],"system":""}"#
    );
}

#[test]
fn missing_credential_is_api_error() {
    let ai_config = AiConfig {
        llm: Framework::OpenAI,
        model: "gpt-4".to_string(),
        max_token: None,
    };
    let question = Question {
        system_prompt: None,
        messages: None,
        new_prompt: "hi".into(),
    };
    match openai_request(&question, &ai_config, Err("environment variable not found".into()), None) {
        Err(AppError::ApiError {
            model_name,
            failure_str,
        }) => {
            assert_eq!(model_name, "openai");
            assert_eq!(
                failure_str,
                "Missing or invalid OPENAI_API_KEY: environment variable not found"
            );
        }
        other => panic!("Expected AppError::ApiError, got {:?}", other),
    }
    let ai_config = AiConfig {
        llm: Framework::Anthropic,
        model: "anthropic-2".to_string(),
        max_token: None,
    };
    match prepare_question(&ai_config, &question, Err("gone".into()), None) {
        Err(AppError::ApiError {
            model_name,
            failure_str,
        }) => {
            assert_eq!(model_name, "anthropic");
            assert_eq!(failure_str, "Missing or invalid ANTHROPIC_API_KEY: gone");
        }
        other => panic!("Expected AppError::ApiError, got {:?}", other),
    }
}

#[test]
fn transport_failure_is_api_error() {
    let ai_config = AiConfig {
        llm: Framework::OpenAI,
        model: "gpt-4".to_string(),
        max_token: None,
    };
    match openai_answer(&ai_config, HttpReply::Failed("connection refused".into())) {
        Err(AppError::ApiError {
            model_name,
            failure_str,
        }) => {
            assert_eq!(model_name, "openai");
            assert_eq!(failure_str, "Request error: connection refused");
        }
        other => panic!("Expected AppError::ApiError, got {:?}", other),
    }
}

#[test]
fn unparsable_success_body_is_model_error() {
    let ai_config = AiConfig {
        llm: Framework::OpenAI,
        model: "gpt-4".to_string(),
        max_token: None,
    };
    let reply = HttpReply::Received {
        status: 200,
        body: "not json".into(),
    };
    match openai_answer(&ai_config, reply) {
        Err(AppError::ModelError {
            model_name,
            failure_str,
        }) => {
            assert_eq!(model_name, "gpt-4");
            assert!(failure_str.starts_with("Failed to parse JSON response: "));
            assert!(failure_str.len() > "Failed to parse JSON response: ".len());
        }
        other => panic!("Expected AppError::ModelError, got {:?}", other),
    }
}

#[test]
fn answer_of_wrong_type_is_model_error() {
    let ai_config = AiConfig {
        llm: Framework::OpenAI,
        model: "gpt-4".to_string(),
        max_token: None,
    };
    let reply = HttpReply::Received {
        status: 201,
        body: r#"{"choices":[{"message":{"content":7}}]}"#.into(),
    };
    match openai_answer(&ai_config, reply) {
        Err(AppError::ModelError {
            model_name,
            failure_str,
        }) => {
            assert_eq!(model_name, "gpt-4");
            assert_eq!(failure_str, "Failed to extract content from OpenAI response");
        }
        other => panic!("Expected AppError::ModelError, got {:?}", other),
    }
}

#[test]
fn answer_is_returned_unchanged() {
    let ai_config = AiConfig {
        llm: Framework::Anthropic,
        model: "anthropic-2".to_string(),
        max_token: None,
    };
    let reply = HttpReply::Received {
        status: 299,
        body: r#"{"content":[{"type":"text","text":"  two\nlines \"quoted\"  "}]}"#.into(),
    };
    let answer = anthropic_answer(&ai_config, reply).expect("an answer");
    assert_eq!(answer, "  two\nlines \"quoted\"  ");
}

#[test]
fn unknown_status_code_keeps_number_and_body() {
    let ai_config = AiConfig {
        llm: Framework::Anthropic,
        model: "anthropic-2".to_string(),
        max_token: None,
    };
    let reply = HttpReply::Received {
        status: 599,
        body: "oops".into(),
    };
    match anthropic_answer(&ai_config, reply) {
        Err(AppError::ApiError { failure_str, .. }) => {
            assert_eq!(failure_str, "Status 599 <unknown status code>: oops");
        }
        other => panic!("Expected AppError::ApiError, got {:?}", other),
    }
}
