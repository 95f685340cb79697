use simple_codex::client::{
    build_chat_messages, http_status_error, request_failed_error, response_status, status_is_success,
    ModelClient, Provider, RequestBody,
};
use simple_codex::config::{ConfigToml, ModelProviderInfo, WireApi};
use simple_codex::text::{char_is_whitespace, str_equal, trim_end_slashes, trim_whitespace};
use simple_codex::types::{
    ApiError, BaseInstructions, ContentItem, Prompt, ResponseItem, ToolSpec,
};

fn msg(e: ApiError) -> String {
    let ApiError::Stream(m) = e;
    m
}

fn provider(base_url: Option<&str>, env_key: Option<&str>, api_key: Option<&str>) -> ModelProviderInfo {
    ModelProviderInfo {
        name: "MiniMax".to_string(),
        base_url: base_url.map(String::from),
        env_key: env_key.map(String::from),
        api_key: api_key.map(String::from),
        wire_api: WireApi::Chat,
    }
}

fn config(active: &str, ps: Vec<(&str, ModelProviderInfo)>) -> ConfigToml {
    ConfigToml {
        model: "minimax-m2.7".to_string(),
        model_provider: active.to_string(),
        model_providers: ps.into_iter().map(|(id, p)| (id.to_string(), p)).collect(),
    }
}

#[test]
fn display_of_api_error() {
    assert_eq!(ApiError::Stream("idle".into()).display(), "stream error: idle");
}

#[test]
fn prompt_defaults() {
    let p = Prompt::default();
    assert!(p.input.is_empty() && p.tools.is_empty());
    assert!(!p.parallel_tool_calls);
    assert_eq!(p.base_instructions.text, "");
    assert!(p.personality.is_none() && p.output_schema.is_none());
    assert!(p.output_schema_strict);
    assert_eq!(WireApi::default(), WireApi::Responses);
}

#[test]
fn provider_new_keeps_fields() {
    let p = Provider::new("https://x/v1".into(), WireApi::Chat);
    assert_eq!(p.base_url, "https://x/v1");
    assert_eq!(p.wire_api, WireApi::Chat);
}

#[test]
fn client_new_defaults() {
    let c = ModelClient::new("k".into(), "b".into(), "m".into());
    assert_eq!((c.api_key.as_str(), c.base_url.as_str(), c.model.as_str()), ("k", "b", "m"));
    assert_eq!(c.idle_timeout_secs, 30);
}

#[test]
fn urls_and_header() {
    let c = ModelClient::new("sk-1".into(), "https://api.openai.com/v1".into(), "gpt-5".into());
    assert_eq!(c.responses_url(), "https://api.openai.com/v1/responses");
    assert_eq!(c.chat_completions_url(), "https://api.openai.com/v1/chat/completions");
    assert_eq!(c.authorization(), "Bearer sk-1");
    let slashed = ModelClient::new("sk-1".into(), "https://api.openai.com/v1//".into(), "gpt-5".into());
    assert_eq!(slashed.responses_url(), c.responses_url());
    assert_eq!(trim_end_slashes("///"), "");
    assert_eq!(trim_end_slashes("a/b"), "a/b");
}

#[test]
fn trimming_whitespace() {
    assert_eq!(trim_whitespace(" \t[DONE]\r\n"), "[DONE]");
    assert_eq!(trim_whitespace("\u{3000}x y\u{a0}"), "x y");
    assert_eq!(trim_whitespace("   "), "");
    assert_eq!(trim_whitespace(""), "");
}

#[test]
fn chat_messages_of_a_prompt() {
    let p = Prompt {
        base_instructions: BaseInstructions { text: "sys".into() },
        input: vec![
            ResponseItem::Message {
                role: "user".into(),
                content: vec![
                    ContentItem::InputText { text: "a".into() },
                    ContentItem::OutputText { text: "b".into() },
                ],
            },
            ResponseItem::Message { role: "assistant".into(), content: vec![] },
        ],
        ..Prompt::default()
    };
    let m: Vec<(String, String)> = build_chat_messages(&p).into_iter().map(|m| (m.role, m.content)).collect();
    assert_eq!(
        m,
        vec![
            ("system".to_string(), "sys".to_string()),
            ("user".to_string(), "ab".to_string()),
            ("assistant".to_string(), String::new()),
        ]
    );
    let q = Prompt { base_instructions: BaseInstructions { text: String::new() }, ..Prompt::default() };
    assert!(build_chat_messages(&q).is_empty());
}

#[test]
fn responses_request_of_a_prompt() {
    let schema: serde_json::Value = serde_json::from_str("{\"type\": \"object\"}").unwrap();
    let params: serde_json::Value =
        serde_json::from_str("{\"type\": \"object\", \"properties\": {}}").unwrap();
    let p = Prompt {
        base_instructions: BaseInstructions { text: "sys".into() },
        input: vec![ResponseItem::Message {
            role: "user".into(),
            content: vec![ContentItem::InputText { text: "hi".into() }],
        }],
        tools: vec![ToolSpec::Function {
            name: "f".into(),
            description: "d".into(),
            strict: true,
            parameters: params.clone(),
        }],
        parallel_tool_calls: true,
        output_schema: Some(schema.clone()),
        output_schema_strict: false,
        ..Prompt::default()
    };
    let c = ModelClient::new("k".into(), "b".into(), "gpt-5".into());
    let r = c.build_responses_request(&p);
    assert_eq!(r.model, "gpt-5");
    assert_eq!(r.instructions, "sys");
    assert_eq!(r.input.len(), 1);
    assert_eq!(r.tools.len(), 1);
    let ToolSpec::Function { name, parameters, .. } = &r.tools[0];
    assert_eq!(name, "f");
    assert_eq!(parameters, &params);
    assert!(r.parallel_tool_calls && r.stream && !r.store);
    let t = r.text.expect("schema given");
    assert_eq!(t.kind, "json_schema");
    assert!(!t.strict);
    assert_eq!(t.schema, schema);
    assert!(c.build_responses_request(&Prompt::default()).text.is_none());
}

#[test]
fn status_and_errors() {
    assert!(status_is_success(200));
    assert!(status_is_success(299));
    assert!(!status_is_success(199));
    assert!(!status_is_success(300));
    assert!(!status_is_success(404));
    assert_eq!(msg(http_status_error("404 Not Found", "nope")), "HTTP 404 Not Found: nope");
    assert_eq!(msg(request_failed_error("dns error")), "request failed: dns error");
}

#[test]
fn resolve_prefers_the_environment() {
    let cfg = config("minimax", vec![("minimax", provider(Some("https://m/v1"), Some("MM_KEY"), Some("fallback")))]);
    assert_eq!(cfg.active_env_key().as_deref(), Some("MM_KEY"));
    let r = cfg.resolve(Some("from-env".into())).ok().expect("resolves");
    assert_eq!(r.api_key, "from-env");
    assert_eq!(r.provider_id, "minimax");
    assert_eq!(r.provider_display_name, "MiniMax");
    assert_eq!(r.base_url, "https://m/v1");
    assert_eq!(r.model, "minimax-m2.7");
    assert_eq!(r.wire_api, WireApi::Chat);
}

#[test]
fn resolve_falls_back_to_the_configured_key() {
    let cfg = config("p", vec![("p", provider(Some("u"), Some("K"), Some("direct")))]);
    assert_eq!(cfg.resolve(Some(String::new())).ok().unwrap().api_key, "direct");
    let cfg = config("p", vec![("p", provider(Some("u"), Some("K"), Some("direct")))]);
    assert_eq!(cfg.resolve(None).ok().unwrap().api_key, "direct");
    let cfg = config("p", vec![("p", provider(Some("u"), None, Some("direct")))]);
    assert_eq!(cfg.active_env_key(), None);
    assert_eq!(cfg.resolve(Some("ignored".into())).ok().unwrap().api_key, "direct");
}

#[test]
fn resolve_picks_the_active_provider_among_several() {
    let cfg = config(
        "b",
        vec![("a", provider(Some("ua"), None, Some("ka"))), ("b", provider(Some("ub"), None, Some("kb")))],
    );
    let r = cfg.resolve(None).ok().unwrap();
    assert_eq!((r.base_url.as_str(), r.api_key.as_str()), ("ub", "kb"));
}

#[test]
fn resolve_errors() {
    let cfg = config("x", vec![("p", provider(Some("u"), None, Some("k")))]);
    assert_eq!(msg(cfg.resolve(None).err().unwrap()), "Model provider `x` not found under [model_providers.*]");
    let cfg = config("p", vec![("p", provider(None, None, Some("k")))]);
    assert_eq!(msg(cfg.resolve(None).err().unwrap()), "Model provider `p` is missing `base_url`");
    let cfg = config("p", vec![("p", provider(Some("u"), Some("K"), None))]);
    assert_eq!(
        msg(cfg.resolve(None).err().unwrap()),
        "Provider `p`: env var `K` is unset and no `api_key` fallback is configured"
    );
    let cfg = config("p", vec![("p", provider(Some("u"), None, None))]);
    assert_eq!(msg(cfg.resolve(None).err().unwrap()), "Provider `p` has neither `env_key` nor `api_key`");
}

#[test]
fn status_of_an_answer() {
    assert!(response_status(204, "204 No Content", "").is_ok());
    assert_eq!(
        msg(response_status(401, "401 Unauthorized", "bad key").err().unwrap()),
        "HTTP 401 Unauthorized: bad key"
    );
    assert!(response_status(300, "300 Multiple Choices", "").is_err());
}

#[test]
fn prepared_request_method_and_headers() {
    let c = ModelClient::new("sk".into(), "https://api.example.com/v1/".into(), "m".into());
    let r = c.prepare_request(&Prompt::default(), WireApi::Responses);
    assert_eq!(r.method, "POST");
    assert_eq!(r.url, "https://api.example.com/v1/responses");
    assert_eq!(r.authorization, "Bearer sk");
    assert_eq!(r.content_type, "application/json");
    assert_eq!(r.accept, "text/event-stream");
    match r.body {
        RequestBody::Responses(b) => {
            assert_eq!(b.model, "m");
            assert_eq!(b.instructions, "");
            assert!(b.input.is_empty() && b.tools.is_empty() && b.text.is_none());
            assert!(!b.parallel_tool_calls && b.stream && !b.store);
        }
        RequestBody::Chat(_) => panic!("expected a responses body"),
    }
    let r = c.prepare_request(&Prompt::default(), WireApi::Chat);
    assert_eq!(r.method, "POST");
    assert_eq!(r.url, "https://api.example.com/v1/chat/completions");
    assert_eq!((r.content_type.as_str(), r.accept.as_str()), ("application/json", "text/event-stream"));
}

#[test]
fn whitespace_characters() {
    for c in ['\t', '\n', '\u{b}', '\u{c}', '\r', ' ', '\u{85}', '\u{a0}', '\u{1680}', '\u{2000}', '\u{200a}',
              '\u{2028}', '\u{2029}', '\u{202f}', '\u{205f}', '\u{3000}'] {
        assert!(char_is_whitespace(c), "{:?}", c);
        assert_eq!(char_is_whitespace(c), c.is_whitespace());
    }
    for c in ['a', '\u{8}', '\u{e}', '\u{180e}', '\u{200b}', '\u{feff}', '好'] {
        assert!(!char_is_whitespace(c), "{:?}", c);
        assert_eq!(char_is_whitespace(c), c.is_whitespace());
    }
    for u in 0u32..0x3100 {
        if let Some(c) = char::from_u32(u) {
            assert_eq!(char_is_whitespace(c), c.is_whitespace(), "{:?}", c);
        }
    }
}

#[test]
fn string_equality() {
    assert!(str_equal("response.created", "response.created"));
    assert!(!str_equal("response.created", "response.completed"));
    assert!(!str_equal("ab", "abc"));
    assert!(str_equal("", ""));
    assert!(str_equal("你好", "你好"));
}

#[test]
fn unique_provider_ids() {
    let cfg = config("a", vec![("a", provider(Some("u"), None, Some("k"))), ("b", provider(Some("u"), None, Some("k")))]);
    assert!(cfg.has_unique_ids());
    let cfg = config("a", vec![("a", provider(Some("u"), None, Some("k"))), ("a", provider(Some("v"), None, Some("k")))]);
    assert!(!cfg.has_unique_ids());
    assert!(config("a", vec![]).has_unique_ids());
}
