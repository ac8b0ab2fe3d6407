use lexito::client::{
    anthropic_text, batch_json_text, batch_results, bracketed_text, chat_completion_content, chunk_requests,
    extract_model, map_batch_results, provider_endpoint, response_from_envelope, select_batch_entries,
    BatchEntryEnvelope, BatchItem, BatchProgress, BatchProgressEvent, ResolvedProviderProfile, TranslationMetadata,
    TranslationRequest, BATCH_CHUNK_SIZE,
};
use lexito::model::EntryKey;
use lexito::models::{is_allowed_model, models_endpoint, select_models, ModelInfo};
use lexito::prompt::{batch_user_prompt, join_texts, system_prompt, user_prompt, SYSTEM_PROMPT_BASE};
use lexito::settings::{AiError, ProviderProfile, ProviderType};

fn key(msgid: &str) -> EntryKey {
    EntryKey { msgid: msgid.to_string(), msgctxt: None }
}

fn request(msgid: &str) -> TranslationRequest {
    TranslationRequest {
        key: key(msgid),
        target_locale: "fr".to_string(),
        msgid: msgid.to_string(),
        msgid_plural: None,
        msgctxt: None,
        comments: Vec::new(),
        references: Vec::new(),
    }
}

fn metadata() -> TranslationMetadata {
    TranslationMetadata { provider_name: "P".to_string(), model: "m".to_string(), raw_response: "{}".to_string() }
}

fn envelope(id: Option<&str>, singular: &str) -> BatchEntryEnvelope {
    BatchEntryEnvelope { id: id.map(String::from), singular: Some(singular.to_string()), plurals: None }
}

#[test]
fn system_prompt_appends_instructions_unless_blank() {
    assert_eq!(system_prompt(None), SYSTEM_PROMPT_BASE);
    assert_eq!(system_prompt(Some("   ")), SYSTEM_PROMPT_BASE);
    assert_eq!(
        system_prompt(Some("Be formal")),
        format!("{}\n\nAdditional instructions:\nBe formal", SYSTEM_PROMPT_BASE)
    );
}

#[test]
fn user_prompt_lists_every_section() {
    let mut r = request("Hello %s");
    r.msgid_plural = Some("Hellos %s".to_string());
    r.msgctxt = Some("greeting".to_string());
    r.comments = vec!["shown on start".to_string()];
    r.references = vec!["src/a.c:1".to_string(), "src/b.c:2".to_string()];
    let text = user_prompt(&r);
    assert_eq!(
        text,
        "Target locale: fr\nSource singular:\nHello %s\nSource plural:\nHellos %s\nContext:\ngreeting\n\
         Comments:\n- shown on start\nReferences:\n- src/a.c:1\n- src/b.c:2\n\
         Return valid JSON in this shape:\n{\"singular\":\"...\",\"plurals\":[\"...\"]}\n"
    );
}

#[test]
fn batch_prompt_numbers_entries_and_quotes_sources() {
    let mut second = request("Say \"hi\"");
    second.comments = vec!["a".to_string(), "b".to_string()];
    let text = batch_user_prompt(&[request("One"), second]);
    assert_eq!(
        text,
        "Target locale: fr\nTranslate these entries:\n\n[1] msgid: \"One\"\n[2] msgid: \"Say \\\"hi\\\"\"\n    comment: a; b\n\
         \nReturn a JSON object with a \"translations\" array of 2 objects in order:\n\
         {\"translations\":[{\"id\":\"1\",\"singular\":\"...\"}, ...]}\n\
         Include \"plurals\":[...] only if the source has a plural form.\n"
    );
    assert!(batch_user_prompt(&[]).starts_with("Target locale: en\n"));
}

#[test]
fn join_texts_separates_items() {
    assert_eq!(join_texts(&vec![], "; "), "");
    assert_eq!(join_texts(&vec!["x".to_string()], "; "), "x");
    assert_eq!(join_texts(&vec!["x".to_string(), "y".to_string(), "z".to_string()], "; "), "x; y; z");
}

#[test]
fn batch_results_match_by_id_then_position() {
    let keys = vec![key("a"), key("b"), key("c")];
    let entries = vec![envelope(Some("2"), "B"), envelope(None, "X")];
    let results = map_batch_results(&keys, entries, metadata());
    assert_eq!(results.len(), 3);
    assert_eq!(results[0].0.msgid, "a");
    assert_eq!(results[0].1.as_ref().unwrap().singular, "B");
    assert_eq!(results[1].1.as_ref().unwrap().singular, "B");
    assert_eq!(results[2].1.as_ref().unwrap_err(), "model skipped entry 3");
    assert_eq!(results[1].1.as_ref().unwrap().metadata.model, "m");
}

#[test]
fn failed_batch_reports_the_error_for_every_entry() {
    let requests = vec![request("a"), request("b")];
    let results = batch_results(&requests, "P", Err(AiError::Http("timeout".to_string())));
    assert_eq!(results.len(), 2);
    for (_, r) in &results {
        assert_eq!(r.as_ref().unwrap_err(), "http request failed: timeout");
    }
    let ok = batch_results(&requests, "P", Ok((vec![envelope(Some("1"), "A")], "raw".to_string(), "gpt".to_string())));
    assert_eq!(ok[0].1.as_ref().unwrap().metadata.provider_name, "P");
    assert_eq!(ok[0].1.as_ref().unwrap().metadata.raw_response, "raw");
    assert!(ok[1].1.is_err());
}

#[test]
fn envelope_defaults_are_empty() {
    let r = response_from_envelope(None, None, metadata());
    assert_eq!(r.singular, "");
    assert!(r.plurals.is_empty());
}

#[test]
fn requests_are_chunked_by_fifty() {
    let items: Vec<BatchItem> = (0..120).map(|i| BatchItem { request: request(&format!("m{i}")) }).collect();
    let chunks = chunk_requests(&items);
    assert_eq!(BATCH_CHUNK_SIZE, 50);
    assert_eq!(chunks.len(), 3);
    assert_eq!(chunks[0].len(), 50);
    assert_eq!(chunks[2].len(), 20);
    assert_eq!(chunks[1][0].msgid, "m50");
    assert!(chunk_requests(&Vec::new()).is_empty());
}

#[test]
fn progress_counts_items() {
    let (mut progress, started) = BatchProgress::start(2);
    assert!(matches!(started, BatchProgressEvent::Started { total: 2 }));
    let e = progress.record(key("a"), Err("boom".to_string()));
    match e {
        BatchProgressEvent::Item { completed, total, item } => {
            assert_eq!((completed, total), (1, 2));
            assert_eq!(item.result.unwrap_err(), "boom");
        },
        _ => panic!("expected an item"),
    }
    assert!(matches!(progress.finish(), BatchProgressEvent::Finished { completed: 1, total: 2 }));
}

#[test]
fn code_fences_are_removed() {
    assert_eq!(batch_json_text("  ```json\n[1]\n```  "), "[1]");
    assert_eq!(batch_json_text("```\n{}\n```"), "{}");
    assert_eq!(batch_json_text(" [2] "), "[2]");
}

#[test]
fn bracketed_part_is_found() {
    assert_eq!(bracketed_text("Here: [1, 2] done").as_deref(), Some("[1, 2]"));
    assert_eq!(bracketed_text("no array"), None);
}

#[test]
fn unreadable_batch_is_refused_with_its_start() {
    match select_batch_entries(None, None, None, None, "nonsense") {
        Err(AiError::InvalidResponse(m)) => {
            assert_eq!(m, "Could not parse batch response. Raw content (first 500 chars): nonsense")
        },
        _ => panic!("expected an error"),
    }
    let long = "x".repeat(600);
    match select_batch_entries(None, None, None, None, &long) {
        Err(AiError::InvalidResponse(m)) => assert!(m.ends_with(&"x".repeat(500)) && !m.ends_with(&"x".repeat(501))),
        _ => panic!("expected an error"),
    }
    let picked = select_batch_entries(None, None, Some(envelope(None, "S")), Some(vec![]), "x").unwrap();
    assert_eq!(picked.len(), 1);
}

#[test]
fn reply_texts_and_models_are_extracted() {
    assert_eq!(extract_model("{\"model\":\"sonnet-4\"}", "fallback"), "sonnet-4");
    assert_eq!(extract_model("not json", "fallback"), "fallback");
    assert_eq!(extract_model("{\"model\":3}", "fallback"), "fallback");
    let blocks = vec![("tool".to_string(), None), ("text".to_string(), Some("hi".to_string()))];
    assert_eq!(anthropic_text(Ok(blocks)).unwrap(), "hi");
    assert!(matches!(anthropic_text(Ok(vec![("text".to_string(), None)])), Err(AiError::InvalidResponse(m)) if m == "no text content block"));
    assert!(matches!(anthropic_text(Err("bad".to_string())), Err(AiError::InvalidResponse(m)) if m == "bad"));
    let (content, model) = chat_completion_content(Ok((None, vec!["c1".to_string(), "c2".to_string()])), "cfg").unwrap();
    assert_eq!((content.as_str(), model.as_str()), ("c1", "cfg"));
    assert!(matches!(chat_completion_content(Ok((None, vec![])), "cfg"), Err(AiError::InvalidResponse(m)) if m == "missing choices"));
}

#[test]
fn endpoints_join_onto_base_urls() {
    let provider = ResolvedProviderProfile::from((
        ProviderProfile {
            id: 7,
            name: "A".to_string(),
            provider_type: ProviderType::Anthropic,
            base_url: "https://api.anthropic.com/v1/".to_string(),
            model: "sonnet-4".to_string(),
        },
        "key".to_string(),
    ));
    assert_eq!(provider.api_key, "key");
    assert_eq!(provider_endpoint(&provider).unwrap(), "https://api.anthropic.com/v1/messages");
    let mut openai = provider.clone();
    openai.provider_type = ProviderType::OpenAI;
    openai.base_url = "https://api.openai.com/v1/".to_string();
    assert_eq!(provider_endpoint(&openai).unwrap(), "https://api.openai.com/v1/chat/completions");
    openai.base_url = "not a url".to_string();
    assert!(matches!(provider_endpoint(&openai), Err(AiError::InvalidUrl(_))));
    assert_eq!(models_endpoint(ProviderType::OpenRouter).unwrap(), "https://openrouter.ai/api/v1/models");
    assert_eq!(models_endpoint(ProviderType::Anthropic).unwrap(), "https://api.anthropic.com/v1/models?limit=100");
}

#[test]
fn only_listed_model_families_are_offered() {
    assert!(is_allowed_model("anthropic/big-Sonnet-4"));
    assert!(is_allowed_model("gemini-2.5-pro"));
    assert!(!is_allowed_model("gemini-2.5-flash"));
    assert!(is_allowed_model("DeepSeek-V3"));
    assert!(!is_allowed_model("gpt-4.1-mini"));
}

#[test]
fn models_are_filtered_named_and_sorted() {
    let models = select_models(vec![
        ("z-opus".to_string(), None),
        ("gpt-4".to_string(), Some("GPT".to_string())),
        ("a-kimi".to_string(), Some("Kimi".to_string())),
    ]);
    assert_eq!(models.len(), 2);
    assert_eq!(models[0].id, "a-kimi");
    assert_eq!(models[0].display_name, "Kimi");
    assert_eq!(models[1].display_name, "z-opus");
    assert_eq!(models[0].display_text(), "Kimi (a-kimi)");
    assert_eq!(ModelInfo { id: "x".to_string(), display_name: String::new() }.display_text(), "x");
}
