use crixata::text::trim_str;
use crixata::llm::{
    completion_content, completion_request, create_analysis_prompt, local_url,
    sidecar_not_ready_message, CompletionBody, GBNF_GRAMMAR, PROMPT_HEAD, PROMPT_TAIL,
};

#[test]
fn test_grammar_is_non_empty() {
    assert!(!GBNF_GRAMMAR.is_empty());
    assert!(GBNF_GRAMMAR.contains("PolicySummary"));
    assert!(GBNF_GRAMMAR.contains("user-rights"));
}

#[test]
fn test_prompt_formatting() {
    let prompt = create_analysis_prompt("Sample policy content.");
    assert!(prompt.contains("Sample policy content."));
    assert!(prompt.contains("<|start_header_id|>system<|end_header_id|>"));
}

#[test]
fn prompt_is_head_text_tail() {
    let prompt = create_analysis_prompt("abc");
    assert_eq!(prompt, format!("{}abc{}", PROMPT_HEAD, PROMPT_TAIL));
    assert!(prompt.starts_with("<|begin_of_text|><|start_header_id|>system<|end_header_id|>\n\nYou are an expert"));
    assert!(prompt.ends_with("Policy text:\nabc\n<|eot_id|>\n<|start_header_id|>assistant<|end_header_id|>\n\n"));
}

#[test]
fn prompt_keeps_text_of_exactly_limit() {
    let text = "x".repeat(12000);
    let prompt = create_analysis_prompt(&text);
    assert_eq!(prompt.len(), PROMPT_HEAD.len() + 12000 + PROMPT_TAIL.len());
}

#[test]
fn prompt_cuts_long_text_to_limit() {
    let text = format!("{}{}", "y".repeat(12000), "TAILMARK");
    let prompt = create_analysis_prompt(&text);
    assert!(!prompt.contains("TAILMARK"));
    assert_eq!(prompt, format!("{}{}{}", PROMPT_HEAD, "y".repeat(12000), PROMPT_TAIL));
}

#[test]
fn completion_request_fields() {
    let req = completion_request("policy");
    assert_eq!(req.prompt, create_analysis_prompt("policy"));
    assert_eq!(req.grammar, GBNF_GRAMMAR);
    assert_eq!(req.n_predict, 1024);
    assert!(!req.stream);
    assert_eq!(req.stop, vec!["<|eot_id|>".to_string(), "<|end_of_text|>".to_string()]);
}

#[test]
fn completion_content_prefers_content() {
    let body = CompletionBody { content: Some("a".into()), first_choice_text: Some("b".into()) };
    assert_eq!(completion_content(body), Some("a".to_string()));
    let body = CompletionBody { content: None, first_choice_text: Some("b".into()) };
    assert_eq!(completion_content(body), Some("b".to_string()));
    let body = CompletionBody { content: None, first_choice_text: None };
    assert_eq!(completion_content(body), None);
}

#[test]
fn local_urls() {
    assert_eq!(local_url(4344, "/health"), "http://127.0.0.1:4344/health");
    assert_eq!(local_url(0, "/completion"), "http://127.0.0.1:0/completion");
    assert_eq!(local_url(65535, "/x"), "http://127.0.0.1:65535/x");
}

#[test]
fn not_ready_message_names_port() {
    assert_eq!(
        sidecar_not_ready_message(4344),
        "Local inference sidecar (llama-server) is not ready on port 4344. Please verify the model and engine are running."
    );
}

#[test]
fn grammar_names_every_summary_field() {
    for field in [
        "data_collected",
        "data_used_for",
        "shared_with_third_parties",
        "third_party_details",
        "retention_period",
        "user_rights",
        "can_delete_data",
        "can_export_data",
        "can_opt_out_of_tracking",
        "tracking_and_ads",
        "arbitration_or_class_action_waiver",
        "policy_clarity_notes",
    ] {
        assert!(GBNF_GRAMMAR.contains(field), "grammar lacks {}", field);
    }
    assert!(GBNF_GRAMMAR.starts_with("root ::= PolicySummary"));
}

#[test]
fn prompt_cuts_multibyte_text_at_char_boundary() {
    // 7000 two-byte characters: 14000 bytes, byte 12000 starts a character.
    let text = "é".repeat(7000);
    let prompt = create_analysis_prompt(&text);
    assert_eq!(prompt, format!("{}{}{}", PROMPT_HEAD, "é".repeat(6000), PROMPT_TAIL));
}

#[test]
fn prompt_cuts_before_char_straddling_limit() {
    // 11999 one-byte characters, then a two-byte one that would end at byte 12001.
    let text = format!("{}é{}", "a".repeat(11999), "rest");
    let prompt = create_analysis_prompt(&text);
    let kept = &prompt[PROMPT_HEAD.len()..prompt.len() - PROMPT_TAIL.len()];
    assert_eq!(kept, "a".repeat(11999));
    assert!(kept.len() <= 12000);
}

#[test]
fn prompt_cuts_four_byte_chars() {
    let text = "😀".repeat(3001);
    let prompt = create_analysis_prompt(&text);
    assert_eq!(prompt, format!("{}{}{}", PROMPT_HEAD, "😀".repeat(3000), PROMPT_TAIL));
    let text = format!("ab{}", "😀".repeat(3000));
    let prompt = create_analysis_prompt(&text);
    assert_eq!(prompt, format!("{}ab{}{}", PROMPT_HEAD, "😀".repeat(2999), PROMPT_TAIL));
}

#[test]
fn completion_request_for_long_multibyte_text() {
    let text = format!("{}ü{}", "b".repeat(11999), "end");
    let req = completion_request(&text);
    assert_eq!(req.prompt, format!("{}{}{}", PROMPT_HEAD, "b".repeat(11999), PROMPT_TAIL));
}

#[test]
fn completion_content_is_trimmed() {
    let body = CompletionBody { content: Some("  {\"a\":1} \n".into()), first_choice_text: None };
    assert_eq!(completion_content(body), Some("{\"a\":1}".to_string()));
    let body = CompletionBody { content: None, first_choice_text: Some("\t x y \u{3000}".into()) };
    assert_eq!(completion_content(body), Some("x y".to_string()));
    let body = CompletionBody { content: Some("   ".into()), first_choice_text: Some("b".into()) };
    assert_eq!(completion_content(body), Some(String::new()));
}

#[test]
fn trim_str_matches_std_trim() {
    for s in ["", "   ", "abc", "  abc", "abc  ", "\n\ta b\r\n", "\u{a0}x\u{2028}", "x\u{200b}"] {
        assert_eq!(trim_str(s), s.trim());
    }
}
