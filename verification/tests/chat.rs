use stocks::chat::{
    fallback_chat_answer, EvidenceItem, EvidencePackage, actions_for_requirement, canonical_requested_evidence, chat_summary, classify_chat_scope,
    default_product_research_request, fallback_should_request_evidence, is_mock_response,
    normalize_chat_scope, normalize_chat_symbol, provider_for_action, source_type_for_requirement,
    RequestedEvidence,
};

#[test]
fn chat_scope_classifies_technical_questions() {
    assert_eq!(
        classify_chat_scope("Is ENTG overextended above the 200-day SMA?", Some("ENTG")),
        "technical"
    );
    assert_eq!(
        classify_chat_scope("Should I resize this position?", Some("ENTG")),
        "decision"
    );
    assert_eq!(classify_chat_scope("What do rates imply?", None), "macro");
}

#[test]
fn chat_requested_evidence_is_canonicalized() {
    let req = RequestedEvidence {
        requirement_key: "customer_adoption_research".to_string(),
        source_type: "whatever".to_string(),
        priority: "urgent".to_string(),
        reason: "".to_string(),
    };
    let out = canonical_requested_evidence(&req);

    assert_eq!(out.requirement_key, "product_research");
    assert_eq!(out.source_type, "web_research");
    assert_eq!(out.priority, "medium");
    assert!(out.reason.contains("product_research"));
    assert_eq!(
        actions_for_requirement(&out.requirement_key),
        ["gdelt_doc_search", "bing_news_rss_search"]
    );

    let catalyst = canonical_requested_evidence(&RequestedEvidence {
        requirement_key: "earnings_calendar".to_string(),
        source_type: "whatever".to_string(),
        priority: "high".to_string(),
        reason: "Need next earnings date".to_string(),
    });
    assert_eq!(catalyst.requirement_key, "earnings_calendar");
    assert_eq!(catalyst.source_type, "catalysts");
    assert_eq!(
        actions_for_requirement(&catalyst.requirement_key),
        ["fmp_earnings_calendar"]
    );
}

#[test]
fn chat_missing_evidence_questions_are_detected_deterministically() {
    // The evidence package holds one item.
    assert!(fallback_should_request_evidence(
        "Search current MI325X articles and source gaps",
        Some(1)
    ));

    let req = default_product_research_request("Search current MI325X articles", Some("AMD"));
    assert_eq!(req.requirement_key, "product_research");
    assert_eq!(req.source_type, "web_research");
    assert_eq!(req.priority, "high");
    assert!(req.reason.contains("AMD"));
}

#[test]
fn fallback_requests_research_only_without_evidence_or_when_asked() {
    assert!(!fallback_should_request_evidence("How is the setup?", Some(2)));
    assert!(fallback_should_request_evidence("How is the setup?", Some(0)));
    assert!(fallback_should_request_evidence("How is the setup?", None));
    assert!(fallback_should_request_evidence("Any NEWS today?", Some(3)));
}

#[test]
fn default_research_request_names_the_scope_and_question() {
    let req = default_product_research_request("What changed?", None);
    assert_eq!(
        req.reason,
        "Operator analyst question needs fresh public research for current scope: What changed?"
    );
    let req = default_product_research_request("Q", Some("NVDA"));
    assert_eq!(
        req.reason,
        "Operator analyst question needs fresh public research for NVDA: Q"
    );
}

#[test]
fn chat_symbols_are_trimmed_uppercased_and_checked() {
    assert_eq!(normalize_chat_symbol(" brk.b "), Some("BRK.B".to_string()));
    assert_eq!(normalize_chat_symbol("abcdefghij"), Some("ABCDEFGHIJ".to_string()));
    assert_eq!(normalize_chat_symbol("abcdefghijk"), None);
    assert_eq!(normalize_chat_symbol("   "), None);
    assert_eq!(normalize_chat_symbol("AB CD"), None);
    assert_eq!(normalize_chat_symbol("ÉTF"), None);
    assert_eq!(normalize_chat_symbol("rds-a"), Some("RDS-A".to_string()));
}

#[test]
fn chat_scope_prefers_a_known_requested_scope() {
    assert_eq!(normalize_chat_scope(Some(" Theme "), "rsi?", None), "theme");
    assert_eq!(normalize_chat_scope(Some("weird"), "copper supply", None), "theme");
    assert_eq!(normalize_chat_scope(None, "anything else", Some("MU")), "symbol");
    assert_eq!(classify_chat_scope("Credit spreads widening", Some("MU")), "macro");
    assert_eq!(classify_chat_scope("Wheat harvest", None), "theme");
}

#[test]
fn chat_summaries_cut_long_text_by_characters() {
    assert_eq!(chat_summary("short", 10), "short");
    assert_eq!(chat_summary("exactly", 7), "exactly");
    assert_eq!(chat_summary("abcdefgh", 3), "abc...");
    assert_eq!(chat_summary("ééééé", 2), "éé...");
}

#[test]
fn mock_responses_are_recognized_after_trimming() {
    assert!(is_mock_response("  {\"mock\":true}\n"));
    assert!(!is_mock_response("{\"mock\": true}"));
}

#[test]
fn requirements_map_to_sources_actions_and_providers() {
    assert_eq!(source_type_for_requirement("price_history"), "price");
    assert_eq!(source_type_for_requirement("company_facts"), "fundamentals");
    assert_eq!(source_type_for_requirement("unknown"), "web_research");
    assert_eq!(
        actions_for_requirement("recent_news"),
        ["fmp_news", "massive_news", "llm_sentiment_scoring"]
    );
    assert_eq!(actions_for_requirement("analyst_opinion").len(), 4);
    assert_eq!(provider_for_action("fmp_news", "news"), "fmp");
    assert_eq!(provider_for_action("sec_companyfacts_xbrl", "fundamentals"), "sec");
    assert_eq!(provider_for_action("llm_sentiment_scoring", "news"), "llm");
    assert_eq!(provider_for_action("manual_upload", "web_research"), "gdelt");
    assert_eq!(provider_for_action("manual_upload", "news"), "system");
}

#[test]
fn canonical_evidence_trims_and_bounds_the_reason() {
    let long = "x".repeat(600);
    let out = canonical_requested_evidence(&RequestedEvidence {
        requirement_key: " recent_news ".to_string(),
        source_type: String::new(),
        priority: " blocking ".to_string(),
        reason: format!("  {long}  "),
    });
    assert_eq!(out.requirement_key, "recent_news");
    assert_eq!(out.source_type, "news");
    assert_eq!(out.priority, "blocking");
    assert_eq!(out.reason.chars().count(), 500);
    let out = canonical_requested_evidence(&RequestedEvidence {
        requirement_key: "price_history".to_string(),
        source_type: String::new(),
        priority: "low".to_string(),
        reason: "   ".to_string(),
    });
    assert_eq!(out.reason, "Chat analyst requested price_history");
}

#[test]
fn chat_fallback_requests_research_for_missing_evidence_questions() {
    // The package holds an extended technical state and an empty evidence list.
    let package = EvidencePackage {
        technical_state: Some("extended".to_string()),
        technical_summary: Some("technical state is extended; +25.0% vs 200-day SMA".to_string()),
        evidence_items: Some(vec![]),
    };

    let answer = fallback_chat_answer(
        "Search current product evidence and tell me what is missing",
        "technical",
        Some("ENTG"),
        &package,
    );

    assert_eq!(answer.technical_read.state.as_deref(), Some("extended"));
    assert_eq!(answer.requested_evidence.len(), 1);
    assert_eq!(answer.requested_evidence[0].requirement_key, "product_research");
}

#[test]
fn fallback_answer_cites_at_most_five_items_and_reads_the_chart() {
    let item = |n: i64| EvidenceItem {
        source: if n == 0 { None } else { Some(format!("src{n}")) },
        id: Some(n),
        summary: if n == 1 { None } else { Some(format!("fact {n}")) },
        observed_at: None,
    };
    let package = EvidencePackage {
        technical_state: Some("extended".to_string()),
        technical_summary: None,
        evidence_items: Some((0..7).map(item).collect()),
    };
    let answer = fallback_chat_answer("How does it look?", "technical", None, &package);
    assert_eq!(answer.evidence_used.len(), 5);
    assert_eq!(answer.evidence_used[0].source, "evidence_item");
    assert_eq!(answer.evidence_used[1].summary, "evidence fact");
    assert_eq!(answer.evidence_used[4].evidence_id, Some(4));
    assert_eq!(answer.confidence, "medium");
    assert!(answer.requested_evidence.is_empty());
    assert_eq!(answer.thesis_impact.kind, "weakens");
    assert!(answer.answer.starts_with("the selected scope: I can answer only from the loaded evidence package."));
    assert_eq!(answer.attention_request.kind, "none");

    let bare = EvidencePackage { technical_state: None, technical_summary: Some("flat".to_string()), evidence_items: None };
    let answer = fallback_chat_answer("How does it look?", "technical", Some("MU"), &bare);
    assert_eq!(answer.technical_read.state.as_deref(), Some("unknown"));
    assert_eq!(answer.thesis_impact.kind, "no_change");
    assert_eq!(answer.confidence, "low");
    assert_eq!(answer.requested_evidence.len(), 1);
    assert!(answer.answer.starts_with("MU: flat. This is timing context"));
    assert_eq!(
        answer.technical_read.timing_implication.as_deref(),
        Some("treat chart state as timing context separate from thesis direction")
    );
}
