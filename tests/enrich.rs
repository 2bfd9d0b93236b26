use knowledge_map::dto::SearchResult;
use knowledge_map::enrich::{
    complete_enrichment, compose_insight_instructions, compose_insight_prompt, document_entry_of, gather_context,
    persist_knowledge, plan_enrichment, relevance_of, GatheredContext, GenerateInsightsForTopicNodeRequest,
};
use knowledge_map::errors::AIServiceError;
use knowledge_map::graph::TopicGraph;
use knowledge_map::knowledge::{existing_record, push_history, DocumentContext, HistoryEntry, KnowledgeRecord};
use knowledge_map::model::{Canvas, InsertNode, InsertRelationship, TopicKind};

fn graph() -> TopicGraph {
    let mut g = TopicGraph::new();
    g.add_canvas(Canvas {
        id: "C1".to_string(),
        author_id: "u1".to_string(),
        name: "Life".to_string(),
        system_instruction: String::new(),
    })
    .unwrap();
    for (id, name) in [("bio", "Biology"), ("gen", "Genetics")] {
        g.create_topic(InsertNode {
            id: id.to_string(),
            canvas_id: "C1".to_string(),
            name: name.to_string(),
            node_type: TopicKind::Original,
            description: None,
            knowledge: Some(String::new()),
        })
        .unwrap();
    }
    g.create_relationship(InsertRelationship {
        id: "e1".to_string(),
        canvas_id: "C1".to_string(),
        source_id: "bio".to_string(),
        target_id: "gen".to_string(),
    })
    .unwrap();
    g
}

fn request(web: bool, news: bool) -> GenerateInsightsForTopicNodeRequest {
    GenerateInsightsForTopicNodeRequest {
        topic_node_id: "gen".to_string(),
        canvas_id: "C1".to_string(),
        question: None,
        system_instruction: None,
        include_web_search: Some(web),
        include_news_search: Some(news),
        max_results: Some(4),
    }
}

fn result(title: &str) -> SearchResult {
    SearchResult {
        title: title.to_string(),
        url: "https://example.org".to_string(),
        content: "text".to_string(),
        published_date: None,
    }
}

fn doc(name: &str, distance_millis: i64) -> DocumentContext {
    DocumentContext {
        filename: "notes.pdf".to_string(),
        chunk_id: "k1".to_string(),
        name: name.to_string(),
        description: "desc".to_string(),
        text: "body".to_string(),
        distance_millis,
    }
}

fn entry(n: u32) -> HistoryEntry {
    HistoryEntry {
        timestamp: format!("t{}", n),
        web_search_results: None,
        news_search_results: None,
        insights: format!("i{}", n),
    }
}

#[test]
fn plan_sets_out_the_three_queries() {
    let g = graph();
    let plan = plan_enrichment(&g, &request(true, true), 2025).unwrap();
    assert_eq!(plan.path, vec!["Biology", "Genetics"]);
    assert_eq!(plan.question, "Provide comprehensive insights about: Genetics");
    assert_eq!(plan.document_query.query, "Genetics");
    assert_eq!(plan.document_query.limit, 5);
    assert_eq!(plan.document_query.max_distance_millis, 700);
    let web = plan.web_query.unwrap();
    assert_eq!(web.query, "Genetics 2025");
    assert_eq!(web.max_results, Some(4));
    let news = plan.news_query.unwrap();
    assert_eq!(news.query, "Genetics");
    assert_eq!(news.time_period, Some("7d".to_string()));
}

#[test]
fn plan_without_searches_asks_no_gateways() {
    let g = graph();
    let plan = plan_enrichment(&g, &request(false, false), 2025).unwrap();
    assert!(plan.web_query.is_none());
    assert!(plan.news_query.is_none());
}

#[test]
fn enriching_unknown_topic_is_topic_not_found() {
    let g = graph();
    let mut req = request(false, false);
    req.topic_node_id = "nope".to_string();
    assert_eq!(
        plan_enrichment(&g, &req, 2025).unwrap_err(),
        AIServiceError::TopicNotFound("nope".to_string())
    );
}

#[test]
fn document_index_failure_is_soft() {
    let g = graph();
    let plan = plan_enrichment(&g, &request(true, false), 2025).unwrap();
    let ctx = gather_context(&plan, Err("index down".to_string()), Ok(vec![result("w")]), Err("n".to_string()));
    assert!(ctx.documents.is_empty());
    assert_eq!(ctx.web.as_ref().unwrap().len(), 1);
    assert!(ctx.news.is_none());
    let (resp, _) = complete_enrichment(&plan, ctx, Ok("insight".to_string()), "now".to_string(), KnowledgeRecord::empty()).unwrap();
    assert!(resp.document_context.is_none());
    assert_eq!(resp.insights, "insight");
    assert_eq!(resp.topic_node_id, "gen");
}

#[test]
fn unrequested_sources_are_ignored() {
    let g = graph();
    let plan = plan_enrichment(&g, &request(false, false), 2025).unwrap();
    let ctx = gather_context(&plan, Ok(vec![doc("a", 100)]), Ok(vec![result("w")]), Ok(vec![result("n")]));
    assert_eq!(ctx.documents.len(), 1);
    assert!(ctx.web.is_none());
    assert!(ctx.news.is_none());
}

#[test]
fn empty_knowledge_gets_one_history_entry() {
    let g = graph();
    let plan = plan_enrichment(&g, &request(false, false), 2025).unwrap();
    let ctx = GatheredContext { documents: vec![doc("a", 200)], web: None, news: None };
    let (resp, rec) = complete_enrichment(&plan, ctx, Ok("first".to_string()), "t0".to_string(), KnowledgeRecord::empty()).unwrap();
    assert_eq!(rec.search_history.len(), 1);
    assert_eq!(rec.search_history[0].insights, "first");
    assert_eq!(rec.google_search_status, Some("completed".to_string()));
    let latest = rec.latest_google_search.unwrap();
    assert_eq!(latest.insights, "first");
    assert_eq!(latest.document_context.len(), 1);
    assert_eq!(resp.document_context.unwrap().len(), 1);
}

#[test]
fn six_enrichments_keep_last_five() {
    let g = graph();
    let plan = plan_enrichment(&g, &request(false, false), 2025).unwrap();
    let mut rec = KnowledgeRecord::empty();
    for n in 1..=6 {
        let ctx = GatheredContext { documents: vec![], web: None, news: None };
        let (_, next) = complete_enrichment(&plan, ctx, Ok(format!("i{}", n)), format!("t{}", n), rec).unwrap();
        rec = next;
    }
    let kept: Vec<String> = rec.search_history.iter().map(|e| e.insights.clone()).collect();
    assert_eq!(kept, vec!["i2", "i3", "i4", "i5", "i6"]);
}

#[test]
fn long_history_is_trimmed_to_five() {
    let h: Vec<HistoryEntry> = (0..8).map(entry).collect();
    let out = push_history(h, entry(8));
    let kept: Vec<String> = out.iter().map(|e| e.timestamp.clone()).collect();
    assert_eq!(kept, vec!["t4", "t5", "t6", "t7", "t8"]);
    assert_eq!(push_history(vec![], entry(1)).len(), 1);
}

#[test]
fn failed_model_call_is_an_ai_error() {
    let g = graph();
    let plan = plan_enrichment(&g, &request(false, false), 2025).unwrap();
    let ctx = GatheredContext { documents: vec![], web: None, news: None };
    let r = complete_enrichment(&plan, ctx, Err("quota".to_string()), "t".to_string(), KnowledgeRecord::empty());
    assert!(matches!(r, Err(AIServiceError::AIServiceError(_))));
}

#[test]
fn relevance_is_one_minus_distance_in_percent() {
    assert_eq!(relevance_of(300), 70);
    assert_eq!(relevance_of(0), 100);
    assert_eq!(relevance_of(125), 88);
    assert_eq!(relevance_of(1500), -50);
    assert_eq!(relevance_of(1055), -6);
}

#[test]
fn document_entries_are_numbered_from_one() {
    let text = document_entry_of(0, &doc("Intro", 250));
    assert_eq!(text, "Document 1: notes.pdf - Intro\nDescription: desc\nRelevance Score: 75%\nContent: body\n---");
}

#[test]
fn insight_sections_come_in_fixed_order() {
    let g = graph();
    let plan = plan_enrichment(&g, &request(true, false), 2025).unwrap();
    let ctx = GatheredContext { documents: vec![doc("a", 100), doc("b", 400)], web: Some(vec![result("Web one")]), news: None };
    let text = compose_insight_instructions(&plan, &ctx, &"2025-01-01 00:00:00 UTC".to_string());
    let sys = text.find("<system-instruction>").unwrap();
    let path = text.find("<topic-path>\nBiology > Genetics\n</topic-path>").unwrap();
    let docs = text.find("<document-context>").unwrap();
    let web = text.find("<web-search-results>").unwrap();
    let fmt = text.find("Current time: 2025-01-01 00:00:00 UTC").unwrap();
    assert!(text.starts_with("<instructions>\n"));
    assert!(sys < path && path < docs && docs < web && web < fmt);
    assert!(text.contains("Document 2: notes.pdf - b"));
    assert!(text.contains("\"title\": \"Web one\""));
    assert!(text.contains("\"link\": \"https://example.org\""));
    assert!(text.contains("You are an AI assistant"));
    assert_eq!(compose_insight_prompt(&plan), "Provide a comprehensive analysis of: Provide comprehensive insights about: Genetics");
}

#[test]
fn caller_instruction_replaces_default() {
    let g = graph();
    let mut req = request(false, false);
    req.system_instruction = Some("Focus on history".to_string());
    req.question = Some("Why?".to_string());
    let plan = plan_enrichment(&g, &req, 2025).unwrap();
    let ctx = GatheredContext { documents: vec![], web: None, news: None };
    let text = compose_insight_instructions(&plan, &ctx, &"now".to_string());
    assert!(text.contains("<system-instruction>\nFocus on history\n</system-instruction>"));
    assert!(!text.contains("<document-context>"));
    assert!(!text.contains("<news-search-results>"));
    assert!(!text.contains("<web-search-results>"));
    assert_eq!(plan.question, "Why?");
}

#[test]
fn knowledge_is_persisted_on_the_topic() {
    let mut g = graph();
    let t = persist_knowledge(&mut g, &"gen".to_string(), "{\"googleSearchStatus\":\"completed\"}".to_string()).unwrap();
    assert_eq!(t.knowledge.as_deref(), Some("{\"googleSearchStatus\":\"completed\"}"));
    let r = persist_knowledge(&mut g, &"none".to_string(), "{}".to_string());
    assert!(matches!(r, Err(AIServiceError::DatabaseError(_))));
}

#[test]
fn empty_stored_knowledge_starts_a_fresh_history() {
    let g = graph();
    let stored = g.get_topic(&"gen".to_string()).unwrap().knowledge;
    assert_eq!(stored, Some(String::new()));
    let mut old = KnowledgeRecord::empty();
    old.search_history.push(entry(1));
    let start = existing_record(&stored, Some(old));
    assert!(start.search_history.is_empty());
    let plan = plan_enrichment(&g, &request(false, false), 2025).unwrap();
    let ctx = GatheredContext { documents: vec![], web: None, news: None };
    let (_, rec) = complete_enrichment(&plan, ctx, Ok("x".to_string()), "t".to_string(), start).unwrap();
    assert_eq!(rec.search_history.len(), 1);
}

#[test]
fn stored_blob_is_kept_when_it_parses() {
    let mut old = KnowledgeRecord::empty();
    old.search_history.push(entry(1));
    let start = existing_record(&Some("{...}".to_string()), Some(old));
    assert_eq!(start.search_history.len(), 1);
    assert!(existing_record(&Some("{".to_string()), None).search_history.is_empty());
    assert!(existing_record(&None, None).latest_google_search.is_none());
}

#[test]
fn news_results_follow_web_results() {
    let g = graph();
    let plan = plan_enrichment(&g, &request(true, true), 2025).unwrap();
    let ctx = gather_context(&plan, Ok(vec![]), Ok(vec![result("Web one")]), Ok(vec![result("News one")]));
    let text = compose_insight_instructions(&plan, &ctx, &"now".to_string());
    let web = text.find("<web-search-results>").unwrap();
    let news = text.find("<news-search-results>").unwrap();
    assert!(web < news);
    assert!(text.contains("\"title\": \"News one\""));
}

#[test]
fn other_knowledge_keys_are_carried_through() {
    let g = graph();
    let plan = plan_enrichment(&g, &request(false, false), 2025).unwrap();
    let mut old = KnowledgeRecord::empty();
    old.other_fields.push(("notes".to_string(), "\"keep me\"".to_string()));
    let ctx = GatheredContext { documents: vec![], web: None, news: None };
    let (_, rec) = complete_enrichment(&plan, ctx, Ok("x".to_string()), "t".to_string(), old).unwrap();
    assert_eq!(rec.other_fields, vec![("notes".to_string(), "\"keep me\"".to_string())]);
}
