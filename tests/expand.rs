use knowledge_map::errors::AIServiceError;
use knowledge_map::expand::{apply_keywords, expand_keywords, plan_keywords, GenerateKeywordsRequest};
use knowledge_map::graph::TopicGraph;
use knowledge_map::keywords::{keywords_from_fields, parse_keywords};
use knowledge_map::model::{Canvas, InsertNode, TopicKind};
use knowledge_map::prompt::compose_keyword_input;
use knowledge_map::text::{decimal_of, quoted_list_of};

fn biology() -> TopicGraph {
    let mut g = TopicGraph::new();
    g.add_canvas(Canvas {
        id: "C1".to_string(),
        author_id: "u1".to_string(),
        name: "Life".to_string(),
        system_instruction: String::new(),
    })
    .unwrap();
    g.create_topic(InsertNode {
        id: "bio".to_string(),
        canvas_id: "C1".to_string(),
        name: "Biology".to_string(),
        node_type: TopicKind::Original,
        description: None,
        knowledge: None,
    })
    .unwrap();
    g
}

fn request(name: &str) -> GenerateKeywordsRequest {
    GenerateKeywordsRequest {
        topic_name: name.to_string(),
        canvas_id: "C1".to_string(),
        node_count: Some(3),
        is_automatic: Some(false),
    }
}

#[test]
fn expanding_root_creates_three_generated_children() {
    let mut g = biology();
    let plan = plan_keywords(&g, &request("Biology")).unwrap();
    let reply = r#"{"keywords":["Genetics","Ecology","Evolution"]}"#.to_string();
    let resp = apply_keywords(&mut g, &plan, Ok(reply)).unwrap();
    assert_eq!(resp.keywords, vec!["Genetics", "Ecology", "Evolution"]);
    assert_eq!(resp.edges.len(), 3);
    assert_eq!(g.topics.len(), 4);
    for t in &g.topics[1..] {
        assert_eq!(t.node_type, TopicKind::Generated);
        assert_eq!(t.canvas_id, "C1");
    }
    for (i, rel) in g.relationships.iter().enumerate() {
        assert_eq!(rel.source_id, "bio");
        assert_eq!(rel.target_id, g.topics[i + 1].id);
        assert_eq!(rel.id, resp.edges[i]);
    }
    let kids = g.children(&"bio".to_string(), &"C1".to_string());
    assert_eq!(kids, vec!["Genetics", "Ecology", "Evolution"]);
}

#[test]
fn expanding_unknown_topic_is_topic_not_found() {
    let g = biology();
    let r = plan_keywords(&g, &request("Chemistry"));
    assert_eq!(r.unwrap_err(), AIServiceError::TopicNotFound("Chemistry".to_string()));
    assert_eq!(g.topics.len(), 1);
}

#[test]
fn expanding_in_unknown_canvas_is_canvas_not_found() {
    let g = biology();
    let mut req = request("Biology");
    req.canvas_id = "C9".to_string();
    assert_eq!(plan_keywords(&g, &req).unwrap_err(), AIServiceError::CanvasNotFound("C9".to_string()));
}

#[test]
fn failed_model_call_changes_nothing() {
    let mut g = biology();
    let plan = plan_keywords(&g, &request("Biology")).unwrap();
    let r = apply_keywords(&mut g, &plan, Err("timeout".to_string()));
    assert!(matches!(r, Err(AIServiceError::AIServiceError(_))));
    assert_eq!(g.topics.len(), 1);
}

#[test]
fn reply_that_is_not_json_is_invalid() {
    let mut g = biology();
    let plan = plan_keywords(&g, &request("Biology")).unwrap();
    let r = apply_keywords(&mut g, &plan, Ok("Genetics, Ecology".to_string()));
    assert!(matches!(r, Err(AIServiceError::InvalidResponseFormat(_))));
    assert_eq!(g.topics.len(), 1);
    assert!(g.relationships.is_empty());
}

#[test]
fn reply_without_keywords_gives_nothing() {
    let mut g = biology();
    let plan = plan_keywords(&g, &request("Biology")).unwrap();
    let resp = apply_keywords(&mut g, &plan, Ok(r#"{"other":1}"#.to_string())).unwrap();
    assert!(resp.keywords.is_empty());
    assert!(resp.edges.is_empty());
    assert_eq!(g.topics.len(), 1);
}

#[test]
fn keyword_parsing_skips_non_strings() {
    let ks = parse_keywords(&r#"{"keywords":["A",2,null,"B"]}"#.to_string()).unwrap();
    assert_eq!(ks, vec!["A", "B"]);
    let fields = vec![Some("x".to_string()), None, Some("y".to_string())];
    assert_eq!(keywords_from_fields(&fields), vec!["x", "y"]);
    assert!(matches!(parse_keywords(&"[".to_string()), Err(AIServiceError::InvalidResponseFormat(_))));
}

#[test]
fn duplicate_keywords_are_each_created() {
    let mut g = biology();
    let plan = plan_keywords(&g, &request("Biology")).unwrap();
    let resp = apply_keywords(&mut g, &plan, Ok(r#"{"keywords":["Cells","Cells"]}"#.to_string())).unwrap();
    assert_eq!(resp.edges.len(), 2);
    assert_eq!(g.topics.len(), 3);
}

#[test]
fn keyword_prompt_names_path_and_count() {
    let g = biology();
    let plan = plan_keywords(&g, &request("Biology")).unwrap();
    assert_eq!(plan.path, vec!["Biology"]);
    assert!(plan.prompt.starts_with(&plan.instructions));
    assert!(plan.prompt.contains("- Topic: \"Biology\"\n- Topic Path: [\"Biology\"]\n- Existing Siblings: []\n- Node Count: 3\n"));
    assert!(plan.instructions.contains("the desired 'nodeCount'"));
    assert!(!plan.instructions.contains("<automatic-count>"));
    assert!(plan.config.keywords_schema);
    assert_eq!(plan.config.system_prompt, Some(plan.instructions.clone()));
}

#[test]
fn automatic_prompt_asks_model_for_count() {
    let mut g = biology();
    g.canvases[0].system_instruction = "Be brief".to_string();
    let mut req = request("Biology");
    req.is_automatic = Some(true);
    let plan = plan_keywords(&g, &req).unwrap();
    assert!(plan.instructions.contains("<automatic-count>"));
    assert!(plan.instructions.contains("<system-instruction>\nBe brief\n</system-instruction>"));
    assert!(plan.prompt.contains("- Mode: Automatic"));
}

#[test]
fn keyword_input_lists_children_and_siblings() {
    let path = vec!["A".to_string(), "B".to_string()];
    let kids = vec!["C".to_string()];
    let sibs = vec!["D".to_string(), "E".to_string()];
    let text = compose_keyword_input(&"B".to_string(), &path, &kids, &sibs, false, -7);
    assert_eq!(
        text,
        "- Topic: \"B\"\n- Topic Path: [\"A\", \"B\"]\n- Children: [\"C\"]\n- Existing Siblings: [\"D\", \"E\"]\n- Node Count: -7\n- Available Context: No document chunks found for this topic"
    );
}

#[test]
fn decimals_and_quoted_lists() {
    assert_eq!(decimal_of(0), "0");
    assert_eq!(decimal_of(1203), "1203");
    assert_eq!(decimal_of(-45), "-45");
    assert_eq!(decimal_of(i64::MIN), i64::MIN.to_string());
    assert_eq!(quoted_list_of(&vec![]), "");
    assert_eq!(quoted_list_of(&vec!["a".to_string(), "b".to_string()]), "\"a\", \"b\"");
}

fn strings(v: &[&str]) -> Vec<String> {
    v.iter().map(|x| x.to_string()).collect()
}

#[test]
fn expansion_with_fresh_ids_uses_them() {
    let mut g = biology();
    let plan = plan_keywords(&g, &request("Biology")).unwrap();
    let resp = expand_keywords(
        &mut g,
        &plan,
        strings(&["Genetics", "Ecology", "Evolution"]),
        &strings(&["t1", "t2", "t3"]),
        &strings(&["e1", "e2", "e3"]),
    )
    .unwrap();
    assert_eq!(resp.edges, strings(&["e1", "e2", "e3"]));
    assert_eq!(g.topics[1].id, "t1");
    assert_eq!(g.topics[3].id, "t3");
}

#[test]
fn expansion_with_a_used_id_keeps_earlier_keywords() {
    let mut g = biology();
    let plan = plan_keywords(&g, &request("Biology")).unwrap();
    let r = expand_keywords(
        &mut g,
        &plan,
        strings(&["Genetics", "Ecology", "Evolution"]),
        &strings(&["t1", "bio", "t3"]),
        &strings(&["e1", "e2", "e3"]),
    );
    assert!(matches!(r, Err(AIServiceError::DatabaseError(_))));
    assert_eq!(g.topics.len(), 2);
    assert_eq!(g.topics[1].name, "Genetics");
    assert_eq!(g.relationships.len(), 1);
    assert_eq!(g.relationships[0].target_id, "t1");
}

#[test]
fn expansion_with_a_repeated_edge_id_fails_after_the_topic() {
    let mut g = biology();
    let plan = plan_keywords(&g, &request("Biology")).unwrap();
    let r = expand_keywords(
        &mut g,
        &plan,
        strings(&["Genetics", "Ecology"]),
        &strings(&["t1", "t2"]),
        &strings(&["e1", "e1"]),
    );
    assert!(matches!(r, Err(AIServiceError::DatabaseError(_))));
    assert_eq!(g.topics.len(), 3);
    assert_eq!(g.relationships.len(), 1);
}

#[test]
fn reply_with_no_keyword_array_is_empty_success() {
    let mut g = biology();
    let plan = plan_keywords(&g, &request("Biology")).unwrap();
    let resp = apply_keywords(&mut g, &plan, Ok(r#"{"keywords":5}"#.to_string())).unwrap();
    assert!(resp.keywords.is_empty());
    assert!(resp.edges.is_empty());
    assert_eq!(g.topics.len(), 1);
}
