use knowledge_map::canvas_service::{create_canvas, delete_canvas, update_canvas, validate_get_canvases_request};
use knowledge_map::dto::{CreateCanvasRequest, GetCanvasesRequest, GetNodesRequest, UpdateCanvasRequest, VertexAIConfig};
use knowledge_map::enrich::{answer_question, compose_question_instructions, GenerateInsightsRequest};
use knowledge_map::errors::{AIServiceError, CanvasServiceError, EmailServiceError, NodeRepositoryError, NodeServiceError};
use knowledge_map::graph::TopicGraph;
use knowledge_map::model::{InsertNode, InsertRelationship, TopicKind};
use knowledge_map::node_service::{validate_get_nodes_request, validate_update_request, UpdateNodeRequest};
use knowledge_map::services::{validate_email, VertexAIService};

fn new_canvas(g: &mut TopicGraph, name: &str) -> String {
    create_canvas(
        g,
        CreateCanvasRequest { name: name.to_string(), author_id: "u1".to_string(), system_instruction: None },
    )
    .unwrap()
    .id
}

fn add(g: &mut TopicGraph, canvas: &str, id: &str) {
    g.create_topic(InsertNode {
        id: id.to_string(),
        canvas_id: canvas.to_string(),
        name: id.to_uppercase(),
        node_type: TopicKind::Original,
        description: None,
        knowledge: None,
    })
    .unwrap();
}

fn link(g: &mut TopicGraph, canvas: &str, id: &str, from: &str, to: &str) {
    g.create_relationship(InsertRelationship {
        id: id.to_string(),
        canvas_id: canvas.to_string(),
        source_id: from.to_string(),
        target_id: to.to_string(),
    })
    .unwrap();
}

fn two_canvases() -> (TopicGraph, String, String) {
    let mut g = TopicGraph::new();
    let a = new_canvas(&mut g, "A");
    let b = new_canvas(&mut g, "B");
    add(&mut g, &a, "a1");
    add(&mut g, &a, "a2");
    add(&mut g, &b, "b1");
    link(&mut g, &a, "e1", "a1", "a2");
    link(&mut g, &b, "e2", "b1", "a1");
    (g, a, b)
}

#[test]
fn deleting_a_topic_detaches_its_edges() {
    let (mut g, _, _) = two_canvases();
    g.delete_topic(&"a1".to_string()).unwrap();
    assert_eq!(g.topics.len(), 2);
    assert!(g.relationships.is_empty());
    assert_eq!(g.delete_topic(&"a1".to_string()).unwrap_err(), NodeRepositoryError::NotFound);
}

#[test]
fn deleting_a_canvas_cascades() {
    let (mut g, a, b) = two_canvases();
    delete_canvas(&mut g, &a).unwrap();
    assert_eq!(g.canvases.len(), 1);
    assert_eq!(g.topics.len(), 1);
    assert_eq!(g.topics[0].id, "b1");
    assert!(g.relationships.is_empty());
    assert_eq!(delete_canvas(&mut g, &a).unwrap_err(), CanvasServiceError::NotFound);
    assert!(matches!(delete_canvas(&mut g, &" ".to_string()), Err(CanvasServiceError::ValidationError(_))));
    assert!(g.get_canvas(&b).is_some());
}

#[test]
fn deleting_topics_of_a_canvas_keeps_others() {
    let (mut g, _, b) = two_canvases();
    g.delete_topics_for_canvas(&b);
    assert_eq!(g.topics.len(), 2);
    assert_eq!(g.relationships.len(), 1);
    assert_eq!(g.relationships[0].id, "e1");
}

#[test]
fn canvas_update_changes_given_fields() {
    let (mut g, a, _) = two_canvases();
    let c = update_canvas(
        &mut g,
        &a,
        UpdateCanvasRequest { name: None, system_instruction: Some("Use plain words".to_string()) },
    )
    .unwrap();
    assert_eq!(c.name, "A");
    assert_eq!(c.system_instruction, "Use plain words");
    let bad = update_canvas(&mut g, &a, UpdateCanvasRequest { name: Some("".to_string()), system_instruction: None });
    assert!(matches!(bad, Err(CanvasServiceError::ValidationError(_))));
    let missing = update_canvas(&mut g, &"zz".to_string(), UpdateCanvasRequest { name: None, system_instruction: None });
    assert_eq!(missing.unwrap_err(), CanvasServiceError::NotFound);
}

#[test]
fn canvas_creation_is_validated() {
    let mut g = TopicGraph::new();
    let r = create_canvas(
        &mut g,
        CreateCanvasRequest { name: "  ".to_string(), author_id: "u".to_string(), system_instruction: None },
    );
    assert!(matches!(r, Err(CanvasServiceError::ValidationError(_))));
    let r = create_canvas(
        &mut g,
        CreateCanvasRequest { name: "N".to_string(), author_id: "".to_string(), system_instruction: None },
    );
    assert!(matches!(r, Err(CanvasServiceError::ValidationError(_))));
    assert!(g.canvases.is_empty());
}

#[test]
fn graph_data_of_a_canvas() {
    let (g, a, _) = two_canvases();
    let d = g.graph_data(&a);
    assert_eq!(d.nodes.len(), 2);
    assert_eq!(d.edges.len(), 1);
    assert_eq!(d.edges[0].source, "a1");
    assert_eq!(d.edges[0].target, "a2");
}

#[test]
fn listing_requests_are_validated() {
    let ok = GetCanvasesRequest { author_id: "u".to_string(), limit: Some(10), offset: Some(0) };
    assert!(validate_get_canvases_request(&ok).is_ok());
    let big = GetCanvasesRequest { author_id: "u".to_string(), limit: Some(101), offset: None };
    assert!(validate_get_canvases_request(&big).is_err());
    let neg = GetNodesRequest { canvas_id: "c".to_string(), limit: None, offset: Some(-1) };
    assert!(matches!(validate_get_nodes_request(&neg), Err(NodeServiceError::ValidationError(_))));
    let upd = UpdateNodeRequest { name: None, node_type: Some("generated".to_string()), description: None, knowledge: None };
    assert!(validate_update_request(&upd).is_ok());
}

#[test]
fn email_shape() {
    assert!(validate_email(&"ada@example.org".to_string()).is_ok());
    assert!(matches!(validate_email(&"ada example.org".to_string()), Err(EmailServiceError::ValidationError(_))));
    assert!(validate_email(&"ada@example".to_string()).is_err());
    assert!(validate_email(&"a b@example.org".to_string()).is_err());
}

#[test]
fn model_endpoint_url() {
    let s = VertexAIService::new(Some(VertexAIConfig {
        project_id: "llm-project-2d719".to_string(),
        location: "us-central1".to_string(),
    }));
    assert_eq!(
        s.build_url(&"gemini-2.5-pro".to_string()),
        "https://us-central1-aiplatform.googleapis.com/v1/projects/llm-project-2d719/locations/us-central1/publishers/google/models/gemini-2.5-pro:generateContent"
    );
}

#[test]
fn free_standing_question() {
    let req = GenerateInsightsRequest {
        question: "What is DNA?".to_string(),
        system_instruction: None,
        topic_path: Some("Biology > Genetics".to_string()),
        document_context: None,
    };
    let text = compose_question_instructions(&req, 2025);
    assert!(text.contains("<topic-path>\nBiology > Genetics\n</topic-path>"));
    assert!(text.contains("Current time: 2025\n</format>"));
    let resp = answer_question(&req, Ok("A molecule".to_string()), "t".to_string()).unwrap();
    assert_eq!(resp.question, "What is DNA?");
    assert!(matches!(answer_question(&req, Err("x".to_string()), "t".to_string()), Err(AIServiceError::AIServiceError(_))));
}

#[test]
fn topic_pages_follow_creation_order() {
    let (mut g, a, _) = two_canvases();
    add(&mut g, &a, "a3");
    let page = g
        .get_topics(&GetNodesRequest { canvas_id: a.clone(), limit: Some(2), offset: Some(1) })
        .unwrap();
    let ids: Vec<String> = page.data.iter().map(|t| t.id.clone()).collect();
    assert_eq!(ids, vec!["a2", "a3"]);
    assert_eq!(page.pagination.total, 3);
    assert_eq!(page.pagination.current_page, 1);
    assert_eq!(page.pagination.total_pages, 2);
    let all = g.get_topics(&GetNodesRequest { canvas_id: a.clone(), limit: None, offset: None }).unwrap();
    assert_eq!(all.data.len(), 3);
    let past = g.get_topics(&GetNodesRequest { canvas_id: a.clone(), limit: Some(5), offset: Some(9) }).unwrap();
    assert!(past.data.is_empty());
    let bad = g.get_topics(&GetNodesRequest { canvas_id: a, limit: Some(-1), offset: None });
    assert!(matches!(bad, Err(NodeRepositoryError::InvalidData(_))));
}
