use knowledge_map::errors::{NodeRepositoryError, NodeServiceError};
use knowledge_map::expand::connect_if_absent;
use knowledge_map::graph::TopicGraph;
use knowledge_map::model::{Canvas, InsertNode, InsertRelationship, TopicKind};
use knowledge_map::node_service::{create_node, create_node_with_ids, update_node, CreateNodeRequest, UpdateNodeRequest};

fn canvas(id: &str) -> Canvas {
    Canvas {
        id: id.to_string(),
        author_id: "owner".to_string(),
        name: "Canvas".to_string(),
        system_instruction: String::new(),
    }
}

fn topic(g: &mut TopicGraph, canvas_id: &str, id: &str, name: &str) {
    g.create_topic(InsertNode {
        id: id.to_string(),
        canvas_id: canvas_id.to_string(),
        name: name.to_string(),
        node_type: TopicKind::Original,
        description: None,
        knowledge: None,
    })
    .unwrap();
}

fn edge(g: &mut TopicGraph, id: &str, from: &str, to: &str) {
    g.create_relationship(InsertRelationship {
        id: id.to_string(),
        canvas_id: "c1".to_string(),
        source_id: from.to_string(),
        target_id: to.to_string(),
    })
    .unwrap();
}

/// root -> a -> b -> c, and root -> s
fn sample() -> TopicGraph {
    let mut g = TopicGraph::new();
    g.add_canvas(canvas("c1")).unwrap();
    topic(&mut g, "c1", "root", "Biology");
    topic(&mut g, "c1", "a", "Genetics");
    topic(&mut g, "c1", "b", "DNA");
    topic(&mut g, "c1", "c", "Replication");
    topic(&mut g, "c1", "s", "Ecology");
    edge(&mut g, "e1", "root", "a");
    edge(&mut g, "e2", "a", "b");
    edge(&mut g, "e3", "b", "c");
    edge(&mut g, "e4", "root", "s");
    g
}

fn s(v: &[&str]) -> Vec<String> {
    v.iter().map(|x| x.to_string()).collect()
}

#[test]
fn path_of_deep_topic_runs_from_root() {
    let g = sample();
    let p = g.path_to_root(&"c".to_string(), &"c1".to_string()).unwrap();
    assert_eq!(p, s(&["Biology", "Genetics", "DNA", "Replication"]));
    assert_eq!(p.len(), 3 + 1);
}

#[test]
fn path_of_root_is_its_own_name() {
    let g = sample();
    let p = g.path_to_root(&"root".to_string(), &"c1".to_string()).unwrap();
    assert_eq!(p, s(&["Biology"]));
}

#[test]
fn path_of_unknown_topic_is_empty() {
    let g = sample();
    let p = g.path_to_root(&"zzz".to_string(), &"c1".to_string()).unwrap();
    assert!(p.is_empty());
}

#[test]
fn path_in_other_canvas_is_empty() {
    let g = sample();
    let p = g.path_to_root(&"c".to_string(), &"c2".to_string()).unwrap();
    assert!(p.is_empty());
}

#[test]
fn path_through_cycle_is_empty() {
    let mut g = TopicGraph::new();
    g.add_canvas(canvas("c1")).unwrap();
    topic(&mut g, "c1", "x", "X");
    topic(&mut g, "c1", "y", "Y");
    edge(&mut g, "e1", "x", "y");
    edge(&mut g, "e2", "y", "x");
    let p = g.path_to_root(&"x".to_string(), &"c1".to_string()).unwrap();
    assert!(p.is_empty());
}

#[test]
fn path_with_two_parents_is_an_error() {
    let mut g = sample();
    edge(&mut g, "e5", "s", "b");
    let r = g.path_to_root(&"c".to_string(), &"c1".to_string());
    assert!(matches!(r, Err(NodeRepositoryError::InvalidData(_))));
}

#[test]
fn siblings_are_symmetric() {
    let g = sample();
    let sa = g.siblings(&"a".to_string(), &"c1".to_string());
    let ss = g.siblings(&"s".to_string(), &"c1".to_string());
    assert_eq!(sa, s(&["Ecology"]));
    assert_eq!(ss, s(&["Genetics"]));
}

#[test]
fn root_has_no_siblings() {
    let g = sample();
    assert!(g.siblings(&"root".to_string(), &"c1".to_string()).is_empty());
}

#[test]
fn children_in_edge_order() {
    let g = sample();
    assert_eq!(g.children(&"root".to_string(), &"c1".to_string()), s(&["Genetics", "Ecology"]));
    assert!(g.children(&"c".to_string(), &"c1".to_string()).is_empty());
}

#[test]
fn checked_linking_never_makes_a_second_edge() {
    let mut g = sample();
    let c1 = "c1".to_string();
    let first = connect_if_absent(&mut g, &c1, &"s".to_string(), &"c".to_string(), "n1".to_string()).unwrap();
    assert!(first.is_some());
    let second = connect_if_absent(&mut g, &c1, &"s".to_string(), &"c".to_string(), "n2".to_string()).unwrap();
    assert!(second.is_none());
    let count = g.relationships.iter().filter(|r| r.source_id == "s" && r.target_id == "c").count();
    assert_eq!(count, 1);
    assert!(g.relationship_exists(&"s".to_string(), &"c".to_string()));
}

#[test]
fn relationship_needs_both_ends() {
    let mut g = sample();
    let r = g.create_relationship(InsertRelationship {
        id: "e9".to_string(),
        canvas_id: "c1".to_string(),
        source_id: "root".to_string(),
        target_id: "missing".to_string(),
    });
    assert!(matches!(r, Err(NodeRepositoryError::DatabaseError(_))));
}

#[test]
fn duplicate_topic_id_is_refused() {
    let mut g = sample();
    let r = g.create_topic(InsertNode {
        id: "a".to_string(),
        canvas_id: "c1".to_string(),
        name: "Other".to_string(),
        node_type: TopicKind::Original,
        description: None,
        knowledge: None,
    });
    assert!(matches!(r, Err(NodeRepositoryError::DatabaseError(_))));
    assert_eq!(g.topics.len(), 5);
}

fn request(name: &str) -> CreateNodeRequest {
    CreateNodeRequest {
        name: name.to_string(),
        canvas_id: "c1".to_string(),
        node_type: None,
        description: None,
        knowledge: None,
        parent_node_id: None,
    }
}

#[test]
fn duplicate_name_is_refused() {
    let mut g = sample();
    let before = g.topics.len();
    let r = create_node(&mut g, request("Genetics"));
    assert_eq!(r.unwrap_err(), NodeServiceError::TopicAlreadyExists);
    assert_eq!(g.topics.len(), before);
}

#[test]
fn new_name_is_created_under_parent() {
    let mut g = sample();
    let mut req = request("Zoology");
    req.parent_node_id = Some("root".to_string());
    let t = create_node(&mut g, req).unwrap();
    assert_eq!(t.node_type, TopicKind::Generated);
    assert_eq!(g.topics.len(), 6);
    let kids = g.children(&"root".to_string(), &"c1".to_string());
    assert_eq!(kids, s(&["Genetics", "Ecology", "Zoology"]));
}

#[test]
fn node_requests_are_validated() {
    let mut g = sample();
    assert!(matches!(create_node(&mut g, request("   ")), Err(NodeServiceError::ValidationError(_))));
    let long = "x".repeat(101);
    assert!(matches!(create_node(&mut g, request(&long)), Err(NodeServiceError::ValidationError(_))));
    let mut bad = request("Botany");
    bad.node_type = Some("other".to_string());
    assert!(matches!(create_node(&mut g, bad), Err(NodeServiceError::ValidationError(_))));
    let mut elsewhere = request("Botany");
    elsewhere.canvas_id = "c9".to_string();
    assert_eq!(create_node(&mut g, elsewhere).unwrap_err(), NodeServiceError::CanvasNotFound);
    assert_eq!(g.topics.len(), 5);
}

#[test]
fn topics_by_name_and_canvas() {
    let g = sample();
    let t = g.get_topic_by_name(&"c1".to_string(), &"DNA".to_string()).unwrap();
    assert_eq!(t.id, "b");
    assert!(g.get_topic_by_name(&"c2".to_string(), &"DNA".to_string()).is_none());
    assert_eq!(g.topics_for_canvas(&"c1".to_string()).len(), 5);
    assert!(g.topics_for_canvas(&"c2".to_string()).is_empty());
}

#[test]
fn knowledge_update_overwrites_and_reports_missing() {
    let mut g = sample();
    let t = g.update_knowledge(&"a".to_string(), "{}".to_string()).unwrap();
    assert_eq!(t.knowledge, Some("{}".to_string()));
    assert_eq!(g.get_topic(&"a".to_string()).unwrap().knowledge, Some("{}".to_string()));
    assert_eq!(g.update_knowledge(&"zz".to_string(), "{}".to_string()).unwrap_err(), NodeRepositoryError::NotFound);
}

#[test]
fn name_limit_counts_bytes() {
    let mut g = sample();
    let wide = "\u{e9}".repeat(60);
    assert!(matches!(create_node(&mut g, request(&wide)), Err(NodeServiceError::ValidationError(_))));
    let narrow = "e".repeat(100);
    assert!(create_node(&mut g, request(&narrow)).is_ok());
}

#[test]
fn missing_parent_fails_after_storing_the_topic() {
    let mut g = sample();
    let mut req = request("Zoology");
    req.parent_node_id = Some("nowhere".to_string());
    let r = create_node_with_ids(&mut g, req, "z".to_string(), "ez".to_string());
    assert!(matches!(r, Err(NodeServiceError::DatabaseError(_))));
    assert_eq!(g.topics.len(), 6);
    assert_eq!(g.relationships.len(), 4);
}

#[test]
fn used_topic_id_is_a_database_error() {
    let mut g = sample();
    let r = create_node_with_ids(&mut g, request("Zoology"), "a".to_string(), "ez".to_string());
    assert!(matches!(r, Err(NodeServiceError::DatabaseError(_))));
    assert_eq!(g.topics.len(), 5);
}

#[test]
fn used_edge_id_is_refused() {
    let mut g = sample();
    let r = g.create_relationship(InsertRelationship {
        id: "e1".to_string(),
        canvas_id: "c1".to_string(),
        source_id: "s".to_string(),
        target_id: "c".to_string(),
    });
    assert!(matches!(r, Err(NodeRepositoryError::DatabaseError(_))));
    assert_eq!(g.relationships.len(), 4);
}

#[test]
fn topic_update_writes_given_fields() {
    let mut g = sample();
    let upd = UpdateNodeRequest {
        name: Some("Heredity".to_string()),
        node_type: Some("generated".to_string()),
        description: None,
        knowledge: Some("{}".to_string()),
    };
    let t = update_node(&mut g, &"a".to_string(), upd).unwrap();
    assert_eq!(t.name, "Heredity");
    assert_eq!(t.node_type, TopicKind::Generated);
    assert_eq!(t.knowledge, Some("{}".to_string()));
    let missing = UpdateNodeRequest { name: None, node_type: None, description: None, knowledge: None };
    assert_eq!(update_node(&mut g, &"zz".to_string(), missing).unwrap_err(), NodeServiceError::NotFound);
}

#[test]
fn unicode_space_name_is_blank() {
    let mut g = sample();
    assert!(matches!(create_node(&mut g, request("\u{3000}\t\u{a0}")), Err(NodeServiceError::ValidationError(_))));
    assert!(create_node(&mut g, request(" Botany ")).is_ok());
}
