use vstd::prelude::*;

verus! {

/// Relies on uuid::Uuid::new_v4 and its text form for a random identifier.
#[verifier::external_body]
pub(crate) fn fresh_id() -> (r: String) {
    uuid::Uuid::new_v4().to_string()
}

/// A copy of an optional string.
pub fn copy_opt(o: &Option<String>) -> (r: Option<String>)
    ensures
        r == *o,
{
    match o {
        Some(s) => Some(s.clone()),
        None => None,
    }
}

/// Whether a topic was written by the user or proposed by the model.
#[derive(Debug, Clone, Copy, PartialEq, Eq)]
pub enum TopicKind {
    Original,
    Generated,
}

impl TopicKind {
    /// The stored spelling of the kind.
    pub fn as_str(&self) -> (r: &'static str) {
        match self {
            TopicKind::Original => "original",
            TopicKind::Generated => "generated",
        }
    }
}

/// A named collection of topics that belongs to one owner.
#[derive(Debug, Clone)]
pub struct Canvas {
    pub id: String,
    pub author_id: String,
    pub name: String,
    /// Free text injected into every prompt composed for this canvas.
    pub system_instruction: String,
}

impl Canvas {
    /// A field-for-field copy.
    pub fn copied(&self) -> (r: Canvas)
        ensures
            r == *self,
    {
        Canvas {
            id: self.id.clone(),
            author_id: self.author_id.clone(),
            name: self.name.clone(),
            system_instruction: self.system_instruction.clone(),
        }
    }
}

/// A topic: a node of the knowledge graph.
#[derive(Debug, Clone)]
pub struct GraphNode {
    pub id: String,
    pub canvas_id: String,
    pub name: String,
    pub node_type: TopicKind,
    pub description: Option<String>,
    /// The knowledge blob, stored as JSON text.
    pub knowledge: Option<String>,
}

impl GraphNode {
    /// A field-for-field copy.
    pub fn copied(&self) -> (r: GraphNode)
        ensures
            r == *self,
    {
        GraphNode {
            id: self.id.clone(),
            canvas_id: self.canvas_id.clone(),
            name: self.name.clone(),
            node_type: self.node_type,
            description: copy_opt(&self.description),
            knowledge: copy_opt(&self.knowledge),
        }
    }
}

/// The topics and edges of one canvas, as its view shows them.
#[derive(Debug, Clone)]
pub struct GraphData {
    pub nodes: Vec<GraphNode>,
    pub edges: Vec<crate::dto::GraphEdge>,
}

/// A directed parent-to-child edge between two topics.
#[derive(Debug, Clone)]
pub struct Relationship {
    pub id: String,
    pub canvas_id: String,
    pub source_id: String,
    pub target_id: String,
}

impl Relationship {
    /// A field-for-field copy.
    pub fn copied(&self) -> (r: Relationship)
        ensures
            r == *self,
    {
        Relationship {
            id: self.id.clone(),
            canvas_id: self.canvas_id.clone(),
            source_id: self.source_id.clone(),
            target_id: self.target_id.clone(),
        }
    }
}

/// What the store needs to create a topic.
#[derive(Debug, Clone)]
pub struct InsertNode {
    pub id: String,
    pub canvas_id: String,
    pub name: String,
    pub node_type: TopicKind,
    pub description: Option<String>,
    pub knowledge: Option<String>,
}

impl InsertNode {
    /// The topic that this request describes.
    pub open spec fn to_node(&self) -> GraphNode {
        GraphNode {
            id: self.id,
            canvas_id: self.canvas_id,
            name: self.name,
            node_type: self.node_type,
            description: self.description,
            knowledge: self.knowledge,
        }
    }

    pub fn into_node(self) -> (r: GraphNode)
        ensures
            r == self.to_node(),
    {
        GraphNode {
            id: self.id,
            canvas_id: self.canvas_id,
            name: self.name,
            node_type: self.node_type,
            description: self.description,
            knowledge: self.knowledge,
        }
    }
}

/// What the store needs to create a relationship.
#[derive(Debug, Clone)]
pub struct InsertRelationship {
    pub id: String,
    pub canvas_id: String,
    pub source_id: String,
    pub target_id: String,
}

impl InsertRelationship {
    /// The relationship that this request describes.
    pub open spec fn to_relationship(&self) -> Relationship {
        Relationship {
            id: self.id,
            canvas_id: self.canvas_id,
            source_id: self.source_id,
            target_id: self.target_id,
        }
    }

    pub fn into_relationship(self) -> (r: Relationship)
        ensures
            r == self.to_relationship(),
    {
        Relationship {
            id: self.id,
            canvas_id: self.canvas_id,
            source_id: self.source_id,
            target_id: self.target_id,
        }
    }
}

} // verus!
