use vstd::prelude::*;
use crate::dto::GetNodesRequest;
use crate::errors::{NodeRepositoryError, NodeServiceError};
use crate::graph::TopicGraph;
use crate::text::{blank, is_blank};
use crate::model::{fresh_id, GraphNode, InsertNode, InsertRelationship, TopicKind};

verus! {

/// Longest topic or canvas name accepted, in bytes of UTF-8.
pub const MAX_NAME_LEN: usize = 100;

/// The length of `s` in bytes of UTF-8.
pub open spec fn byte_len(s: Seq<char>) -> nat {
    vstd::utf8::encode_utf8(s).len()
}

/// Changes to a topic; absent fields stay as they are.
#[derive(Debug, Clone)]
pub struct UpdateNodeRequest {
    pub name: Option<String>,
    pub node_type: Option<String>,
    pub description: Option<String>,
    pub knowledge: Option<String>,
}

/// A request to create a topic by hand, optionally under a parent.
#[derive(Debug, Clone)]
pub struct CreateNodeRequest {
    pub name: String,
    pub canvas_id: String,
    pub node_type: Option<String>,
    pub description: Option<String>,
    pub knowledge: Option<String>,
    pub parent_node_id: Option<String>,
}

/// The spelled kinds that a request may name.
pub open spec fn known_kind(t: Seq<char>) -> bool {
    t == "original"@ || t == "generated"@
}

/// Why a request is refused before the store is asked, if it is.
pub open spec fn invalid_request(request: CreateNodeRequest) -> bool {
    ||| blank(request.name@)
    ||| byte_len(request.name@) > MAX_NAME_LEN
    ||| blank(request.canvas_id@)
    ||| (request.node_type matches Some(t) && !known_kind(t@))
}

/// The kind a created topic gets: generated under a parent, else the
/// requested kind, else original.
pub open spec fn requested_kind(request: CreateNodeRequest) -> TopicKind {
    if request.parent_node_id is Some {
        TopicKind::Generated
    } else {
        match request.node_type {
            Some(t) => if t@ == "generated"@ {
                TopicKind::Generated
            } else {
                TopicKind::Original
            },
            None => TopicKind::Original,
        }
    }
}

/// Checks the request's fields.
pub fn validate_create_request(request: &CreateNodeRequest) -> (r: Result<(), NodeServiceError>)
    ensures
        r is Ok <==> !invalid_request(*request),
        r matches Err(e) ==> e is ValidationError,
{
    if is_blank(&request.name) {
        return Err(NodeServiceError::ValidationError(String::from_str("Node name cannot be empty")));
    }
    if request.name.as_str().as_bytes().len() > MAX_NAME_LEN {
        return Err(NodeServiceError::ValidationError(String::from_str("Node name cannot exceed 100 characters")));
    }
    if is_blank(&request.canvas_id) {
        return Err(NodeServiceError::ValidationError(String::from_str("Canvas ID cannot be empty")));
    }
    if let Some(t) = &request.node_type {
        let original = String::from_str("original");
        let generated = String::from_str("generated");
        if *t != original && *t != generated {
            return Err(NodeServiceError::ValidationError(String::from_str("Node type must be 'original' or 'generated'")));
        }
    }
    Ok(())
}

/// An update may rename a topic or change its kind; a new name must not
/// be blank nor longer than the limit, and a kind must be a known one.
pub fn validate_update_request(updates: &UpdateNodeRequest) -> (r: Result<(), NodeServiceError>)
    ensures
        r is Ok <==> !((updates.name matches Some(n) && (blank(n@) || byte_len(n@)
            > MAX_NAME_LEN)) || (updates.node_type matches Some(t) && !known_kind(t@))),
        r matches Err(e) ==> e is ValidationError,
{
    if let Some(name) = &updates.name {
        if is_blank(name) {
            return Err(NodeServiceError::ValidationError(String::from_str("Node name cannot be empty")));
        }
        if name.as_str().as_bytes().len() > MAX_NAME_LEN {
            return Err(NodeServiceError::ValidationError(String::from_str("Node name cannot exceed 100 characters")));
        }
    }
    if let Some(t) = &updates.node_type {
        let original = String::from_str("original");
        let generated = String::from_str("generated");
        if *t != original && *t != generated {
            return Err(NodeServiceError::ValidationError(String::from_str("Node type must be 'original' or 'generated'")));
        }
    }
    Ok(())
}

/// An update that validation accepts.
pub open spec fn validate_update_ok(updates: UpdateNodeRequest) -> bool {
    !((updates.name matches Some(n) && (blank(n@) || byte_len(n@) > MAX_NAME_LEN)) || (
    updates.node_type matches Some(t) && !known_kind(t@)))
}

/// A listing asks for a canvas, at most 100 items per page and no negative
/// offset.
pub fn validate_get_nodes_request(request: &GetNodesRequest) -> (r: Result<(), NodeServiceError>)
    ensures
        r is Ok <==> !blank(request.canvas_id@) && (request.limit matches Some(l) ==> 0 < l
            <= 100) && (request.offset matches Some(o) ==> o >= 0),
        r matches Err(e) ==> e is ValidationError,
{
    if is_blank(&request.canvas_id) {
        return Err(NodeServiceError::ValidationError(String::from_str("Canvas ID cannot be empty")));
    }
    if let Some(limit) = request.limit {
        if limit <= 0 || limit > 100 {
            return Err(NodeServiceError::ValidationError(String::from_str("Limit must be between 1 and 100")));
        }
    }
    if let Some(offset) = request.offset {
        if offset < 0 {
            return Err(NodeServiceError::ValidationError(String::from_str("Offset cannot be negative")));
        }
    }
    Ok(())
}

/// The topic name `name` is used in `canvas`.
pub open spec fn name_taken(graph: TopicGraph, canvas: Seq<char>, name: Seq<char>) -> bool {
    exists|i: int| 0 <= i < graph.topics@.len() && #[trigger] graph.named_in(i, canvas, name)
}

/// What a created topic holds.
pub open spec fn created_from(t: GraphNode, request: CreateNodeRequest) -> bool {
    &&& t.name == request.name
    &&& t.canvas_id == request.canvas_id
    &&& t.node_type == requested_kind(request)
    &&& t.description == request.description
    &&& t.knowledge == request.knowledge
}

/// Creates a topic under the id `id` in a canvas, and the edge from its
/// parent under `edge_id` when one is named. A name already used in the
/// canvas is refused and nothing is stored. A parent that is not stored,
/// or an edge id in use, fails after the topic was stored.
pub fn create_node_with_ids(graph: &mut TopicGraph, request: CreateNodeRequest, id: String, edge_id: String) -> (r: Result<
    GraphNode,
    NodeServiceError,
>)
    requires
        old(graph).wf(),
    ensures
        final(graph).wf(),
        final(graph).canvases@ == old(graph).canvases@,
        invalid_request(request) ==> (r matches Err(NodeServiceError::ValidationError(_)))
            && *final(graph) == *old(graph),
        !invalid_request(request) && !old(graph).has_canvas(request.canvas_id@) ==> r == Err::<
            GraphNode,
            NodeServiceError,
        >(NodeServiceError::CanvasNotFound) && *final(graph) == *old(graph),
        !invalid_request(request) && old(graph).has_canvas(request.canvas_id@) && name_taken(
            *old(graph),
            request.canvas_id@,
            request.name@,
        ) ==> r == Err::<GraphNode, NodeServiceError>(NodeServiceError::TopicAlreadyExists)
            && *final(graph) == *old(graph),
        !invalid_request(request) && old(graph).has_canvas(request.canvas_id@) && !name_taken(
            *old(graph),
            request.canvas_id@,
            request.name@,
        ) ==> (r is Ok <==> !old(graph).has_topic(id@) && (request.parent_node_id matches Some(p)
            ==> (old(graph).has_topic(p@) || p@ == id@) && !old(graph).has_relationship_id(
            edge_id@,
        ))),
        !invalid_request(request) && old(graph).has_canvas(request.canvas_id@) && !name_taken(
            *old(graph),
            request.canvas_id@,
            request.name@,
        ) ==> r is Ok || r matches Err(NodeServiceError::DatabaseError(_)),
        r matches Err(NodeServiceError::DatabaseError(_)) ==> (final(graph).topics@ == old(
            graph,
        ).topics@ || (request.parent_node_id is Some && final(graph).topics@.len() == old(
            graph,
        ).topics@.len() + 1)) && final(graph).relationships@ == old(graph).relationships@,
        r matches Ok(t) ==> {
            &&& created_from(t, request)
            &&& t.id == id
            &&& final(graph).topics@ == old(graph).topics@.push(t)
            &&& request.parent_node_id is None ==> final(graph).relationships@ == old(
                graph,
            ).relationships@
            &&& (request.parent_node_id matches Some(p) ==> final(graph).relationships@.len()
                == old(graph).relationships@.len() + 1 && final(graph).relationships@.last().source_id
                == p && final(graph).relationships@.last().target_id == t.id
                && final(graph).relationships@.last().id == edge_id)
        },
{
    match validate_create_request(&request) {
        Ok(()) => {},
        Err(e) => return Err(e),
    }
    if graph.find_canvas(&request.canvas_id).is_none() {
        return Err(NodeServiceError::CanvasNotFound);
    }
    if graph.get_topic_by_name(&request.canvas_id, &request.name).is_some() {
        return Err(NodeServiceError::TopicAlreadyExists);
    }
    let kind = if request.parent_node_id.is_some() {
        TopicKind::Generated
    } else {
        match &request.node_type {
            Some(t) => {
                if *t == String::from_str("generated") {
                    TopicKind::Generated
                } else {
                    TopicKind::Original
                }
            },
            None => TopicKind::Original,
        }
    };
    proof {
        reveal_strlit("generated");
    }
    let ghost req = request;
    let ghost g0 = *graph;
    let insert = InsertNode {
        id,
        canvas_id: request.canvas_id,
        name: request.name,
        node_type: kind,
        description: request.description,
        knowledge: request.knowledge,
    };
    let node = match graph.create_topic(insert) {
        Ok(t) => t,
        Err(e) => return Err(repository_error(e)),
    };
    let ghost g1 = *graph;
    proof {
        assert(g1.topics@ == g0.topics@.push(node));
        assert(g1.topics@[g0.topics@.len() as int] == node);
        if let Some(p) = req.parent_node_id {
            if g0.has_topic(p@) {
                let j = choose|j: int| 0 <= j < g0.topics@.len() && g0.topics@[j].id@ == p@;
                assert(g1.topics@[j] == g0.topics@[j]);
            }
            if g1.has_topic(p@) && p@ != node.id@ {
                let j = choose|j: int| 0 <= j < g1.topics@.len() && g1.topics@[j].id@ == p@;
                assert(j < g0.topics@.len());
                assert(g1.topics@[j] == g0.topics@[j]);
            }
        }
    }
    if let Some(parent) = request.parent_node_id {
        let link = InsertRelationship {
            id: edge_id,
            canvas_id: node.canvas_id.clone(),
            source_id: parent,
            target_id: node.id.clone(),
        };
        match graph.create_relationship(link) {
            Ok(_) => {},
            Err(e) => return Err(repository_error(e)),
        }
    }
    Ok(node)
}

/// Creates a topic in a canvas under a fresh random id, and the edge from
/// its parent when one is named. A name already used in the canvas is
/// refused and nothing is stored; on a store failure at most the topic
/// itself stays, and only when a parent was named.
pub fn create_node(graph: &mut TopicGraph, request: CreateNodeRequest) -> (r: Result<GraphNode, NodeServiceError>)
    requires
        old(graph).wf(),
    ensures
        final(graph).wf(),
        final(graph).canvases@ == old(graph).canvases@,
        invalid_request(request) ==> (r matches Err(NodeServiceError::ValidationError(_)))
            && *final(graph) == *old(graph),
        !invalid_request(request) && !old(graph).has_canvas(request.canvas_id@) ==> r == Err::<
            GraphNode,
            NodeServiceError,
        >(NodeServiceError::CanvasNotFound) && *final(graph) == *old(graph),
        !invalid_request(request) && old(graph).has_canvas(request.canvas_id@) && name_taken(
            *old(graph),
            request.canvas_id@,
            request.name@,
        ) ==> r == Err::<GraphNode, NodeServiceError>(NodeServiceError::TopicAlreadyExists)
            && *final(graph) == *old(graph),
        !invalid_request(request) && old(graph).has_canvas(request.canvas_id@) && !name_taken(
            *old(graph),
            request.canvas_id@,
            request.name@,
        ) ==> r is Ok || r matches Err(NodeServiceError::DatabaseError(_)),
        r matches Err(NodeServiceError::DatabaseError(_)) ==> (final(graph).topics@ == old(
            graph,
        ).topics@ || (request.parent_node_id is Some && final(graph).topics@.len() == old(
            graph,
        ).topics@.len() + 1)) && final(graph).relationships@ == old(graph).relationships@,
        r matches Ok(t) ==> {
            &&& created_from(t, request)
            &&& final(graph).topics@ == old(graph).topics@.push(t)
            &&& request.parent_node_id is None ==> final(graph).relationships@ == old(
                graph,
            ).relationships@
            &&& (request.parent_node_id matches Some(p) ==> final(graph).relationships@.len()
                == old(graph).relationships@.len() + 1 && final(graph).relationships@.last().source_id
                == p && final(graph).relationships@.last().target_id == t.id)
        },
{
    let id = fresh_id();
    let edge_id = fresh_id();
    create_node_with_ids(graph, request, id, edge_id)
}

/// The kind an update names, when it names one.
pub open spec fn kind_named(t: Option<String>) -> Option<TopicKind> {
    match t {
        Some(s) => Some(if s@ == "generated"@ { TopicKind::Generated } else { TopicKind::Original }),
        None => None,
    }
}

/// Applies a checked update to a stored topic: given fields are written,
/// others kept. A blank id or an invalid update is refused, and an unknown
/// topic is not found.
pub fn update_node(graph: &mut TopicGraph, id: &String, updates: UpdateNodeRequest) -> (r: Result<GraphNode, NodeServiceError>)
    requires
        old(graph).wf(),
    ensures
        final(graph).wf(),
        final(graph).canvases@ == old(graph).canvases@,
        final(graph).relationships@ == old(graph).relationships@,
        r is Err ==> final(graph).topics@ == old(graph).topics@,
        blank(id@) ==> (r matches Err(NodeServiceError::ValidationError(_))),
        !blank(id@) ==> (validate_update_ok(updates) && old(graph).has_topic(id@) <==> r is Ok),
        !blank(id@) && validate_update_ok(updates) && !old(graph).has_topic(id@) ==> r
            == Err::<GraphNode, NodeServiceError>(NodeServiceError::NotFound),
        r matches Ok(t) ==> {
            let was = old(graph).topic(id@);
            &&& t.id == was.id
            &&& t.canvas_id == was.canvas_id
            &&& t.name == match updates.name {
                Some(n) => n,
                None => was.name,
            }
            &&& t.node_type == match kind_named(updates.node_type) {
                Some(k) => k,
                None => was.node_type,
            }
            &&& t.description == match updates.description {
                Some(d) => Some(d),
                None => was.description,
            }
            &&& t.knowledge == match updates.knowledge {
                Some(k) => Some(k),
                None => was.knowledge,
            }
            &&& final(graph).topics@ == old(graph).topics@.update(old(graph).topic_index(id@), t)
        },
{
    if is_blank(id) {
        return Err(NodeServiceError::ValidationError(String::from_str("Node ID cannot be empty")));
    }
    match validate_update_request(&updates) {
        Ok(()) => {},
        Err(e) => return Err(e),
    }
    let kind = match &updates.node_type {
        Some(s) => Some(if *s == String::from_str("generated") { TopicKind::Generated } else { TopicKind::Original }),
        None => None,
    };
    proof {
        reveal_strlit("generated");
    }
    match graph.update_topic(id, updates.name, kind, updates.description, updates.knowledge) {
        Ok(n) => Ok(n),
        Err(e) => Err(repository_error(e)),
    }
}

/// The service-level form of a store failure.
pub fn repository_error(e: NodeRepositoryError) -> (r: NodeServiceError)
    ensures
        e matches NodeRepositoryError::DatabaseError(m) ==> r == NodeServiceError::DatabaseError(m),
        e matches NodeRepositoryError::InvalidData(m) ==> r == NodeServiceError::ValidationError(m),
        e is NotFound ==> r is NotFound,
{
    match e {
        NodeRepositoryError::DatabaseError(m) => NodeServiceError::DatabaseError(m),
        NodeRepositoryError::InvalidData(m) => NodeServiceError::ValidationError(m),
        NodeRepositoryError::NotFound => NodeServiceError::NotFound,
    }
}

} // verus!
