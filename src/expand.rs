use vstd::prelude::*;
use crate::dto::VertexAIRequestConfig;
use crate::errors::AIServiceError;
use crate::graph::{edge_count, views, TopicGraph};
use crate::keywords::{parse_keywords, parsed_keywords};
use crate::model::{fresh_id, InsertNode, InsertRelationship, Relationship, TopicKind};
use crate::prompt::{compose_keyword_input, compose_keyword_instructions, keyword_input, keyword_instructions};

verus! {

/// A request to propose child topics for a topic named within a canvas.
#[derive(Debug, Clone)]
pub struct GenerateKeywordsRequest {
    pub topic_name: String,
    pub canvas_id: String,
    pub node_count: Option<i32>,
    pub is_automatic: Option<bool>,
}

/// The proposed keywords and the ids of the relationships created for them.
#[derive(Debug, Clone)]
pub struct GenerateKeywordsResponse {
    pub keywords: Vec<String>,
    pub edges: Vec<String>,
}

/// Everything the keyword model is asked, and the topic being expanded.
#[derive(Debug, Clone)]
pub struct KeywordPlan {
    pub canvas_id: String,
    pub source_id: String,
    pub path: Vec<String>,
    pub siblings: Vec<String>,
    pub children: Vec<String>,
    /// The rules, also sent as the system prompt.
    pub instructions: String,
    /// The rules followed by the hierarchy context.
    pub prompt: String,
    pub config: VertexAIRequestConfig,
}

/// The count asked for: the one given, else 3.
pub open spec fn desired_count(request: GenerateKeywordsRequest) -> i32 {
    match request.node_count {
        Some(n) => n,
        None => 3,
    }
}

/// Whether the model picks the count: as given, else no.
pub open spec fn automatic(request: GenerateKeywordsRequest) -> bool {
    match request.is_automatic {
        Some(b) => b,
        None => false,
    }
}

impl TopicGraph {
    /// The topic at `i` is the first one of `canvas` called `name`.
    pub open spec fn first_named(&self, i: int, canvas: Seq<char>, name: Seq<char>) -> bool {
        &&& 0 <= i < self.topics@.len()
        &&& self.named_in(i, canvas, name)
        &&& forall|k: int| 0 <= k < i ==> !#[trigger] self.named_in(k, canvas, name)
    }
}

/// Resolves the canvas and the topic by name, gathers its path, siblings
/// and children, and composes the prompt for the keyword model.
pub fn plan_keywords(graph: &TopicGraph, request: &GenerateKeywordsRequest) -> (r: Result<KeywordPlan, AIServiceError>)
    requires
        graph.wf(),
    ensures
        !graph.has_canvas(request.canvas_id@) ==> r == Err::<KeywordPlan, AIServiceError>(
            AIServiceError::CanvasNotFound(request.canvas_id),
        ),
        graph.has_canvas(request.canvas_id@) && !(exists|i: int|
            0 <= i < graph.topics@.len() && #[trigger] graph.named_in(
                i,
                request.canvas_id@,
                request.topic_name@,
            )) ==> r == Err::<KeywordPlan, AIServiceError>(
            AIServiceError::TopicNotFound(request.topic_name),
        ),
        graph.has_canvas(request.canvas_id@) && (exists|i: int|
            graph.first_named(i, request.canvas_id@, request.topic_name@) && #[trigger] graph.path_spec(
                graph.topics@[i].id@,
                request.canvas_id@,
            ) is Some) ==> r is Ok,
        r matches Err(AIServiceError::DatabaseError(_)) ==> exists|i: int|
            graph.first_named(i, request.canvas_id@, request.topic_name@) && graph.path_spec(
                graph.topics@[i].id@,
                request.canvas_id@,
            ) is None,
        r matches Ok(plan) ==> graph.has_canvas(request.canvas_id@) && exists|i: int|
            #![trigger graph.topics@[i]]
            graph.first_named(i, request.canvas_id@, request.topic_name@) && {
                let t = graph.topics@[i];
                let path = graph.path_spec(t.id@, request.canvas_id@);
                let siblings = graph.siblings_spec(t.id@, request.canvas_id@);
                let children = graph.children_spec(t.id@, request.canvas_id@);
                let rules = keyword_instructions(
                    graph.canvas(request.canvas_id@).system_instruction@,
                    automatic(*request),
                );
                &&& plan.canvas_id == request.canvas_id
                &&& plan.source_id == t.id
                &&& path == Some(views(plan.path@))
                &&& views(plan.siblings@) == siblings
                &&& views(plan.children@) == children
                &&& plan.instructions@ == rules
                &&& plan.prompt@ == rules + "\n\n"@ + keyword_input(
                    request.topic_name@,
                    views(plan.path@),
                    children,
                    siblings,
                    automatic(*request),
                    desired_count(*request) as int,
                )
                &&& plan.config.system_prompt == Some(plan.instructions)
                &&& plan.config.keywords_schema
                &&& !plan.config.include_thoughts
            },
{
    let count: i32 = match request.node_count {
        Some(n) => n,
        None => 3,
    };
    let auto: bool = match request.is_automatic {
        Some(b) => b,
        None => false,
    };
    let canvas = match graph.get_canvas(&request.canvas_id) {
        Some(c) => c,
        None => return Err(AIServiceError::CanvasNotFound(request.canvas_id.clone())),
    };
    let source = match graph.get_topic_by_name(&request.canvas_id, &request.topic_name) {
        Some(t) => t,
        None => return Err(AIServiceError::TopicNotFound(request.topic_name.clone())),
    };
    let ghost i = choose|i: int|
        0 <= i < graph.topics@.len() && graph.named_in(i, request.canvas_id@, request.topic_name@)
            && graph.topics@[i] == source && forall|k: int|
            0 <= k < i ==> !#[trigger] graph.named_in(k, request.canvas_id@, request.topic_name@);
    assert(graph.first_named(i, request.canvas_id@, request.topic_name@));
    assert forall|j: int| graph.first_named(j, request.canvas_id@, request.topic_name@) implies j == i by {
        if j < i {
            assert(!graph.named_in(j, request.canvas_id@, request.topic_name@));
        } else if j > i {
            assert(!graph.named_in(i, request.canvas_id@, request.topic_name@));
        }
    }
    let path = match graph.path_to_root(&source.id, &request.canvas_id) {
        Ok(p) => p,
        Err(_) => return Err(AIServiceError::DatabaseError(String::from_str("the topic path is ambiguous"))),
    };
    let siblings = graph.siblings(&source.id, &request.canvas_id);
    let children = graph.children(&source.id, &request.canvas_id);
    let instructions = compose_keyword_instructions(&canvas.system_instruction, auto);
    let input = compose_keyword_input(&request.topic_name, &path, &children, &siblings, auto, count);
    let mut prompt = instructions.clone();
    prompt.append("\n\n");
    prompt.append(input.as_str());
    let config = VertexAIRequestConfig {
        model_id: String::from_str("gemini-2.0-flash-001"),
        agent_key: None,
        system_prompt: Some(instructions.clone()),
        include_thoughts: false,
        use_google_search: false,
        use_retrieval: false,
        keywords_schema: true,
    };
    Ok(KeywordPlan {
        canvas_id: request.canvas_id.clone(),
        source_id: source.id.clone(),
        path,
        siblings,
        children,
        instructions,
        prompt,
        config,
    })
}

/// Links `source_id` to `target_id` unless an edge between them exists.
/// Returns the new relationship, or `None` when one was already there. A
/// caller that always goes through here never makes a second edge for a
/// pair: the count of edges from source to target ends at one when it was
/// zero and is left alone otherwise.
pub fn connect_if_absent(
    graph: &mut TopicGraph,
    canvas_id: &String,
    source_id: &String,
    target_id: &String,
    id: String,
) -> (r: Result<Option<Relationship>, AIServiceError>)
    requires
        old(graph).wf(),
    ensures
        final(graph).wf(),
        final(graph).canvases@ == old(graph).canvases@,
        final(graph).topics@ == old(graph).topics@,
        r is Err <==> edge_count(old(graph).relationships@, source_id@, target_id@) == 0 && !(
        old(graph).has_topic(source_id@) && old(graph).has_topic(target_id@)
            && !old(graph).has_relationship_id(id@)),
        r matches Err(e) ==> e is DatabaseError && final(graph).relationships@ == old(
            graph,
        ).relationships@,
        r matches Ok(None) ==> edge_count(old(graph).relationships@, source_id@, target_id@) > 0
            && final(graph).relationships@ == old(graph).relationships@,
        r matches Ok(Some(rel)) ==> edge_count(old(graph).relationships@, source_id@, target_id@)
            == 0 && rel.id == id && rel.canvas_id == *canvas_id && rel.source_id == *source_id
            && rel.target_id == *target_id && final(graph).relationships@ == old(
            graph,
        ).relationships@.push(rel),
        r is Ok ==> edge_count(final(graph).relationships@, source_id@, target_id@) == if edge_count(
            old(graph).relationships@,
            source_id@,
            target_id@,
        ) == 0 {
            1
        } else {
            edge_count(old(graph).relationships@, source_id@, target_id@)
        },
{
    if graph.relationship_exists(source_id, target_id) {
        return Ok(None);
    }
    let ghost before = graph.relationships@;
    let insert = InsertRelationship {
        id,
        canvas_id: canvas_id.clone(),
        source_id: source_id.clone(),
        target_id: target_id.clone(),
    };
    match graph.create_relationship(insert) {
        Ok(rel) => {
            assert(graph.relationships@.drop_last() =~= before);
            Ok(Some(rel))
        },
        Err(_) => Err(AIServiceError::DatabaseError(String::from_str("failed to create relationship"))),
    }
}

/// The topic created for the keyword at position `i` of an expansion that
/// started with `n0` topics and `e0` relationships, and its edge.
pub open spec fn expanded_at(
    before: TopicGraph,
    after: TopicGraph,
    plan: KeywordPlan,
    keywords: Seq<Seq<char>>,
    i: int,
) -> bool {
    let n0 = before.topics@.len() as int;
    let e0 = before.relationships@.len() as int;
    let t = after.topics@[n0 + i];
    let rel = after.relationships@[e0 + i];
    &&& t.name@ == keywords[i]
    &&& t.canvas_id == plan.canvas_id
    &&& t.node_type == TopicKind::Generated
    &&& t.description is None
    &&& t.knowledge is None
    &&& rel.source_id == plan.source_id
    &&& rel.target_id == t.id
    &&& rel.canvas_id == plan.canvas_id
}

/// A finished expansion: one new topic and one new edge per keyword, in
/// order, and the ids of those edges.
pub open spec fn expanded(
    before: TopicGraph,
    after: TopicGraph,
    plan: KeywordPlan,
    resp: GenerateKeywordsResponse,
) -> bool {
    let ks = views(resp.keywords@);
    &&& after.topics@.len() == before.topics@.len() + ks.len()
    &&& after.relationships@.len() == before.relationships@.len() + ks.len()
    &&& resp.edges@.len() == ks.len()
    &&& forall|i: int|
        0 <= i < ks.len() ==> #[trigger] expanded_at(before, after, plan, ks, i)
            && resp.edges@[i] == after.relationships@[before.relationships@.len() + i].id
}

/// What an expansion leaves whether or not it got through: the topics and
/// relationships that were there stay, and nothing is rolled back.
pub open spec fn keeps_prefix(before: TopicGraph, after: TopicGraph) -> bool {
    &&& after.canvases@ == before.canvases@
    &&& after.topics@.len() >= before.topics@.len()
    &&& after.relationships@.len() >= before.relationships@.len()
    &&& forall|j: int| 0 <= j < before.topics@.len() ==> after.topics@[j] == before.topics@[j]
    &&& forall|j: int|
        0 <= j < before.relationships@.len() ==> after.relationships@[j]
            == before.relationships@[j]
}

/// The ids handed to an expansion of `n` keywords: one topic id and one
/// edge id per keyword, none of them stored yet and no two alike.
pub open spec fn fresh_ids(graph: TopicGraph, n: int, topic_ids: Seq<Seq<char>>, edge_ids: Seq<Seq<char>>) -> bool {
    &&& topic_ids.len() == n
    &&& edge_ids.len() == n
    &&& forall|i: int| 0 <= i < n ==> !graph.has_topic(#[trigger] topic_ids[i])
    &&& forall|i: int, j: int| 0 <= i < n && 0 <= j < n && i != j ==> topic_ids[i] != topic_ids[j]
    &&& forall|i: int| 0 <= i < n ==> !graph.has_relationship_id(#[trigger] edge_ids[i])
    &&& forall|i: int, j: int| 0 <= i < n && 0 <= j < n && i != j ==> edge_ids[i] != edge_ids[j]
}

/// The new topics and edges of an expansion carry the given ids, in order.
pub open spec fn took_ids(
    before: TopicGraph,
    after: TopicGraph,
    resp: GenerateKeywordsResponse,
    topic_ids: Seq<Seq<char>>,
    edge_ids: Seq<Seq<char>>,
) -> bool {
    forall|i: int|
        0 <= i < resp.edges@.len() ==> after.topics@[before.topics@.len() + i].id@ == #[trigger] topic_ids[i]
            && resp.edges@[i]@ == edge_ids[i]
}

/// An expansion that stopped at a store failure: the topics and edges made
/// for the first `m` keywords are there, with at most the topic of the
/// next one.
pub open spec fn expanded_up_to(
    before: TopicGraph,
    after: TopicGraph,
    plan: KeywordPlan,
    keywords: Seq<Seq<char>>,
    m: int,
) -> bool {
    &&& 0 <= m <= keywords.len()
    &&& after.relationships@.len() == before.relationships@.len() + m
    &&& (after.topics@.len() == before.topics@.len() + m || after.topics@.len()
        == before.topics@.len() + m + 1)
    &&& forall|i: int| 0 <= i < m ==> #[trigger] expanded_at(before, after, plan, keywords, i)
}

/// With the topics of `cur` being those of `old` followed by topics with
/// ids `ids[..k]`, a topic id is stored in `cur` exactly when it is in
/// `old` or among those ids.
proof fn lemma_topics_after(old: TopicGraph, cur: TopicGraph, ids: Seq<Seq<char>>, k: int, x: Seq<char>)
    requires
        0 <= k <= ids.len(),
        cur.topics@.len() == old.topics@.len() + k,
        forall|j: int| 0 <= j < old.topics@.len() ==> cur.topics@[j] == old.topics@[j],
        forall|i: int| 0 <= i < k ==> cur.topics@[old.topics@.len() + i].id@ == #[trigger] ids[i],
    ensures
        cur.has_topic(x) <==> old.has_topic(x) || exists|i: int| 0 <= i < k && ids[i] == x,
{
    let n0 = old.topics@.len() as int;
    if cur.has_topic(x) {
        let j = choose|j: int| 0 <= j < cur.topics@.len() && cur.topics@[j].id@ == x;
        if j < n0 {
            assert(old.topics@[j].id@ == x);
        } else {
            assert(ids[j - n0] == x);
        }
    }
    if old.has_topic(x) {
        let j = choose|j: int| 0 <= j < old.topics@.len() && old.topics@[j].id@ == x;
        assert(cur.topics@[j].id@ == x);
    }
    if exists|i: int| 0 <= i < k && ids[i] == x {
        let i = choose|i: int| 0 <= i < k && ids[i] == x;
        assert(cur.topics@[n0 + i].id@ == x);
    }
}

/// The same for relationship ids.
proof fn lemma_edges_after(old: TopicGraph, cur: TopicGraph, ids: Seq<Seq<char>>, k: int, x: Seq<char>)
    requires
        0 <= k <= ids.len(),
        cur.relationships@.len() == old.relationships@.len() + k,
        forall|j: int| 0 <= j < old.relationships@.len() ==> cur.relationships@[j] == old.relationships@[j],
        forall|i: int|
            0 <= i < k ==> cur.relationships@[old.relationships@.len() + i].id@ == #[trigger] ids[i],
    ensures
        cur.has_relationship_id(x) <==> old.has_relationship_id(x) || exists|i: int| 0 <= i < k && ids[i] == x,
{
    let e0 = old.relationships@.len() as int;
    if cur.has_relationship_id(x) {
        let j = choose|j: int| 0 <= j < cur.relationships@.len() && cur.relationships@[j].id@ == x;
        if j < e0 {
            assert(old.relationships@[j].id@ == x);
        } else {
            assert(ids[j - e0] == x);
        }
    }
    if old.has_relationship_id(x) {
        let j = choose|j: int| 0 <= j < old.relationships@.len() && old.relationships@[j].id@ == x;
        assert(cur.relationships@[j].id@ == x);
    }
    if exists|i: int| 0 <= i < k && ids[i] == x {
        let i = choose|i: int| 0 <= i < k && ids[i] == x;
        assert(cur.relationships@[e0 + i].id@ == x);
    }
}

/// Creates one child topic of kind generated per keyword, under the given
/// ids, each linked from the source topic by an edge under the given id.
/// With the canvas and the source topic stored, it succeeds exactly when
/// the ids are fresh and distinct; a store failure part way stops the loop
/// and keeps what was already created.
pub fn expand_keywords(
    graph: &mut TopicGraph,
    plan: &KeywordPlan,
    keywords: Vec<String>,
    topic_ids: &Vec<String>,
    edge_ids: &Vec<String>,
) -> (r: Result<GenerateKeywordsResponse, AIServiceError>)
    requires
        old(graph).wf(),
    ensures
        final(graph).wf(),
        keeps_prefix(*old(graph), *final(graph)),
        !old(graph).has_canvas(plan.canvas_id@) ==> r == Err::<GenerateKeywordsResponse, AIServiceError>(
            AIServiceError::CanvasNotFound(plan.canvas_id),
        ) && *final(graph) == *old(graph),
        old(graph).has_canvas(plan.canvas_id@) && !old(graph).has_topic(plan.source_id@) ==> r == Err::<
            GenerateKeywordsResponse,
            AIServiceError,
        >(AIServiceError::TopicNotFound(plan.source_id)) && *final(graph) == *old(graph),
        old(graph).has_canvas(plan.canvas_id@) && old(graph).has_topic(plan.source_id@) ==> (r is Ok
            <==> fresh_ids(*old(graph), keywords@.len() as int, views(topic_ids@), views(edge_ids@))),
        old(graph).has_canvas(plan.canvas_id@) && old(graph).has_topic(plan.source_id@) && r is Err
            ==> (r matches Err(AIServiceError::DatabaseError(_))) && exists|m: int|
            expanded_up_to(*old(graph), *final(graph), *plan, views(keywords@), m),
        r matches Ok(resp) ==> views(resp.keywords@) == views(keywords@),
        r matches Ok(resp) ==> expanded(*old(graph), *final(graph), *plan, resp),
        r matches Ok(resp) ==> took_ids(*old(graph), *final(graph), resp, views(topic_ids@), views(edge_ids@)),
{
    if graph.find_canvas(&plan.canvas_id).is_none() {
        return Err(AIServiceError::CanvasNotFound(plan.canvas_id.clone()));
    }
    if graph.find_topic(&plan.source_id).is_none() {
        return Err(AIServiceError::TopicNotFound(plan.source_id.clone()));
    }
    let ghost g0 = *graph;
    let ghost ks = views(keywords@);
    let ghost tids = views(topic_ids@);
    let ghost eids = views(edge_ids@);
    let ghost n0 = g0.topics@.len() as int;
    let ghost e0 = g0.relationships@.len() as int;
    if topic_ids.len() != keywords.len() || edge_ids.len() != keywords.len() {
        proof {
            assert(expanded_up_to(g0, *graph, *plan, ks, 0));
        }
        return Err(AIServiceError::DatabaseError(String::from_str("one topic id and one edge id are needed per keyword")));
    }
    let mut edges: Vec<String> = Vec::new();
    let mut k: usize = 0;
    while k < keywords.len()
        invariant
            graph.wf(),
            g0.wf(),
            g0 == *old(graph),
            n0 == g0.topics@.len(),
            e0 == g0.relationships@.len(),
            g0.has_canvas(plan.canvas_id@),
            g0.has_topic(plan.source_id@),
            keeps_prefix(g0, *graph),
            ks == views(keywords@),
            tids == views(topic_ids@),
            eids == views(edge_ids@),
            tids.len() == ks.len(),
            eids.len() == ks.len(),
            k <= keywords@.len(),
            graph.has_canvas(plan.canvas_id@),
            graph.has_topic(plan.source_id@),
            graph.topics@.len() == n0 + k,
            graph.relationships@.len() == e0 + k,
            edges@.len() == k,
            forall|i: int|
                0 <= i < k ==> #[trigger] expanded_at(g0, *graph, *plan, ks, i) && edges@[i]
                    == graph.relationships@[e0 + i].id,
            forall|i: int| 0 <= i < k ==> graph.topics@[n0 + i].id@ == #[trigger] tids[i],
            forall|i: int| 0 <= i < k ==> graph.relationships@[e0 + i].id@ == #[trigger] eids[i],
            forall|i: int| 0 <= i < k ==> !g0.has_topic(#[trigger] tids[i]),
            forall|i: int, j: int| 0 <= i < k && 0 <= j < k && i != j ==> tids[i] != tids[j],
            forall|i: int| 0 <= i < k ==> !g0.has_relationship_id(#[trigger] eids[i]),
            forall|i: int, j: int| 0 <= i < k && 0 <= j < k && i != j ==> eids[i] != eids[j],
        decreases keywords@.len() - k,
    {
        let ghost g1 = *graph;
        assert(ks[k as int] == keywords@[k as int]@);
        assert(tids[k as int] == topic_ids@[k as int]@);
        assert(eids[k as int] == edge_ids@[k as int]@);
        proof {
            lemma_topics_after(g0, g1, tids, k as int, tids[k as int]);
            lemma_edges_after(g0, g1, eids, k as int, eids[k as int]);
        }
        let insert = InsertNode {
            id: topic_ids[k].clone(),
            canvas_id: plan.canvas_id.clone(),
            name: keywords[k].clone(),
            node_type: TopicKind::Generated,
            description: None,
            knowledge: None,
        };
        let node = match graph.create_topic(insert) {
            Ok(t) => t,
            Err(_) => {
                proof {
                    assert(graph.topics@ == g1.topics@);
                    assert(graph.relationships@ == g1.relationships@);
                    assert forall|i: int| 0 <= i < k implies #[trigger] expanded_at(g0, *graph, *plan, ks, i) by {
                        assert(expanded_at(g0, g1, *plan, ks, i));
                    }
                    assert(expanded_up_to(g0, *graph, *plan, ks, k as int));
                    assert(g1.has_topic(tids[k as int]));
                    let j = choose|j: int| 0 <= j < k && tids[j] == tids[k as int];
                    if g0.has_topic(tids[k as int]) {
                        assert(!fresh_ids(g0, ks.len() as int, tids, eids));
                    } else {
                        assert(tids[j] == tids[k as int]);
                        assert(!fresh_ids(g0, ks.len() as int, tids, eids));
                    }
                }
                return Err(AIServiceError::DatabaseError(String::from_str("failed to create keyword topic")));
            },
        };
        let ghost g2 = *graph;
        proof {
            g1.lemma_no_edges_into_absent(g1.relationships@, plan.source_id@, node.id@);
            g1.lemma_grow_topics(g2);
            assert(g2.has_topic(node.id@)) by {
                assert(g2.topics@[g2.topics@.len() - 1].id@ == node.id@);
            }
            assert(g2.relationships@ == g1.relationships@);
            assert(edge_count(g2.relationships@, plan.source_id@, node.id@) == 0);
        }
        let ghost mut made: Relationship = arbitrary();
        match connect_if_absent(graph, &plan.canvas_id, &plan.source_id, &node.id, edge_ids[k].clone()) {
            Ok(Some(rel)) => {
                proof {
                    made = rel;
                }
                edges.push(rel.id);
            },
            Ok(None) => {
                assert(false);
            },
            Err(e) => {
                proof {
                    assert(graph.topics@ == g1.topics@.push(node));
                    assert(graph.relationships@ == g1.relationships@);
                    assert(g1.topics@.push(node)[n0 + k] == node);
                    assert(expanded_up_to(g0, *graph, *plan, ks, k as int)) by {
                        assert forall|i: int| 0 <= i < k implies #[trigger] expanded_at(g0, *graph, *plan, ks, i) by {
                            assert(expanded_at(g0, g1, *plan, ks, i));
                            assert(g1.topics@.push(node)[n0 + i] == g1.topics@[n0 + i]);
                        }
                    }
                    assert(g2.has_relationship_id(eids[k as int]));
                    if !g0.has_relationship_id(eids[k as int]) {
                        let j = choose|j: int| 0 <= j < k && eids[j] == eids[k as int];
                        assert(eids[j] == eids[k as int]);
                    }
                    assert(!fresh_ids(g0, ks.len() as int, tids, eids));
                }
                return Err(e);
            },
        }
        proof {
            assert(g2.topics@ == g1.topics@.push(node));
            assert(graph.topics@ == g2.topics@);
            assert(graph.relationships@ == g1.relationships@.push(made));
            assert(!g2.has_relationship_id(eids[k as int]));
            assert forall|i: int| 0 <= i < k + 1 implies #[trigger] expanded_at(g0, *graph, *plan, ks, i)
                && edges@[i] == graph.relationships@[e0 + i].id by {
                if i < k {
                    assert(expanded_at(g0, g1, *plan, ks, i));
                    assert(g1.topics@.push(node)[n0 + i] == g1.topics@[n0 + i]);
                    assert(g1.relationships@.push(made)[e0 + i] == g1.relationships@[e0 + i]);
                } else {
                    assert(graph.topics@[n0 + i] == node);
                }
            }
            assert forall|i: int| 0 <= i < k + 1 implies graph.topics@[n0 + i].id@ == #[trigger] tids[i] by {
                if i < k {
                    assert(g1.topics@.push(node)[n0 + i] == g1.topics@[n0 + i]);
                }
            }
            assert forall|i: int| 0 <= i < k + 1 implies graph.relationships@[e0 + i].id@ == #[trigger] eids[i] by {
                if i < k {
                    assert(g1.relationships@.push(made)[e0 + i] == g1.relationships@[e0 + i]);
                }
            }
            assert forall|i: int, j: int| 0 <= i < k + 1 && 0 <= j < k + 1 && i != j implies tids[i] != tids[j] by {
                if i == k && j < k {
                    assert(tids[j] == tids[j]);
                } else if j == k && i < k {
                    assert(tids[i] == tids[i]);
                }
            }
            assert forall|i: int, j: int| 0 <= i < k + 1 && 0 <= j < k + 1 && i != j implies eids[i] != eids[j] by {
                if i == k && j < k {
                    assert(eids[j] == eids[j]);
                } else if j == k && i < k {
                    assert(eids[i] == eids[i]);
                }
            }
            assert(graph.has_canvas(plan.canvas_id@));
        }
        k = k + 1;
    }
    proof {
        assert(fresh_ids(g0, ks.len() as int, tids, eids));
    }
    let resp = GenerateKeywordsResponse { keywords, edges };
    proof {
        assert(views(resp.keywords@) == ks);
        assert forall|i: int| 0 <= i < resp.keywords@.len() implies graph.topics@[n0 + i].id@
            == #[trigger] topic_ids@[i]@ && resp.edges@[i]@ == edge_ids@[i]@ by {
            assert(tids[i] == topic_ids@[i]@);
            assert(eids[i] == edge_ids@[i]@);
            assert(expanded_at(g0, *graph, *plan, ks, i));
            assert(graph.topics@[n0 + i].id@ == tids[i]);
            assert(graph.relationships@[e0 + i].id@ == eids[i]);
        }
        assert(expanded(g0, *graph, *plan, resp));
        assert(resp.keywords@ == keywords@);
        assert(views(resp.keywords@) == views(keywords@));
        assert forall|i: int| 0 <= i < resp.edges@.len() implies graph.topics@[n0 + i].id@
            == #[trigger] tids[i] && resp.edges@[i]@ == eids[i] by {
            assert(expanded_at(g0, *graph, *plan, ks, i));
        }
        assert(took_ids(g0, *graph, resp, tids, eids));
    }
    Ok(resp)
}

/// Turns the keyword model's reply into child topics of kind generated,
/// each linked from the source topic, under fresh random ids. A failed
/// model call or a reply that is not JSON changes nothing; a reply with no
/// keywords is an empty success.
pub fn apply_keywords(graph: &mut TopicGraph, plan: &KeywordPlan, reply: Result<String, String>) -> (r: Result<
    GenerateKeywordsResponse,
    AIServiceError,
>)
    requires
        old(graph).wf(),
    ensures
        final(graph).wf(),
        keeps_prefix(*old(graph), *final(graph)),
        reply is Err ==> (r matches Err(AIServiceError::AIServiceError(_))) && *final(graph)
            == *old(graph),
        reply matches Ok(text) && parsed_keywords(text@) is None ==> (r matches Err(
            AIServiceError::InvalidResponseFormat(_),
        )) && *final(graph) == *old(graph),
        reply matches Ok(text) && parsed_keywords(text@) is Some && !old(graph).has_canvas(
            plan.canvas_id@,
        ) ==> r == Err::<GenerateKeywordsResponse, AIServiceError>(
            AIServiceError::CanvasNotFound(plan.canvas_id),
        ) && *final(graph) == *old(graph),
        reply matches Ok(text) && parsed_keywords(text@) is Some && old(graph).has_canvas(
            plan.canvas_id@,
        ) && !old(graph).has_topic(plan.source_id@) ==> r == Err::<
            GenerateKeywordsResponse,
            AIServiceError,
        >(AIServiceError::TopicNotFound(plan.source_id)) && *final(graph) == *old(graph),
        reply matches Ok(text) && parsed_keywords(text@) == Some(Seq::<Seq<char>>::empty())
            && old(graph).has_canvas(plan.canvas_id@) && old(graph).has_topic(plan.source_id@) ==> (
        r matches Ok(resp) && resp.keywords@.len() == 0 && resp.edges@.len() == 0)
            && final(graph).topics@ == old(graph).topics@ && final(graph).relationships@ == old(
            graph,
        ).relationships@,
        reply matches Ok(text) && parsed_keywords(text@) is Some && old(graph).has_canvas(
            plan.canvas_id@,
        ) && old(graph).has_topic(plan.source_id@) && r is Err ==> (r matches Err(
            AIServiceError::DatabaseError(_),
        )) && exists|m: int|
            expanded_up_to(*old(graph), *final(graph), *plan, parsed_keywords((reply->Ok_0)@).unwrap(), m),
        r matches Ok(resp) ==> reply matches Ok(text) && parsed_keywords(text@) == Some(
            views(resp.keywords@),
        ) && expanded(*old(graph), *final(graph), *plan, resp),
{
    let text = match reply {
        Ok(t) => t,
        Err(e) => {
            let mut msg = String::from_str("AI service error: ");
            msg.append(e.as_str());
            return Err(AIServiceError::AIServiceError(msg));
        },
    };
    let keywords = match parse_keywords(&text) {
        Ok(k) => k,
        Err(e) => return Err(e),
    };
    let mut topic_ids: Vec<String> = Vec::new();
    let mut edge_ids: Vec<String> = Vec::new();
    let mut k: usize = 0;
    while k < keywords.len()
        invariant
            k <= keywords@.len(),
            topic_ids@.len() == k,
            edge_ids@.len() == k,
        decreases keywords@.len() - k,
    {
        topic_ids.push(fresh_id());
        edge_ids.push(fresh_id());
        k = k + 1;
    }
    let ghost g0 = *graph;
    let r = expand_keywords(graph, plan, keywords, &topic_ids, &edge_ids);
    proof {
        if keywords@.len() == 0 && g0.has_canvas(plan.canvas_id@) && g0.has_topic(plan.source_id@) {
            assert(fresh_ids(g0, 0, views(topic_ids@), views(edge_ids@)));
            assert(graph.topics@ =~= g0.topics@);
            assert(graph.relationships@ =~= g0.relationships@);
        }
    }
    r
}

} // verus!
