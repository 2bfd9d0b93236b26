use vstd::prelude::*;
use crate::errors::{CanvasRepositoryError, NodeRepositoryError};
use crate::graph_lemmas::{lemma_extend_empty, lemma_extend_twice};
use crate::dto::{GetNodesRequest, GraphEdge, UpdateCanvasRequest};
use crate::services::{pagination, PaginatedResponse};
use crate::model::{TopicKind, Canvas, GraphData, GraphNode, InsertNode, InsertRelationship, Relationship};

verus! {

/// The character sequences of a list of strings.
pub open spec fn views(v: Seq<String>) -> Seq<Seq<char>> {
    v.map_values(|s: String| s@)
}

/// Sources of the edges in `rels` that point at `id`, in edge order.
pub open spec fn sources_into(rels: Seq<Relationship>, id: Seq<char>) -> Seq<Seq<char>>
    decreases rels.len(),
{
    if rels.len() == 0 {
        Seq::empty()
    } else {
        let rest = sources_into(rels.drop_last(), id);
        if rels.last().target_id@ == id {
            rest.push(rels.last().source_id@)
        } else {
            rest
        }
    }
}

/// Targets of the edges in `rels` that leave `src`, in edge order, leaving
/// out `skip` when it is given.
pub open spec fn targets_from(rels: Seq<Relationship>, src: Seq<char>, skip: Option<Seq<char>>) -> Seq<Seq<char>>
    decreases rels.len(),
{
    if rels.len() == 0 {
        Seq::empty()
    } else {
        let rest = targets_from(rels.drop_last(), src, skip);
        let r = rels.last();
        if r.source_id@ == src && skip != Some(r.target_id@) {
            rest.push(r.target_id@)
        } else {
            rest
        }
    }
}

/// For each edge of `outer` (in order) that points at `id`, the other
/// targets of its source among `all`.
pub open spec fn sibling_ids(outer: Seq<Relationship>, all: Seq<Relationship>, id: Seq<char>) -> Seq<Seq<char>>
    decreases outer.len(),
{
    if outer.len() == 0 {
        Seq::empty()
    } else {
        let rest = sibling_ids(outer.drop_last(), all, id);
        if outer.last().target_id@ == id {
            rest + targets_from(all, outer.last().source_id@, Some(id))
        } else {
            rest
        }
    }
}

/// Number of edges in `rels` from `s` to `t`.
pub open spec fn edge_count(rels: Seq<Relationship>, s: Seq<char>, t: Seq<char>) -> nat
    decreases rels.len(),
{
    if rels.len() == 0 {
        0
    } else {
        edge_count(rels.drop_last(), s, t) + if rels.last().source_id@ == s && rels.last().target_id@ == t {
            1nat
        } else {
            0nat
        }
    }
}

/// The topics of `ts` that belong to `canvas`, in order.
pub open spec fn topics_in(ts: Seq<GraphNode>, canvas: Seq<char>) -> Seq<GraphNode>
    decreases ts.len(),
{
    if ts.len() == 0 {
        Seq::empty()
    } else {
        let rest = topics_in(ts.drop_last(), canvas);
        if ts.last().canvas_id@ == canvas {
            rest.push(ts.last())
        } else {
            rest
        }
    }
}

/// The edges of `rels` with neither end at `id`, in order.
pub open spec fn edges_clear_of(rels: Seq<Relationship>, id: Seq<char>) -> Seq<Relationship>
    decreases rels.len(),
{
    if rels.len() == 0 {
        Seq::empty()
    } else {
        let rest = edges_clear_of(rels.drop_last(), id);
        if rels.last().source_id@ != id && rels.last().target_id@ != id {
            rest.push(rels.last())
        } else {
            rest
        }
    }
}

/// The topics of `ts` outside `canvas`, in order.
pub open spec fn topics_outside(ts: Seq<GraphNode>, canvas: Seq<char>) -> Seq<GraphNode>
    decreases ts.len(),
{
    if ts.len() == 0 {
        Seq::empty()
    } else {
        let rest = topics_outside(ts.drop_last(), canvas);
        if ts.last().canvas_id@ != canvas {
            rest.push(ts.last())
        } else {
            rest
        }
    }
}

/// The edges of `rels` that belong to `canvas`, as the canvas view shows
/// them.
pub open spec fn canvas_edges(rels: Seq<Relationship>, canvas: Seq<char>) -> Seq<GraphEdge>
    decreases rels.len(),
{
    if rels.len() == 0 {
        Seq::empty()
    } else {
        let rest = canvas_edges(rels.drop_last(), canvas);
        let r = rels.last();
        if r.canvas_id@ == canvas {
            rest.push(GraphEdge { id: r.id, source: r.source_id, target: r.target_id })
        } else {
            rest
        }
    }
}

/// The items of `s` from `offset` on, at most `limit` of them.
pub open spec fn page<T>(s: Seq<T>, offset: int, limit: int) -> Seq<T> {
    let lo = if offset < s.len() { offset } else { s.len() as int };
    let hi = if offset + limit < s.len() { offset + limit } else { s.len() as int };
    s.subrange(lo, hi)
}

/// The page size asked for, else 50.
pub open spec fn limit_or_default(limit: Option<i32>) -> i32 {
    match limit {
        Some(l) => l,
        None => 50,
    }
}

/// The offset asked for, else 0.
pub open spec fn offset_or_default(offset: Option<i32>) -> i32 {
    match offset {
        Some(o) => o,
        None => 0,
    }
}

/// No two relationships of `rels` share an id.
pub open spec fn unique_edge_ids(rels: Seq<Relationship>) -> bool {
    forall|i: int, j: int|
        0 <= i < rels.len() && 0 <= j < rels.len() && i != j ==> rels[i].id@ != rels[j].id@
}

/// Keeping `rels[k]` after some earlier edges of `rels` keeps the ids of
/// what is kept apart, and every kept edge still comes from before `k + 1`.
pub proof fn lemma_keep_unique(rels: Seq<Relationship>, before: Seq<Relationship>, after: Seq<Relationship>, k: int)
    requires
        unique_edge_ids(rels),
        0 <= k < rels.len(),
        after == before.push(rels[k]),
        unique_edge_ids(before),
        forall|a: int|
            #![trigger before[a]]
            0 <= a < before.len() ==> exists|x: int| 0 <= x < k && #[trigger] rels[x] == before[a],
    ensures
        unique_edge_ids(after),
        forall|a: int|
            #![trigger after[a]]
            0 <= a < after.len() ==> exists|x: int| 0 <= x < k + 1 && #[trigger] rels[x] == after[a],
{
    let n = before.len() as int;
    assert forall|a: int, b: int|
        0 <= a < after.len() && 0 <= b < after.len() && a != b implies after[a].id@ != after[b].id@ by {
        if a < n && b < n {
            assert(after[a] == before[a]);
            assert(after[b] == before[b]);
        } else if a == n {
            assert(after[b] == before[b]);
            let x = choose|x: int| 0 <= x < k && #[trigger] rels[x] == before[b];
            assert(rels[x].id@ != rels[k].id@);
        } else {
            assert(after[a] == before[a]);
            let x = choose|x: int| 0 <= x < k && #[trigger] rels[x] == before[a];
            assert(rels[x].id@ != rels[k].id@);
        }
    }
    assert forall|a: int|
        #![trigger after[a]]
        0 <= a < after.len() implies exists|x: int| 0 <= x < k + 1 && #[trigger] rels[x] == after[a] by {
        if a < n {
            assert(after[a] == before[a]);
            let x = choose|x: int| 0 <= x < k && #[trigger] rels[x] == before[a];
            assert(rels[x] == after[a]);
        } else {
            assert(rels[k] == after[a]);
        }
    }
}

/// The character sequence of an optional string.
pub open spec fn opt_view(o: Option<String>) -> Option<Seq<char>> {
    match o {
        Some(s) => Some(s@),
        None => None,
    }
}

/// Outcome of climbing from a topic towards a root along parent edges.
pub enum Ascent {
    /// Topic ids from a parentless topic down to the start.
    Rooted(Seq<Seq<char>>),
    /// The climb went on longer than there are topics: it runs in a cycle.
    Unrooted,
    /// Some topic on the way has more than one parent.
    Ambiguous,
}

/// `a` with `suffix` added below the topic it reached.
pub open spec fn extend(a: Ascent, suffix: Seq<Seq<char>>) -> Ascent {
    match a {
        Ascent::Rooted(c) => Ascent::Rooted(c + suffix),
        other => other,
    }
}

/// An in-memory property graph of canvases, topics and relationships.
pub struct TopicGraph {
    pub canvases: Vec<Canvas>,
    pub topics: Vec<GraphNode>,
    pub relationships: Vec<Relationship>,
}

impl TopicGraph {
    pub open spec fn has_canvas(&self, id: Seq<char>) -> bool {
        exists|i: int| 0 <= i < self.canvases@.len() && self.canvases@[i].id@ == id
    }

    pub open spec fn has_topic(&self, id: Seq<char>) -> bool {
        exists|i: int| 0 <= i < self.topics@.len() && self.topics@[i].id@ == id
    }

    pub open spec fn topic_index(&self, id: Seq<char>) -> int {
        choose|i: int| 0 <= i < self.topics@.len() && self.topics@[i].id@ == id
    }

    /// The topic with the given id.
    pub open spec fn topic(&self, id: Seq<char>) -> GraphNode {
        self.topics@[self.topic_index(id)]
    }

    pub open spec fn name_of(&self, id: Seq<char>) -> Seq<char> {
        self.topic(id).name@
    }

    pub open spec fn names_of(&self, ids: Seq<Seq<char>>) -> Seq<Seq<char>> {
        ids.map_values(|x: Seq<char>| self.name_of(x))
    }

    /// The topic at `i` lies in `canvas` and is called `name`.
    pub open spec fn named_in(&self, i: int, canvas: Seq<char>, name: Seq<char>) -> bool {
        self.topics@[i].canvas_id@ == canvas && self.topics@[i].name@ == name
    }

    pub open spec fn canvas_index(&self, id: Seq<char>) -> int {
        choose|i: int| 0 <= i < self.canvases@.len() && self.canvases@[i].id@ == id
    }

    /// The canvas with the given id.
    pub open spec fn canvas(&self, id: Seq<char>) -> Canvas {
        self.canvases@[self.canvas_index(id)]
    }

    /// Canvas and topic ids are unique, and every edge joins two stored
    /// topics.
    pub open spec fn wf(&self) -> bool {
        &&& forall|i: int, j: int|
            0 <= i < self.canvases@.len() && 0 <= j < self.canvases@.len() && i != j
                ==> self.canvases@[i].id@ != self.canvases@[j].id@
        &&& forall|i: int, j: int|
            0 <= i < self.topics@.len() && 0 <= j < self.topics@.len() && i != j
                ==> self.topics@[i].id@ != self.topics@[j].id@
        &&& forall|e: int|
            #![trigger self.relationships@[e]]
            0 <= e < self.relationships@.len() ==> self.has_topic(self.relationships@[e].source_id@)
                && self.has_topic(self.relationships@[e].target_id@)
        &&& unique_edge_ids(self.relationships@)
    }

    /// Some stored relationship has this id.
    pub open spec fn has_relationship_id(&self, id: Seq<char>) -> bool {
        exists|e: int| 0 <= e < self.relationships@.len() && self.relationships@[e].id@ == id
    }

    /// The climb from `id` towards a root, taking at most `fuel` topics.
    pub open spec fn ascent(&self, id: Seq<char>, fuel: nat) -> Ascent
        decreases fuel,
    {
        if fuel == 0 {
            Ascent::Unrooted
        } else {
            let ps = sources_into(self.relationships@, id);
            if ps.len() == 0 {
                Ascent::Rooted(seq![id])
            } else if ps.len() == 1 {
                extend(self.ascent(ps[0], (fuel - 1) as nat), seq![id])
            } else {
                Ascent::Ambiguous
            }
        }
    }

    /// Names from the root of `canvas` down to `id`; `None` where a topic on
    /// the way has several parents.
    pub open spec fn path_spec(&self, id: Seq<char>, canvas: Seq<char>) -> Option<Seq<Seq<char>>> {
        if !self.has_topic(id) {
            Some(Seq::empty())
        } else {
            match self.ascent(id, self.topics@.len() as nat) {
                Ascent::Rooted(c) => if self.topic(c[0]).canvas_id@ == canvas {
                    Some(self.names_of(c))
                } else {
                    Some(Seq::empty())
                },
                Ascent::Unrooted => Some(Seq::empty()),
                Ascent::Ambiguous => None,
            }
        }
    }

    /// Names of the other children of the parents of `id`.
    pub open spec fn siblings_spec(&self, id: Seq<char>, canvas: Seq<char>) -> Seq<Seq<char>> {
        if self.has_topic(id) && self.topic(id).canvas_id@ == canvas {
            self.names_of(sibling_ids(self.relationships@, self.relationships@, id))
        } else {
            Seq::empty()
        }
    }

    /// Names of the direct children of `id`.
    pub open spec fn children_spec(&self, id: Seq<char>, canvas: Seq<char>) -> Seq<Seq<char>> {
        if self.has_topic(id) && self.topic(id).canvas_id@ == canvas {
            self.names_of(targets_from(self.relationships@, id, None))
        } else {
            Seq::empty()
        }
    }

    /// Neither end of `r` is a topic of `canvas`.
    pub open spec fn clear_of_canvas(&self, r: Relationship, canvas: Seq<char>) -> bool {
        self.topic(r.source_id@).canvas_id@ != canvas && self.topic(r.target_id@).canvas_id@ != canvas
    }

    /// The edges of `rels` that keep clear of `canvas`, in order.
    pub open spec fn edges_clear_of_canvas(&self, rels: Seq<Relationship>, canvas: Seq<char>) -> Seq<Relationship>
        decreases rels.len(),
    {
        if rels.len() == 0 {
            Seq::empty()
        } else {
            let rest = self.edges_clear_of_canvas(rels.drop_last(), canvas);
            if self.clear_of_canvas(rels.last(), canvas) {
                rest.push(rels.last())
            } else {
                rest
            }
        }
    }

    /// An empty graph.
    pub fn new() -> (r: TopicGraph)
        ensures
            r.wf(),
            r.canvases@.len() == 0,
            r.topics@.len() == 0,
            r.relationships@.len() == 0,
    {
        TopicGraph { canvases: Vec::new(), topics: Vec::new(), relationships: Vec::new() }
    }

    /// Index of the canvas with the given id.
    pub fn find_canvas(&self, id: &String) -> (r: Option<usize>)
        requires
            self.wf(),
        ensures
            match r {
                Some(i) => i < self.canvases@.len() && self.canvases@[i as int].id@ == id@
                    && i as int == self.canvas_index(id@) && self.has_canvas(id@),
                None => !self.has_canvas(id@),
            },
    {
        let mut i: usize = 0;
        while i < self.canvases.len()
            invariant
                self.wf(),
                i <= self.canvases@.len(),
                forall|k: int| 0 <= k < i ==> self.canvases@[k].id@ != id@,
            decreases self.canvases@.len() - i,
        {
            if self.canvases[i].id == *id {
                assert(self.canvases@[i as int].id@ == id@);
                let ghost j = self.canvas_index(id@);
                assert(self.canvases@[j].id@ == self.canvases@[i as int].id@);
                return Some(i);
            }
            i = i + 1;
        }
        None
    }

    /// Index of the relationship with the given id.
    pub fn find_relationship(&self, id: &String) -> (r: Option<usize>)
        ensures
            match r {
                Some(i) => i < self.relationships@.len() && self.relationships@[i as int].id@ == id@
                    && self.has_relationship_id(id@),
                None => !self.has_relationship_id(id@),
            },
    {
        let mut i: usize = 0;
        while i < self.relationships.len()
            invariant
                i <= self.relationships@.len(),
                forall|k: int| 0 <= k < i ==> self.relationships@[k].id@ != id@,
            decreases self.relationships@.len() - i,
        {
            if self.relationships[i].id == *id {
                assert(self.relationships@[i as int].id@ == id@);
                return Some(i);
            }
            i = i + 1;
        }
        None
    }

    /// Index of the topic with the given id.
    pub fn find_topic(&self, id: &String) -> (r: Option<usize>)
        requires
            self.wf(),
        ensures
            match r {
                Some(i) => i < self.topics@.len() && self.topics@[i as int].id@ == id@
                    && i as int == self.topic_index(id@) && self.has_topic(id@),
                None => !self.has_topic(id@),
            },
    {
        let mut i: usize = 0;
        while i < self.topics.len()
            invariant
                self.wf(),
                i <= self.topics@.len(),
                forall|k: int| 0 <= k < i ==> self.topics@[k].id@ != id@,
            decreases self.topics@.len() - i,
        {
            if self.topics[i].id == *id {
                assert(self.topics@[i as int].id@ == id@);
                let ghost j = self.topic_index(id@);
                assert(self.topics@[j].id@ == id@);
                assert(self.topics@[j].id@ == self.topics@[i as int].id@);
                assert(j == i as int);
                return Some(i);
            }
            i = i + 1;
        }
        None
    }

    /// The canvas with the given id.
    pub fn get_canvas(&self, id: &String) -> (r: Option<Canvas>)
        requires
            self.wf(),
        ensures
            r is Some <==> self.has_canvas(id@),
            r matches Some(c) ==> c == self.canvas(id@) && c.id@ == id@,
    {
        match self.find_canvas(id) {
            Some(i) => Some(self.canvases[i].copied()),
            None => None,
        }
    }

    /// The topic with the given id.
    pub fn get_topic(&self, id: &String) -> (r: Option<GraphNode>)
        requires
            self.wf(),
        ensures
            r is Some <==> self.has_topic(id@),
            r matches Some(t) ==> t == self.topic(id@),
    {
        match self.find_topic(id) {
            Some(i) => Some(self.topics[i].copied()),
            None => None,
        }
    }

    /// Ids of the topics that have an edge into `id`, in edge order.
    pub fn sources_of(&self, id: &String) -> (r: Vec<String>)
        ensures
            views(r@) == sources_into(self.relationships@, id@),
    {
        let ghost rels = self.relationships@;
        let mut r: Vec<String> = Vec::new();
        let mut k: usize = 0;
        while k < self.relationships.len()
            invariant
                rels == self.relationships@,
                k <= rels.len(),
                views(r@) == sources_into(rels.subrange(0, k as int), id@),
            decreases rels.len() - k,
        {
            let ghost before = r@;
            assert(rels.subrange(0, k as int + 1).drop_last() =~= rels.subrange(0, k as int));
            if self.relationships[k].target_id == *id {
                r.push(self.relationships[k].source_id.clone());
                assert(views(r@) =~= views(before).push(rels[k as int].source_id@));
            }
            k = k + 1;
        }
        assert(rels.subrange(0, rels.len() as int) =~= rels);
        r
    }

    /// Ids of the targets of the edges that leave `id`, in edge order,
    /// leaving out `skip` when it is given.
    pub fn targets_of(&self, id: &String, skip: &Option<String>) -> (r: Vec<String>)
        ensures
            views(r@) == targets_from(self.relationships@, id@, opt_view(*skip)),
    {
        let ghost rels = self.relationships@;
        let mut r: Vec<String> = Vec::new();
        let mut k: usize = 0;
        while k < self.relationships.len()
            invariant
                rels == self.relationships@,
                k <= rels.len(),
                views(r@) == targets_from(rels.subrange(0, k as int), id@, opt_view(*skip)),
            decreases rels.len() - k,
        {
            let ghost before = r@;
            assert(rels.subrange(0, k as int + 1).drop_last() =~= rels.subrange(0, k as int));
            let rel = &self.relationships[k];
            let kept = match skip {
                Some(s) => rel.target_id != *s,
                None => true,
            };
            if rel.source_id == *id && kept {
                r.push(rel.target_id.clone());
                assert(views(r@) =~= views(before).push(rels[k as int].target_id@));
            }
            k = k + 1;
        }
        assert(rels.subrange(0, rels.len() as int) =~= rels);
        r
    }

    /// Names of the topics with the given ids.
    pub fn names_for(&self, ids: &Vec<String>) -> (r: Vec<String>)
        requires
            self.wf(),
            forall|i: int| 0 <= i < ids@.len() ==> self.has_topic(#[trigger] ids@[i]@),
        ensures
            views(r@) == self.names_of(views(ids@)),
    {
        let mut r: Vec<String> = Vec::new();
        let mut k: usize = 0;
        while k < ids.len()
            invariant
                self.wf(),
                forall|i: int| 0 <= i < ids@.len() ==> self.has_topic(#[trigger] ids@[i]@),
                k <= ids@.len(),
                views(r@) == self.names_of(views(ids@.subrange(0, k as int))),
            decreases ids@.len() - k,
        {
            let ghost before = r@;
            assert(self.has_topic(ids@[k as int]@));
            match self.find_topic(&ids[k]) {
                Some(i) => {
                    r.push(self.topics[i].name.clone());
                },
                None => {},
            }
            assert(views(r@) =~= views(before).push(self.name_of(ids@[k as int]@)));
            assert(self.names_of(views(ids@.subrange(0, k as int + 1))) =~= self.names_of(
                views(ids@.subrange(0, k as int)),
            ).push(self.name_of(ids@[k as int]@)));
            k = k + 1;
        }
        assert(ids@.subrange(0, ids@.len() as int) =~= ids@);
        r
    }

    /// Names of the direct children of a topic; empty when the topic is not
    /// in the canvas.
    pub fn children(&self, topic_id: &String, canvas_id: &String) -> (r: Vec<String>)
        requires
            self.wf(),
        ensures
            views(r@) == self.children_spec(topic_id@, canvas_id@),
    {
        match self.find_topic(topic_id) {
            None => Vec::new(),
            Some(i) => {
                if self.topics[i].canvas_id != *canvas_id {
                    return Vec::new();
                }
                let ids = self.targets_of(topic_id, &None);
                proof {
                    self.lemma_targets_exist(self.relationships@, topic_id@, None);
                }
                assert forall|j: int| 0 <= j < ids@.len() implies self.has_topic(#[trigger] ids@[j]@) by {
                    assert(views(ids@)[j] == ids@[j]@);
                }
                self.names_for(&ids)
            },
        }
    }

    /// Names of the other topics that share a parent with the given one;
    /// empty when it has no parent or is not in the canvas.
    pub fn siblings(&self, topic_id: &String, canvas_id: &String) -> (r: Vec<String>)
        requires
            self.wf(),
        ensures
            views(r@) == self.siblings_spec(topic_id@, canvas_id@),
    {
        match self.find_topic(topic_id) {
            None => Vec::new(),
            Some(i) => {
                if self.topics[i].canvas_id != *canvas_id {
                    return Vec::new();
                }
                let ghost rels = self.relationships@;
                let skip = Some(topic_id.clone());
                let mut ids: Vec<String> = Vec::new();
                let mut k: usize = 0;
                while k < self.relationships.len()
                    invariant
                        self.wf(),
                        rels == self.relationships@,
                        skip == Some(*topic_id),
                        k <= rels.len(),
                        views(ids@) == sibling_ids(rels.subrange(0, k as int), rels, topic_id@),
                    decreases rels.len() - k,
                {
                    let ghost before = ids@;
                    assert(rels.subrange(0, k as int + 1).drop_last() =~= rels.subrange(0, k as int));
                    if self.relationships[k].target_id == *topic_id {
                        let mut more = self.targets_of(&self.relationships[k].source_id, &skip);
                        let ghost added = more@;
                        ids.append(&mut more);
                        assert(views(ids@) =~= views(before) + views(added));
                    }
                    k = k + 1;
                }
                assert(rels.subrange(0, rels.len() as int) =~= rels);
                proof {
                    self.lemma_siblings_exist_in(rels, rels, topic_id@);
                }
                assert forall|j: int| 0 <= j < ids@.len() implies self.has_topic(#[trigger] ids@[j]@) by {
                    assert(views(ids@)[j] == ids@[j]@);
                }
                self.names_for(&ids)
            },
        }
    }

    /// Names from the root of the canvas down to the topic, both included.
    /// Empty when the topic is unknown, when its climb never reaches a
    /// parentless topic, or when that root lies in another canvas. A topic
    /// with several parents on the way makes the path ambiguous, which is an
    /// error.
    pub fn path_to_root(&self, topic_id: &String, canvas_id: &String) -> (r: Result<
        Vec<String>,
        NodeRepositoryError,
    >)
        requires
            self.wf(),
        ensures
            match self.path_spec(topic_id@, canvas_id@) {
                Some(p) => r matches Ok(v) && views(v@) == p,
                None => r matches Err(NodeRepositoryError::InvalidData(_)),
            },
    {
        let start = match self.find_topic(topic_id) {
            None => return Ok(Vec::new()),
            Some(i) => i,
        };
        let n = self.topics.len();
        let mut cur: usize = start;
        let mut fuel: usize = n;
        let mut names: Vec<String> = Vec::new();
        let ghost mut suffix: Seq<Seq<char>> = Seq::empty();
        proof {
            lemma_extend_empty(self.ascent(topic_id@, n as nat));
            assert(views(names@) =~= self.names_of(suffix));
        }
        loop
            invariant
                self.wf(),
                n == self.topics@.len(),
                cur < n,
                fuel <= n,
                self.has_topic(topic_id@),
                self.ascent(topic_id@, n as nat) == extend(
                    self.ascent(self.topics@[cur as int].id@, fuel as nat),
                    suffix,
                ),
                views(names@) == self.names_of(suffix),
            decreases fuel,
        {
            let ghost cur_id = self.topics@[cur as int].id@;
            proof {
                self.lemma_index_of(cur as int);
            }
            if fuel == 0 {
                return Ok(Vec::new());
            }
            let ps = self.sources_of(&self.topics[cur].id);
            assert(ps@.len() == views(ps@).len());
            if ps.len() == 0 {
                assert(self.ascent(cur_id, fuel as nat) == Ascent::Rooted(seq![cur_id]));
                if self.topics[cur].canvas_id != *canvas_id {
                    return Ok(Vec::new());
                }
                let ghost before = names@;
                names.insert(0, self.topics[cur].name.clone());
                proof {
                    assert((seq![cur_id] + suffix)[0] == cur_id);
                    let whole = seq![cur_id] + suffix;
                    assert(names@ == before.insert(0, self.topics@[cur as int].name));
                    assert(views(before).len() == before.len());
                    assert(self.names_of(suffix).len() == suffix.len());
                    assert(views(names@).len() == names@.len());
                    assert(self.names_of(whole).len() == whole.len());
                    assert forall|k: int| 0 <= k < views(names@).len() implies views(names@)[k]
                        == self.names_of(whole)[k] by {
                        if k > 0 {
                            assert(whole[k] == suffix[k - 1]);
                            assert(views(before)[k - 1] == self.names_of(suffix)[k - 1]);
                        }
                    }
                    assert(views(names@) =~= self.names_of(whole));
                }
                return Ok(names);
            } else if ps.len() == 1 {
                let ghost par = views(ps@)[0];
                assert(ps@[0]@ == par);
                proof {
                    self.lemma_sources_exist(self.relationships@, cur_id);
                    assert(self.has_topic(sources_into(self.relationships@, cur_id)[0]));
                    assert(self.ascent(cur_id, fuel as nat) == extend(
                        self.ascent(par, (fuel - 1) as nat),
                        seq![cur_id],
                    ));
                    lemma_extend_twice(self.ascent(par, (fuel - 1) as nat), seq![cur_id], suffix);
                }
                let p = match self.find_topic(&ps[0]) {
                    Some(p) => p,
                    None => return Ok(Vec::new()),
                };
                let ghost before = names@;
                names.insert(0, self.topics[cur].name.clone());
                proof {
                    let whole = seq![cur_id] + suffix;
                    assert(names@ == before.insert(0, self.topics@[cur as int].name));
                    assert(views(before).len() == before.len());
                    assert(self.names_of(suffix).len() == suffix.len());
                    assert(views(names@).len() == names@.len());
                    assert(self.names_of(whole).len() == whole.len());
                    assert forall|k: int| 0 <= k < views(names@).len() implies views(names@)[k]
                        == self.names_of(whole)[k] by {
                        if k > 0 {
                            assert(whole[k] == suffix[k - 1]);
                            assert(views(before)[k - 1] == self.names_of(suffix)[k - 1]);
                        }
                    }
                    assert(views(names@) =~= self.names_of(whole));
                    suffix = seq![cur_id] + suffix;
                }
                cur = p;
                fuel = fuel - 1;
            } else {
                assert(self.ascent(cur_id, fuel as nat) == Ascent::Ambiguous);
                return Err(
                    NodeRepositoryError::InvalidData(
                        String::from_str("a topic on the path has more than one parent"),
                    ),
                );
            }
        }
    }

    /// Whether at least one edge runs from `source_id` to `target_id`.
    pub fn relationship_exists(&self, source_id: &String, target_id: &String) -> (r: bool)
        ensures
            r == (edge_count(self.relationships@, source_id@, target_id@) > 0),
    {
        let ghost rels = self.relationships@;
        let mut found = false;
        let mut k: usize = 0;
        while k < self.relationships.len()
            invariant
                rels == self.relationships@,
                k <= rels.len(),
                found == (edge_count(rels.subrange(0, k as int), source_id@, target_id@) > 0),
            decreases rels.len() - k,
        {
            assert(rels.subrange(0, k as int + 1).drop_last() =~= rels.subrange(0, k as int));
            assert(rels.subrange(0, k as int + 1).last() == rels[k as int]);
            if self.relationships[k].source_id == *source_id && self.relationships[k].target_id
                == *target_id {
                found = true;
            }
            k = k + 1;
        }
        assert(rels.subrange(0, rels.len() as int) =~= rels);
        found
    }

    /// Adds a canvas; fails when its id is taken.
    pub fn add_canvas(&mut self, canvas: Canvas) -> (r: Result<(), CanvasRepositoryError>)
        requires
            old(self).wf(),
        ensures
            final(self).wf(),
            r is Ok <==> !old(self).has_canvas(canvas.id@),
            r is Ok ==> final(self).canvases@ == old(self).canvases@.push(canvas),
            r is Err ==> final(self).canvases@ == old(self).canvases@,
            r matches Err(e) ==> e is DatabaseError,
            final(self).topics@ == old(self).topics@,
            final(self).relationships@ == old(self).relationships@,
    {
        if self.find_canvas(&canvas.id).is_some() {
            return Err(CanvasRepositoryError::DatabaseError(String::from_str("canvas id already in use")));
        }
        let ghost prev = *self;
        self.canvases.push(canvas);
        proof {
            let n = prev.canvases@.len() as int;
            assert forall|i: int, j: int|
                0 <= i < self.canvases@.len() && 0 <= j < self.canvases@.len() && i != j
                    implies self.canvases@[i].id@ != self.canvases@[j].id@ by {
                if i < n && j < n {
                    assert(prev.canvases@[i].id@ != prev.canvases@[j].id@);
                } else if i == n {
                    assert(self.canvases@[j] == prev.canvases@[j]);
                } else {
                    assert(self.canvases@[i] == prev.canvases@[i]);
                }
            }
        }
        Ok(())
    }

    /// Stores a new topic in an existing canvas. Fails with a database error
    /// when the canvas is unknown or the id is taken.
    pub fn create_topic(&mut self, insert: InsertNode) -> (r: Result<GraphNode, NodeRepositoryError>)
        requires
            old(self).wf(),
        ensures
            final(self).wf(),
            final(self).canvases@ == old(self).canvases@,
            final(self).relationships@ == old(self).relationships@,
            r is Ok <==> old(self).has_canvas(insert.canvas_id@) && !old(self).has_topic(insert.id@),
            r matches Err(e) ==> e is DatabaseError && final(self).topics@ == old(self).topics@,
            r matches Ok(t) ==> t == insert.to_node() && final(self).topics@ == old(
                self,
            ).topics@.push(t),
    {
        if self.find_canvas(&insert.canvas_id).is_none() {
            return Err(NodeRepositoryError::DatabaseError(String::from_str("canvas not found")));
        }
        if self.find_topic(&insert.id).is_some() {
            return Err(NodeRepositoryError::DatabaseError(String::from_str("topic id already in use")));
        }
        let node = insert.into_node();
        let ghost prev = *self;
        self.topics.push(node.copied());
        proof {
            assert(self.topics@ == prev.topics@.push(node));
            prev.lemma_grow_topics(*self);
        }
        Ok(node)
    }

    /// Stores an edge between two stored topics; fails with a database error
    /// when either end is unknown. No check for an existing edge is made.
    pub fn create_relationship(&mut self, insert: InsertRelationship) -> (r: Result<
        Relationship,
        NodeRepositoryError,
    >)
        requires
            old(self).wf(),
        ensures
            final(self).wf(),
            final(self).canvases@ == old(self).canvases@,
            final(self).topics@ == old(self).topics@,
            r is Ok <==> old(self).has_topic(insert.source_id@) && old(self).has_topic(
                insert.target_id@,
            ) && !old(self).has_relationship_id(insert.id@),
            r matches Err(e) ==> e is DatabaseError && final(self).relationships@ == old(
                self,
            ).relationships@,
            r matches Ok(rel) ==> rel == insert.to_relationship() && final(self).relationships@
                == old(self).relationships@.push(rel),
    {
        if self.find_topic(&insert.source_id).is_none() || self.find_topic(&insert.target_id).is_none() {
            return Err(NodeRepositoryError::DatabaseError(String::from_str("failed to create relationship")));
        }
        if self.find_relationship(&insert.id).is_some() {
            return Err(NodeRepositoryError::DatabaseError(String::from_str("relationship id already in use")));
        }
        let rel = insert.into_relationship();
        let ghost prev = *self;
        self.relationships.push(rel.copied());
        proof {
            assert(self.relationships@ == prev.relationships@.push(rel));
            let n = prev.relationships@.len() as int;
            assert forall|a: int, b: int|
                0 <= a < self.relationships@.len() && 0 <= b < self.relationships@.len() && a != b
                    implies self.relationships@[a].id@ != self.relationships@[b].id@ by {
                if a < n && b < n {
                    assert(self.relationships@[a] == prev.relationships@[a]);
                    assert(self.relationships@[b] == prev.relationships@[b]);
                } else if a == n {
                    assert(self.relationships@[b] == prev.relationships@[b]);
                } else {
                    assert(self.relationships@[a] == prev.relationships@[a]);
                }
            }
            assert forall|e: int|
                #![trigger self.relationships@[e]]
                0 <= e < self.relationships@.len() implies self.has_topic(
                    self.relationships@[e].source_id@,
                ) && self.has_topic(self.relationships@[e].target_id@) by {
                if e < prev.relationships@.len() {
                    assert(self.relationships@[e] == prev.relationships@[e]);
                }
            }
        }
        Ok(rel)
    }

    /// Overwrites the knowledge field of a topic.
    pub fn update_knowledge(&mut self, topic_id: &String, knowledge: String) -> (r: Result<
        GraphNode,
        NodeRepositoryError,
    >)
        requires
            old(self).wf(),
        ensures
            final(self).wf(),
            final(self).canvases@ == old(self).canvases@,
            final(self).relationships@ == old(self).relationships@,
            r is Ok <==> old(self).has_topic(topic_id@),
            r is Err ==> r == Err::<GraphNode, NodeRepositoryError>(NodeRepositoryError::NotFound)
                && final(self).topics@ == old(self).topics@,
            r matches Ok(t) ==> t == (GraphNode { knowledge: Some(knowledge), ..old(self).topic(topic_id@) })
                && final(self).topics@ == old(self).topics@.update(old(self).topic_index(topic_id@), t),
    {
        match self.find_topic(topic_id) {
            None => Err(NodeRepositoryError::NotFound),
            Some(i) => {
                let ghost prev = *self;
                let mut node = self.topics[i].copied();
                node.knowledge = Some(knowledge);
                let out = node.copied();
                self.topics.set(i, node);
                proof {
                    assert forall|a: int, b: int|
                        0 <= a < self.topics@.len() && 0 <= b < self.topics@.len() && a != b
                            implies self.topics@[a].id@ != self.topics@[b].id@ by {
                        assert(prev.topics@[a].id@ != prev.topics@[b].id@);
                    }
                    assert forall|e: int|
                        #![trigger self.relationships@[e]]
                        0 <= e < self.relationships@.len() implies self.has_topic(
                            self.relationships@[e].source_id@,
                        ) && self.has_topic(self.relationships@[e].target_id@) by {
                        assert(prev.has_topic(prev.relationships@[e].source_id@));
                        assert(prev.has_topic(prev.relationships@[e].target_id@));
                        let a = choose|a: int| 0 <= a < prev.topics@.len() && prev.topics@[a].id@ == prev.relationships@[e].source_id@;
                        let b = choose|b: int| 0 <= b < prev.topics@.len() && prev.topics@[b].id@ == prev.relationships@[e].target_id@;
                        assert(self.topics@[a].id@ == prev.topics@[a].id@);
                        assert(self.topics@[b].id@ == prev.topics@[b].id@);
                    }
                }
                Ok(out)
            },
        }
    }

    /// The first topic of the canvas, in creation order, with exactly this
    /// name.
    pub fn get_topic_by_name(&self, canvas_id: &String, name: &String) -> (r: Option<GraphNode>)
        ensures
            r is Some <==> exists|i: int|
                0 <= i < self.topics@.len() && #[trigger] self.named_in(i, canvas_id@, name@),
            r matches Some(t) ==> exists|i: int|
                0 <= i < self.topics@.len() && self.named_in(i, canvas_id@, name@)
                    && self.topics@[i] == t && forall|k: int|
                    0 <= k < i ==> !#[trigger] self.named_in(k, canvas_id@, name@),
    {
        let mut i: usize = 0;
        while i < self.topics.len()
            invariant
                i <= self.topics@.len(),
                forall|k: int| 0 <= k < i ==> !#[trigger] self.named_in(k, canvas_id@, name@),
            decreases self.topics@.len() - i,
        {
            if self.topics[i].canvas_id == *canvas_id && self.topics[i].name == *name {
                assert(self.named_in(i as int, canvas_id@, name@));
                return Some(self.topics[i].copied());
            }
            i = i + 1;
        }
        None
    }

    /// The topics of a canvas, in creation order.
    pub fn topics_for_canvas(&self, canvas_id: &String) -> (r: Vec<GraphNode>)
        ensures
            r@ == topics_in(self.topics@, canvas_id@),
    {
        let ghost ts = self.topics@;
        let mut r: Vec<GraphNode> = Vec::new();
        let mut k: usize = 0;
        while k < self.topics.len()
            invariant
                ts == self.topics@,
                k <= ts.len(),
                r@ == topics_in(ts.subrange(0, k as int), canvas_id@),
            decreases ts.len() - k,
        {
            assert(ts.subrange(0, k as int + 1).drop_last() =~= ts.subrange(0, k as int));
            if self.topics[k].canvas_id == *canvas_id {
                r.push(self.topics[k].copied());
            }
            k = k + 1;
        }
        assert(ts.subrange(0, ts.len() as int) =~= ts);
        r
    }

    /// Keeps the edges with neither end at `id`.
    fn drop_edges_at(&mut self, id: &String)
        requires
            old(self).wf(),
        ensures
            final(self).topics@ == old(self).topics@,
            final(self).canvases@ == old(self).canvases@,
            final(self).relationships@ == edges_clear_of(old(self).relationships@, id@),
            unique_edge_ids(final(self).relationships@),
            forall|e: int|
                #![trigger final(self).relationships@[e]]
                0 <= e < final(self).relationships@.len() ==> old(self).has_topic(
                    final(self).relationships@[e].source_id@,
                ) && old(self).has_topic(final(self).relationships@[e].target_id@)
                    && final(self).relationships@[e].source_id@ != id@
                    && final(self).relationships@[e].target_id@ != id@,
    {
        let ghost g0 = *self;
        let ghost rels = self.relationships@;
        let mut kept: Vec<Relationship> = Vec::new();
        let mut k: usize = 0;
        while k < self.relationships.len()
            invariant
                *self == g0,
                g0.wf(),
                rels == g0.relationships@,
                k <= rels.len(),
                kept@ == edges_clear_of(rels.subrange(0, k as int), id@),
                forall|e: int|
                    #![trigger kept@[e]]
                    0 <= e < kept@.len() ==> g0.has_topic(kept@[e].source_id@) && g0.has_topic(
                        kept@[e].target_id@,
                    ) && kept@[e].source_id@ != id@ && kept@[e].target_id@ != id@,
                forall|a: int|
                    #![trigger kept@[a]]
                    0 <= a < kept@.len() ==> exists|x: int| 0 <= x < k && #[trigger] rels[x] == kept@[a],
                unique_edge_ids(kept@),
            decreases rels.len() - k,
        {
            assert(rels.subrange(0, k as int + 1).drop_last() =~= rels.subrange(0, k as int));
            assert(rels.subrange(0, k as int + 1).last() == rels[k as int]);
            let r = &self.relationships[k];
            if r.source_id != *id && r.target_id != *id {
                let ghost before = kept@;
                kept.push(r.copied());
                proof {
                    assert forall|e: int|
                        #![trigger kept@[e]]
                        0 <= e < kept@.len() implies g0.has_topic(kept@[e].source_id@) && g0.has_topic(
                            kept@[e].target_id@,
                        ) && kept@[e].source_id@ != id@ && kept@[e].target_id@ != id@ by {
                        if e < before.len() {
                            assert(kept@[e] == before[e]);
                        } else {
                            assert(g0.relationships@[k as int] == rels[k as int]);
                        }
                    }
                    lemma_keep_unique(rels, before, kept@, k as int);
                }
            }
            k = k + 1;
        }
        assert(rels.subrange(0, rels.len() as int) =~= rels);
        self.relationships = kept;
    }

    /// Removes a topic and every edge at it. Removing a topic that is not
    /// stored is a not-found error.
    pub fn delete_topic(&mut self, id: &String) -> (r: Result<(), NodeRepositoryError>)
        requires
            old(self).wf(),
        ensures
            final(self).wf(),
            final(self).canvases@ == old(self).canvases@,
            r is Err <==> !old(self).has_topic(id@),
            r is Err ==> r == Err::<(), NodeRepositoryError>(NodeRepositoryError::NotFound)
                && final(self).topics@ == old(self).topics@ && final(self).relationships@ == old(
                self,
            ).relationships@,
            r is Ok ==> final(self).topics@ == old(self).topics@.remove(old(self).topic_index(id@))
                && final(self).relationships@ == edges_clear_of(old(self).relationships@, id@),
    {
        let i = match self.find_topic(id) {
            None => return Err(NodeRepositoryError::NotFound),
            Some(i) => i,
        };
        let ghost g0 = *self;
        self.drop_edges_at(id);
        let ghost g1 = *self;
        self.topics.remove(i);
        proof {
            assert forall|a: int, b: int|
                0 <= a < self.topics@.len() && 0 <= b < self.topics@.len() && a != b implies self.topics@[a].id@
                != self.topics@[b].id@ by {
                let a0 = if a < i { a } else { a + 1 };
                let b0 = if b < i { b } else { b + 1 };
                assert(self.topics@[a] == g0.topics@[a0]);
                assert(self.topics@[b] == g0.topics@[b0]);
            }
            assert forall|x: Seq<char>| g0.has_topic(x) && x != id@ implies self.has_topic(x) by {
                let j = choose|j: int| 0 <= j < g0.topics@.len() && g0.topics@[j].id@ == x;
                assert(j != i);
                let j1 = if j < i { j } else { j - 1 };
                assert(self.topics@[j1] == g0.topics@[j]);
            }
            assert forall|e: int|
                #![trigger self.relationships@[e]]
                0 <= e < self.relationships@.len() implies self.has_topic(
                    self.relationships@[e].source_id@,
                ) && self.has_topic(self.relationships@[e].target_id@) by {
                assert(g1.relationships@[e] == self.relationships@[e]);
            }
        }
        Ok(())
    }

    /// Removes every topic of a canvas and every edge at one of them.
    pub fn delete_topics_for_canvas(&mut self, canvas_id: &String)
        requires
            old(self).wf(),
        ensures
            final(self).wf(),
            final(self).canvases@ == old(self).canvases@,
            final(self).topics@ == topics_outside(old(self).topics@, canvas_id@),
            final(self).relationships@ == old(self).edges_clear_of_canvas(
                old(self).relationships@,
                canvas_id@,
            ),
    {
        let ghost g0 = *self;
        let ghost rels = self.relationships@;
        let mut kept_edges: Vec<Relationship> = Vec::new();
        let mut k: usize = 0;
        while k < self.relationships.len()
            invariant
                *self == g0,
                g0.wf(),
                rels == g0.relationships@,
                k <= rels.len(),
                kept_edges@ == g0.edges_clear_of_canvas(rels.subrange(0, k as int), canvas_id@),
                forall|e: int|
                    #![trigger kept_edges@[e]]
                    0 <= e < kept_edges@.len() ==> g0.has_topic(kept_edges@[e].source_id@)
                        && g0.has_topic(kept_edges@[e].target_id@) && g0.clear_of_canvas(
                        kept_edges@[e],
                        canvas_id@,
                    ),
                forall|a: int|
                    #![trigger kept_edges@[a]]
                    0 <= a < kept_edges@.len() ==> exists|x: int| 0 <= x < k && #[trigger] rels[x] == kept_edges@[a],
                unique_edge_ids(kept_edges@),
            decreases rels.len() - k,
        {
            assert(rels.subrange(0, k as int + 1).drop_last() =~= rels.subrange(0, k as int));
            assert(rels.subrange(0, k as int + 1).last() == rels[k as int]);
            let r = &self.relationships[k];
            assert(g0.has_topic(rels[k as int].source_id@));
            assert(g0.has_topic(rels[k as int].target_id@));
            let keep = match (self.find_topic(&r.source_id), self.find_topic(&r.target_id)) {
                (Some(a), Some(b)) => self.topics[a].canvas_id != *canvas_id && self.topics[b].canvas_id
                    != *canvas_id,
                _ => false,
            };
            if keep {
                let ghost before = kept_edges@;
                kept_edges.push(r.copied());
                proof {
                    assert forall|e: int|
                        #![trigger kept_edges@[e]]
                        0 <= e < kept_edges@.len() implies g0.has_topic(kept_edges@[e].source_id@)
                            && g0.has_topic(kept_edges@[e].target_id@) && g0.clear_of_canvas(
                            kept_edges@[e],
                            canvas_id@,
                        ) by {
                        if e < before.len() {
                            assert(kept_edges@[e] == before[e]);
                        }
                    }
                    lemma_keep_unique(rels, before, kept_edges@, k as int);
                }
            }
            k = k + 1;
        }
        assert(rels.subrange(0, rels.len() as int) =~= rels);
        let ghost ts = self.topics@;
        let mut kept: Vec<GraphNode> = Vec::new();
        let mut j: usize = 0;
        while j < self.topics.len()
            invariant
                *self == g0,
                g0.wf(),
                ts == g0.topics@,
                j <= ts.len(),
                kept@ == topics_outside(ts.subrange(0, j as int), canvas_id@),
                forall|a: int|
                    #![trigger kept@[a]]
                    0 <= a < kept@.len() ==> exists|x: int|
                        0 <= x < j && #[trigger] ts[x] == kept@[a],
                forall|a: int, b: int|
                    0 <= a < kept@.len() && 0 <= b < kept@.len() && a != b ==> kept@[a].id@
                        != kept@[b].id@,
                forall|x: int|
                    0 <= x < j && ts[x].canvas_id@ != canvas_id@ ==> exists|a: int|
                        0 <= a < kept@.len() && #[trigger] kept@[a] == ts[x],
            decreases ts.len() - j,
        {
            assert(ts.subrange(0, j as int + 1).drop_last() =~= ts.subrange(0, j as int));
            assert(ts.subrange(0, j as int + 1).last() == ts[j as int]);
            if self.topics[j].canvas_id != *canvas_id {
                let ghost before = kept@;
                kept.push(self.topics[j].copied());
                proof {
                    let n = before.len() as int;
                    assert(kept@[n] == ts[j as int]);
                    assert forall|a: int|
                        #![trigger kept@[a]]
                        0 <= a < kept@.len() implies exists|x: int|
                            0 <= x < j + 1 && #[trigger] ts[x] == kept@[a] by {
                        if a < n {
                            assert(kept@[a] == before[a]);
                            let x = choose|x: int| 0 <= x < j && #[trigger] ts[x] == before[a];
                            assert(ts[x] == kept@[a]);
                        } else {
                            assert(ts[j as int] == kept@[a]);
                        }
                    }
                    assert forall|a: int, b: int|
                        0 <= a < kept@.len() && 0 <= b < kept@.len() && a != b implies kept@[a].id@
                            != kept@[b].id@ by {
                        if a < n && b < n {
                            assert(kept@[a] == before[a]);
                            assert(kept@[b] == before[b]);
                        } else if a == n && b < n {
                            assert(kept@[b] == before[b]);
                            let x = choose|x: int| 0 <= x < j && #[trigger] ts[x] == before[b];
                            assert(ts[x].id@ != ts[j as int].id@);
                        } else if b == n && a < n {
                            assert(kept@[a] == before[a]);
                            let x = choose|x: int| 0 <= x < j && #[trigger] ts[x] == before[a];
                            assert(ts[x].id@ != ts[j as int].id@);
                        }
                    }
                    assert forall|x: int|
                        0 <= x < j + 1 && ts[x].canvas_id@ != canvas_id@ implies exists|a: int|
                            0 <= a < kept@.len() && #[trigger] kept@[a] == ts[x] by {
                        if x < j {
                            let a = choose|a: int| 0 <= a < before.len() && #[trigger] before[a] == ts[x];
                            assert(kept@[a] == before[a]);
                        } else {
                            assert(kept@[n] == ts[x]);
                        }
                    }
                }
            }
            j = j + 1;
        }
        assert(ts.subrange(0, ts.len() as int) =~= ts);
        self.topics = kept;
        self.relationships = kept_edges;
        proof {
            assert forall|e: int|
                #![trigger self.relationships@[e]]
                0 <= e < self.relationships@.len() implies self.has_topic(
                    self.relationships@[e].source_id@,
                ) && self.has_topic(self.relationships@[e].target_id@) by {
                let r = self.relationships@[e];
                assert(g0.clear_of_canvas(r, canvas_id@));
                let si = g0.topic_index(r.source_id@);
                let ti = g0.topic_index(r.target_id@);
                assert(g0.topics@[si].id@ == r.source_id@);
                assert(g0.topics@[ti].id@ == r.target_id@);
                let a = choose|a: int| 0 <= a < self.topics@.len() && #[trigger] self.topics@[a] == ts[si];
                let b = choose|b: int| 0 <= b < self.topics@.len() && #[trigger] self.topics@[b] == ts[ti];
                assert(self.topics@[a].id@ == r.source_id@);
                assert(self.topics@[b].id@ == r.target_id@);
            }
        }
    }

    /// Removes a canvas with all its topics and their edges. Removing a
    /// canvas that is not stored is a not-found error.
    pub fn delete_canvas(&mut self, canvas_id: &String) -> (r: Result<(), CanvasRepositoryError>)
        requires
            old(self).wf(),
        ensures
            final(self).wf(),
            r is Err <==> !old(self).has_canvas(canvas_id@),
            r is Err ==> r == Err::<(), CanvasRepositoryError>(CanvasRepositoryError::NotFound)
                && *final(self) == *old(self),
            r is Ok ==> final(self).canvases@ == old(self).canvases@.remove(
                old(self).canvas_index(canvas_id@),
            ) && final(self).topics@ == topics_outside(old(self).topics@, canvas_id@)
                && final(self).relationships@ == old(self).edges_clear_of_canvas(
                old(self).relationships@,
                canvas_id@,
            ),
    {
        let i = match self.find_canvas(canvas_id) {
            None => return Err(CanvasRepositoryError::NotFound),
            Some(i) => i,
        };
        self.delete_topics_for_canvas(canvas_id);
        let ghost g1 = *self;
        self.canvases.remove(i);
        proof {
            assert forall|a: int, b: int|
                0 <= a < self.canvases@.len() && 0 <= b < self.canvases@.len() && a != b implies self.canvases@[a].id@
                != self.canvases@[b].id@ by {
                let a0 = if a < i { a } else { a + 1 };
                let b0 = if b < i { b } else { b + 1 };
                assert(self.canvases@[a] == g1.canvases@[a0]);
                assert(self.canvases@[b] == g1.canvases@[b0]);
            }
            assert forall|e: int|
                #![trigger self.relationships@[e]]
                0 <= e < self.relationships@.len() implies self.has_topic(
                    self.relationships@[e].source_id@,
                ) && self.has_topic(self.relationships@[e].target_id@) by {
                assert(g1.has_topic(g1.relationships@[e].source_id@));
                assert(g1.has_topic(g1.relationships@[e].target_id@));
            }
        }
        Ok(())
    }

    /// Changes the name and instruction of a canvas where they are given.
    pub fn update_canvas(&mut self, canvas_id: &String, updates: UpdateCanvasRequest) -> (r: Result<
        Canvas,
        CanvasRepositoryError,
    >)
        requires
            old(self).wf(),
        ensures
            final(self).wf(),
            final(self).topics@ == old(self).topics@,
            final(self).relationships@ == old(self).relationships@,
            r is Err <==> !old(self).has_canvas(canvas_id@),
            r is Err ==> r == Err::<Canvas, CanvasRepositoryError>(CanvasRepositoryError::NotFound)
                && final(self).canvases@ == old(self).canvases@,
            r matches Ok(c) ==> {
                let was = old(self).canvas(canvas_id@);
                &&& c.id == was.id
                &&& c.author_id == was.author_id
                &&& c.name == match updates.name {
                    Some(n) => n,
                    None => was.name,
                }
                &&& c.system_instruction == match updates.system_instruction {
                    Some(s) => s,
                    None => was.system_instruction,
                }
                &&& final(self).canvases@ == old(self).canvases@.update(
                    old(self).canvas_index(canvas_id@),
                    c,
                )
            },
    {
        let i = match self.find_canvas(canvas_id) {
            None => return Err(CanvasRepositoryError::NotFound),
            Some(i) => i,
        };
        let ghost g0 = *self;
        let mut c = self.canvases[i].copied();
        match updates.name {
            Some(n) => {
                c.name = n;
            },
            None => {},
        }
        match updates.system_instruction {
            Some(s) => {
                c.system_instruction = s;
            },
            None => {},
        }
        let out = c.copied();
        self.canvases.set(i, c);
        proof {
            assert forall|a: int, b: int|
                0 <= a < self.canvases@.len() && 0 <= b < self.canvases@.len() && a != b implies self.canvases@[a].id@
                != self.canvases@[b].id@ by {
                assert(g0.canvases@[a].id@ != g0.canvases@[b].id@);
            }
        }
        Ok(out)
    }

    /// The topics and edges of a canvas, as the canvas view shows them.
    pub fn graph_data(&self, canvas_id: &String) -> (r: GraphData)
        ensures
            r.nodes@ == topics_in(self.topics@, canvas_id@),
            r.edges@ == canvas_edges(self.relationships@, canvas_id@),
    {
        let nodes = self.topics_for_canvas(canvas_id);
        let ghost rels = self.relationships@;
        let mut edges: Vec<GraphEdge> = Vec::new();
        let mut k: usize = 0;
        while k < self.relationships.len()
            invariant
                rels == self.relationships@,
                k <= rels.len(),
                edges@ == canvas_edges(rels.subrange(0, k as int), canvas_id@),
            decreases rels.len() - k,
        {
            assert(rels.subrange(0, k as int + 1).drop_last() =~= rels.subrange(0, k as int));
            let r = &self.relationships[k];
            if r.canvas_id == *canvas_id {
                edges.push(GraphEdge { id: r.id.clone(), source: r.source_id.clone(), target: r.target_id.clone() });
            }
            k = k + 1;
        }
        assert(rels.subrange(0, rels.len() as int) =~= rels);
        GraphData { nodes, edges }
    }

    /// One page of the topics of a canvas in creation order, 50 from the
    /// start unless asked otherwise, with the canvas's topic count. A
    /// negative size or offset is invalid.
    pub fn get_topics(&self, request: &GetNodesRequest) -> (r: Result<
        PaginatedResponse<GraphNode>,
        NodeRepositoryError,
    >)
        ensures
            ({
                let limit = limit_or_default(request.limit);
                let offset = offset_or_default(request.offset);
                let all = topics_in(self.topics@, request.canvas_id@);
                &&& (r is Err <==> limit < 0 || offset < 0)
                &&& (r matches Err(e) ==> e is InvalidData)
                &&& (r matches Ok(p) ==> p.data@ == page(all, offset as int, limit as int)
                    && p.pagination == pagination(
                    if all.len() <= i64::MAX { all.len() as i64 } else { i64::MAX },
                    limit,
                    offset,
                ))
            }),
    {
        let limit: i32 = match request.limit {
            Some(l) => l,
            None => 50,
        };
        let offset: i32 = match request.offset {
            Some(o) => o,
            None => 0,
        };
        if limit < 0 || offset < 0 {
            return Err(NodeRepositoryError::InvalidData(String::from_str("negative page size or offset")));
        }
        let all = self.topics_for_canvas(&request.canvas_id);
        let n = all.len();
        let lo: usize = if (offset as usize) < n { offset as usize } else { n };
        let end: u64 = offset as u64 + limit as u64;
        let hi: usize = if end < n as u64 { end as usize } else { n };
        let mut data: Vec<GraphNode> = Vec::new();
        let mut k: usize = lo;
        while k < hi
            invariant
                lo <= k <= hi,
                hi <= all@.len(),
                data@ == all@.subrange(lo as int, k as int),
            decreases hi - k,
        {
            data.push(all[k].copied());
            assert(data@ =~= all@.subrange(lo as int, k as int + 1));
            k = k + 1;
        }
        let total: i64 = if (n as u64) <= 9223372036854775807u64 { n as i64 } else { i64::MAX };
        assert(data@ == page(all@, offset as int, limit as int));
        Ok(PaginatedResponse::new(data, total, limit, offset))
    }

    /// Overwrites the fields of a topic that are given and keeps the rest.
    pub fn update_topic(
        &mut self,
        topic_id: &String,
        name: Option<String>,
        kind: Option<TopicKind>,
        description: Option<String>,
        knowledge: Option<String>,
    ) -> (r: Result<GraphNode, NodeRepositoryError>)
        requires
            old(self).wf(),
        ensures
            final(self).wf(),
            final(self).canvases@ == old(self).canvases@,
            final(self).relationships@ == old(self).relationships@,
            r is Ok <==> old(self).has_topic(topic_id@),
            r is Err ==> r == Err::<GraphNode, NodeRepositoryError>(NodeRepositoryError::NotFound)
                && final(self).topics@ == old(self).topics@,
            r matches Ok(t) ==> {
                let was = old(self).topic(topic_id@);
                &&& t.id == was.id
                &&& t.canvas_id == was.canvas_id
                &&& t.name == match name {
                    Some(n) => n,
                    None => was.name,
                }
                &&& t.node_type == match kind {
                    Some(k) => k,
                    None => was.node_type,
                }
                &&& t.description == match description {
                    Some(d) => Some(d),
                    None => was.description,
                }
                &&& t.knowledge == match knowledge {
                    Some(k) => Some(k),
                    None => was.knowledge,
                }
                &&& final(self).topics@ == old(self).topics@.update(old(self).topic_index(topic_id@), t)
            },
    {
        match self.find_topic(topic_id) {
            None => Err(NodeRepositoryError::NotFound),
            Some(i) => {
                let ghost prev = *self;
                let mut node = self.topics[i].copied();
                if let Some(n) = name {
                    node.name = n;
                }
                if let Some(k) = kind {
                    node.node_type = k;
                }
                if let Some(d) = description {
                    node.description = Some(d);
                }
                if let Some(k) = knowledge {
                    node.knowledge = Some(k);
                }
                let out = node.copied();
                self.topics.set(i, node);
                proof {
                    assert forall|a: int, b: int|
                        0 <= a < self.topics@.len() && 0 <= b < self.topics@.len() && a != b
                            implies self.topics@[a].id@ != self.topics@[b].id@ by {
                        assert(prev.topics@[a].id@ != prev.topics@[b].id@);
                    }
                    assert forall|e: int|
                        #![trigger self.relationships@[e]]
                        0 <= e < self.relationships@.len() implies self.has_topic(
                            self.relationships@[e].source_id@,
                        ) && self.has_topic(self.relationships@[e].target_id@) by {
                        assert(prev.has_topic(prev.relationships@[e].source_id@));
                        assert(prev.has_topic(prev.relationships@[e].target_id@));
                        let a = choose|a: int| 0 <= a < prev.topics@.len() && prev.topics@[a].id@ == prev.relationships@[e].source_id@;
                        let b = choose|b: int| 0 <= b < prev.topics@.len() && prev.topics@[b].id@ == prev.relationships@[e].target_id@;
                        assert(self.topics@[a].id@ == prev.topics@[a].id@);
                        assert(self.topics@[b].id@ == prev.topics@[b].id@);
                    }
                }
                Ok(out)
            },
        }
    }
}

} // verus!
