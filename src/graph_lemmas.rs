use vstd::prelude::*;
use crate::graph::{edge_count, extend, sibling_ids, sources_into, targets_from, Ascent, TopicGraph};
use crate::model::{GraphNode, Relationship};
use vstd::seq_lib::seq_to_set_is_finite;
use vstd::set_lib::lemma_len_subset;

verus! {

pub proof fn lemma_extend_empty(a: Ascent)
    ensures
        extend(a, Seq::empty()) == a,
{
    if let Ascent::Rooted(c) = a {
        assert(c + Seq::<Seq<char>>::empty() =~= c);
    }
}

pub proof fn lemma_extend_twice(a: Ascent, x: Seq<Seq<char>>, y: Seq<Seq<char>>)
    ensures
        extend(extend(a, x), y) == extend(a, x + y),
{
    if let Ascent::Rooted(c) = a {
        assert(c + x + y =~= c + (x + y));
    }
}

impl TopicGraph {
    /// Every edge of `rels` joins two stored topics.
    pub open spec fn edges_within(&self, rels: Seq<Relationship>) -> bool {
        forall|e: int|
            #![trigger rels[e]]
            0 <= e < rels.len() ==> self.has_topic(rels[e].source_id@) && self.has_topic(
                rels[e].target_id@,
            )
    }

    pub proof fn lemma_sources_exist(&self, rels: Seq<Relationship>, id: Seq<char>)
        requires
            self.edges_within(rels),
        ensures
            forall|i: int|
                0 <= i < sources_into(rels, id).len() ==> self.has_topic(
                    #[trigger] sources_into(rels, id)[i],
                ),
        decreases rels.len(),
    {
        if rels.len() > 0 {
            assert(rels.drop_last().len() < rels.len());
            assert(self.edges_within(rels.drop_last())) by {
                assert forall|e: int| 0 <= e < rels.drop_last().len() implies self.has_topic(
                    rels.drop_last()[e].source_id@,
                ) && self.has_topic(rels.drop_last()[e].target_id@) by {
                    assert(rels.drop_last()[e] == rels[e]);
                }
            }
            self.lemma_sources_exist(rels.drop_last(), id);
            assert(rels.last() == rels[rels.len() - 1]);
            let rest = sources_into(rels.drop_last(), id);
            if rels.last().target_id@ == id {
                let x = rels.last().source_id@;
                assert(self.has_topic(x));
                assert forall|i: int| 0 <= i < rest.push(x).len() implies self.has_topic(
                    #[trigger] rest.push(x)[i],
                ) by {
                    if i < rest.len() {
                        assert(rest.push(x)[i] == rest[i]);
                    }
                }
            }
        }
    }

    pub proof fn lemma_targets_exist(&self, rels: Seq<Relationship>, id: Seq<char>, skip: Option<Seq<char>>)
        requires
            self.edges_within(rels),
        ensures
            forall|i: int|
                0 <= i < targets_from(rels, id, skip).len() ==> self.has_topic(
                    #[trigger] targets_from(rels, id, skip)[i],
                ),
        decreases rels.len(),
    {
        if rels.len() > 0 {
            assert(self.edges_within(rels.drop_last())) by {
                assert forall|e: int| 0 <= e < rels.drop_last().len() implies self.has_topic(
                    rels.drop_last()[e].source_id@,
                ) && self.has_topic(rels.drop_last()[e].target_id@) by {
                    assert(rels.drop_last()[e] == rels[e]);
                }
            }
            self.lemma_targets_exist(rels.drop_last(), id, skip);
            assert(rels.last() == rels[rels.len() - 1]);
            let rest = targets_from(rels.drop_last(), id, skip);
            let r = rels.last();
            if r.source_id@ == id && skip != Some(r.target_id@) {
                let x = r.target_id@;
                assert(self.has_topic(x));
                assert forall|i: int| 0 <= i < rest.push(x).len() implies self.has_topic(
                    #[trigger] rest.push(x)[i],
                ) by {
                    if i < rest.len() {
                        assert(rest.push(x)[i] == rest[i]);
                    }
                }
            }
        }
    }

    pub proof fn lemma_siblings_exist_in(&self, outer: Seq<Relationship>, all: Seq<Relationship>, id: Seq<char>)
        requires
            self.edges_within(all),
        ensures
            forall|i: int|
                0 <= i < sibling_ids(outer, all, id).len() ==> self.has_topic(
                    #[trigger] sibling_ids(outer, all, id)[i],
                ),
        decreases outer.len(),
    {
        if outer.len() > 0 {
            self.lemma_siblings_exist_in(outer.drop_last(), all, id);
            let rest = sibling_ids(outer.drop_last(), all, id);
            if outer.last().target_id@ == id {
                let more = targets_from(all, outer.last().source_id@, Some(id));
                self.lemma_targets_exist(all, outer.last().source_id@, Some(id));
                assert forall|i: int| 0 <= i < (rest + more).len() implies self.has_topic(
                    #[trigger] (rest + more)[i],
                ) by {
                    if i < rest.len() {
                        assert((rest + more)[i] == rest[i]);
                    } else {
                        assert((rest + more)[i] == more[i - rest.len()]);
                    }
                }
            }
        }
    }

    /// Under unique ids, the index chosen for a stored id is its own.
    pub proof fn lemma_index_of(&self, i: int)
        requires
            self.wf(),
            0 <= i < self.topics@.len(),
        ensures
            self.has_topic(self.topics@[i].id@),
            self.topic_index(self.topics@[i].id@) == i,
            self.topic(self.topics@[i].id@) == self.topics@[i],
    {
        let id = self.topics@[i].id@;
        assert(self.topics@[i].id@ == id);
        let j = self.topic_index(id);
        assert(self.topics@[j].id@ == self.topics@[i].id@);
    }

    /// Adding one topic with a fresh id keeps the graph well formed.
    pub proof fn lemma_grow_topics(&self, next: TopicGraph)
        requires
            self.wf(),
            next.relationships@ == self.relationships@,
            next.canvases@ == self.canvases@,
            next.topics@.len() == self.topics@.len() + 1,
            forall|i: int| 0 <= i < self.topics@.len() ==> next.topics@[i] == self.topics@[i],
            !self.has_topic(next.topics@.last().id@),
        ensures
            next.wf(),
            forall|id: Seq<char>| self.has_topic(id) ==> next.has_topic(id),
    {
        assert forall|id: Seq<char>| self.has_topic(id) implies next.has_topic(id) by {
            let i = choose|i: int| 0 <= i < self.topics@.len() && self.topics@[i].id@ == id;
            assert(next.topics@[i] == self.topics@[i]);
        }
        let n = self.topics@.len() as int;
        assert forall|a: int, b: int|
            0 <= a < next.topics@.len() && 0 <= b < next.topics@.len() && a != b
                implies next.topics@[a].id@ != next.topics@[b].id@ by {
            if a < n && b < n {
                assert(self.topics@[a].id@ != self.topics@[b].id@);
            } else if a == n {
                assert(next.topics@[b] == self.topics@[b]);
            } else {
                assert(next.topics@[a] == self.topics@[a]);
            }
        }
        assert forall|e: int|
            #![trigger next.relationships@[e]]
            0 <= e < next.relationships@.len() implies next.has_topic(
                next.relationships@[e].source_id@,
            ) && next.has_topic(next.relationships@[e].target_id@) by {
            assert(self.has_topic(self.relationships@[e].source_id@));
            assert(self.has_topic(self.relationships@[e].target_id@));
        }
    }

    /// `chain` runs from a parentless topic down to its last element, each
    /// topic below the first having exactly the previous one as its parent.
    pub open spec fn is_rooted_chain(&self, chain: Seq<Seq<char>>) -> bool {
        &&& chain.len() >= 1
        &&& sources_into(self.relationships@, chain[0]).len() == 0
        &&& forall|i: int|
            0 < i < chain.len() ==> #[trigger] sources_into(self.relationships@, chain[i]) == seq![
                chain[i - 1],
            ]
        &&& forall|i: int| 0 <= i < chain.len() ==> self.has_topic(#[trigger] chain[i])
    }

    proof fn lemma_chain_ascent(&self, chain: Seq<Seq<char>>, k: int, fuel: nat)
        requires
            self.is_rooted_chain(chain),
            0 <= k < chain.len(),
            fuel > k,
        ensures
            self.ascent(chain[k], fuel) == Ascent::Rooted(chain.subrange(0, k + 1)),
        decreases k,
    {
        if k == 0 {
            assert(chain.subrange(0, 1) =~= seq![chain[0]]);
        } else {
            assert(sources_into(self.relationships@, chain[k]) == seq![chain[k - 1]]);
            self.lemma_chain_ascent(chain, k - 1, (fuel - 1) as nat);
            assert(chain.subrange(0, k) + seq![chain[k]] =~= chain.subrange(0, k + 1));
        }
    }

    proof fn lemma_chain_distinct(&self, chain: Seq<Seq<char>>, i: int, j: int)
        requires
            self.is_rooted_chain(chain),
            0 <= i < j < chain.len(),
        ensures
            chain[i] != chain[j],
        decreases i,
    {
        assert(sources_into(self.relationships@, chain[j]) == seq![chain[j - 1]]);
        if i > 0 {
            assert(sources_into(self.relationships@, chain[i]) == seq![chain[i - 1]]);
            self.lemma_chain_distinct(chain, i - 1, j - 1);
            if chain[i] == chain[j] {
                assert(seq![chain[i - 1]][0] == seq![chain[j - 1]][0]);
            }
        }
    }

    proof fn lemma_chain_fits(&self, chain: Seq<Seq<char>>)
        requires
            self.is_rooted_chain(chain),
        ensures
            chain.len() <= self.topics@.len(),
    {
        assert(chain.no_duplicates()) by {
            assert forall|i: int, j: int|
                0 <= i < chain.len() && 0 <= j < chain.len() && i != j implies chain[i]
                != chain[j] by {
                if i < j {
                    self.lemma_chain_distinct(chain, i, j);
                } else {
                    self.lemma_chain_distinct(chain, j, i);
                }
            }
        }
        chain.unique_seq_to_set();
        let ids = self.topics@.map_values(|t: GraphNode| t.id@);
        ids.lemma_cardinality_of_set();
        seq_to_set_is_finite(ids);
        assert forall|x: Seq<char>| chain.to_set().contains(x) implies ids.to_set().contains(x) by {
            let k = choose|k: int| 0 <= k < chain.len() && chain[k] == x;
            assert(self.has_topic(chain[k]));
            let i = choose|i: int| 0 <= i < self.topics@.len() && self.topics@[i].id@ == x;
            assert(ids[i] == x);
        }
        lemma_len_subset(chain.to_set(), ids.to_set());
    }

    /// A topic reached from a root of the canvas by `N` edges, along which
    /// each topic below the root has exactly one parent, has a path of
    /// `N + 1` names: the root's name first and its own name last, in
    /// root-to-leaf order.
    pub proof fn law_path_to_root(&self, chain: Seq<Seq<char>>, canvas: Seq<char>)
        requires
            self.wf(),
            self.is_rooted_chain(chain),
            self.topic(chain[0]).canvas_id@ == canvas,
        ensures
            self.path_spec(chain.last(), canvas) == Some(self.names_of(chain)),
            self.names_of(chain).len() == chain.len(),
            self.names_of(chain)[0] == self.name_of(chain[0]),
            self.names_of(chain).last() == self.name_of(chain.last()),
    {
        self.lemma_chain_fits(chain);
        let k = chain.len() - 1;
        assert(self.has_topic(chain[k]));
        self.lemma_chain_ascent(chain, k, self.topics@.len() as nat);
        assert(chain.subrange(0, k + 1) =~= chain);
    }

    /// Two distinct topics of a canvas with a common parent each appear
    /// among the other's siblings.
    pub proof fn law_siblings_symmetric(&self, a: Seq<char>, b: Seq<char>, canvas: Seq<char>, ea: int, eb: int)
        requires
            self.wf(),
            a != b,
            self.has_topic(a),
            self.has_topic(b),
            self.topic(a).canvas_id@ == canvas,
            self.topic(b).canvas_id@ == canvas,
            0 <= ea < self.relationships@.len(),
            0 <= eb < self.relationships@.len(),
            self.relationships@[ea].target_id@ == a,
            self.relationships@[eb].target_id@ == b,
            self.relationships@[ea].source_id@ == self.relationships@[eb].source_id@,
        ensures
            self.siblings_spec(a, canvas).contains(self.name_of(b)),
            self.siblings_spec(b, canvas).contains(self.name_of(a)),
    {
        let rels = self.relationships@;
        self.lemma_target_listed(rels, eb, Some(a));
        self.lemma_sibling_listed(rels, rels, a, ea, b);
        self.lemma_target_listed(rels, ea, Some(b));
        self.lemma_sibling_listed(rels, rels, b, eb, a);
        let sa = sibling_ids(rels, rels, a);
        let sb = sibling_ids(rels, rels, b);
        let ia = choose|i: int| 0 <= i < sa.len() && sa[i] == b;
        assert(self.names_of(sa)[ia] == self.name_of(b));
        let ib = choose|i: int| 0 <= i < sb.len() && sb[i] == a;
        assert(self.names_of(sb)[ib] == self.name_of(a));
    }

    proof fn lemma_target_listed(&self, rels: Seq<Relationship>, e: int, skip: Option<Seq<char>>)
        requires
            0 <= e < rels.len(),
            skip != Some(rels[e].target_id@),
        ensures
            targets_from(rels, rels[e].source_id@, skip).contains(rels[e].target_id@),
        decreases rels.len(),
    {
        let src = rels[e].source_id@;
        let t = rels[e].target_id@;
        if e == rels.len() - 1 {
            let rest = targets_from(rels.drop_last(), src, skip);
            assert(rest.push(t)[rest.len() as int] == t);
        } else {
            assert(rels.drop_last()[e] == rels[e]);
            self.lemma_target_listed(rels.drop_last(), e, skip);
            let rest = targets_from(rels.drop_last(), src, skip);
            let i = choose|i: int| 0 <= i < rest.len() && rest[i] == t;
            let r = rels.last();
            if r.source_id@ == src && skip != Some(r.target_id@) {
                assert(rest.push(r.target_id@)[i] == t);
            }
        }
    }

    proof fn lemma_sibling_listed(&self, outer: Seq<Relationship>, all: Seq<Relationship>, id: Seq<char>, e: int, x: Seq<char>)
        requires
            0 <= e < outer.len(),
            outer[e].target_id@ == id,
            targets_from(all, outer[e].source_id@, Some(id)).contains(x),
        ensures
            sibling_ids(outer, all, id).contains(x),
        decreases outer.len(),
    {
        let rest = sibling_ids(outer.drop_last(), all, id);
        if e == outer.len() - 1 {
            let more = targets_from(all, outer.last().source_id@, Some(id));
            let i = choose|i: int| 0 <= i < more.len() && more[i] == x;
            assert((rest + more)[rest.len() + i] == x);
        } else {
            assert(outer.drop_last()[e] == outer[e]);
            self.lemma_sibling_listed(outer.drop_last(), all, id, e, x);
            let i = choose|i: int| 0 <= i < rest.len() && rest[i] == x;
            if outer.last().target_id@ == id {
                let more = targets_from(all, outer.last().source_id@, Some(id));
                assert((rest + more)[i] == x);
            }
        }
    }

    /// No stored edge ends at a topic that is not stored.
    pub proof fn lemma_no_edges_into_absent(&self, rels: Seq<Relationship>, s: Seq<char>, t: Seq<char>)
        requires
            self.edges_within(rels),
            !self.has_topic(t),
        ensures
            edge_count(rels, s, t) == 0,
        decreases rels.len(),
    {
        if rels.len() > 0 {
            assert(self.edges_within(rels.drop_last())) by {
                assert forall|e: int| 0 <= e < rels.drop_last().len() implies self.has_topic(
                    rels.drop_last()[e].source_id@,
                ) && self.has_topic(rels.drop_last()[e].target_id@) by {
                    assert(rels.drop_last()[e] == rels[e]);
                }
            }
            self.lemma_no_edges_into_absent(rels.drop_last(), s, t);
            assert(rels.last() == rels[rels.len() - 1]);
        }
    }
}

} // verus!
