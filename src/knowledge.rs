use vstd::prelude::*;
use crate::dto::SearchResult;

verus! {

/// Most history entries a topic keeps.
pub const HISTORY_CAP: usize = 5;

/// A document excerpt from the document index. Its distance to the query is
/// held in thousandths: lower is more relevant.
#[derive(Debug, Clone)]
pub struct DocumentContext {
    pub filename: String,
    pub chunk_id: String,
    pub name: String,
    pub description: String,
    pub text: String,
    pub distance_millis: i64,
}

/// One past enrichment, as kept in a topic's history.
#[derive(Debug, Clone)]
pub struct HistoryEntry {
    pub timestamp: String,
    pub web_search_results: Option<Vec<SearchResult>>,
    pub news_search_results: Option<Vec<SearchResult>>,
    pub insights: String,
}

/// The full result bundle of the latest enrichment.
#[derive(Debug, Clone)]
pub struct LatestSearch {
    pub insights: String,
    pub web_search_results: Option<Vec<SearchResult>>,
    pub news_search_results: Option<Vec<SearchResult>>,
    pub document_context: Vec<DocumentContext>,
    pub generated_at: String,
    pub question: String,
}

/// The knowledge blob of a topic: status, latest result and a bounded
/// history, oldest first.
#[derive(Debug, Clone)]
pub struct KnowledgeRecord {
    pub google_search_status: Option<String>,
    pub latest_google_search: Option<LatestSearch>,
    pub search_history: Vec<HistoryEntry>,
    /// Every other key of the stored object, with its value as JSON text,
    /// carried through unchanged.
    pub other_fields: Vec<(String, String)>,
}

/// The last `HISTORY_CAP` entries of `h`, or all of them when there are
/// fewer.
pub open spec fn capped(h: Seq<HistoryEntry>) -> Seq<HistoryEntry> {
    if h.len() > HISTORY_CAP {
        h.subrange(h.len() - HISTORY_CAP, h.len() as int)
    } else {
        h
    }
}

/// The history after adding each of `es` in turn.
pub open spec fn push_all(h: Seq<HistoryEntry>, es: Seq<HistoryEntry>) -> Seq<HistoryEntry>
    decreases es.len(),
{
    if es.len() == 0 {
        h
    } else {
        capped(push_all(h, es.drop_last()).push(es.last()))
    }
}

impl KnowledgeRecord {
    /// The blob of a topic that has none, or whose stored text is not a
    /// JSON object.
    pub fn empty() -> (r: KnowledgeRecord)
        ensures
            r.google_search_status is None,
            r.latest_google_search is None,
            r.search_history@.len() == 0,
            r.other_fields@.len() == 0,
    {
        KnowledgeRecord {
            google_search_status: None,
            latest_google_search: None,
            search_history: Vec::new(),
            other_fields: Vec::new(),
        }
    }
}

/// The blob that an enrichment starts from: the parsed stored text, or an
/// empty blob when the topic stores nothing, stores empty text, or stores
/// text that did not parse as a blob.
pub fn existing_record(stored: &Option<String>, parsed: Option<KnowledgeRecord>) -> (r: KnowledgeRecord)
    ensures
        (stored is None || (stored matches Some(t) && t@.len() == 0) || parsed is None) ==> (
        r.google_search_status is None && r.latest_google_search is None
            && r.search_history@.len() == 0 && r.other_fields@.len() == 0),
        (stored matches Some(t) && t@.len() > 0) && parsed is Some ==> Some(r) == parsed,
{
    match stored {
        None => KnowledgeRecord::empty(),
        Some(t) => {
            if t.as_str().is_empty() {
                KnowledgeRecord::empty()
            } else {
                match parsed {
                    Some(k) => k,
                    None => KnowledgeRecord::empty(),
                }
            }
        },
    }
}

/// Appends an entry and drops the oldest ones beyond the cap.
pub fn push_history(history: Vec<HistoryEntry>, entry: HistoryEntry) -> (r: Vec<HistoryEntry>)
    ensures
        r@ == capped(history@.push(entry)),
{
    let mut h = history;
    h.push(entry);
    if h.len() > HISTORY_CAP {
        let drop = h.len() - HISTORY_CAP;
        let mut kept: Vec<HistoryEntry> = Vec::new();
        let ghost all = h@;
        let mut rest = h.split_off(drop);
        kept.append(&mut rest);
        assert(kept@ =~= all.subrange(drop as int, all.len() as int));
        kept
    } else {
        h
    }
}

/// Adding one entry to a history gives the cap of the whole run.
pub proof fn lemma_push_capped(x: Seq<HistoryEntry>, e: HistoryEntry)
    ensures
        capped(capped(x).push(e)) == capped(x.push(e)),
{
    if x.len() > HISTORY_CAP {
        assert(capped(capped(x).push(e)) =~= capped(x.push(e)));
    }
}

/// Adding entries one by one keeps the last `HISTORY_CAP` of the stored
/// history followed by the new entries.
pub proof fn lemma_push_all(h: Seq<HistoryEntry>, es: Seq<HistoryEntry>)
    requires
        es.len() >= 1,
    ensures
        push_all(h, es) == capped(h + es),
    decreases es.len(),
{
    if es.len() == 1 {
        assert(h + es =~= h.push(es.last()));
        assert(es.drop_last().len() == 0);
        assert(push_all(h, es.drop_last()) == h);
    } else {
        lemma_push_all(h, es.drop_last());
        lemma_push_capped(h + es.drop_last(), es.last());
        assert((h + es.drop_last()).push(es.last()) =~= h + es);
    }
}

/// Enriching the same topic six times leaves exactly five entries: the
/// five most recent, oldest first, whatever the history held before.
pub proof fn law_history_cap(h: Seq<HistoryEntry>, es: Seq<HistoryEntry>)
    requires
        es.len() == 6,
    ensures
        push_all(h, es).len() == 5,
        push_all(h, es) == es.subrange(1, 6),
{
    lemma_push_all(h, es);
    assert((h + es).subrange((h + es).len() - 5, (h + es).len() as int) =~= es.subrange(1, 6));
}

/// A topic without history gets a history of the one new entry.
pub proof fn law_first_history_entry(e: HistoryEntry)
    ensures
        capped(Seq::<HistoryEntry>::empty().push(e)) == seq![e],
{
    assert(Seq::<HistoryEntry>::empty().push(e) =~= seq![e]);
}

} // verus!
