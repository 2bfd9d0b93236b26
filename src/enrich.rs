use vstd::prelude::*;
use chrono::Datelike;
use crate::dto::{NewsSearchRequest, SearchRequest, SearchResult, VertexAIRequestConfig};
use crate::errors::AIServiceError;
use crate::graph::{opt_view, views, TopicGraph};
use crate::knowledge::{capped, push_history, DocumentContext, HistoryEntry, KnowledgeRecord, LatestSearch};
use crate::model::GraphNode;
use crate::text::{decimal, decimal_of, digits_of, join_with, joined};

verus! {

/// Relies on chrono::Utc::now and Datelike::year for the current year.
#[verifier::external_body]
fn current_year() -> (r: i32) {
    chrono::Utc::now().year()
}

/// Relies on chrono::Utc::now and DateTime::to_rfc3339 for the current
/// time as RFC 3339 text.
#[verifier::external_body]
pub fn now_rfc3339() -> (r: String) {
    chrono::Utc::now().to_rfc3339()
}

/// Relies on chrono::Utc::now and DateTime::format for the current time
/// as "YYYY-MM-DD HH:MM:SS UTC".
#[verifier::external_body]
pub fn now_readable() -> (r: String) {
    chrono::Utc::now().format("%Y-%m-%d %H:%M:%S UTC").to_string()
}

/// The pretty-printed JSON array that serde_json writes for search results
/// given as (title, link, knowledge) rows, each an object with those keys.
pub uninterp spec fn search_results_json(rows: Seq<(Seq<char>, Seq<char>, Seq<char>)>) -> Seq<char>;

pub open spec fn result_rows(v: Seq<SearchResult>) -> Seq<(Seq<char>, Seq<char>, Seq<char>)> {
    v.map_values(|r: SearchResult| (r.title@, r.url@, r.content@))
}

/// Relies on serde_json's Map, Value and to_string_pretty to write search
/// results as a JSON array of objects with keys title, link and knowledge.
#[verifier::external_body]
fn results_json(results: &Vec<SearchResult>) -> (r: String)
    ensures
        r@ == search_results_json(result_rows(results@)),
{
    let items: Vec<serde_json::Value> = results.iter().map(|res| {
        let mut m = serde_json::Map::new();
        m.insert("title".to_string(), serde_json::Value::String(res.title.clone()));
        m.insert("link".to_string(), serde_json::Value::String(res.url.clone()));
        m.insert("knowledge".to_string(), serde_json::Value::String(res.content.clone()));
        serde_json::Value::Object(m)
    }).collect();
    serde_json::to_string_pretty(&items).unwrap_or_default()
}

/// A request to enrich a topic with research.
#[derive(Debug, Clone)]
pub struct GenerateInsightsForTopicNodeRequest {
    pub topic_node_id: String,
    pub canvas_id: String,
    pub question: Option<String>,
    pub system_instruction: Option<String>,
    pub include_web_search: Option<bool>,
    pub include_news_search: Option<bool>,
    pub max_results: Option<i32>,
}

/// What an enrichment returns to its caller.
#[derive(Debug, Clone)]
pub struct GenerateInsightsForTopicNodeResponse {
    pub insights: String,
    pub topic_node_id: String,
    pub canvas_id: String,
    pub question: String,
    pub generated_at: String,
    pub web_search_results: Option<Vec<SearchResult>>,
    pub news_search_results: Option<Vec<SearchResult>>,
    pub document_context: Option<Vec<DocumentContext>>,
}

/// A query for the document index: the closest `limit` excerpts whose
/// distance is at most `max_distance_millis` thousandths.
#[derive(Debug, Clone)]
pub struct DocumentQuery {
    pub query: String,
    pub class_name: String,
    pub limit: i32,
    pub max_distance_millis: i64,
}

/// The queries an enrichment sends out, and what it needs afterwards.
#[derive(Debug, Clone)]
pub struct EnrichmentPlan {
    pub topic_id: String,
    pub canvas_id: String,
    pub topic_name: String,
    pub path: Vec<String>,
    pub question: String,
    pub system_instruction: Option<String>,
    pub document_query: DocumentQuery,
    pub web_query: Option<SearchRequest>,
    pub news_query: Option<NewsSearchRequest>,
}

/// What the three sources gave, failures already absorbed.
#[derive(Debug, Clone)]
pub struct GatheredContext {
    pub documents: Vec<DocumentContext>,
    pub web: Option<Vec<SearchResult>>,
    pub news: Option<Vec<SearchResult>>,
}

pub const DEFAULT_SYSTEM_SECTION: &'static str = "<system-instruction>\nYou are an AI assistant providing comprehensive insights, analysis, and real world examples. \nWhen given a search query, provide detailed, informative explanations.\n</system-instruction>";

pub const INSIGHT_FORMAT_HEAD: &'static str = "\n<format>\n    Using Markdown format when appropriate.\n    ALWAYS reference and prioritize information from user documents when available and relevant.\n    Also incorporate relevant information from web search results.\n    If user documents contain relevant information, mention them specifically in your response.\n    Current time: ";

pub const INSIGHT_FORMAT_TAIL: &'static str = "\n</format>\n</instructions>";

pub const QUESTION_DEFAULT_PREFIX: &'static str = "Provide comprehensive insights about: ";

pub const ANALYSIS_PREFIX: &'static str = "Provide a comprehensive analysis of: ";

/// The question asked: the one given, else one about the topic's name.
pub open spec fn question_for(question: Option<String>, name: Seq<char>) -> Seq<char> {
    match question {
        Some(q) => q@,
        None => QUESTION_DEFAULT_PREFIX@ + name,
    }
}

pub open spec fn flag(b: Option<bool>) -> bool {
    match b {
        Some(v) => v,
        None => false,
    }
}

/// The relevance percentage of a distance in thousandths:
/// `(1 - distance) * 100`, rounded half away from zero.
pub open spec fn relevance(distance_millis: int) -> int {
    let x = 1000 - distance_millis;
    if x >= 0 {
        (x + 5) / 10
    } else {
        -((5 - x) / 10)
    }
}

/// How the `i`-th document (from zero) is shown to the model.
pub open spec fn document_entry(i: int, d: DocumentContext) -> Seq<char> {
    "Document "@ + decimal(i + 1) + ": "@ + d.filename@ + " - "@ + d.name@ + "\nDescription: "@
        + d.description@ + "\nRelevance Score: "@ + decimal(relevance(d.distance_millis as int))
        + "%\nContent: "@ + d.text@ + "\n---"@
}

/// All documents, one entry each, separated by new lines.
pub open spec fn document_entries(docs: Seq<DocumentContext>) -> Seq<char>
    decreases docs.len(),
{
    if docs.len() == 0 {
        Seq::empty()
    } else if docs.len() == 1 {
        document_entry(0, docs[0])
    } else {
        document_entries(docs.drop_last()) + "\n"@ + document_entry(docs.len() - 1, docs.last())
    }
}

pub open spec fn insight_system_section(instruction: Option<Seq<char>>) -> Seq<char> {
    match instruction {
        Some(s) => "<system-instruction>\n"@ + s + "\n</system-instruction>"@,
        None => DEFAULT_SYSTEM_SECTION@,
    }
}

pub open spec fn path_section(path: Seq<Seq<char>>) -> Seq<char> {
    if path.len() == 0 {
        Seq::empty()
    } else {
        "<topic-path>\n"@ + joined(path, " > "@) + "\n</topic-path>"@
    }
}

pub open spec fn documents_section(docs: Seq<DocumentContext>) -> Seq<char> {
    if docs.len() == 0 {
        Seq::empty()
    } else {
        "<document-context>\n"@ + document_entries(docs) + "\n</document-context>"@
    }
}

pub open spec fn web_section(web: Option<Seq<SearchResult>>) -> Seq<char> {
    match web {
        Some(v) => "<web-search-results>\n"@ + search_results_json(result_rows(v)) + "\n</web-search-results>"@,
        None => Seq::empty(),
    }
}

pub open spec fn news_section(news: Option<Seq<SearchResult>>) -> Seq<char> {
    match news {
        Some(v) => "<news-search-results>\n"@ + search_results_json(result_rows(v)) + "\n</news-search-results>"@,
        None => Seq::empty(),
    }
}

pub open spec fn results_view(o: Option<Vec<SearchResult>>) -> Option<Seq<SearchResult>> {
    match o {
        Some(v) => Some(v@),
        None => None,
    }
}

/// The instructions of the insight model, sections in fixed order.
pub open spec fn insight_instructions(
    instruction: Option<Seq<char>>,
    path: Seq<Seq<char>>,
    docs: Seq<DocumentContext>,
    web: Option<Seq<SearchResult>>,
    news: Option<Seq<SearchResult>>,
    now: Seq<char>,
) -> Seq<char> {
    "<instructions>\n"@ + insight_system_section(instruction) + "\n"@ + path_section(path) + "\n"@
        + documents_section(docs) + "\n"@ + web_section(web) + "\n"@ + news_section(news)
        + INSIGHT_FORMAT_HEAD@ + now + INSIGHT_FORMAT_TAIL@
}

impl SearchResult {
    /// A field-for-field copy.
    pub fn copied(&self) -> (r: SearchResult)
        ensures
            r == *self,
    {
        SearchResult {
            title: self.title.clone(),
            url: self.url.clone(),
            content: self.content.clone(),
            published_date: crate::model::copy_opt(&self.published_date),
        }
    }
}

impl DocumentContext {
    /// A field-for-field copy.
    pub fn copied(&self) -> (r: DocumentContext)
        ensures
            r == *self,
    {
        DocumentContext {
            filename: self.filename.clone(),
            chunk_id: self.chunk_id.clone(),
            name: self.name.clone(),
            description: self.description.clone(),
            text: self.text.clone(),
            distance_millis: self.distance_millis,
        }
    }
}

/// A copy of a list of search results.
pub fn copy_results(v: &Vec<SearchResult>) -> (r: Vec<SearchResult>)
    ensures
        r@ == v@,
{
    let mut r: Vec<SearchResult> = Vec::new();
    let mut k: usize = 0;
    while k < v.len()
        invariant
            k <= v@.len(),
            r@ == v@.subrange(0, k as int),
        decreases v@.len() - k,
    {
        r.push(v[k].copied());
        assert(r@ =~= v@.subrange(0, k as int + 1));
        k = k + 1;
    }
    assert(v@.subrange(0, v@.len() as int) =~= v@);
    r
}

/// A copy of an optional list of search results.
pub fn copy_opt_results(o: &Option<Vec<SearchResult>>) -> (r: Option<Vec<SearchResult>>)
    ensures
        results_view(r) == results_view(*o),
{
    match o {
        Some(v) => Some(copy_results(v)),
        None => None,
    }
}

/// A copy of a list of documents.
pub fn copy_documents(v: &Vec<DocumentContext>) -> (r: Vec<DocumentContext>)
    ensures
        r@ == v@,
{
    let mut r: Vec<DocumentContext> = Vec::new();
    let mut k: usize = 0;
    while k < v.len()
        invariant
            k <= v@.len(),
            r@ == v@.subrange(0, k as int),
        decreases v@.len() - k,
    {
        r.push(v[k].copied());
        assert(r@ =~= v@.subrange(0, k as int + 1));
        k = k + 1;
    }
    assert(v@.subrange(0, v@.len() as int) =~= v@);
    r
}

/// The plan for `request` on `graph`, with `year` in the web query.
pub open spec fn planned(
    graph: TopicGraph,
    request: GenerateInsightsForTopicNodeRequest,
    year: int,
    plan: EnrichmentPlan,
) -> bool {
    let t = graph.topic(request.topic_node_id@);
    &&& plan.topic_id == request.topic_node_id
    &&& plan.canvas_id == request.canvas_id
    &&& plan.topic_name == t.name
    &&& graph.path_spec(t.id@, request.canvas_id@) == Some(views(plan.path@))
    &&& plan.question@ == question_for(request.question, t.name@)
    &&& plan.system_instruction == request.system_instruction
    &&& plan.document_query.query == t.name
    &&& plan.document_query.limit == 5
    &&& plan.document_query.max_distance_millis == 700
    &&& (plan.web_query is Some <==> flag(request.include_web_search))
    &&& (plan.web_query matches Some(w) ==> w.query@ == t.name@ + " "@ + decimal(year)
        && w.max_results == request.max_results)
    &&& (plan.news_query is Some <==> flag(request.include_news_search))
    &&& (plan.news_query matches Some(n) ==> n.query == t.name && n.max_results
        == request.max_results && (n.time_period matches Some(p) && p@ == "7d"@))
}

/// Resolves the topic, gathers its path, and sets out the queries for the
/// document index (the topic's name, five closest excerpts within distance
/// 0.7), the web (the name and the year, when asked) and the news (the
/// name over seven days, when asked).
pub fn plan_enrichment(graph: &TopicGraph, request: &GenerateInsightsForTopicNodeRequest, year: i32) -> (r: Result<
    EnrichmentPlan,
    AIServiceError,
>)
    requires
        graph.wf(),
    ensures
        !graph.has_topic(request.topic_node_id@) ==> r == Err::<EnrichmentPlan, AIServiceError>(
            AIServiceError::TopicNotFound(request.topic_node_id),
        ),
        graph.has_topic(request.topic_node_id@) && graph.path_spec(
            request.topic_node_id@,
            request.canvas_id@,
        ) is None ==> r matches Err(AIServiceError::DatabaseError(_)),
        graph.has_topic(request.topic_node_id@) && graph.path_spec(
            request.topic_node_id@,
            request.canvas_id@,
        ) is Some ==> r is Ok,
        r matches Ok(plan) ==> planned(*graph, *request, year as int, plan),
{
    let topic = match graph.get_topic(&request.topic_node_id) {
        Some(t) => t,
        None => return Err(AIServiceError::TopicNotFound(request.topic_node_id.clone())),
    };
    let path = match graph.path_to_root(&request.topic_node_id, &request.canvas_id) {
        Ok(p) => p,
        Err(_) => return Err(AIServiceError::DatabaseError(String::from_str("the topic path is ambiguous"))),
    };
    proof {
        let i = graph.topic_index(request.topic_node_id@);
        assert(graph.topics@[i].id@ == request.topic_node_id@);
    }
    let question = match &request.question {
        Some(q) => q.clone(),
        None => String::from_str(QUESTION_DEFAULT_PREFIX).concat(topic.name.as_str()),
    };
    let web_query = if match request.include_web_search { Some(b) => b, None => false } {
        let mut q = topic.name.clone();
        q.append(" ");
        let y = decimal_of(year as i64);
        q.append(y.as_str());
        Some(SearchRequest {
            query: q,
            max_results: request.max_results,
            search_depth: Some(String::from_str("basic")),
            include_raw_content: Some(false),
        })
    } else {
        None
    };
    let news_query = if match request.include_news_search { Some(b) => b, None => false } {
        Some(NewsSearchRequest {
            query: topic.name.clone(),
            max_results: request.max_results,
            time_period: Some(String::from_str("7d")),
        })
    } else {
        None
    };
    Ok(EnrichmentPlan {
        topic_id: request.topic_node_id.clone(),
        canvas_id: request.canvas_id.clone(),
        topic_name: topic.name.clone(),
        path,
        question,
        system_instruction: crate::model::copy_opt(&request.system_instruction),
        document_query: DocumentQuery {
            query: topic.name.clone(),
            class_name: String::from_str("Document"),
            limit: 5,
            max_distance_millis: 700,
        },
        web_query,
        news_query,
    })
}

/// `plan_enrichment` for the current year.
pub fn enrichment_plan(graph: &TopicGraph, request: &GenerateInsightsForTopicNodeRequest) -> (r: Result<
    EnrichmentPlan,
    AIServiceError,
>)
    requires
        graph.wf(),
    ensures
        !graph.has_topic(request.topic_node_id@) ==> r == Err::<EnrichmentPlan, AIServiceError>(
            AIServiceError::TopicNotFound(request.topic_node_id),
        ),
        graph.has_topic(request.topic_node_id@) && graph.path_spec(
            request.topic_node_id@,
            request.canvas_id@,
        ) is Some ==> r is Ok,
        graph.has_topic(request.topic_node_id@) && graph.path_spec(
            request.topic_node_id@,
            request.canvas_id@,
        ) is None ==> r matches Err(AIServiceError::DatabaseError(_)),
        r matches Ok(plan) ==> exists|year: int| planned(*graph, *request, year, plan),
{
    plan_enrichment(graph, request, current_year())
}

/// Folds the sources' outcomes into the context of the enrichment. A
/// failed source counts as one that found nothing; a source that the plan
/// did not query is ignored.
pub fn gather_context(
    plan: &EnrichmentPlan,
    documents: Result<Vec<DocumentContext>, String>,
    web: Result<Vec<SearchResult>, String>,
    news: Result<Vec<SearchResult>, String>,
) -> (r: GatheredContext)
    ensures
        r.documents@ == match documents {
            Ok(d) => d@,
            Err(_) => Seq::empty(),
        },
        results_view(r.web) == if plan.web_query is Some {
            match web {
                Ok(v) => Some(v@),
                Err(_) => None,
            }
        } else {
            None
        },
        results_view(r.news) == if plan.news_query is Some {
            match news {
                Ok(v) => Some(v@),
                Err(_) => None,
            }
        } else {
            None
        },
{
    let documents = match documents {
        Ok(d) => d,
        Err(_) => Vec::new(),
    };
    let web = if plan.web_query.is_some() {
        match web {
            Ok(v) => Some(v),
            Err(_) => None,
        }
    } else {
        None
    };
    let news = if plan.news_query.is_some() {
        match news {
            Ok(v) => Some(v),
            Err(_) => None,
        }
    } else {
        None
    };
    GatheredContext { documents, web, news }
}

/// The relevance percentage of a distance in thousandths.
pub fn relevance_of(distance_millis: i64) -> (r: i64)
    ensures
        r as int == relevance(distance_millis as int),
{
    let x: i128 = 1000i128 - distance_millis as i128;
    if x >= 0 {
        ((x + 5) / 10) as i64
    } else {
        (-((5 - x) / 10)) as i64
    }
}

/// How the `i`-th document (from zero) is shown to the model.
pub fn document_entry_of(i: usize, d: &DocumentContext) -> (r: String)
    requires
        i < usize::MAX,
    ensures
        r@ == document_entry(i as int, *d),
{
    let mut r = String::from_str("Document ");
    let n = digits_of((i + 1) as u64);
    r.append(n.as_str());
    r.append(": ");
    r.append(d.filename.as_str());
    r.append(" - ");
    r.append(d.name.as_str());
    r.append("\nDescription: ");
    r.append(d.description.as_str());
    r.append("\nRelevance Score: ");
    let s = decimal_of(relevance_of(d.distance_millis));
    r.append(s.as_str());
    r.append("%\nContent: ");
    r.append(d.text.as_str());
    r.append("\n---");
    proof {
        assert(r@ =~= document_entry(i as int, *d));
    }
    r
}

/// The system section: the caller's instruction in its tags, or the
/// generic one.
pub fn insight_system_section_of(instruction: &Option<String>) -> (r: String)
    ensures
        r@ == insight_system_section(opt_view(*instruction)),
{
    match instruction {
        Some(s) => {
            let mut r = String::from_str("<system-instruction>\n");
            r.append(s.as_str());
            r.append("\n</system-instruction>");
            r
        },
        None => String::from_str(DEFAULT_SYSTEM_SECTION),
    }
}

/// The path section; nothing for an empty path.
pub fn path_section_of(path: &Vec<String>) -> (r: String)
    ensures
        r@ == path_section(views(path@)),
{
    if path.len() > 0 {
        let mut r = String::from_str("<topic-path>\n");
        let p = join_with(path, " > ");
        r.append(p.as_str());
        r.append("\n</topic-path>");
        r
    } else {
        assert(views(path@).len() == 0);
        String::new()
    }
}

/// The documents section; nothing when there are no documents.
pub fn documents_section_of(docs: &Vec<DocumentContext>) -> (r: String)
    ensures
        r@ == documents_section(docs@),
{
    if docs.len() == 0 {
        return String::new();
    }
    let mut r = String::from_str("<document-context>\n");
    let mut k: usize = 0;
    let ghost start = r@;
    while k < docs.len()
        invariant
            k <= docs@.len(),
            r@ == start + document_entries(docs@.subrange(0, k as int)),
        decreases docs@.len() - k,
    {
        let ghost part = docs@.subrange(0, k as int + 1);
        assert(part.drop_last() =~= docs@.subrange(0, k as int));
        if k > 0 {
            r.append("\n");
        }
        let e = document_entry_of(k, &docs[k]);
        r.append(e.as_str());
        proof {
            if k == 0 {
                assert(part.len() == 1);
                assert(r@ =~= start + document_entries(part));
            } else {
                assert(r@ =~= start + document_entries(part));
            }
        }
        k = k + 1;
    }
    assert(docs@.subrange(0, docs@.len() as int) =~= docs@);
    r.append("\n</document-context>");
    r
}

/// The web results section; nothing when the web was not searched.
pub fn web_section_of(web: &Option<Vec<SearchResult>>) -> (r: String)
    ensures
        r@ == web_section(results_view(*web)),
{
    match web {
        Some(v) => {
            let mut r = String::from_str("<web-search-results>\n");
            let j = results_json(v);
            r.append(j.as_str());
            r.append("\n</web-search-results>");
            r
        },
        None => String::new(),
    }
}

/// The news results section; nothing when the news was not searched.
pub fn news_section_of(news: &Option<Vec<SearchResult>>) -> (r: String)
    ensures
        r@ == news_section(results_view(*news)),
{
    match news {
        Some(v) => {
            let mut r = String::from_str("<news-search-results>\n");
            let j = results_json(v);
            r.append(j.as_str());
            r.append("\n</news-search-results>");
            r
        },
        None => String::new(),
    }
}

/// The instructions of the insight model.
pub fn compose_insight_instructions(plan: &EnrichmentPlan, context: &GatheredContext, now: &String) -> (r: String)
    ensures
        r@ == insight_instructions(
            opt_view(plan.system_instruction),
            views(plan.path@),
            context.documents@,
            results_view(context.web),
            results_view(context.news),
            now@,
        ),
{
    let mut r = String::from_str("<instructions>\n");
    let a = insight_system_section_of(&plan.system_instruction);
    r.append(a.as_str());
    r.append("\n");
    let b = path_section_of(&plan.path);
    r.append(b.as_str());
    r.append("\n");
    let c = documents_section_of(&context.documents);
    r.append(c.as_str());
    r.append("\n");
    let d = web_section_of(&context.web);
    r.append(d.as_str());
    r.append("\n");
    let e = news_section_of(&context.news);
    r.append(e.as_str());
    r.append(INSIGHT_FORMAT_HEAD);
    r.append(now.as_str());
    r.append(INSIGHT_FORMAT_TAIL);
    r
}

/// The question as put to the insight model.
pub fn compose_insight_prompt(plan: &EnrichmentPlan) -> (r: String)
    ensures
        r@ == ANALYSIS_PREFIX@ + plan.question@,
{
    String::from_str(ANALYSIS_PREFIX).concat(plan.question.as_str())
}

/// How the insight model is called: with reasoning, without web grounding,
/// the instructions as system prompt.
pub fn insight_config(instructions: String) -> (r: VertexAIRequestConfig)
    ensures
        r.system_prompt == Some(instructions),
        r.include_thoughts,
        !r.use_google_search,
        !r.keywords_schema,
{
    VertexAIRequestConfig {
        model_id: String::from_str("gemini-2.5-pro"),
        agent_key: None,
        system_prompt: Some(instructions),
        include_thoughts: true,
        use_google_search: false,
        use_retrieval: false,
        keywords_schema: false,
    }
}

/// The model's reply made into the caller's result and the topic's new
/// knowledge blob: status "completed", the full bundle as the latest
/// search, and a history entry added with the oldest dropped beyond five.
/// Nothing that the sources did can make it fail: with a reply it always
/// succeeds, and an empty document list is reported as absent.
pub fn complete_enrichment(
    plan: &EnrichmentPlan,
    context: GatheredContext,
    reply: Result<String, String>,
    generated_at: String,
    existing: KnowledgeRecord,
) -> (r: Result<(GenerateInsightsForTopicNodeResponse, KnowledgeRecord), AIServiceError>)
    ensures
        reply is Err ==> r matches Err(AIServiceError::AIServiceError(_)),
        reply is Ok ==> r is Ok,
        r matches Ok((resp, rec)) ==> {
            &&& reply matches Ok(text) && resp.insights == text
            &&& resp.topic_node_id == plan.topic_id
            &&& resp.canvas_id == plan.canvas_id
            &&& resp.question == plan.question
            &&& resp.generated_at == generated_at
            &&& results_view(resp.web_search_results) == results_view(context.web)
            &&& results_view(resp.news_search_results) == results_view(context.news)
            &&& (context.documents@.len() == 0 ==> resp.document_context is None)
            &&& (context.documents@.len() > 0 ==> (resp.document_context matches Some(d) && d@
                == context.documents@))
            &&& rec.google_search_status matches Some(s) && s@ == "completed"@
            &&& rec.latest_google_search matches Some(l) && l.insights == resp.insights
                && results_view(l.web_search_results) == results_view(context.web)
                && results_view(l.news_search_results) == results_view(context.news)
                && l.document_context@ == context.documents@ && l.generated_at == generated_at
                && l.question == plan.question
            &&& rec.other_fields@ == existing.other_fields@
            &&& rec.search_history@.len() >= 1
            &&& rec.search_history@ == capped(
                existing.search_history@.push(rec.search_history@.last()),
            )
            &&& rec.search_history@.last().timestamp == generated_at
            &&& rec.search_history@.last().insights == resp.insights
            &&& results_view(rec.search_history@.last().web_search_results) == results_view(
                context.web,
            )
            &&& results_view(rec.search_history@.last().news_search_results) == results_view(
                context.news,
            )
        },
{
    let insights = match reply {
        Ok(t) => t,
        Err(e) => {
            let msg = String::from_str("AI service error: ").concat(e.as_str());
            return Err(AIServiceError::AIServiceError(msg));
        },
    };
    let entry = HistoryEntry {
        timestamp: generated_at.clone(),
        web_search_results: copy_opt_results(&context.web),
        news_search_results: copy_opt_results(&context.news),
        insights: insights.clone(),
    };
    let ghost e = entry;
    let latest = LatestSearch {
        insights: insights.clone(),
        web_search_results: copy_opt_results(&context.web),
        news_search_results: copy_opt_results(&context.news),
        document_context: copy_documents(&context.documents),
        generated_at: generated_at.clone(),
        question: plan.question.clone(),
    };
    let history = push_history(existing.search_history, entry);
    proof {
        assert(existing.search_history@.push(e).len() >= 1);
        if existing.search_history@.push(e).len() > 5 {
            assert(history@.last() == e);
        } else {
            assert(history@.last() == e);
        }
    }
    let record = KnowledgeRecord {
        google_search_status: Some(String::from_str("completed")),
        latest_google_search: Some(latest),
        search_history: history,
        other_fields: existing.other_fields,
    };
    let document_context = if context.documents.len() == 0 {
        None
    } else {
        Some(context.documents)
    };
    let response = GenerateInsightsForTopicNodeResponse {
        insights,
        topic_node_id: plan.topic_id.clone(),
        canvas_id: plan.canvas_id.clone(),
        question: plan.question.clone(),
        generated_at,
        web_search_results: context.web,
        news_search_results: context.news,
        document_context,
    };
    proof {
        reveal_strlit("completed");
    }
    Ok((response, record))
}

/// A free-standing research question, with optional context.
#[derive(Debug, Clone)]
pub struct GenerateInsightsRequest {
    pub question: String,
    pub system_instruction: Option<String>,
    pub topic_path: Option<String>,
    pub document_context: Option<Vec<DocumentContext>>,
}

/// The answer to a free-standing research question.
#[derive(Debug, Clone)]
pub struct GenerateInsightsResponse {
    pub insights: String,
    pub question: String,
    pub generated_at: String,
}

/// The instructions for a free-standing question: system section, the
/// given path as is, the given documents, and the year as the time.
pub open spec fn question_instructions(request: GenerateInsightsRequest, year: int) -> Seq<char> {
    "<instructions>\n"@ + insight_system_section(opt_view(request.system_instruction)) + "\n"@
        + match request.topic_path {
        Some(p) => "<topic-path>\n"@ + p@ + "\n</topic-path>"@,
        None => Seq::empty(),
    } + "\n"@ + match request.document_context {
        Some(d) => documents_section(d@),
        None => Seq::empty(),
    } + "\n"@ + INSIGHT_FORMAT_HEAD@ + decimal(year) + INSIGHT_FORMAT_TAIL@
}

/// The instructions for a free-standing question.
pub fn compose_question_instructions(request: &GenerateInsightsRequest, year: i32) -> (r: String)
    ensures
        r@ == question_instructions(*request, year as int),
{
    let mut r = String::from_str("<instructions>\n");
    let a = insight_system_section_of(&request.system_instruction);
    r.append(a.as_str());
    r.append("\n");
    match &request.topic_path {
        Some(p) => {
            r.append("<topic-path>\n");
            r.append(p.as_str());
            r.append("\n</topic-path>");
        },
        None => {},
    }
    r.append("\n");
    match &request.document_context {
        Some(d) => {
            let c = documents_section_of(d);
            r.append(c.as_str());
        },
        None => {},
    }
    r.append("\n");
    r.append(INSIGHT_FORMAT_HEAD);
    let y = decimal_of(year as i64);
    r.append(y.as_str());
    r.append(INSIGHT_FORMAT_TAIL);
    proof {
        assert(r@ =~= question_instructions(*request, year as int));
    }
    r
}

/// How a free-standing question is put to the model: with web grounding,
/// the instructions as system prompt.
pub fn question_config(instructions: String) -> (r: VertexAIRequestConfig)
    ensures
        r.system_prompt == Some(instructions),
        !r.include_thoughts,
        r.use_google_search,
        !r.keywords_schema,
{
    VertexAIRequestConfig {
        model_id: String::from_str("gemini-2.5-pro"),
        agent_key: None,
        system_prompt: Some(instructions),
        include_thoughts: false,
        use_google_search: true,
        use_retrieval: false,
        keywords_schema: false,
    }
}

/// The question as put to the model.
pub fn compose_question_prompt(request: &GenerateInsightsRequest) -> (r: String)
    ensures
        r@ == ANALYSIS_PREFIX@ + request.question@,
{
    String::from_str(ANALYSIS_PREFIX).concat(request.question.as_str())
}

/// The model's reply as the answer to a free-standing question.
pub fn answer_question(request: &GenerateInsightsRequest, reply: Result<String, String>, generated_at: String) -> (r: Result<
    GenerateInsightsResponse,
    AIServiceError,
>)
    ensures
        reply is Err ==> r matches Err(AIServiceError::AIServiceError(_)),
        reply matches Ok(text) ==> r == Ok::<GenerateInsightsResponse, AIServiceError>(
            GenerateInsightsResponse { insights: text, question: request.question, generated_at },
        ),
{
    match reply {
        Ok(text) => Ok(GenerateInsightsResponse { insights: text, question: request.question.clone(), generated_at }),
        Err(e) => Err(AIServiceError::AIServiceError(String::from_str("AI service error: ").concat(e.as_str()))),
    }
}

/// Stores the serialized knowledge blob on the topic; a store failure is a
/// database error.
pub fn persist_knowledge(graph: &mut TopicGraph, topic_id: &String, knowledge: String) -> (r: Result<
    GraphNode,
    AIServiceError,
>)
    requires
        old(graph).wf(),
    ensures
        final(graph).wf(),
        r is Ok <==> old(graph).has_topic(topic_id@),
        r is Err ==> (r matches Err(AIServiceError::DatabaseError(_))) && final(graph).topics@ == old(
            graph,
        ).topics@,
        final(graph).relationships@ == old(graph).relationships@,
        final(graph).canvases@ == old(graph).canvases@,
        r matches Ok(t) ==> t.knowledge == Some(knowledge) && final(graph).topics@ == old(
            graph,
        ).topics@.update(old(graph).topic_index(topic_id@), t) && final(graph).relationships@
            == old(graph).relationships@ && final(graph).canvases@ == old(graph).canvases@,
{
    match graph.update_knowledge(topic_id, knowledge) {
        Ok(t) => Ok(t),
        Err(_) => Err(AIServiceError::DatabaseError(String::from_str("failed to update topic node"))),
    }
}

} // verus!
