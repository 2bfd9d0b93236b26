use vstd::prelude::*;
use crate::errors::AIServiceError;
use crate::graph::{opt_view, views};

verus! {

/// What serde_json reads from `text` under `key`: `None` when the text is
/// not JSON; `Some(None)` when the key is missing or its value is not an
/// array; otherwise one entry per item of that array, holding the item's
/// text when the item is a JSON string.
pub uninterp spec fn json_string_items(text: Seq<char>, key: Seq<char>) -> Option<Option<Seq<Option<Seq<char>>>>>;

pub open spec fn opt_views(v: Seq<Option<String>>) -> Seq<Option<Seq<char>>> {
    v.map_values(|o: Option<String>| opt_view(o))
}

/// Relies on serde_json::from_str, and on serde_json::Value's `get`,
/// `as_array` and `as_str`, for the string items of an array field.
#[verifier::external_body]
fn read_string_items(text: &String, key: &str) -> (r: Option<Option<Vec<Option<String>>>>)
    ensures
        match r {
            Some(Some(v)) => json_string_items(text@, key@) == Some(Some(opt_views(v@))),
            Some(None) => json_string_items(text@, key@) == Some(None::<Seq<Option<Seq<char>>>>),
            None => json_string_items(text@, key@) is None,
        },
{
    match serde_json::from_str::<serde_json::Value>(text) {
        Err(_) => None,
        Ok(v) => Some(v.get(key).and_then(|items| items.as_array()).map(|items| {
            items.iter().map(|i| i.as_str().map(|s| s.to_string())).collect()
        })),
    }
}

/// The texts among `fields`, in order.
pub open spec fn present(fields: Seq<Option<Seq<char>>>) -> Seq<Seq<char>>
    decreases fields.len(),
{
    if fields.len() == 0 {
        Seq::empty()
    } else {
        let rest = present(fields.drop_last());
        match fields.last() {
            Some(s) => rest.push(s),
            None => rest,
        }
    }
}

/// The keywords in a model reply: `None` when the reply is not JSON, and
/// none at all when it holds no `keywords` array.
pub open spec fn parsed_keywords(text: Seq<char>) -> Option<Seq<Seq<char>>> {
    match json_string_items(text, "keywords"@) {
        Some(Some(f)) => Some(present(f)),
        Some(None) => Some(Seq::empty()),
        None => None,
    }
}

/// Keeps the items that were strings, in order.
pub fn keywords_from_fields(fields: &Vec<Option<String>>) -> (r: Vec<String>)
    ensures
        views(r@) == present(opt_views(fields@)),
{
    let mut r: Vec<String> = Vec::new();
    let mut k: usize = 0;
    while k < fields.len()
        invariant
            k <= fields@.len(),
            views(r@) == present(opt_views(fields@.subrange(0, k as int))),
        decreases fields@.len() - k,
    {
        let ghost before = r@;
        let ghost part = opt_views(fields@.subrange(0, k as int + 1));
        assert(part.drop_last() =~= opt_views(fields@.subrange(0, k as int)));
        assert(part.last() == opt_view(fields@[k as int]));
        match &fields[k] {
            Some(s) => {
                r.push(s.clone());
                assert(views(r@) =~= views(before).push(s@));
            },
            None => {},
        }
        k = k + 1;
    }
    assert(fields@.subrange(0, fields@.len() as int) =~= fields@);
    r
}

/// The keywords of a reply that must be a JSON object with a `keywords`
/// array. Items that are not strings are skipped, and a missing array
/// gives no keywords; text that is not JSON is an invalid response.
pub fn parse_keywords(text: &String) -> (r: Result<Vec<String>, AIServiceError>)
    ensures
        match parsed_keywords(text@) {
            Some(ks) => r matches Ok(v) && views(v@) == ks,
            None => r matches Err(AIServiceError::InvalidResponseFormat(_)),
        },
{
    match read_string_items(text, "keywords") {
        Some(Some(fields)) => Ok(keywords_from_fields(&fields)),
        Some(None) => Ok(Vec::new()),
        None => Err(AIServiceError::InvalidResponseFormat(String::from_str("the reply is not JSON"))),
    }
}

} // verus!
