use vstd::prelude::*;
use vstd::string::*;

use crate::error::PullError;
use crate::json::{
    elements, elements_text, member, member_text, quote, quoted, string_of, string_value, u64_of,
    u64_value,
};
use crate::text::{decimal, decimal_string};

verus! {

/// One search request: where it goes, its URL query parameters and its JSON body.
#[derive(Debug, PartialEq, Eq)]
pub struct Request {
    pub url: String,
    pub params: Vec<(String, String)>,
    pub body: String,
}

/// One page of a slice: the documents' JSON texts, the cursor for the next
/// page and the slice's total number of matches.
#[derive(Debug, PartialEq, Eq)]
pub struct Page {
    pub docs: Vec<String>,
    pub cursor: String,
    pub total: u64,
}

pub open spec fn texts(v: Seq<String>) -> Seq<Seq<char>> {
    v.map_values(|s: String| s@)
}

impl Page {
    pub open spec fn docs_view(&self) -> Seq<Seq<char>> {
        texts(self.docs@)
    }
}

/// The `_source` member of every hit, or `None` when one of them has none.
pub open spec fn sources(hits: Seq<Seq<char>>) -> Option<Seq<Seq<char>>> {
    if forall|i: int| 0 <= i < hits.len() ==> (#[trigger] member_text(hits[i], "_source"@)) is Some {
        Some(hits.map_values(|h: Seq<char>| member_text(h, "_source"@)->0))
    } else {
        None
    }
}

/// What a scroll response body holds: the documents (`hits.hits[]._source`),
/// the cursor (`_scroll_id`) and the total (`hits.total`); `None` when the
/// body does not have that shape.
pub open spec fn decoded(body: Seq<char>) -> Option<(Seq<Seq<char>>, Seq<char>, u64)> {
    let sid = member_text(body, "_scroll_id"@);
    let hits = member_text(body, "hits"@);
    if sid is None || hits is None {
        None
    } else {
        let cursor = string_value(sid->0);
        let total = member_text(hits->0, "total"@);
        let list = member_text(hits->0, "hits"@);
        if cursor is None || total is None || list is None {
            None
        } else {
            let n = u64_value(total->0);
            let items = elements_text(list->0);
            if n is None || items is None || sources(items->0) is None {
                None
            } else {
                Some((sources(items->0)->0, cursor->0, n->0))
            }
        }
    }
}

/// Reads the `_source` of each hit.
fn hit_sources(hits: &Vec<String>) -> (r: Option<Vec<String>>)
    ensures
        r matches Some(v) ==> sources(texts(hits@)) == Some(texts(v@)),
        r is None ==> sources(texts(hits@)) is None,
{
    let mut out: Vec<String> = Vec::new();
    let mut i: usize = 0;
    while i < hits.len()
        invariant
            i <= hits@.len(),
            out@.len() == i,
            forall|j: int| 0 <= j < i ==> member_text(#[trigger] hits@[j]@, "_source"@) == Some(out@[j]@),
        decreases hits@.len() - i,
    {
        match member(hits[i].as_str(), "_source") {
            Some(s) => out.push(s),
            None => {
                assert(member_text(texts(hits@)[i as int], "_source"@) is None);
                return None;
            },
        }
        i = i + 1;
    }
    assert(forall|j: int| 0 <= j < hits@.len() ==> member_text(#[trigger] texts(hits@)[j], "_source"@) is Some);
    assert(texts(out@) =~= texts(hits@).map_values(|h: Seq<char>| member_text(h, "_source"@)->0));
    Some(out)
}

/// Decodes a scroll response body into a page.
pub fn decode_page(body: &str) -> (r: Result<Page, PullError>)
    ensures
        match decoded(body@) {
            Some((docs, cursor, total)) => r matches Ok(p)
                && p.docs_view() == docs && p.cursor@ == cursor && p.total == total,
            None => r == Err::<Page, PullError>(PullError::Malformed),
        },
{
    let sid = match member(body, "_scroll_id") { Some(s) => s, None => return Err(PullError::Malformed) };
    let hits = match member(body, "hits") { Some(h) => h, None => return Err(PullError::Malformed) };
    let cursor = match string_of(sid.as_str()) { Some(c) => c, None => return Err(PullError::Malformed) };
    let total = match member(hits.as_str(), "total") { Some(t) => t, None => return Err(PullError::Malformed) };
    let list = match member(hits.as_str(), "hits") { Some(l) => l, None => return Err(PullError::Malformed) };
    let total = match u64_of(total.as_str()) { Some(n) => n, None => return Err(PullError::Malformed) };
    let items = match elements(list.as_str()) { Some(v) => v, None => return Err(PullError::Malformed) };
    let docs = match hit_sources(&items) { Some(d) => d, None => return Err(PullError::Malformed) };
    Ok(Page { docs, cursor, total })
}

/// Judges a search response: a status other than 200 is an error carrying
/// the status and the body; otherwise the body is decoded as a page.
pub fn parse_response(code: u16, body: String) -> (r: Result<Page, PullError>)
    ensures
        code != 200 ==> r == Err::<Page, PullError>(PullError::Status { code, body }),
        code == 200 ==> match decoded(body@) {
            Some((docs, cursor, total)) => r matches Ok(p)
                && p.docs_view() == docs && p.cursor@ == cursor && p.total == total,
            None => r == Err::<Page, PullError>(PullError::Malformed),
        },
{
    if code != 200 {
        return Err(PullError::Status { code, body });
    }
    decode_page(body.as_str())
}

pub open spec fn search_url(host: Seq<char>, index: Seq<char>) -> Seq<char> {
    host + "/"@ + index + "/_search"@
}

pub open spec fn scroll_url(host: Seq<char>) -> Seq<char> {
    host + "/_search/scroll"@
}

/// The continuation body `{"scroll":<ttl>,"scroll_id":<cursor>}`.
pub open spec fn scroll_body(ttl: Seq<char>, cursor: Seq<char>) -> Seq<char> {
    "{\"scroll\":"@ + quoted(ttl) + ",\"scroll_id\":"@ + quoted(cursor) + "}"@
}

/// The first request of a slice: `POST {host}/{index}/_search?scroll={ttl}[&size={size}]`
/// with the slice's query as body.
pub fn initial_request(host: &str, index: &str, ttl: &str, size: Option<u64>, query: &str) -> (r: Request)
    ensures
        r.url@ == search_url(host@, index@),
        r.body@ == query@,
        r.params@.len() == if size is Some { 2nat } else { 1nat },
        r.params@[0].0@ == "scroll"@,
        r.params@[0].1@ == ttl@,
        size matches Some(n) ==> r.params@[1].0@ == "size"@ && r.params@[1].1@ == decimal(n as nat),
{
    let mut url = String::from_str(host);
    url.append("/");
    url.append(index);
    url.append("/_search");
    let mut params: Vec<(String, String)> = Vec::new();
    params.push((String::from_str("scroll"), String::from_str(ttl)));
    if let Some(n) = size {
        params.push((String::from_str("size"), decimal_string(n)));
    }
    Request { url, params, body: String::from_str(query) }
}

/// A follow-up request: `POST {host}/_search/scroll` with the cursor and
/// time-to-live as body and no query.
pub fn continuation_request(host: &str, ttl: &str, cursor: &str) -> (r: Request)
    ensures
        r.url@ == scroll_url(host@),
        r.params@.len() == 0,
        r.body@ == scroll_body(ttl@, cursor@),
{
    let mut url = String::from_str(host);
    url.append("/_search/scroll");
    let mut body = String::from_str("{\"scroll\":");
    body.append(quote(ttl).as_str());
    body.append(",\"scroll_id\":");
    body.append(quote(cursor).as_str());
    body.append("}");
    Request { url, params: Vec::new(), body }
}

} // verus!
