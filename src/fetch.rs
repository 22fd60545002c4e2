//! What the fetchers do with an HTTP response: check the status class, parse
//! the body as JSON, read the `result` array and render it as text.

use vstd::prelude::*;
use crate::endpoint::{is_success, success_class};
use crate::json::{as_str, as_array, as_i64, get_member, json_parse, json_tree, member, parse_json, small_int, trees, JsonTree};
use crate::stamp::{parse_rfc3339, push_stamp, rfc3339_stamp, stamp_text};
use crate::text::{decimal, joined, push_decimal, push_signed, signed_decimal, join};

verus! {

/// Why a fetch produced no text.
#[derive(Clone, Copy, Debug, PartialEq, Eq, Structural)]
pub enum FetchError {
    /// The response status is not in the success class.
    RequestFailed,
    /// The body is not JSON.
    MalformedResponse,
    /// The JSON lacks a field the rendering needs, or has one of another shape.
    SchemaViolation,
}

/// The id and count of a rank entry: elements 0 and 1 of an array.
pub open spec fn rank_pair(item: JsonTree) -> Option<(i64, i64)> {
    match item {
        JsonTree::Arr(xs) => if xs.len() >= 2 && small_int(xs[0]) is Some && small_int(xs[1]) is Some {
            Some((small_int(xs[0]).unwrap(), small_int(xs[1]).unwrap()))
        } else {
            None
        },
        _ => None,
    }
}

/// The rank entries of a document, in the order of its `result` array.
pub open spec fn rank_entries(doc: JsonTree) -> Option<Seq<(i64, i64)>> {
    match member(doc, "result"@) {
        Some(JsonTree::Arr(items)) => if forall|i: int| 0 <= i < items.len() ==> (#[trigger] rank_pair(items[i])) is Some {
            Some(items.map_values(|x: JsonTree| rank_pair(x).unwrap()))
        } else {
            None
        },
        _ => None,
    }
}

/// `{position}. {id}({count})`.
pub open spec fn rank_line(position: nat, entry: (i64, i64)) -> Seq<char> {
    decimal(position) + ". "@ + signed_decimal(entry.0 as int) + "("@ + signed_decimal(entry.1 as int) + ")"@
}

/// One line per entry, numbered from 1, joined by newlines.
pub open spec fn rank_text(entries: Seq<(i64, i64)>) -> Seq<char> {
    joined(Seq::new(entries.len(), |i: int| rank_line((i + 1) as nat, entries[i])), "\n"@)
}

/// What the rank fetcher yields for a response status and body.
pub open spec fn rank_outcome(status: u16, body: Seq<char>) -> Result<Seq<char>, FetchError> {
    if !success_class(status) {
        Err(FetchError::RequestFailed)
    } else {
        match json_parse(body) {
            None => Err(FetchError::MalformedResponse),
            Some(doc) => match rank_entries(doc) {
                None => Err(FetchError::SchemaViolation),
                Some(entries) => Ok(rank_text(entries)),
            },
        }
    }
}

pub open spec fn text_result(r: Result<String, FetchError>) -> Result<Seq<char>, FetchError> {
    match r {
        Ok(s) => Ok(s@),
        Err(e) => Err(e),
    }
}

/// Renders rank entries, one numbered line each.
pub fn render_rank(entries: &Vec<(i64, i64)>) -> (r: String)
    ensures
        r@ == rank_text(entries@),
{
    let ghost lines = Seq::new(entries@.len(), |i: int| rank_line((i + 1) as nat, entries@[i]));
    let mut parts: Vec<String> = Vec::new();
    let mut i: usize = 0;
    while i < entries.len()
        invariant
            i <= entries@.len(),
            lines == Seq::new(entries@.len(), |i: int| rank_line((i + 1) as nat, entries@[i])),
            parts@.len() == i,
            forall|j: int| 0 <= j < i ==> (#[trigger] parts@[j])@ == lines[j],
        decreases entries.len() - i,
    {
        let (id, count) = entries[i];
        let mut line = String::new();
        push_decimal(&mut line, i as u128 + 1);
        line.append(". ");
        push_signed(&mut line, id);
        line.append("(");
        push_signed(&mut line, count);
        line.append(")");
        assert(line@ =~= lines[i as int]);
        parts.push(line);
        i = i + 1;
    }
    assert(parts@.map_values(|p: String| p@) =~= lines);
    join(&parts, "\n")
}

/// Reads the rank entries of a document.
pub fn rank_entries_of(doc: &serde_json::Value) -> (r: Result<Vec<(i64, i64)>, FetchError>)
    ensures
        r is Err <==> rank_entries(json_tree(*doc)) is None,
        r matches Err(e) ==> e == FetchError::SchemaViolation,
        r matches Ok(v) ==> rank_entries(json_tree(*doc)) == Some(v@),
{
    let result = match get_member(doc, "result") {
        Some(x) => x,
        None => return Err(FetchError::SchemaViolation),
    };
    let items = match as_array(result) {
        Some(a) => a,
        None => return Err(FetchError::SchemaViolation),
    };
    let ghost ts = trees(items@);
    let mut out: Vec<(i64, i64)> = Vec::new();
    let mut i: usize = 0;
    while i < items.len()
        invariant
            i <= items@.len(),
            ts == trees(items@),
            json_tree(*result) == JsonTree::Arr(ts),
            member(json_tree(*doc), "result"@) == Some(json_tree(*result)),
            forall|j: int| 0 <= j < i ==> (#[trigger] rank_pair(ts[j])) is Some,
            out@ == ts.take(i as int).map_values(|x: JsonTree| rank_pair(x).unwrap()),
        decreases items.len() - i,
    {
        let item = &items[i];
        assert(ts[i as int] == json_tree(*item));
        let mut found: Option<(i64, i64)> = None;
        if let Some(xs) = as_array(item) {
            if xs.len() >= 2 {
                assert(trees(xs@)[0] == json_tree(xs@[0]));
                assert(trees(xs@)[1] == json_tree(xs@[1]));
                if let (Some(id), Some(count)) = (as_i64(&xs[0]), as_i64(&xs[1])) {
                    found = Some((id, count));
                }
            }
        }
        assert(found == rank_pair(ts[i as int]));
        let pair = match found {
            Some(p) => p,
            None => return Err(FetchError::SchemaViolation),
        };
        out.push(pair);
        i = i + 1;
        assert(out@ =~= ts.take(i as int).map_values(|x: JsonTree| rank_pair(x).unwrap()));
    }
    assert(ts.take(i as int) =~= ts);
    Ok(out)
}

/// The rank fetcher's work on a response: its text, or why there is none.
pub fn rank_from_response(status: u16, body: &str) -> (r: Result<String, FetchError>)
    ensures
        text_result(r) == rank_outcome(status, body@),
{
    if !is_success(status) {
        return Err(FetchError::RequestFailed);
    }
    let doc = match parse_json(body) {
        Some(d) => d,
        None => return Err(FetchError::MalformedResponse),
    };
    let entries = rank_entries_of(&doc)?;
    Ok(render_rank(&entries))
}

/// The block of one comment: the first eight characters of the author id,
/// the timestamp, the body, and a blank line.
pub open spec fn comment_block(item: JsonTree) -> Option<Seq<char>> {
    match (member(item, "UserAppId"@), member(item, "TimeStamp"@), member(item, "Body"@)) {
        (Some(JsonTree::Str(a)), Some(JsonTree::Str(t)), Some(JsonTree::Str(b))) => if a.len() >= 8
            && rfc3339_stamp(t) is Some {
            Some(a.take(8) + " ("@ + stamp_text(rfc3339_stamp(t).unwrap()) + ")\n"@ + b + "\n\n"@)
        } else {
            None
        },
        _ => None,
    }
}

/// The first ten items (fewer if there are fewer), last of them first.
pub open spec fn window(items: Seq<JsonTree>) -> Seq<JsonTree> {
    let n = if items.len() < 10 {
        items.len()
    } else {
        10
    };
    Seq::new(n, |i: int| items[n - 1 - i])
}

/// The rendered comments of a document: the blocks of its window, in order.
pub open spec fn comments_text(doc: JsonTree) -> Option<Seq<char>> {
    match member(doc, "result"@) {
        Some(JsonTree::Arr(items)) => if forall|i: int| 0 <= i < window(items).len() ==> (#[trigger] comment_block(window(items)[i])) is Some {
            Some(joined(window(items).map_values(|x: JsonTree| comment_block(x).unwrap()), Seq::empty()))
        } else {
            None
        },
        _ => None,
    }
}

/// What the comments fetcher yields for a response status and body.
pub open spec fn comments_outcome(status: u16, body: Seq<char>) -> Result<Seq<char>, FetchError> {
    if !success_class(status) {
        Err(FetchError::RequestFailed)
    } else {
        match json_parse(body) {
            None => Err(FetchError::MalformedResponse),
            Some(doc) => match comments_text(doc) {
                None => Err(FetchError::SchemaViolation),
                Some(t) => Ok(t),
            },
        }
    }
}

/// Renders one comment object.
pub fn comment_block_of(item: &serde_json::Value) -> (r: Option<String>)
    ensures
        r is None <==> comment_block(json_tree(*item)) is None,
        r matches Some(t) ==> comment_block(json_tree(*item)) == Some(t@),
{
    let author = match get_member(item, "UserAppId") {
        Some(v) => as_str(v),
        None => None,
    };
    let stamp = match get_member(item, "TimeStamp") {
        Some(v) => as_str(v),
        None => None,
    };
    let body = match get_member(item, "Body") {
        Some(v) => as_str(v),
        None => None,
    };
    match (author, stamp, body) {
        (Some(a), Some(t), Some(b)) => {
            if a.unicode_len() < 8 {
                return None;
            }
            let when = match parse_rfc3339(t) {
                Some(w) => w,
                None => return None,
            };
            let mut out = String::from_str(a.substring_char(0, 8));
            out.append(" (");
            push_stamp(&mut out, when);
            out.append(")\n");
            out.append(b);
            out.append("\n\n");
            assert(out@ =~= comment_block(json_tree(*item)).unwrap());
            Some(out)
        },
        _ => None,
    }
}

/// Reads and renders the comment window of a document.
pub fn comments_text_of(doc: &serde_json::Value) -> (r: Result<String, FetchError>)
    ensures
        r is Err <==> comments_text(json_tree(*doc)) is None,
        r matches Err(e) ==> e == FetchError::SchemaViolation,
        r matches Ok(t) ==> comments_text(json_tree(*doc)) == Some(t@),
{
    let result = match get_member(doc, "result") {
        Some(x) => x,
        None => return Err(FetchError::SchemaViolation),
    };
    let items = match as_array(result) {
        Some(a) => a,
        None => return Err(FetchError::SchemaViolation),
    };
    let ghost w = window(trees(items@));
    let n: usize = if items.len() < 10 { items.len() } else { 10 };
    let mut blocks: Vec<String> = Vec::new();
    let mut i: usize = 0;
    while i < n
        invariant
            i <= n,
            n == w.len(),
            n <= items@.len(),
            w == window(trees(items@)),
            member(json_tree(*doc), "result"@) == Some(JsonTree::Arr(trees(items@))),
            blocks@.len() == i,
            forall|j: int| 0 <= j < i ==> (#[trigger] comment_block(w[j])) is Some,
            forall|j: int| 0 <= j < i ==> comment_block(w[j]) == Some((#[trigger] blocks@[j])@),
        decreases n - i,
    {
        let item = &items[n - 1 - i];
        assert(w[i as int] == json_tree(*item));
        let block = match comment_block_of(item) {
            Some(b) => b,
            None => return Err(FetchError::SchemaViolation),
        };
        blocks.push(block);
        i = i + 1;
    }
    let r = join(&blocks, "");
    proof {
        reveal_strlit("");
        assert(blocks@.map_values(|p: String| p@) =~= w.map_values(|x: JsonTree| comment_block(x).unwrap()));
        assert(""@ =~= Seq::<char>::empty());
    }
    Ok(r)
}

/// The comments fetcher's work on a response: its text, or why there is none.
pub fn comments_from_response(status: u16, body: &str) -> (r: Result<String, FetchError>)
    ensures
        text_result(r) == comments_outcome(status, body@),
{
    if !is_success(status) {
        return Err(FetchError::RequestFailed);
    }
    let doc = match parse_json(body) {
        Some(d) => d,
        None => return Err(FetchError::MalformedResponse),
    };
    comments_text_of(&doc)
}

/// What a command replies when its fetch failed, whatever the cause.
pub open spec fn fallback_reply() -> Seq<char> {
    "Internal Server Error 😢"@
}

/// The reply of a fetching command: the fetched text, or the fallback.
pub fn reply_text(fetched: Result<String, FetchError>) -> (r: String)
    ensures
        fetched matches Ok(t) ==> r@ == t@,
        fetched is Err ==> r@ == fallback_reply(),
{
    match fetched {
        Ok(t) => t,
        Err(_) => String::from_str("Internal Server Error 😢"),
    }
}

/// A status outside the success class fails either fetch with
/// `RequestFailed`, whatever the body.
pub proof fn lemma_failed_status(status: u16, body: Seq<char>)
    requires
        !success_class(status),
    ensures
        rank_outcome(status, body) == Err::<Seq<char>, FetchError>(FetchError::RequestFailed),
        comments_outcome(status, body) == Err::<Seq<char>, FetchError>(FetchError::RequestFailed),
{
}

/// A successful status with a body that is not JSON fails either fetch with
/// `MalformedResponse`.
pub proof fn lemma_malformed_body(status: u16, body: Seq<char>)
    requires
        success_class(status),
        json_parse(body) is None,
    ensures
        rank_outcome(status, body) == Err::<Seq<char>, FetchError>(FetchError::MalformedResponse),
        comments_outcome(status, body) == Err::<Seq<char>, FetchError>(FetchError::MalformedResponse),
{
}

pub open spec fn ends_in_blank_line(b: Seq<char>) -> bool {
    b.len() >= 2 && b[b.len() - 2] == '\n' && b[b.len() - 1] == '\n'
}

/// With more than ten comments only the ten newest are shown, the tenth newest
/// first and the newest last; every shown block ends in a blank line.
pub proof fn lemma_comment_window(items: Seq<JsonTree>)
    requires
        items.len() > 10,
    ensures
        window(items).len() == 10,
        window(items) == window(items.take(10)),
        forall|i: int| 0 <= i < 10 ==> #[trigger] window(items)[i] == items[9 - i],
        forall|item: JsonTree| #[trigger] comment_block(item) is Some ==> ends_in_blank_line(comment_block(item).unwrap()),
{
    assert(window(items) =~= window(items.take(10)));
    assert forall|item: JsonTree| #[trigger] comment_block(item) is Some implies ends_in_blank_line(comment_block(item).unwrap()) by {
        reveal_strlit("\n\n");
    }
}

} // verus!
