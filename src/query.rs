use vstd::prelude::*;
use vstd::string::StrSliceExecFns;

use std::collections::HashMap;

use base64::Engine;

use crate::error::SnowflakeApiError;
use crate::responses::{ExecResponse, ExecResponseChunk};
use crate::session::{or_empty, text_or_empty};

verus! {

/// Unicode white space, as `\s` matches it.
pub open spec fn is_ws(c: char) -> bool {
    ||| ('\t' <= c && c <= '\r')
    ||| c == ' '
    ||| c == '\u{85}'
    ||| c == '\u{a0}'
    ||| c == '\u{1680}'
    ||| ('\u{2000}' <= c && c <= '\u{200a}')
    ||| c == '\u{2028}'
    ||| c == '\u{2029}'
    ||| c == '\u{202f}'
    ||| c == '\u{205f}'
    ||| c == '\u{3000}'
}

/// `c` is the lower-case letter `k`, or its ASCII upper-case form.
pub open spec fn folds_to(c: char, k: char) -> bool {
    c == k || ('A' <= c && c <= 'Z' && (c as u32) + 32 == (k as u32))
}

/// The lower-case ASCII keyword `kw`, in any case, stands at `i`, followed by white space.
pub open spec fn keyword_at(s: Seq<char>, i: int, kw: Seq<char>) -> bool {
    &&& 0 <= i
    &&& i + kw.len() < s.len()
    &&& forall|j: int| 0 <= j < kw.len() ==> folds_to(#[trigger] s[i + j], kw[j])
    &&& is_ws(s[i + kw.len()])
}

pub open spec fn two_at(s: Seq<char>, i: int, a: char, b: char) -> bool {
    0 <= i && i + 1 < s.len() && s[i] == a && s[i + 1] == b
}

/// White space from `i` on, then what [`keyword_after_comments`] admits.
pub open spec fn ws_then_keyword(s: Seq<char>, i: int, kw: Seq<char>) -> bool
    decreases s.len() - i, 2int,
{
    if 0 <= i < s.len() && is_ws(s[i]) {
        ws_then_keyword(s, i + 1, kw)
    } else {
        keyword_after_comments(s, i, kw)
    }
}

/// From `i` on, the text is: block comments, each within one line and each
/// followed by white space, then the keyword `kw` and white space.
///
/// Within one line, comments and the white space between them read as one
/// comment, so a comment opened at `i` may close at any `*/` of its line.
pub open spec fn keyword_after_comments(s: Seq<char>, i: int, kw: Seq<char>) -> bool
    decreases s.len() - i, 1int,
{
    if i < 0 || i >= s.len() {
        false
    } else if keyword_at(s, i, kw) {
        true
    } else if two_at(s, i, '/', '*') {
        comment_closes_into(s, i + 2, kw)
    } else {
        false
    }
}

/// Some `*/` at or after `j` on the current line closes a comment that the
/// rest of the text can follow (see [`keyword_after_comments`]).
pub open spec fn comment_closes_into(s: Seq<char>, j: int, kw: Seq<char>) -> bool
    decreases s.len() - j, 0int,
{
    if j < 0 || j + 1 >= s.len() || s[j] == '\n' {
        false
    } else if two_at(s, j, '*', '/') && ws_then_keyword(s, j + 2, kw) {
        true
    } else {
        comment_closes_into(s, j + 1, kw)
    }
}


/// The characters of a string.
pub fn chars_of(s: &str) -> (r: Vec<char>)
    ensures
        r@ == s@,
{
    let n = s.unicode_len();
    let mut r: Vec<char> = Vec::new();
    let mut i: usize = 0;
    while i < n
        invariant
            n == s@.len(),
            i <= n,
            r@ == s@.subrange(0, i as int),
        decreases n - i,
    {
        r.push(s.get_char(i));
        i = i + 1;
        assert(r@ =~= s@.subrange(0, i as int));
    }
    assert(r@ =~= s@);
    r
}

fn is_ws_char(c: char) -> (r: bool)
    ensures
        r == is_ws(c),
{
    ('\t' <= c && c <= '\r') || c == ' ' || c == '\u{85}' || c == '\u{a0}' || c == '\u{1680}'
        || ('\u{2000}' <= c && c <= '\u{200a}') || c == '\u{2028}' || c == '\u{2029}'
        || c == '\u{202f}' || c == '\u{205f}' || c == '\u{3000}'
}

fn char_folds_to(c: char, k: char) -> (r: bool)
    ensures
        r == folds_to(c, k),
{
    c == k || ('A' <= c && c <= 'Z' && (c as u32) + 32 == (k as u32))
}

fn has_two_at(s: &Vec<char>, i: usize, a: char, b: char) -> (r: bool)
    ensures
        r == two_at(s@, i as int, a, b),
{
    i < s.len() && i + 1 < s.len() && s[i] == a && s[i + 1] == b
}

fn has_keyword_at(s: &Vec<char>, i: usize, kw: &Vec<char>) -> (r: bool)
    ensures
        r == keyword_at(s@, i as int, kw@),
{
    if i >= s.len() || kw.len() >= s.len() - i {
        return false;
    }
    let n = s.len();
    let mut j: usize = 0;
    while j < kw.len()
        invariant
            n == s@.len(),
            i < s@.len(),
            i + kw@.len() < s@.len(),
            j <= kw@.len(),
            forall|m: int| 0 <= m < j ==> folds_to(#[trigger] s@[i + m], kw@[m]),
        decreases kw@.len() - j,
    {
        if !char_folds_to(s[i + j], kw[j]) {
            return false;
        }
        j = j + 1;
    }
    is_ws_char(s[i + kw.len()])
}

fn keyword_after_comments_from(s: &Vec<char>, i: usize, kw: &Vec<char>) -> (r: bool)
    ensures
        r == keyword_after_comments(s@, i as int, kw@),
    decreases s@.len() - i, 1int,
{
    if i >= s.len() {
        false
    } else if has_keyword_at(s, i, kw) {
        true
    } else if has_two_at(s, i, '/', '*') {
        comment_closes_into_from(s, i + 2, kw)
    } else {
        false
    }
}

fn comment_closes_into_from(s: &Vec<char>, j: usize, kw: &Vec<char>) -> (r: bool)
    requires
        j <= s@.len(),
    ensures
        r == comment_closes_into(s@, j as int, kw@),
    decreases s@.len() - j, 0int,
{
    if j >= s.len() || j + 1 >= s.len() || s[j] == '\n' {
        false
    } else if has_two_at(s, j, '*', '/') && ws_then_keyword_from(s, j + 2, kw) {
        true
    } else {
        comment_closes_into_from(s, j + 1, kw)
    }
}

fn ws_then_keyword_from(s: &Vec<char>, i: usize, kw: &Vec<char>) -> (r: bool)
    requires
        i <= s@.len(),
    ensures
        r == ws_then_keyword(s@, i as int, kw@),
    decreases s@.len() - i, 2int,
{
    if i < s.len() && is_ws_char(s[i]) {
        ws_then_keyword_from(s, i + 1, kw)
    } else {
        keyword_after_comments_from(s, i, kw)
    }
}

pub open spec fn put_keyword() -> Seq<char> {
    seq!['p', 'u', 't']
}

pub open spec fn get_keyword() -> Seq<char> {
    seq!['g', 'e', 't']
}

/// The flow a statement takes.
#[derive(Debug, Clone, Copy, PartialEq, Eq, Structural)]
pub enum StatementKind {
    /// Upload of local files to a stage.
    Put,
    /// Download of staged files.
    Get,
    /// Any other statement.
    Query,
}

/// A statement is a PUT (or GET) when, after leading block comments, it starts
/// with that word in any case and white space; PUT is checked first.
pub open spec fn statement_kind_of(sql: Seq<char>) -> StatementKind {
    if keyword_after_comments(sql, 0, put_keyword()) {
        StatementKind::Put
    } else if keyword_after_comments(sql, 0, get_keyword()) {
        StatementKind::Get
    } else {
        StatementKind::Query
    }
}

pub fn classify_statement(sql: &str) -> (r: StatementKind)
    ensures
        r == statement_kind_of(sql@),
{
    let s = chars_of(sql);
    let put = vec!['p', 'u', 't'];
    let get = vec!['g', 'e', 't'];
    assert(put@ =~= put_keyword());
    assert(get@ =~= get_keyword());
    if keyword_after_comments_from(&s, 0, &put) {
        StatementKind::Put
    } else if keyword_after_comments_from(&s, 0, &get) {
        StatementKind::Get
    } else {
        StatementKind::Query
    }
}


#[verifier::external_type_specification]
#[verifier::external_body]
pub struct ExBase64DecodeError(base64::DecodeError);

/// The bytes that standard, padded base64 text decodes to.
/// `None` when the text is not valid standard, padded base64.
pub uninterp spec fn base64_decoded_of(text: Seq<char>) -> Option<Seq<u8>>;

/// Relies on `base64::engine::general_purpose::STANDARD.decode`.
#[verifier::external_body]
fn base64_decode(text: &str) -> (r: Result<Vec<u8>, base64::DecodeError>)
    ensures
        match r {
            Ok(b) => base64_decoded_of(text@) == Some(b@),
            Err(_) => base64_decoded_of(text@) is None,
        },
{
    base64::engine::general_purpose::STANDARD.decode(text)
}

/// How a query reply is turned into a result.
pub enum QueryPlan {
    /// The statement returned no rows.
    Empty,
    /// JSON rows.
    Json(serde_json::Value),
    /// Base64 of an inline IPC stream (possibly empty), then chunks to fetch
    /// with the given headers, in result order.
    Tabular {
        rowset_base64: String,
        chunk_urls: Vec<String>,
        chunk_headers: HashMap<String, String>,
    },
}

pub open spec fn chunk_urls_view(chunks: Seq<ExecResponseChunk>) -> Seq<Seq<char>> {
    chunks.map_values(|c: ExecResponseChunk| c.url@)
}

pub open spec fn strings_view(v: Seq<String>) -> Seq<Seq<char>> {
    v.map_values(|s: String| s@)
}

/// The error of a statement error reply: the error code and message.
pub open spec fn is_api_error_of(e: SnowflakeApiError, code: Seq<char>, message: Option<String>) -> bool {
    e matches SnowflakeApiError::ApiError(c, m) && c@ == code && m@ == or_empty(message)
}

fn chunk_urls(chunks: &Vec<ExecResponseChunk>) -> (r: Vec<String>)
    ensures
        strings_view(r@) == chunk_urls_view(chunks@),
{
    let mut r: Vec<String> = Vec::new();
    let mut i: usize = 0;
    while i < chunks.len()
        invariant
            i <= chunks@.len(),
            strings_view(r@) == chunk_urls_view(chunks@.subrange(0, i as int)),
        decreases chunks@.len() - i,
    {
        let ghost before = r@;
        let u = chunks[i].url.clone();
        r.push(u);
        assert(r@ =~= before.push(u));
        assert(strings_view(r@) =~= strings_view(before).push(u@));
        assert(chunks@.subrange(0, i + 1) =~= chunks@.subrange(0, i as int).push(chunks@[i as int]));
        assert(chunk_urls_view(chunks@.subrange(0, i + 1)) =~= chunk_urls_view(chunks@.subrange(0, i as int)).push(chunks@[i as int].url@));
        i = i + 1;
    }
    assert(chunks@.subrange(0, i as int) =~= chunks@);
    r
}

/// The bytes of an inline rowset: none for empty text, else its base64 decoding.
pub fn decode_rowset(rowset_base64: &str) -> (r: Result<Vec<u8>, SnowflakeApiError>)
    ensures
        rowset_base64@.len() == 0 ==> (r matches Ok(b) && b@.len() == 0),
        rowset_base64@.len() > 0 ==> match r {
            Ok(b) => base64_decoded_of(rowset_base64@) == Some(b@),
            Err(e) => e is ResponseDeserializationError && base64_decoded_of(rowset_base64@) is None,
        },
{
    if rowset_base64.unicode_len() == 0 {
        return Ok(Vec::new());
    }
    match base64_decode(rowset_base64) {
        Ok(b) => Ok(b),
        Err(e) => Err(SnowflakeApiError::ResponseDeserializationError(e.to_string())),
    }
}

/// Decides how a reply to a regular query becomes a result: no rows give
/// `Empty`, then JSON rows win over a base64 rowset, and a reply with neither
/// is broken. Replies of other shapes are errors.
pub fn plan_query_result(resp: ExecResponse) -> (r: Result<QueryPlan, SnowflakeApiError>)
    ensures
        match resp {
            ExecResponse::Query(q) => if q.data.returned == 0 {
                r matches Ok(QueryPlan::Empty)
            } else if q.data.rowset is Some {
                r matches Ok(QueryPlan::Json(v)) && Some(v) == q.data.rowset
            } else if q.data.rowset_base64 is Some {
                &&& r matches Ok(QueryPlan::Tabular { rowset_base64, chunk_urls, chunk_headers })
                &&& Some(rowset_base64) == q.data.rowset_base64
                &&& strings_view(chunk_urls@) == chunk_urls_view(q.data.chunks@)
                &&& chunk_headers == q.data.chunk_headers
            } else {
                r matches Err(SnowflakeApiError::BrokenResponse)
            },
            ExecResponse::Error(e) => r matches Err(err) && is_api_error_of(err, e.data.error_code@, e.message),
            _ => r matches Err(SnowflakeApiError::UnexpectedResponse),
        },
{
    match resp {
        ExecResponse::Query(q) => {
            if q.data.returned == 0 {
                Ok(QueryPlan::Empty)
            } else if let Some(json) = q.data.rowset {
                Ok(QueryPlan::Json(json))
            } else if let Some(b64) = q.data.rowset_base64 {
                let urls = chunk_urls(&q.data.chunks);
                Ok(QueryPlan::Tabular { rowset_base64: b64, chunk_urls: urls, chunk_headers: q.data.chunk_headers })
            } else {
                Err(SnowflakeApiError::BrokenResponse)
            }
        },
        ExecResponse::Error(e) => Err(SnowflakeApiError::ApiError(e.data.error_code, text_or_empty(e.message))),
        _ => Err(SnowflakeApiError::UnexpectedResponse),
    }
}

/// The concatenation of a list of lists, in order.
pub open spec fn flatten<T>(parts: Seq<Seq<T>>) -> Seq<T>
    decreases parts.len(),
{
    if parts.len() == 0 {
        Seq::empty()
    } else {
        parts[0] + flatten(parts.drop_first())
    }
}

pub proof fn lemma_flatten_push<T>(parts: Seq<Seq<T>>, last: Seq<T>)
    ensures
        flatten(parts.push(last)) == flatten(parts) + last,
    decreases parts.len(),
{
    if parts.len() == 0 {
        assert(parts.push(last).drop_first() =~= Seq::<Seq<T>>::empty());
        assert(flatten(Seq::<Seq<T>>::empty()) == Seq::<T>::empty());
        assert(parts.push(last)[0] == last);
        assert(flatten(parts.push(last)) =~= last);
    } else {
        assert(parts.push(last).drop_first() =~= parts.drop_first().push(last));
        lemma_flatten_push(parts.drop_first(), last);
        assert(flatten(parts.push(last)) =~= flatten(parts) + last);
    }
}

pub open spec fn batches_view<T>(v: Seq<Vec<T>>) -> Seq<Seq<T>> {
    v.map_values(|b: Vec<T>| b@)
}

/// Appends the batches of each chunk, in chunk order (not the order in which
/// the fetches completed), after the inline batches.
pub fn assemble_batches<T>(inline: Vec<T>, chunks: Vec<Vec<T>>) -> (r: Vec<T>)
    ensures
        r@ == inline@ + flatten(batches_view(chunks@)),
{
    let mut r = inline;
    let mut rest = chunks;
    let ghost all = batches_view(rest@);
    let ghost base = r@;
    let ghost mut taken: nat = 0;
    while rest.len() > 0
        invariant
            taken <= all.len(),
            batches_view(rest@) == all.subrange(taken as int, all.len() as int),
            r@ == base + flatten(all.subrange(0, taken as int)),
        decreases rest@.len(),
    {
        let ghost before = rest@;
        let mut c = rest.remove(0);
        proof {
            assert(all[taken as int] == c@) by {
                assert(before[0] == c);
                assert(batches_view(before).len() == before.len());
                assert(batches_view(before)[0] == c@);
                assert(all.subrange(taken as int, all.len() as int)[0] == all[taken as int]);
            }
            assert(batches_view(rest@) =~= batches_view(before).drop_first());
            assert(all.subrange(0, taken as int + 1) =~= all.subrange(0, taken as int).push(c@));
            lemma_flatten_push(all.subrange(0, taken as int), c@);
        }
        r.append(&mut c);
        proof {
            taken = taken + 1;
        }
    }
    assert(all.subrange(0, taken as int) =~= all);
    r
}

} // verus!
