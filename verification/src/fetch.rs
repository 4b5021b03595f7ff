//! Locating and decoding a header document from arbitrary response text:
//! the text sanitizer, the tolerant JSON parser, the HTML pointer cascade,
//! and the header query resolver.
use vstd::prelude::*;
use vstd::string::StrSliceExecFns;
use vstd::string::StringExecFns;

use crate::chars::{
    chars_of, ci_contains, ci_ends_with, ci_match_at, ci_match_at_exec, ci_seq_eq, eq_str,
    eq_str_ci, find_ci, find_ci_in, keeps, keeps_char, rfind_delim, rfind_delim_in,
};
use crate::decode::dec_header;
use crate::errors::TableError;
use crate::html::{HtmlTag, TagV, attr_of, html_tags, spec_html_tags};
use crate::json::{Json, JsonV, jview};
use crate::jsonio::{parse_json_text, spec_parse_json};
use crate::{BmsTable, BmsTableHeader, BmsTableInfo, BmsTableRaw, HeaderV};

verus! {

/// The sanitized form of a text: every control character removed, except
/// newline, carriage return and tab.
pub open spec fn sanitize(s: Seq<char>) -> Seq<char>
    decreases s.len(),
{
    if s.len() == 0 {
        Seq::empty()
    } else {
        let rest = sanitize(s.drop_first());
        if keeps_char(s[0]) {
            seq![s[0]] + rest
        } else {
            rest
        }
    }
}

/// `sanitize` of a tail, one step at a time.
proof fn lemma_sanitize_step(s: Seq<char>, i: int)
    requires
        0 <= i < s.len(),
    ensures
        sanitize(s.skip(i)) == if keeps_char(s[i]) {
            seq![s[i]] + sanitize(s.skip(i + 1))
        } else {
            sanitize(s.skip(i + 1))
        },
{
    assert(s.skip(i).drop_first() =~= s.skip(i + 1));
    assert(s.skip(i)[0] == s[i]);
}

/// Removes non-printable control characters from a text, keeping newline,
/// carriage return and tab.
///
/// Some publishers surround otherwise well-formed JSON with stray control
/// bytes; cleaning before a retry tolerates them without touching the
/// preserved raw text.
pub fn replace_control_chars(s: &str) -> (r: String)
    ensures
        r@ == sanitize(s@),
{
    let cs = chars_of(s);
    let n = cs.len();
    let mut out = String::new();
    let mut i: usize = 0;
    proof {
        assert(s@.skip(0) =~= s@);
    }
    while i < n
        invariant
            n == cs.len(),
            cs@ == s@,
            0 <= i <= n,
            sanitize(s@) == out@ + sanitize(s@.skip(i as int)),
        decreases n - i,
    {
        proof {
            lemma_sanitize_step(s@, i as int);
        }
        if keeps(cs[i]) {
            let piece = s.substring_char(i, i + 1);
            proof {
                assert(piece@ =~= seq![s@[i as int]]);
            }
            out.append(piece);
        }
        i += 1;
        proof {
            assert(sanitize(s@) =~= out@ + sanitize(s@.skip(i as int)));
        }
    }
    proof {
        assert(s@.skip(n as int) =~= Seq::<char>::empty());
        assert(out@ =~= sanitize(s@));
    }
    out
}

/// What the tolerant parser returns: the decoded value and the text variant
/// that decoded, verbatim first, sanitized second.
pub open spec fn spec_tolerant_parse(s: Seq<char>) -> Option<(JsonV, Seq<char>)> {
    match spec_parse_json(s) {
        Some(j) => Some((j, s)),
        None => match spec_parse_json(sanitize(s)) {
            Some(j) => Some((j, sanitize(s))),
            None => None,
        },
    }
}

/// Parses JSON from a raw text with a sanitizing fallback, as
/// `spec_tolerant_parse` states: the verbatim text is tried first; on
/// failure the sanitized text is tried; the text that decoded is returned
/// beside the value. Both failure causes travel in the error.
pub fn parse_json_str_with_fallback(raw: &str) -> (r: Result<(Json, String), TableError>)
    ensures
        match (r, spec_tolerant_parse(raw@)) {
            (Ok((j, used)), Some((jv, uv))) => jview(j) == jv && used@ == uv,
            (Err(e), None) => e matches TableError::MalformedDocument { .. },
            _ => false,
        },
{
    match parse_json_text(raw) {
        Ok(j) => Ok((j, raw.to_owned())),
        Err(c1) => {
            let cleaned = replace_control_chars(raw);
            match parse_json_text(cleaned.as_str()) {
                Ok(j) => Ok((j, cleaned)),
                Err(c2) => Err(
                    TableError::MalformedDocument { raw_cause: c1, sanitized_cause: c2 },
                ),
            }
        },
    }
}

/// Whether a location text hints at a header document: it holds "header"
/// and ends with ".json", case-insensitively.
pub open spec fn header_json_hint(s: Seq<char>) -> bool {
    ci_contains(s, "header"@) && ci_ends_with(s, ".json"@)
}

/// No match at or after `from` when `find_ci` found none.
proof fn lemma_find_ci_none(s: Seq<char>, pat: Seq<char>, from: int)
    requires
        0 <= from <= s.len(),
        find_ci(s, pat, from) is None,
    ensures
        forall|i: int| from <= i ==> !ci_match_at(s, pat, i),
    decreases s.len() - from,
{
    if from + pat.len() <= s.len() {
        lemma_find_ci_none(s, pat, from + 1);
        assert forall|i: int| from <= i implies !ci_match_at(s, pat, i) by {
            if i > from {
                assert(!ci_match_at(s, pat, i));
            }
        }
    } else {
        assert forall|i: int| from <= i implies !ci_match_at(s, pat, i) by {
            assert(i + pat.len() > s.len());
        }
    }
}

/// The match that `find_ci` found is a real match.
proof fn lemma_find_ci_some(s: Seq<char>, pat: Seq<char>, from: int, i: int)
    requires
        0 <= from <= s.len(),
        find_ci(s, pat, from) == Some(i),
    ensures
        ci_match_at(s, pat, i),
        from <= i,
    decreases s.len() - from,
{
    if from + pat.len() <= s.len() {
        if !ci_match_at(s, pat, from) {
            lemma_find_ci_some(s, pat, from + 1, i);
        }
    }
}

/// Checks whether a string holds "header" and ends with ".json",
/// case-insensitively, as `header_json_hint` states.
fn contains_header_json(s: &str) -> (r: bool)
    ensures
        r == header_json_hint(s@),
{
    let cs = chars_of(s);
    let hdr = chars_of("header");
    let js = chars_of(".json");
    let found = match find_ci_in(&cs, &hdr, 0) {
        Some(h) => {
            proof {
                lemma_find_ci_some(cs@, hdr@, 0, h as int);
                assert(ci_contains(s@, "header"@));
            }
            true
        },
        None => {
            proof {
                lemma_find_ci_none(cs@, hdr@, 0);
                assert forall|i: int| !ci_match_at(s@, "header"@, i) by {
                    if i >= 0 {
                        assert(!ci_match_at(cs@, hdr@, i));
                    }
                }
            }
            false
        },
    };
    if !found {
        return false;
    }
    proof {
        reveal_strlit(".json");
    }
    if cs.len() < 5 {
        return false;
    }
    ci_match_at_exec(&cs, &js, cs.len() - 5)
}

/// The raw-text candidate span: the first case-insensitive "header", the
/// first ".json" after it, the span running from just after the nearest
/// preceding quote or whitespace (or from "header" itself) to the end of
/// ".json".
pub open spec fn header_json_span(s: Seq<char>) -> Option<(int, int)> {
    match find_ci(s, "header"@, 0) {
        None => None,
        Some(h) => match find_ci(s, ".json"@, h) {
            None => None,
            Some(j) => {
                let end = j + 5;
                let start = match rfind_delim(s, h) {
                    Some(d) => d + 1,
                    None => h,
                };
                Some((start, end))
            },
        },
    }
}

/// Finds the raw-text candidate span, as `header_json_span` states.
fn find_header_json_in_text(s: &str) -> (r: Option<(usize, usize)>)
    ensures
        match (r, header_json_span(s@)) {
            (Some((a, b)), Some((av, bv))) => a as int == av && b as int == bv && a <= b && b
                <= s@.len(),
            (None, None) => true,
            _ => false,
        },
{
    proof {
        reveal_strlit(".json");
    }
    let cs = chars_of(s);
    let hdr = chars_of("header");
    let js = chars_of(".json");
    let h = match find_ci_in(&cs, &hdr, 0) {
        Some(h) => h,
        None => {
            return None;
        },
    };
    let j = match find_ci_in(&cs, &js, h) {
        Some(j) => j,
        None => {
            return None;
        },
    };
    let end = j + 5;
    let start = match rfind_delim_in(&cs, h) {
        Some(d) => d + 1,
        None => h,
    };
    Some((start, end))
}

/// The raw-text heuristic's result: the candidate span's text.
pub open spec fn spec_text_header_json(s: Seq<char>) -> Option<Seq<char>> {
    match header_json_span(s) {
        Some((a, b)) => Some(s.subrange(a, b)),
        None => None,
    }
}

/// Cuts the raw-text candidate out of the page, as `spec_text_header_json`
/// states.
fn text_header_json(html_content: &str) -> (r: Option<String>)
    ensures
        match (r, spec_text_header_json(html_content@)) {
            (Some(u), Some(uv)) => u@ == uv,
            (None, None) => true,
            _ => false,
        },
{
    match find_header_json_in_text(html_content) {
        Some((a, b)) => Some(html_content.substring_char(a, b).to_owned()),
        None => None,
    }
}

/// The six tag-based stages of the pointer cascade, in falling order of
/// reliability.
pub enum CascadeStage {
    MetaBmstable,
    LinkBmstable,
    AHrefHeaderJson,
    LinkHrefHeaderJson,
    ScriptSrcHeaderJson,
    MetaContentHeaderJson,
}

/// The value of the first attribute named `key`, or empty.
pub open spec fn attr_val(attrs: Seq<(Seq<char>, Seq<char>)>, key: Seq<char>) -> Seq<char> {
    match attr_of(attrs, key) {
        Some(v) => v,
        None => Seq::empty(),
    }
}

/// Whether an attribute equals "bmstable", case-insensitively.
pub open spec fn attr_is_bmstable(attrs: Seq<(Seq<char>, Seq<char>)>, key: Seq<char>) -> bool {
    match attr_of(attrs, key) {
        Some(v) => ci_seq_eq(v, "bmstable"@),
        None => false,
    }
}

/// Whether an attribute is present and passes the "header...json" hint.
pub open spec fn attr_has_hint(attrs: Seq<(Seq<char>, Seq<char>)>, key: Seq<char>) -> bool {
    match attr_of(attrs, key) {
        Some(v) => header_json_hint(v),
        None => false,
    }
}

/// Whether one element satisfies a cascade stage.
pub open spec fn stage_hit(st: CascadeStage, t: TagV) -> bool {
    match st {
        CascadeStage::MetaBmstable => t.name == "meta"@ && (attr_is_bmstable(t.attrs, "name"@)
            || attr_is_bmstable(t.attrs, "property"@)) && attr_of(t.attrs, "content"@) is Some
            && attr_val(t.attrs, "content"@).len() > 0,
        CascadeStage::LinkBmstable => t.name == "link"@ && attr_is_bmstable(t.attrs, "rel"@)
            && attr_of(t.attrs, "href"@) is Some && attr_val(t.attrs, "href"@).len() > 0,
        CascadeStage::AHrefHeaderJson => t.name == "a"@ && attr_has_hint(t.attrs, "href"@),
        CascadeStage::LinkHrefHeaderJson => t.name == "link"@ && attr_has_hint(t.attrs, "href"@),
        CascadeStage::ScriptSrcHeaderJson => t.name == "script"@ && attr_has_hint(
            t.attrs,
            "src"@,
        ),
        CascadeStage::MetaContentHeaderJson => t.name == "meta"@ && attr_has_hint(
            t.attrs,
            "content"@,
        ),
    }
}

/// The pointer a satisfying element yields at a cascade stage.
pub open spec fn stage_val(st: CascadeStage, t: TagV) -> Seq<char> {
    match st {
        CascadeStage::MetaBmstable => attr_val(t.attrs, "content"@),
        CascadeStage::LinkBmstable => attr_val(t.attrs, "href"@),
        CascadeStage::AHrefHeaderJson => attr_val(t.attrs, "href"@),
        CascadeStage::LinkHrefHeaderJson => attr_val(t.attrs, "href"@),
        CascadeStage::ScriptSrcHeaderJson => attr_val(t.attrs, "src"@),
        CascadeStage::MetaContentHeaderJson => attr_val(t.attrs, "content"@),
    }
}

/// The first element satisfying a stage, in document order.
pub open spec fn stage_find(st: CascadeStage, tags: Seq<TagV>) -> Option<Seq<char>>
    decreases tags.len(),
{
    if tags.len() == 0 {
        None
    } else if stage_hit(st, tags[0]) {
        Some(stage_val(st, tags[0]))
    } else {
        stage_find(st, tags.drop_first())
    }
}

/// `stage_find` ignores a prefix without a hit.
proof fn lemma_stage_find_skip(st: CascadeStage, tags: Seq<TagV>, i: int)
    requires
        0 <= i <= tags.len(),
        forall|k: int| 0 <= k < i ==> !stage_hit(st, tags[k]),
    ensures
        stage_find(st, tags) == stage_find(st, tags.skip(i)),
    decreases i,
{
    if i > 0 {
        assert(!stage_hit(st, tags[0]));
        assert(tags.drop_first().skip(i - 1) =~= tags.skip(i));
        lemma_stage_find_skip(st, tags.drop_first(), i - 1);
    } else {
        assert(tags.skip(0) =~= tags);
    }
}

/// Evaluates one cascade stage against one element: the pointer when the
/// stage matches, as `stage_hit` and `stage_val` state.
fn tag_hit<'a>(st: &CascadeStage, t: &'a HtmlTag) -> (r: Option<&'a String>)
    ensures
        match r {
            Some(v) => stage_hit(*st, t@) && stage_val(*st, t@) == v@,
            None => !stage_hit(*st, t@),
        },
{
    match st {
        CascadeStage::MetaBmstable => {
            if !eq_str(t.name.as_str(), "meta") {
                return None;
            }
            let named = match t.attr("name") {
                Some(v) => eq_str_ci(v.as_str(), "bmstable"),
                None => false,
            };
            let propd = match t.attr("property") {
                Some(v) => eq_str_ci(v.as_str(), "bmstable"),
                None => false,
            };
            if !(named || propd) {
                return None;
            }
            match t.attr("content") {
                Some(c) => {
                    if c.as_str().is_empty() {
                        None
                    } else {
                        Some(c)
                    }
                },
                None => None,
            }
        },
        CascadeStage::LinkBmstable => {
            if !eq_str(t.name.as_str(), "link") {
                return None;
            }
            let reld = match t.attr("rel") {
                Some(v) => eq_str_ci(v.as_str(), "bmstable"),
                None => false,
            };
            if !reld {
                return None;
            }
            match t.attr("href") {
                Some(h) => {
                    if h.as_str().is_empty() {
                        None
                    } else {
                        Some(h)
                    }
                },
                None => None,
            }
        },
        CascadeStage::AHrefHeaderJson => {
            if !eq_str(t.name.as_str(), "a") {
                return None;
            }
            match t.attr("href") {
                Some(h) => {
                    if contains_header_json(h.as_str()) {
                        Some(h)
                    } else {
                        None
                    }
                },
                None => None,
            }
        },
        CascadeStage::LinkHrefHeaderJson => {
            if !eq_str(t.name.as_str(), "link") {
                return None;
            }
            match t.attr("href") {
                Some(h) => {
                    if contains_header_json(h.as_str()) {
                        Some(h)
                    } else {
                        None
                    }
                },
                None => None,
            }
        },
        CascadeStage::ScriptSrcHeaderJson => {
            if !eq_str(t.name.as_str(), "script") {
                return None;
            }
            match t.attr("src") {
                Some(h) => {
                    if contains_header_json(h.as_str()) {
                        Some(h)
                    } else {
                        None
                    }
                },
                None => None,
            }
        },
        CascadeStage::MetaContentHeaderJson => {
            if !eq_str(t.name.as_str(), "meta") {
                return None;
            }
            match t.attr("content") {
                Some(c) => {
                    if contains_header_json(c.as_str()) {
                        Some(c)
                    } else {
                        None
                    }
                },
                None => None,
            }
        },
    }
}

/// Scans the elements for the first hit of one stage, as `stage_find`
/// states.
fn scan_stage(st: &CascadeStage, tags: &Vec<HtmlTag>) -> (r: Option<String>)
    ensures
        match r {
            Some(u) => stage_find(*st, tags.deep_view()) == Some(u@),
            None => stage_find(*st, tags.deep_view()) is None,
        },
{
    let ghost tv = tags.deep_view();
    let n = tags.len();
    let mut i: usize = 0;
    while i < n
        invariant
            tv == tags.deep_view(),
            n == tags.len(),
            tv.len() == n,
            forall|k: int| 0 <= k < n ==> tv[k] == tags@[k]@,
            0 <= i <= n,
            forall|k: int| 0 <= k < i ==> !stage_hit(*st, tv[k]),
        decreases n - i,
    {
        match tag_hit(st, &tags[i]) {
            Some(v) => {
                proof {
                    lemma_stage_find_skip(*st, tv, i as int);
                    assert(tv.skip(i as int)[0] == tv[i as int]);
                }
                return Some(v.clone());
            },
            None => {},
        }
        i += 1;
    }
    proof {
        lemma_stage_find_skip(*st, tv, n as int);
        assert(tv.skip(n as int) =~= Seq::<TagV>::empty());
    }
    None
}

/// The ordered tag-based cascade over a page's elements: the first stage
/// that produces a pointer wins; later stages are never consulted.
pub open spec fn cascade_find(tags: Seq<TagV>) -> Option<Seq<char>> {
    match stage_find(CascadeStage::MetaBmstable, tags) {
        Some(u) => Some(u),
        None => match stage_find(CascadeStage::LinkBmstable, tags) {
            Some(u) => Some(u),
            None => match stage_find(CascadeStage::AHrefHeaderJson, tags) {
                Some(u) => Some(u),
                None => match stage_find(CascadeStage::LinkHrefHeaderJson, tags) {
                    Some(u) => Some(u),
                    None => match stage_find(CascadeStage::ScriptSrcHeaderJson, tags) {
                        Some(u) => Some(u),
                        None => stage_find(CascadeStage::MetaContentHeaderJson, tags),
                    },
                },
            },
        },
    }
}

/// The whole pointer cascade over a page: the six tag stages in order, then
/// the raw-text heuristic as the last resort.
pub open spec fn spec_extract_pointer(s: Seq<char>) -> Option<Seq<char>> {
    match cascade_find(spec_html_tags(s)) {
        Some(u) => Some(u),
        None => spec_text_header_json(s),
    }
}

/// Extracts the header-document pointer from HTML page content, as
/// `spec_extract_pointer` states: an ordered cascade of heuristics, each
/// stage tried only when every stage before it produced nothing.
pub fn try_extract_bmstable_from_html(html_content: &str) -> (r: Result<String, TableError>)
    ensures
        match (r, spec_extract_pointer(html_content@)) {
            (Ok(u), Some(uv)) => u@ == uv,
            (Err(e), None) => e == TableError::PointerNotFound,
            _ => false,
        },
{
    let tags = html_tags(html_content);
    match scan_stage(&CascadeStage::MetaBmstable, &tags) {
        Some(u) => { return Ok(u) },
        None => {},
    }
    match scan_stage(&CascadeStage::LinkBmstable, &tags) {
        Some(u) => { return Ok(u) },
        None => {},
    }
    match scan_stage(&CascadeStage::AHrefHeaderJson, &tags) {
        Some(u) => { return Ok(u) },
        None => {},
    }
    match scan_stage(&CascadeStage::LinkHrefHeaderJson, &tags) {
        Some(u) => { return Ok(u) },
        None => {},
    }
    match scan_stage(&CascadeStage::ScriptSrcHeaderJson, &tags) {
        Some(u) => { return Ok(u) },
        None => {},
    }
    match scan_stage(&CascadeStage::MetaContentHeaderJson, &tags) {
        Some(u) => { return Ok(u) },
        None => {},
    }
    match text_header_json(html_content) {
        Some(u) => Ok(u),
        None => Err(TableError::PointerNotFound),
    }
}

/// What one response text can be: the pointer found in it as HTML, or the
/// document it decodes to.
pub enum HeaderQueryContent<T> {
    /// A header-document pointer found in an HTML page; possibly relative.
    Url(String),
    /// The decoded document itself.
    Value(T),
}

/// The mathematical shape of a header query's outcome.
pub enum QueryV {
    UrlV(Seq<char>),
    JsonVal(JsonV),
}

/// The query decision on a response text, decoding to a JSON value: the
/// tolerant parser is tried first, verbatim text before sanitized; failing
/// that, the verbatim text is combed for a pointer.
pub open spec fn spec_web_header_query(s: Seq<char>) -> Option<QueryV> {
    match spec_tolerant_parse(s) {
        Some((j, _used)) => Some(QueryV::JsonVal(j)),
        None => match spec_extract_pointer(s) {
            Some(u) => Some(QueryV::UrlV(u)),
            None => None,
        },
    }
}

/// Decides whether a response text is a JSON document or HTML holding a
/// pointer, as `spec_web_header_query` states.
pub fn get_web_header_json_value(response_str: &str) -> (r: Result<
    HeaderQueryContent<Json>,
    TableError,
>)
    ensures
        match (r, spec_web_header_query(response_str@)) {
            (Ok(HeaderQueryContent::Value(j)), Some(QueryV::JsonVal(jv))) => jview(j) == jv,
            (Ok(HeaderQueryContent::Url(u)), Some(QueryV::UrlV(uv))) => u@ == uv,
            (Err(e), None) => e matches TableError::HeaderNotResolvable { .. },
            _ => false,
        },
{
    match parse_json_text(response_str) {
        Ok(j) => Ok(HeaderQueryContent::Value(j)),
        Err(cause) => {
            let cleaned = replace_control_chars(response_str);
            match parse_json_text(cleaned.as_str()) {
                Ok(j) => Ok(HeaderQueryContent::Value(j)),
                Err(_) => match try_extract_bmstable_from_html(response_str) {
                    Ok(u) => Ok(HeaderQueryContent::Url(u)),
                    Err(_) => Err(TableError::HeaderNotResolvable { cause }),
                },
            }
        },
    }
}

/// The mathematical shape of a full header query's outcome.
pub enum HeaderQueryV {
    PointerV(Seq<char>),
    HeaderVal(HeaderV),
}

/// The full header query on a response text, with the sanitizing fallback:
/// decode a header through the tolerant parser; else comb the verbatim text
/// for a pointer; else comb the sanitized text. Beside the outcome stands
/// the text variant it came from.
pub open spec fn spec_header_query_fb(s: Seq<char>) -> Option<(HeaderQueryV, Seq<char>)> {
    let decoded = match spec_tolerant_parse(s) {
        Some((j, used)) => match dec_header(j) {
            Ok(h) => Some((h, used)),
            Err(_) => None,
        },
        None => None,
    };
    match decoded {
        Some((h, used)) => Some((HeaderQueryV::HeaderVal(h), used)),
        None => match spec_extract_pointer(s) {
            Some(u) => Some((HeaderQueryV::PointerV(u), s)),
            None => match spec_extract_pointer(sanitize(s)) {
                Some(u) => Some((HeaderQueryV::PointerV(u), sanitize(s))),
                None => None,
            },
        },
    }
}

/// Resolves a response text into a decoded header or a pointer, as
/// `spec_header_query_fb` states, returning beside it the text variant the
/// outcome came from.
pub fn header_query_with_fallback(raw: &str) -> (r: Result<
    (HeaderQueryContent<BmsTableHeader>, String),
    TableError,
>)
    ensures
        match (r, spec_header_query_fb(raw@)) {
            (Ok((HeaderQueryContent::Value(h), used)), Some((HeaderQueryV::HeaderVal(hv), uv)))
                => h@ == hv && used@ == uv,
            (Ok((HeaderQueryContent::Url(u), used)), Some((HeaderQueryV::PointerV(uv), tv))) => u@
                == uv && used@ == tv,
            (Err(e), None) => e matches TableError::HeaderNotResolvable { .. },
            _ => false,
        },
{
    let cleaned = replace_control_chars(raw);
    let mut cause: String = String::new();
    let mut decoded: Option<(BmsTableHeader, String)> = None;
    match parse_json_text(raw) {
        Ok(j) => match BmsTableHeader::from_json(&j) {
            Ok(h) => {
                decoded = Some((h, raw.to_owned()));
            },
            Err(e) => {
                cause = match e {
                    TableError::SchemaViolation { path, .. } => path,
                    _ => String::new(),
                };
            },
        },
        Err(c1) => match parse_json_text(cleaned.as_str()) {
            Ok(j) => match BmsTableHeader::from_json(&j) {
                Ok(h) => {
                    decoded = Some((h, cleaned.clone()));
                },
                Err(e) => {
                    cause = match e {
                        TableError::SchemaViolation { path, .. } => path,
                        _ => String::new(),
                    };
                },
            },
            Err(_) => {
                cause = c1;
            },
        },
    }
    match decoded {
        Some((h, used)) => Ok((HeaderQueryContent::Value(h), used)),
        None => match try_extract_bmstable_from_html(raw) {
            Ok(u) => Ok((HeaderQueryContent::Url(u), raw.to_owned())),
            Err(_) => match try_extract_bmstable_from_html(cleaned.as_str()) {
                Ok(u) => Ok((HeaderQueryContent::Url(u), cleaned)),
                Err(_) => Err(TableError::HeaderNotResolvable { cause }),
            },
        },
    }
}

/// A resolved table beside the exact texts and locations it was built from.
#[derive(Debug, Clone, PartialEq)]
pub struct FetchedTable {
    /// The decoded table.
    pub table: BmsTable,
    /// The texts actually decoded and the resolved locations.
    pub raw: BmsTableRaw,
}

/// A resolved table index beside the text it was decoded from.
#[derive(Debug, Clone, PartialEq, Eq)]
pub struct FetchedTableList {
    /// The decoded entries.
    pub tables: Vec<BmsTableInfo>,
    /// The text actually decoded.
    pub raw_json: String,
}

} // verus!
