//! Shape-tolerant decoding of header, course, chart, data and index
//! documents: the mathematical decoders, and the verified executable
//! decoders that match them.
//!
//! Each decoder collapses every historically observed input shape into one
//! canonical shape and fails with a schema violation on anything else; no
//! shape is silently guessed.
use vstd::prelude::*;

use crate::chars::eq_str;
use crate::errors::{DecErr, SchemaFault, TableError, is_schema_err};
use crate::json::{
    Json, JsonObject, JsonV, jview, jview_seq, lemma_jview_entries, lemma_jview_seq, obj_get_v,
    obj_has_v,
};
use crate::jsonio::spec_json_text;
use crate::urls::spec_url_parse;
use crate::{
    BmsTableData, BmsTableHeader, BmsTableInfo, BmsTableList, ChartItem, ChartV, CourseInfo,
    CourseV, HeaderV, InfoV, Trophy, TrophyV,
};

verus! {

/// Collects a sequence of element results, stopping at the first failure.
pub open spec fn dec_collect<T>(rs: Seq<Result<T, DecErr>>) -> Result<Seq<T>, DecErr>
    decreases rs.len(),
{
    if rs.len() == 0 {
        Ok(Seq::empty())
    } else {
        match rs[0] {
            Err(e) => Err(e),
            Ok(x) => match dec_collect(rs.drop_first()) {
                Err(e) => Err(e),
                Ok(rest) => Ok(seq![x] + rest),
            },
        }
    }
}

/// When every element decoded, `dec_collect` returns them all, in order.
pub proof fn lemma_dec_collect_ok<T>(rs: Seq<Result<T, DecErr>>)
    requires
        forall|k: int| 0 <= k < rs.len() ==> (#[trigger] rs[k]) is Ok,
    ensures
        dec_collect(rs) is Ok,
        dec_collect(rs)->Ok_0.len() == rs.len(),
        forall|k: int| 0 <= k < rs.len() ==> dec_collect(rs)->Ok_0[k] == rs[k]->Ok_0,
    decreases rs.len(),
{
    if rs.len() > 0 {
        assert(rs[0] is Ok);
        lemma_dec_collect_ok(rs.drop_first());
        assert forall|k: int|
            0 <= k < rs.len() implies dec_collect(rs)->Ok_0[k] == rs[k]->Ok_0 by {
            if k > 0 {
                assert(dec_collect(rs)->Ok_0[k] == dec_collect(rs.drop_first())->Ok_0[k - 1]);
                assert(rs.drop_first()[k - 1] == rs[k]);
            }
        }
    }
}

/// When element `i` is the first that failed, `dec_collect` returns its error.
pub proof fn lemma_dec_collect_err<T>(rs: Seq<Result<T, DecErr>>, i: int)
    requires
        0 <= i < rs.len(),
        forall|k: int| 0 <= k < i ==> (#[trigger] rs[k]) is Ok,
        rs[i] is Err,
    ensures
        dec_collect(rs) == Err::<Seq<T>, DecErr>(rs[i]->Err_0),
    decreases i,
{
    if i == 0 {
    } else {
        assert(rs[0] is Ok);
        assert(rs.drop_first()[i - 1] == rs[i]);
        lemma_dec_collect_err(rs.drop_first(), i - 1);
    }
}

/// A schema error at `path` with no entry position.
pub open spec fn err_at(path: Seq<char>, fault: SchemaFault) -> DecErr {
    DecErr { path, index: None, fault }
}

/// A required field that must be a JSON string.
pub open spec fn dec_req_str(m: Seq<(Seq<char>, JsonV)>, key: Seq<char>) -> Result<
    Seq<char>,
    DecErr,
> {
    match obj_get_v(m, key) {
        None => Err(err_at(key, SchemaFault::MissingField)),
        Some(v) => match v {
            JsonV::Str(s) => Ok(s),
            _ => Err(err_at(key, SchemaFault::WrongType)),
        },
    }
}

/// A required field that must be a JSON number; its decimal text is kept.
pub open spec fn dec_req_num(m: Seq<(Seq<char>, JsonV)>, key: Seq<char>) -> Result<
    Seq<char>,
    DecErr,
> {
    match obj_get_v(m, key) {
        None => Err(err_at(key, SchemaFault::MissingField)),
        Some(v) => match v {
            JsonV::Num(n) => Ok(n),
            _ => Err(err_at(key, SchemaFault::WrongType)),
        },
    }
}

/// An optional string field: absent, null and `""` all decode to absent.
pub open spec fn dec_opt_str(m: Seq<(Seq<char>, JsonV)>, key: Seq<char>) -> Result<
    Option<Seq<char>>,
    DecErr,
> {
    match obj_get_v(m, key) {
        None => Ok(None),
        Some(v) => match v {
            JsonV::Null => Ok(None),
            JsonV::Str(s) => if s.len() == 0 {
                Ok(None)
            } else {
                Ok(Some(s))
            },
            _ => Err(err_at(key, SchemaFault::WrongType)),
        },
    }
}

/// A chart's required `level`: a string stays, a number becomes its text.
pub open spec fn dec_level(m: Seq<(Seq<char>, JsonV)>) -> Result<Seq<char>, DecErr> {
    match obj_get_v(m, "level"@) {
        None => Err(err_at("level"@, SchemaFault::MissingField)),
        Some(v) => match v {
            JsonV::Str(s) => Ok(s),
            JsonV::Num(n) => Ok(n),
            _ => Err(err_at("level"@, SchemaFault::WrongType)),
        },
    }
}

/// Which named-field set an `extra` capture excludes.
pub enum NamedSet {
    Chart,
    Header,
    Info,
}

/// Whether `k` belongs to the named-field set `which`.
pub open spec fn named_in(which: NamedSet, k: Seq<char>) -> bool {
    match which {
        NamedSet::Chart => chart_named(k),
        NamedSet::Header => header_named(k),
        NamedSet::Info => info_named(k),
    }
}

/// The fields of `m` outside the named set `which`, in order, verbatim.
pub open spec fn extra_entries(m: Seq<(Seq<char>, JsonV)>, which: NamedSet) -> Seq<
    (Seq<char>, JsonV),
>
    decreases m.len(),
{
    if m.len() == 0 {
        Seq::empty()
    } else {
        let rest = extra_entries(m.drop_first(), which);
        if named_in(which, m[0].0) {
            rest
        } else {
            seq![m[0]] + rest
        }
    }
}

/// The named fields of a chart record; everything else goes to `extra`.
pub open spec fn chart_named(k: Seq<char>) -> bool {
    ||| k == "level"@
    ||| k == "md5"@
    ||| k == "sha256"@
    ||| k == "title"@
    ||| k == "subtitle"@
    ||| k == "artist"@
    ||| k == "subartist"@
    ||| k == "url"@
    ||| k == "url_diff"@
}

/// Decodes one chart record.
pub open spec fn dec_chart(j: JsonV) -> Result<ChartV, DecErr> {
    match j {
        JsonV::Obj(m) => match dec_level(m) {
            Err(e) => Err(e),
            Ok(level) => match dec_opt_str(m, "md5"@) {
                Err(e) => Err(e),
                Ok(md5) => match dec_opt_str(m, "sha256"@) {
                    Err(e) => Err(e),
                    Ok(sha256) => match dec_opt_str(m, "title"@) {
                        Err(e) => Err(e),
                        Ok(title) => match dec_opt_str(m, "subtitle"@) {
                            Err(e) => Err(e),
                            Ok(subtitle) => match dec_opt_str(m, "artist"@) {
                                Err(e) => Err(e),
                                Ok(artist) => match dec_opt_str(m, "subartist"@) {
                                    Err(e) => Err(e),
                                    Ok(subartist) => match dec_opt_str(m, "url"@) {
                                        Err(e) => Err(e),
                                        Ok(url) => match dec_opt_str(m, "url_diff"@) {
                                            Err(e) => Err(e),
                                            Ok(url_diff) => Ok(
                                                ChartV {
                                                    level,
                                                    md5,
                                                    sha256,
                                                    title,
                                                    subtitle,
                                                    artist,
                                                    subartist,
                                                    url,
                                                    url_diff,
                                                    extra: extra_entries(
                                                        m,
                                                        NamedSet::Chart,
                                                    ),
                                                },
                                            ),
                                        },
                                    },
                                },
                            },
                        },
                    },
                },
            },
        },
        _ => Err(err_at("chart"@, SchemaFault::WrongType)),
    }
}

/// Decodes one trophy.
pub open spec fn dec_trophy(j: JsonV) -> Result<TrophyV, DecErr> {
    match j {
        JsonV::Obj(m) => match dec_req_str(m, "name"@) {
            Err(e) => Err(e),
            Ok(name) => match dec_req_num(m, "missrate"@) {
                Err(e) => Err(e),
                Ok(missrate) => match dec_req_num(m, "scorerate"@) {
                    Err(e) => Err(e),
                    Ok(scorerate) => Ok(TrophyV { name, missrate, scorerate }),
                },
            },
        },
        _ => Err(err_at("trophy"@, SchemaFault::WrongType)),
    }
}

/// One element of a list of strings.
pub open spec fn dec_str_elem(w: JsonV, key: Seq<char>) -> Result<Seq<char>, DecErr> {
    match w {
        JsonV::Str(s) => Ok(s),
        _ => Err(err_at(key, SchemaFault::WrongType)),
    }
}

/// The element results of a list of strings.
pub open spec fn str_list_rs(elems: Seq<JsonV>, key: Seq<char>) -> Seq<
    Result<Seq<char>, DecErr>,
> {
    elems.map_values(|w: JsonV| dec_str_elem(w, key))
}

/// An optional field holding a list of strings; absent decodes to empty.
pub open spec fn dec_str_list(m: Seq<(Seq<char>, JsonV)>, key: Seq<char>) -> Result<
    Seq<Seq<char>>,
    DecErr,
> {
    match obj_get_v(m, key) {
        None => Ok(Seq::empty()),
        Some(v) => match v {
            JsonV::Arr(elems) => dec_collect(str_list_rs(elems, key)),
            _ => Err(err_at(key, SchemaFault::WrongType)),
        },
    }
}

/// The element results of a trophy list.
pub open spec fn trophy_list_rs(elems: Seq<JsonV>) -> Seq<Result<TrophyV, DecErr>> {
    elems.map_values(|w: JsonV| dec_trophy(w))
}

/// An optional `trophy` list; absent decodes to empty.
pub open spec fn dec_trophy_list(m: Seq<(Seq<char>, JsonV)>) -> Result<Seq<TrophyV>, DecErr> {
    match obj_get_v(m, "trophy"@) {
        None => Ok(Seq::empty()),
        Some(v) => match v {
            JsonV::Arr(elems) => dec_collect(trophy_list_rs(elems)),
            _ => Err(err_at("trophy"@, SchemaFault::WrongType)),
        },
    }
}

/// A chart record inside a course's `charts` list: a missing `level` is
/// filled with `"0"` before decoding.
pub open spec fn with_default_level(j: JsonV) -> JsonV {
    match j {
        JsonV::Obj(m) => if obj_has_v(m, "level"@) {
            JsonV::Obj(m)
        } else {
            JsonV::Obj(m.push(("level"@, JsonV::Str("0"@))))
        },
        _ => j,
    }
}

/// The synthetic charts of a list of bare `md5` hashes, in order.
pub open spec fn md5_charts_of(hs: Seq<Seq<char>>) -> Seq<ChartV> {
    Seq::new(hs.len(), |i: int| md5_chart(hs[i]))
}

/// The synthetic charts of a list of bare `sha256` hashes, in order.
pub open spec fn sha256_charts_of(hs: Seq<Seq<char>>) -> Seq<ChartV> {
    Seq::new(hs.len(), |i: int| sha256_chart(hs[i]))
}

/// The synthetic chart a bare `md5` hash becomes: level `"0"`, that one hash,
/// everything else absent.
pub open spec fn md5_chart(h: Seq<char>) -> ChartV {
    ChartV {
        level: "0"@,
        md5: Some(h),
        sha256: None,
        title: None,
        subtitle: None,
        artist: None,
        subartist: None,
        url: None,
        url_diff: None,
        extra: Seq::empty(),
    }
}

/// The synthetic chart a bare `sha256` hash becomes.
pub open spec fn sha256_chart(h: Seq<char>) -> ChartV {
    ChartV {
        level: "0"@,
        md5: None,
        sha256: Some(h),
        title: None,
        subtitle: None,
        artist: None,
        subartist: None,
        url: None,
        url_diff: None,
        extra: Seq::empty(),
    }
}

/// The element results of a course's literal `charts` list.
pub open spec fn course_chart_rs(elems: Seq<JsonV>) -> Seq<Result<ChartV, DecErr>> {
    elems.map_values(|w: JsonV| dec_chart(with_default_level(w)))
}

/// A course's chart set: the literal `charts` list (missing levels filled),
/// then the `md5` hashes, then the `sha256` hashes, concatenated in that
/// order with no deduplication.
pub open spec fn dec_course_charts(m: Seq<(Seq<char>, JsonV)>) -> Result<Seq<ChartV>, DecErr> {
    let listed = match obj_get_v(m, "charts"@) {
        None => Ok(Seq::<ChartV>::empty()),
        Some(v) => match v {
            JsonV::Arr(elems) => dec_collect(course_chart_rs(elems)),
            _ => Err(err_at("charts"@, SchemaFault::WrongType)),
        },
    };
    match listed {
        Err(e) => Err(e),
        Ok(cs) => match dec_str_list(m, "md5"@) {
            Err(e) => Err(e),
            Ok(md5s) => match dec_str_list(m, "sha256"@) {
                Err(e) => Err(e),
                Ok(sha256s) => Ok(cs + md5_charts_of(md5s) + sha256_charts_of(sha256s)),
            },
        },
    }
}

/// Decodes one course.
pub open spec fn dec_course(j: JsonV) -> Result<CourseV, DecErr> {
    match j {
        JsonV::Obj(m) => match dec_req_str(m, "name"@) {
            Err(e) => Err(e),
            Ok(name) => match dec_str_list(m, "constraint"@) {
                Err(e) => Err(e),
                Ok(constraint) => match dec_trophy_list(m) {
                    Err(e) => Err(e),
                    Ok(trophy) => match dec_course_charts(m) {
                        Err(e) => Err(e),
                        Ok(charts) => Ok(CourseV { name, constraint, trophy, charts }),
                    },
                },
            },
        },
        _ => Err(err_at("course"@, SchemaFault::WrongType)),
    }
}

/// The element results of a list of courses.
pub open spec fn course_rs(elems: Seq<JsonV>) -> Seq<Result<CourseV, DecErr>> {
    elems.map_values(|w: JsonV| dec_course(w))
}

/// One group of a nested `course` array: must itself be an array of courses.
pub open spec fn dec_course_group(j: JsonV) -> Result<Seq<CourseV>, DecErr> {
    match j {
        JsonV::Arr(inner) => dec_collect(course_rs(inner)),
        _ => Err(err_at("course"@, SchemaFault::WrongType)),
    }
}

/// The element results of a nested list of course groups.
pub open spec fn group_rs(elems: Seq<JsonV>) -> Seq<Result<Seq<CourseV>, DecErr>> {
    elems.map_values(|w: JsonV| dec_course_group(w))
}

/// The header's `course` field: a flat array of courses becomes one group, an
/// array of arrays is kept, and a missing, null or empty field becomes one
/// empty group — never zero groups.
pub open spec fn dec_course_groups(m: Seq<(Seq<char>, JsonV)>) -> Result<
    Seq<Seq<CourseV>>,
    DecErr,
> {
    match obj_get_v(m, "course"@) {
        None => Ok(seq![Seq::<CourseV>::empty()]),
        Some(v) => match v {
            JsonV::Null => Ok(seq![Seq::<CourseV>::empty()]),
            JsonV::Arr(elems) => if elems.len() == 0 {
                Ok(seq![Seq::<CourseV>::empty()])
            } else if elems[0] is Arr {
                dec_collect(group_rs(elems))
            } else {
                match dec_collect(course_rs(elems)) {
                    Err(e) => Err(e),
                    Ok(cs) => Ok(seq![cs]),
                }
            },
            _ => Err(err_at("course"@, SchemaFault::WrongType)),
        },
    }
}

/// The text a `level_order` element normalizes to: a string stays, a number
/// becomes its decimal text, anything else becomes its JSON text.
pub open spec fn lvl_text(j: JsonV) -> Seq<char> {
    match j {
        JsonV::Str(s) => s,
        JsonV::Num(n) => n,
        other => spec_json_text(other),
    }
}

/// The normalized texts of a `level_order` array, in order.
pub open spec fn lvl_texts_of(elems: Seq<JsonV>) -> Seq<Seq<char>> {
    Seq::new(elems.len(), |i: int| lvl_text(elems[i]))
}

/// The header's `level_order` field; absent or null decodes to empty.
pub open spec fn dec_level_order(m: Seq<(Seq<char>, JsonV)>) -> Result<Seq<Seq<char>>, DecErr> {
    match obj_get_v(m, "level_order"@) {
        None => Ok(Seq::empty()),
        Some(v) => match v {
            JsonV::Null => Ok(Seq::empty()),
            JsonV::Arr(elems) => Ok(lvl_texts_of(elems)),
            _ => Err(err_at("level_order"@, SchemaFault::WrongType)),
        },
    }
}

/// The named fields of a header; everything else goes to `extra`.
pub open spec fn header_named(k: Seq<char>) -> bool {
    ||| k == "name"@
    ||| k == "symbol"@
    ||| k == "data_url"@
    ||| k == "course"@
    ||| k == "level_order"@
}

/// Decodes a header document.
pub open spec fn dec_header(j: JsonV) -> Result<HeaderV, DecErr> {
    match j {
        JsonV::Obj(m) => match dec_req_str(m, "name"@) {
            Err(e) => Err(e),
            Ok(name) => match dec_req_str(m, "symbol"@) {
                Err(e) => Err(e),
                Ok(symbol) => match dec_req_str(m, "data_url"@) {
                    Err(e) => Err(e),
                    Ok(data_url) => match dec_course_groups(m) {
                        Err(e) => Err(e),
                        Ok(course) => match dec_level_order(m) {
                            Err(e) => Err(e),
                            Ok(level_order) => Ok(
                                HeaderV {
                                    name,
                                    symbol,
                                    data_url,
                                    course,
                                    level_order,
                                    extra: extra_entries(m, NamedSet::Header),
                                },
                            ),
                        },
                    },
                },
            },
        },
        _ => Err(err_at("header"@, SchemaFault::WrongType)),
    }
}

/// The element results of a bare chart list.
pub open spec fn chart_rs(elems: Seq<JsonV>) -> Seq<Result<ChartV, DecErr>> {
    elems.map_values(|w: JsonV| dec_chart(w))
}

/// Decodes a chart data document: a bare array of charts, or an object whose
/// `charts` field holds that array.
pub open spec fn dec_data(j: JsonV) -> Result<Seq<ChartV>, DecErr> {
    match j {
        JsonV::Arr(elems) => dec_collect(chart_rs(elems)),
        JsonV::Obj(m) => match obj_get_v(m, "charts"@) {
            None => Err(err_at("charts"@, SchemaFault::MissingField)),
            Some(v) => match v {
                JsonV::Arr(elems) => dec_collect(chart_rs(elems)),
                _ => Err(err_at("charts"@, SchemaFault::WrongType)),
            },
        },
        _ => Err(err_at("data"@, SchemaFault::WrongType)),
    }
}

/// The named fields of an index entry; everything else goes to `extra`.
pub open spec fn info_named(k: Seq<char>) -> bool {
    ||| k == "name"@
    ||| k == "symbol"@
    ||| k == "url"@
}

/// Decodes one index entry, before its position is attached to errors. The
/// `url` field must be a string that parses as a URL; its normalized text is
/// kept.
pub open spec fn dec_info0(j: JsonV) -> Result<InfoV, DecErr> {
    match j {
        JsonV::Obj(m) => match dec_req_str(m, "name"@) {
            Err(e) => Err(e),
            Ok(name) => match dec_req_str(m, "symbol"@) {
                Err(e) => Err(e),
                Ok(symbol) => match dec_req_str(m, "url"@) {
                    Err(e) => Err(e),
                    Ok(u) => match spec_url_parse(u) {
                        None => Err(err_at("url"@, SchemaFault::WrongType)),
                        Some(url) => Ok(
                            InfoV {
                                name,
                                symbol,
                                url,
                                extra: extra_entries(m, NamedSet::Info),
                            },
                        ),
                    },
                },
            },
        },
        _ => Err(err_at("entry"@, SchemaFault::WrongType)),
    }
}

/// Decodes one index entry; a failure names the entry's position.
pub open spec fn dec_info(j: JsonV, i: int) -> Result<InfoV, DecErr> {
    match dec_info0(j) {
        Ok(v) => Ok(v),
        Err(e) => Err(DecErr { path: e.path, index: Some(i), fault: e.fault }),
    }
}

/// The entry results of an index document, each error naming its position.
pub open spec fn info_rs(elems: Seq<JsonV>) -> Seq<Result<InfoV, DecErr>> {
    Seq::new(elems.len(), |i: int| dec_info(elems[i], i))
}

/// Decodes an index document: a bare array of entries, each error naming its
/// entry's position.
pub open spec fn dec_list(j: JsonV) -> Result<Seq<InfoV>, DecErr> {
    match j {
        JsonV::Arr(elems) => dec_collect(info_rs(elems)),
        _ => Err(err_at("list"@, SchemaFault::WrongType)),
    }
}

/// Builds the schema-violation value that `err_at(path, fault)` describes.
fn schema_err(path: &str, fault: SchemaFault) -> (e: TableError)
    ensures
        is_schema_err(e, err_at(path@, fault)),
{
    TableError::SchemaViolation { path: path.to_owned(), index: None, fault }
}

/// Reads a required string field, as `dec_req_str` states.
fn get_req_str(m: &JsonObject, key: &str) -> (r: Result<String, TableError>)
    ensures
        match (r, dec_req_str(m@, key@)) {
            (Ok(s), Ok(sv)) => s@ == sv,
            (Err(e), Err(d)) => is_schema_err(e, d),
            _ => false,
        },
{
    match m.get(key) {
        None => Err(schema_err(key, SchemaFault::MissingField)),
        Some(v) => match v {
            Json::Str(s) => Ok(s.clone()),
            _ => Err(schema_err(key, SchemaFault::WrongType)),
        },
    }
}

/// Reads a required number field's decimal text, as `dec_req_num` states.
fn get_req_num(m: &JsonObject, key: &str) -> (r: Result<String, TableError>)
    ensures
        match (r, dec_req_num(m@, key@)) {
            (Ok(s), Ok(sv)) => s@ == sv,
            (Err(e), Err(d)) => is_schema_err(e, d),
            _ => false,
        },
{
    match m.get(key) {
        None => Err(schema_err(key, SchemaFault::MissingField)),
        Some(v) => match v {
            Json::Num(s) => Ok(s.clone()),
            _ => Err(schema_err(key, SchemaFault::WrongType)),
        },
    }
}

/// Reads an optional string field, as `dec_opt_str` states: absent, null and
/// `""` all give `None`.
fn get_opt_str(m: &JsonObject, key: &str) -> (r: Result<Option<String>, TableError>)
    ensures
        match (r, dec_opt_str(m@, key@)) {
            (Ok(s), Ok(sv)) => s.deep_view() == sv,
            (Err(e), Err(d)) => is_schema_err(e, d),
            _ => false,
        },
{
    match m.get(key) {
        None => Ok(None),
        Some(v) => match v {
            Json::Null => Ok(None),
            Json::Str(s) => if s.as_str().is_empty() {
                Ok(None)
            } else {
                Ok(Some(s.clone()))
            },
            _ => Err(schema_err(key, SchemaFault::WrongType)),
        },
    }
}

/// Reads a chart's `level`, as `dec_level` states.
fn get_level(m: &JsonObject) -> (r: Result<String, TableError>)
    ensures
        match (r, dec_level(m@)) {
            (Ok(s), Ok(sv)) => s@ == sv,
            (Err(e), Err(d)) => is_schema_err(e, d),
            _ => false,
        },
{
    match m.get("level") {
        None => Err(schema_err("level", SchemaFault::MissingField)),
        Some(v) => match v {
            Json::Str(s) => Ok(s.clone()),
            Json::Num(n) => Ok(n.clone()),
            _ => Err(schema_err("level", SchemaFault::WrongType)),
        },
    }
}

/// Exec test for `chart_named`.
fn is_chart_named(k: &str) -> (r: bool)
    ensures
        r == chart_named(k@),
{
    eq_str(k, "level") || eq_str(k, "md5") || eq_str(k, "sha256") || eq_str(k, "title") || eq_str(
        k,
        "subtitle",
    ) || eq_str(k, "artist") || eq_str(k, "subartist") || eq_str(k, "url") || eq_str(k, "url_diff")
}

/// Exec test for `header_named`.
fn is_header_named(k: &str) -> (r: bool)
    ensures
        r == header_named(k@),
{
    eq_str(k, "name") || eq_str(k, "symbol") || eq_str(k, "data_url") || eq_str(k, "course")
        || eq_str(k, "level_order")
}

/// Exec test for `info_named`.
fn is_info_named(k: &str) -> (r: bool)
    ensures
        r == info_named(k@),
{
    eq_str(k, "name") || eq_str(k, "symbol") || eq_str(k, "url")
}

/// `extra_entries` of a tail, one step at a time.
proof fn lemma_extra_entries_step(m: Seq<(Seq<char>, JsonV)>, which: NamedSet, i: int)
    requires
        0 <= i < m.len(),
    ensures
        extra_entries(m.skip(i), which) == if named_in(which, m[i].0) {
            extra_entries(m.skip(i + 1), which)
        } else {
            seq![m[i]] + extra_entries(m.skip(i + 1), which)
        },
{
    assert(m.skip(i).drop_first() =~= m.skip(i + 1));
    assert(m.skip(i)[0] == m[i]);
}

/// The fields of `m` outside the named set `which`, in order, verbatim.
fn extra_fields(m: &JsonObject, which: &NamedSet) -> (r: JsonObject)
    ensures
        r@ == extra_entries(m@, *which),
{
    proof {
        lemma_jview_entries(m.entries@);
        assert(m@.skip(0) =~= m@);
    }
    let n = m.entries.len();
    let mut out = JsonObject::new();
    let mut i: usize = 0;
    while i < n
        invariant
            n == m.entries.len(),
            m@.len() == n,
            forall|k: int| 0 <= k < n ==> m@[k] == (m.entries@[k].0@, jview(m.entries@[k].1)),
            0 <= i <= n,
            extra_entries(m@, *which) == out@ + extra_entries(m@.skip(i as int), *which),
        decreases n - i,
    {
        let named = match which {
            NamedSet::Chart => is_chart_named(m.entries[i].0.as_str()),
            NamedSet::Header => is_header_named(m.entries[i].0.as_str()),
            NamedSet::Info => is_info_named(m.entries[i].0.as_str()),
        };
        proof {
            lemma_extra_entries_step(m@, *which, i as int);
        }
        if !named {
            let key = m.entries[i].0.clone();
            let val = crate::json::clone_json(&m.entries[i].1);
            proof {
                assert((key@, jview(val)) == m@[i as int]);
            }
            out.push(key, val);
        }
        i += 1;
        proof {
            assert(extra_entries(m@, *which) =~= out@ + extra_entries(
                m@.skip(i as int),
                *which,
            ));
        }
    }
    proof {
        assert(m@.skip(n as int) =~= Seq::<(Seq<char>, JsonV)>::empty());
        assert(out@ =~= extra_entries(m@, *which));
    }
    out
}

impl Trophy {
    /// Decodes one trophy, as `dec_trophy` states.
    pub fn from_json(j: &Json) -> (r: Result<Trophy, TableError>)
        ensures
            match (r, dec_trophy(jview(*j))) {
                (Ok(t), Ok(tv)) => t@ == tv,
                (Err(e), Err(d)) => is_schema_err(e, d),
                _ => false,
            },
    {
        let m = match j {
            Json::Obj(m) => m,
            _ => { return Err(schema_err("trophy", SchemaFault::WrongType)) },
        };
        let name = match get_req_str(m, "name") {
            Ok(s) => s,
            Err(e) => { return Err(e) },
        };
        let missrate = match get_req_num(m, "missrate") {
            Ok(s) => s,
            Err(e) => { return Err(e) },
        };
        let scorerate = match get_req_num(m, "scorerate") {
            Ok(s) => s,
            Err(e) => { return Err(e) },
        };
        Ok(Trophy { name, missrate, scorerate })
    }
}

impl ChartItem {
    /// Decodes one chart record, as `dec_chart` states.
    pub fn from_json(j: &Json) -> (r: Result<ChartItem, TableError>)
        ensures
            match (r, dec_chart(jview(*j))) {
                (Ok(c), Ok(cv)) => c@ == cv,
                (Err(e), Err(d)) => is_schema_err(e, d),
                _ => false,
            },
    {
        let m = match j {
            Json::Obj(m) => m,
            _ => { return Err(schema_err("chart", SchemaFault::WrongType)) },
        };
        let level = match get_level(m) {
            Ok(s) => s,
            Err(e) => { return Err(e) },
        };
        let md5 = match get_opt_str(m, "md5") {
            Ok(s) => s,
            Err(e) => { return Err(e) },
        };
        let sha256 = match get_opt_str(m, "sha256") {
            Ok(s) => s,
            Err(e) => { return Err(e) },
        };
        let title = match get_opt_str(m, "title") {
            Ok(s) => s,
            Err(e) => { return Err(e) },
        };
        let subtitle = match get_opt_str(m, "subtitle") {
            Ok(s) => s,
            Err(e) => { return Err(e) },
        };
        let artist = match get_opt_str(m, "artist") {
            Ok(s) => s,
            Err(e) => { return Err(e) },
        };
        let subartist = match get_opt_str(m, "subartist") {
            Ok(s) => s,
            Err(e) => { return Err(e) },
        };
        let url = match get_opt_str(m, "url") {
            Ok(s) => s,
            Err(e) => { return Err(e) },
        };
        let url_diff = match get_opt_str(m, "url_diff") {
            Ok(s) => s,
            Err(e) => { return Err(e) },
        };
        let extra = extra_fields(m, &NamedSet::Chart);
        Ok(ChartItem { level, md5, sha256, title, subtitle, artist, subartist, url, url_diff, extra })
    }
}

/// Decodes a list of string elements, as `dec_collect` of `str_list_rs`
/// states.
fn decode_str_items(arr: &Vec<Json>, key: &str) -> (r: Result<Vec<String>, TableError>)
    ensures
        match (r, dec_collect(str_list_rs(jview_seq(arr@), key@))) {
            (Ok(v), Ok(sv)) => v.deep_view() == sv,
            (Err(e), Err(d)) => is_schema_err(e, d),
            _ => false,
        },
{
    let ghost elems = jview_seq(arr@);
    let ghost rs = str_list_rs(elems, key@);
    proof {
        lemma_jview_seq(arr@);
        assert forall|k: int| 0 <= k < elems.len() implies rs[k] == dec_str_elem(
            elems[k],
            key@,
        ) by {
            assert(rs[k] == (|w: JsonV| dec_str_elem(w, key@))(elems[k]));
        }
    }
    let n = arr.len();
    let mut out: Vec<String> = Vec::new();
    let mut i: usize = 0;
    while i < n
        invariant
            n == arr.len(),
            elems == jview_seq(arr@),
            elems.len() == n,
            forall|k: int| 0 <= k < n ==> elems[k] == jview(arr@[k]),
            rs == str_list_rs(elems, key@),
            rs.len() == n,
            forall|k: int| 0 <= k < n ==> rs[k] == dec_str_elem(elems[k], key@),
            0 <= i <= n,
            forall|k: int| 0 <= k < i ==> rs[k] is Ok,
            out@.len() == i,
            forall|k: int| 0 <= k < i ==> out@[k]@ == rs[k]->Ok_0,
        decreases n - i,
    {
        match &arr[i] {
            Json::Str(t) => {
                out.push(t.clone());
            },
            _ => {
                proof {
                    assert(rs[i as int] is Err);
                    lemma_dec_collect_err(rs, i as int);
                }
                return Err(schema_err(key, SchemaFault::WrongType));
            },
        }
        i += 1;
    }
    proof {
        lemma_dec_collect_ok(rs);
        assert(out.deep_view() =~= dec_collect(rs)->Ok_0);
    }
    Ok(out)
}

/// Reads an optional list-of-strings field, as `dec_str_list` states.
fn get_str_list(m: &JsonObject, key: &str) -> (r: Result<Vec<String>, TableError>)
    ensures
        match (r, dec_str_list(m@, key@)) {
            (Ok(v), Ok(sv)) => v.deep_view() == sv,
            (Err(e), Err(d)) => is_schema_err(e, d),
            _ => false,
        },
{
    match m.get(key) {
        None => {
            let out: Vec<String> = Vec::new();
            proof {
                assert(out.deep_view() =~= Seq::<Seq<char>>::empty());
            }
            Ok(out)
        },
        Some(v) => match v {
            Json::Arr(items) => decode_str_items(items, key),
            _ => Err(schema_err(key, SchemaFault::WrongType)),
        },
    }
}

/// Decodes a list of trophies, as `dec_collect` of `trophy_list_rs` states.
fn decode_trophy_items(arr: &Vec<Json>) -> (r: Result<Vec<Trophy>, TableError>)
    ensures
        match (r, dec_collect(trophy_list_rs(jview_seq(arr@)))) {
            (Ok(v), Ok(sv)) => v.deep_view() == sv,
            (Err(e), Err(d)) => is_schema_err(e, d),
            _ => false,
        },
{
    let ghost elems = jview_seq(arr@);
    let ghost rs = trophy_list_rs(elems);
    proof {
        lemma_jview_seq(arr@);
        assert forall|k: int| 0 <= k < elems.len() implies rs[k] == dec_trophy(elems[k]) by {
            assert(rs[k] == (|w: JsonV| dec_trophy(w))(elems[k]));
        }
    }
    let n = arr.len();
    let mut out: Vec<Trophy> = Vec::new();
    let mut i: usize = 0;
    while i < n
        invariant
            n == arr.len(),
            elems == jview_seq(arr@),
            elems.len() == n,
            forall|k: int| 0 <= k < n ==> elems[k] == jview(arr@[k]),
            rs == trophy_list_rs(elems),
            rs.len() == n,
            forall|k: int| 0 <= k < n ==> rs[k] == dec_trophy(elems[k]),
            0 <= i <= n,
            forall|k: int| 0 <= k < i ==> rs[k] is Ok,
            out@.len() == i,
            forall|k: int| 0 <= k < i ==> out@[k]@ == rs[k]->Ok_0,
        decreases n - i,
    {
        match Trophy::from_json(&arr[i]) {
            Ok(t) => {
                out.push(t);
            },
            Err(e) => {
                proof {
                    assert(rs[i as int] is Err);
                    lemma_dec_collect_err(rs, i as int);
                }
                return Err(e);
            },
        }
        i += 1;
    }
    proof {
        lemma_dec_collect_ok(rs);
        assert(out.deep_view() =~= dec_collect(rs)->Ok_0);
    }
    Ok(out)
}

/// Reads an optional `trophy` list, as `dec_trophy_list` states.
fn get_trophy_list(m: &JsonObject) -> (r: Result<Vec<Trophy>, TableError>)
    ensures
        match (r, dec_trophy_list(m@)) {
            (Ok(v), Ok(sv)) => v.deep_view() == sv,
            (Err(e), Err(d)) => is_schema_err(e, d),
            _ => false,
        },
{
    match m.get("trophy") {
        None => {
            let out: Vec<Trophy> = Vec::new();
            proof {
                assert(out.deep_view() =~= Seq::<TrophyV>::empty());
            }
            Ok(out)
        },
        Some(v) => match v {
            Json::Arr(items) => decode_trophy_items(items),
            _ => Err(schema_err("trophy", SchemaFault::WrongType)),
        },
    }
}

/// A copy of a chart object with `level: "0"` filled in when it is missing,
/// as `with_default_level` states.
fn apply_default_level(j: &Json) -> (r: Json)
    ensures
        jview(r) == with_default_level(jview(*j)),
{
    match j {
        Json::Obj(m) => {
            if m.contains_key("level") {
                crate::json::clone_json(j)
            } else {
                let mut c = crate::json::clone_obj(m);
                c.push("level".to_owned(), Json::Str("0".to_owned()));
                Json::Obj(c)
            }
        },
        _ => crate::json::clone_json(j),
    }
}

/// Decodes a course's literal `charts` list, as `dec_collect` of
/// `course_chart_rs` states.
fn decode_listed_charts(arr: &Vec<Json>) -> (r: Result<Vec<ChartItem>, TableError>)
    ensures
        match (r, dec_collect(course_chart_rs(jview_seq(arr@)))) {
            (Ok(v), Ok(sv)) => v.deep_view() == sv,
            (Err(e), Err(d)) => is_schema_err(e, d),
            _ => false,
        },
{
    let ghost elems = jview_seq(arr@);
    let ghost rs = course_chart_rs(elems);
    proof {
        lemma_jview_seq(arr@);
        assert forall|k: int| 0 <= k < elems.len() implies rs[k] == dec_chart(
            with_default_level(elems[k]),
        ) by {
            assert(rs[k] == (|w: JsonV| dec_chart(with_default_level(w)))(elems[k]));
        }
    }
    let n = arr.len();
    let mut out: Vec<ChartItem> = Vec::new();
    let mut i: usize = 0;
    while i < n
        invariant
            n == arr.len(),
            elems == jview_seq(arr@),
            elems.len() == n,
            forall|k: int| 0 <= k < n ==> elems[k] == jview(arr@[k]),
            rs == course_chart_rs(elems),
            rs.len() == n,
            forall|k: int| 0 <= k < n ==> rs[k] == dec_chart(with_default_level(elems[k])),
            0 <= i <= n,
            forall|k: int| 0 <= k < i ==> rs[k] is Ok,
            out@.len() == i,
            forall|k: int| 0 <= k < i ==> out@[k]@ == rs[k]->Ok_0,
        decreases n - i,
    {
        let filled = apply_default_level(&arr[i]);
        match ChartItem::from_json(&filled) {
            Ok(c) => {
                out.push(c);
            },
            Err(e) => {
                proof {
                    assert(rs[i as int] is Err);
                    lemma_dec_collect_err(rs, i as int);
                }
                return Err(e);
            },
        }
        i += 1;
    }
    proof {
        lemma_dec_collect_ok(rs);
        assert(out.deep_view() =~= dec_collect(rs)->Ok_0);
    }
    Ok(out)
}

/// The synthetic chart items of a list of bare `md5` hashes.
fn md5_chart_items(hs: &Vec<String>) -> (r: Vec<ChartItem>)
    ensures
        r.deep_view() == md5_charts_of(hs.deep_view()),
{
    let n = hs.len();
    let mut out: Vec<ChartItem> = Vec::new();
    let mut i: usize = 0;
    while i < n
        invariant
            n == hs.len(),
            0 <= i <= n,
            out@.len() == i,
            forall|k: int| 0 <= k < i ==> out@[k]@ == md5_chart(hs@[k]@),
        decreases n - i,
    {
        let h = hs[i].clone();
        out.push(
            ChartItem {
                level: "0".to_owned(),
                md5: Some(h),
                sha256: None,
                title: None,
                subtitle: None,
                artist: None,
                subartist: None,
                url: None,
                url_diff: None,
                extra: JsonObject::new(),
            },
        );
        i += 1;
    }
    proof {
        assert(out.deep_view() =~= md5_charts_of(hs.deep_view()));
    }
    out
}

/// The synthetic chart items of a list of bare `sha256` hashes.
fn sha256_chart_items(hs: &Vec<String>) -> (r: Vec<ChartItem>)
    ensures
        r.deep_view() == sha256_charts_of(hs.deep_view()),
{
    let n = hs.len();
    let mut out: Vec<ChartItem> = Vec::new();
    let mut i: usize = 0;
    while i < n
        invariant
            n == hs.len(),
            0 <= i <= n,
            out@.len() == i,
            forall|k: int| 0 <= k < i ==> out@[k]@ == sha256_chart(hs@[k]@),
        decreases n - i,
    {
        let h = hs[i].clone();
        out.push(
            ChartItem {
                level: "0".to_owned(),
                md5: None,
                sha256: Some(h),
                title: None,
                subtitle: None,
                artist: None,
                subartist: None,
                url: None,
                url_diff: None,
                extra: JsonObject::new(),
            },
        );
        i += 1;
    }
    proof {
        assert(out.deep_view() =~= sha256_charts_of(hs.deep_view()));
    }
    out
}

/// Assembles a course's chart set, as `dec_course_charts` states.
fn get_course_charts(m: &JsonObject) -> (r: Result<Vec<ChartItem>, TableError>)
    ensures
        match (r, dec_course_charts(m@)) {
            (Ok(v), Ok(sv)) => v.deep_view() == sv,
            (Err(e), Err(d)) => is_schema_err(e, d),
            _ => false,
        },
{
    let mut out: Vec<ChartItem> = match m.get("charts") {
        None => {
            let empty: Vec<ChartItem> = Vec::new();
            proof {
                assert(empty.deep_view() =~= Seq::<ChartV>::empty());
            }
            empty
        },
        Some(v) => match v {
            Json::Arr(arr) => match decode_listed_charts(arr) {
                Ok(cs) => cs,
                Err(e) => { return Err(e) },
            },
            _ => { return Err(schema_err("charts", SchemaFault::WrongType)) },
        },
    };
    let ghost listed = out.deep_view();
    let md5s = match get_str_list(m, "md5") {
        Ok(v) => v,
        Err(e) => { return Err(e) },
    };
    let sha256s = match get_str_list(m, "sha256") {
        Ok(v) => v,
        Err(e) => { return Err(e) },
    };
    let mut m5 = md5_chart_items(&md5s);
    let mut s6 = sha256_chart_items(&sha256s);
    let ghost m5v = m5.deep_view();
    let ghost s6v = s6.deep_view();
    out.append(&mut m5);
    out.append(&mut s6);
    proof {
        assert(out.deep_view() =~= listed + m5v + s6v);
    }
    Ok(out)
}

/// Decodes a list of course objects, as `dec_collect` of `course_rs` states.
fn decode_courses(arr: &Vec<Json>) -> (r: Result<Vec<CourseInfo>, TableError>)
    ensures
        match (r, dec_collect(course_rs(jview_seq(arr@)))) {
            (Ok(v), Ok(sv)) => v.deep_view() == sv,
            (Err(e), Err(d)) => is_schema_err(e, d),
            _ => false,
        },
{
    let ghost elems = jview_seq(arr@);
    let ghost rs = course_rs(elems);
    proof {
        lemma_jview_seq(arr@);
        assert forall|k: int| 0 <= k < elems.len() implies rs[k] == dec_course(elems[k]) by {
            assert(rs[k] == (|w: JsonV| dec_course(w))(elems[k]));
        }
    }
    let n = arr.len();
    let mut out: Vec<CourseInfo> = Vec::new();
    let mut i: usize = 0;
    while i < n
        invariant
            n == arr.len(),
            elems == jview_seq(arr@),
            elems.len() == n,
            forall|k: int| 0 <= k < n ==> elems[k] == jview(arr@[k]),
            rs == course_rs(elems),
            rs.len() == n,
            forall|k: int| 0 <= k < n ==> rs[k] == dec_course(elems[k]),
            0 <= i <= n,
            forall|k: int| 0 <= k < i ==> rs[k] is Ok,
            out@.len() == i,
            forall|k: int| 0 <= k < i ==> out@[k]@ == rs[k]->Ok_0,
        decreases n - i,
    {
        match CourseInfo::from_json(&arr[i]) {
            Ok(c) => {
                out.push(c);
            },
            Err(e) => {
                proof {
                    assert(rs[i as int] is Err);
                    lemma_dec_collect_err(rs, i as int);
                }
                return Err(e);
            },
        }
        i += 1;
    }
    proof {
        lemma_dec_collect_ok(rs);
        assert(out.deep_view() =~= dec_collect(rs)->Ok_0);
    }
    Ok(out)
}

impl CourseInfo {
    /// Decodes one course, as `dec_course` states: hash lists become
    /// synthetic charts, a chart's missing `level` becomes `"0"`.
    pub fn from_json(j: &Json) -> (r: Result<CourseInfo, TableError>)
        ensures
            match (r, dec_course(jview(*j))) {
                (Ok(c), Ok(cv)) => c@ == cv,
                (Err(e), Err(d)) => is_schema_err(e, d),
                _ => false,
            },
    {
        let m = match j {
            Json::Obj(m) => m,
            _ => { return Err(schema_err("course", SchemaFault::WrongType)) },
        };
        let name = match get_req_str(m, "name") {
            Ok(s) => s,
            Err(e) => { return Err(e) },
        };
        let constraint = match get_str_list(m, "constraint") {
            Ok(v) => v,
            Err(e) => { return Err(e) },
        };
        let trophy = match get_trophy_list(m) {
            Ok(v) => v,
            Err(e) => { return Err(e) },
        };
        let charts = match get_course_charts(m) {
            Ok(v) => v,
            Err(e) => { return Err(e) },
        };
        Ok(CourseInfo { name, constraint, trophy, charts })
    }
}

/// Decodes a nested list of course groups, as `dec_collect` of `group_rs`
/// states.
fn decode_groups(arr: &Vec<Json>) -> (r: Result<Vec<Vec<CourseInfo>>, TableError>)
    ensures
        match (r, dec_collect(group_rs(jview_seq(arr@)))) {
            (Ok(v), Ok(sv)) => v.deep_view() == sv,
            (Err(e), Err(d)) => is_schema_err(e, d),
            _ => false,
        },
{
    let ghost elems = jview_seq(arr@);
    let ghost rs = group_rs(elems);
    proof {
        lemma_jview_seq(arr@);
        assert forall|k: int| 0 <= k < elems.len() implies rs[k] == dec_course_group(
            elems[k],
        ) by {
            assert(rs[k] == (|w: JsonV| dec_course_group(w))(elems[k]));
        }
    }
    let n = arr.len();
    let mut out: Vec<Vec<CourseInfo>> = Vec::new();
    let mut i: usize = 0;
    while i < n
        invariant
            n == arr.len(),
            elems == jview_seq(arr@),
            elems.len() == n,
            forall|k: int| 0 <= k < n ==> elems[k] == jview(arr@[k]),
            rs == group_rs(elems),
            rs.len() == n,
            forall|k: int| 0 <= k < n ==> rs[k] == dec_course_group(elems[k]),
            0 <= i <= n,
            forall|k: int| 0 <= k < i ==> rs[k] is Ok,
            out@.len() == i,
            forall|k: int| 0 <= k < i ==> out@[k].deep_view() == rs[k]->Ok_0,
        decreases n - i,
    {
        match &arr[i] {
            Json::Arr(inner) => match decode_courses(inner) {
                Ok(cs) => {
                    out.push(cs);
                },
                Err(e) => {
                    proof {
                        assert(rs[i as int] is Err);
                        lemma_dec_collect_err(rs, i as int);
                    }
                    return Err(e);
                },
            },
            _ => {
                proof {
                    assert(rs[i as int] is Err);
                    lemma_dec_collect_err(rs, i as int);
                }
                return Err(schema_err("course", SchemaFault::WrongType));
            },
        }
        i += 1;
    }
    proof {
        lemma_dec_collect_ok(rs);
        assert(out.deep_view() =~= dec_collect(rs)->Ok_0);
    }
    Ok(out)
}

/// One empty course group: what a missing or empty `course` field becomes.
fn one_empty_group() -> (r: Vec<Vec<CourseInfo>>)
    ensures
        r.deep_view() == seq![Seq::<CourseV>::empty()],
{
    let mut out: Vec<Vec<CourseInfo>> = Vec::new();
    out.push(Vec::new());
    proof {
        assert(out@[0].deep_view() =~= Seq::<CourseV>::empty());
        assert(out.deep_view() =~= seq![Seq::<CourseV>::empty()]);
    }
    out
}

/// Reads the header's `course` field, as `dec_course_groups` states.
fn get_course_groups(m: &JsonObject) -> (r: Result<Vec<Vec<CourseInfo>>, TableError>)
    ensures
        match (r, dec_course_groups(m@)) {
            (Ok(v), Ok(sv)) => v.deep_view() == sv,
            (Err(e), Err(d)) => is_schema_err(e, d),
            _ => false,
        },
{
    let arr = match m.get("course") {
        None => { return Ok(one_empty_group()) },
        Some(v) => match v {
            Json::Null => { return Ok(one_empty_group()) },
            Json::Arr(items) => items,
            _ => { return Err(schema_err("course", SchemaFault::WrongType)) },
        },
    };
    proof {
        lemma_jview_seq(arr@);
    }
    if arr.len() == 0 {
        return Ok(one_empty_group());
    }
    let grouped = matches!(&arr[0], Json::Arr(_));
    if grouped {
        decode_groups(arr)
    } else {
        match decode_courses(arr) {
            Ok(cs) => {
                let ghost csv = cs.deep_view();
                let mut out: Vec<Vec<CourseInfo>> = Vec::new();
                out.push(cs);
                proof {
                    assert(out.deep_view() =~= seq![csv]);
                }
                Ok(out)
            },
            Err(e) => Err(e),
        }
    }
}

/// Normalizes the elements of a `level_order` array to text, as
/// `lvl_texts_of` states.
fn decode_level_items(arr: &Vec<Json>) -> (r: Vec<String>)
    ensures
        r.deep_view() == lvl_texts_of(jview_seq(arr@)),
{
    let ghost elems = jview_seq(arr@);
    proof {
        lemma_jview_seq(arr@);
    }
    let n = arr.len();
    let mut out: Vec<String> = Vec::new();
    let mut i: usize = 0;
    while i < n
        invariant
            n == arr.len(),
            elems == jview_seq(arr@),
            elems.len() == n,
            forall|k: int| 0 <= k < n ==> elems[k] == jview(arr@[k]),
            0 <= i <= n,
            out@.len() == i,
            forall|k: int| 0 <= k < i ==> out@[k]@ == lvl_text(elems[k]),
        decreases n - i,
    {
        match &arr[i] {
            Json::Str(t) => {
                out.push(t.clone());
            },
            Json::Num(t) => {
                out.push(t.clone());
            },
            _ => {
                out.push(crate::jsonio::json_text(&arr[i]));
            },
        }
        i += 1;
    }
    proof {
        assert(out.deep_view() =~= lvl_texts_of(elems));
    }
    out
}

/// Reads the header's `level_order` field, as `dec_level_order` states.
fn get_level_order(m: &JsonObject) -> (r: Result<Vec<String>, TableError>)
    ensures
        match (r, dec_level_order(m@)) {
            (Ok(v), Ok(sv)) => v.deep_view() == sv,
            (Err(e), Err(d)) => is_schema_err(e, d),
            _ => false,
        },
{
    match m.get("level_order") {
        None => {
            let out: Vec<String> = Vec::new();
            proof {
                assert(out.deep_view() =~= Seq::<Seq<char>>::empty());
            }
            Ok(out)
        },
        Some(v) => match v {
            Json::Null => {
                let out: Vec<String> = Vec::new();
                proof {
                    assert(out.deep_view() =~= Seq::<Seq<char>>::empty());
                }
                Ok(out)
            },
            Json::Arr(items) => Ok(decode_level_items(items)),
            _ => Err(schema_err("level_order", SchemaFault::WrongType)),
        },
    }
}

impl BmsTableHeader {
    /// Decodes a header document, as `dec_header` states: the three required
    /// strings, the normalized course groups and level order, and every
    /// remaining field preserved in `extra`.
    pub fn from_json(j: &Json) -> (r: Result<BmsTableHeader, TableError>)
        ensures
            match (r, dec_header(jview(*j))) {
                (Ok(h), Ok(hv)) => h@ == hv,
                (Err(e), Err(d)) => is_schema_err(e, d),
                _ => false,
            },
    {
        let m = match j {
            Json::Obj(m) => m,
            _ => { return Err(schema_err("header", SchemaFault::WrongType)) },
        };
        let name = match get_req_str(m, "name") {
            Ok(s) => s,
            Err(e) => { return Err(e) },
        };
        let symbol = match get_req_str(m, "symbol") {
            Ok(s) => s,
            Err(e) => { return Err(e) },
        };
        let data_url = match get_req_str(m, "data_url") {
            Ok(s) => s,
            Err(e) => { return Err(e) },
        };
        let course = match get_course_groups(m) {
            Ok(v) => v,
            Err(e) => { return Err(e) },
        };
        let level_order = match get_level_order(m) {
            Ok(v) => v,
            Err(e) => { return Err(e) },
        };
        let extra = extra_fields(m, &NamedSet::Header);
        Ok(BmsTableHeader { name, symbol, data_url, course, level_order, extra })
    }
}

/// Decodes a bare list of chart records, as `dec_collect` of `chart_rs`
/// states.
fn decode_chart_items(arr: &Vec<Json>) -> (r: Result<Vec<ChartItem>, TableError>)
    ensures
        match (r, dec_collect(chart_rs(jview_seq(arr@)))) {
            (Ok(v), Ok(sv)) => v.deep_view() == sv,
            (Err(e), Err(d)) => is_schema_err(e, d),
            _ => false,
        },
{
    let ghost elems = jview_seq(arr@);
    let ghost rs = chart_rs(elems);
    proof {
        lemma_jview_seq(arr@);
        assert forall|k: int| 0 <= k < elems.len() implies rs[k] == dec_chart(elems[k]) by {
            assert(rs[k] == (|w: JsonV| dec_chart(w))(elems[k]));
        }
    }
    let n = arr.len();
    let mut out: Vec<ChartItem> = Vec::new();
    let mut i: usize = 0;
    while i < n
        invariant
            n == arr.len(),
            elems == jview_seq(arr@),
            elems.len() == n,
            forall|k: int| 0 <= k < n ==> elems[k] == jview(arr@[k]),
            rs == chart_rs(elems),
            rs.len() == n,
            forall|k: int| 0 <= k < n ==> rs[k] == dec_chart(elems[k]),
            0 <= i <= n,
            forall|k: int| 0 <= k < i ==> rs[k] is Ok,
            out@.len() == i,
            forall|k: int| 0 <= k < i ==> out@[k]@ == rs[k]->Ok_0,
        decreases n - i,
    {
        match ChartItem::from_json(&arr[i]) {
            Ok(c) => {
                out.push(c);
            },
            Err(e) => {
                proof {
                    assert(rs[i as int] is Err);
                    lemma_dec_collect_err(rs, i as int);
                }
                return Err(e);
            },
        }
        i += 1;
    }
    proof {
        lemma_dec_collect_ok(rs);
        assert(out.deep_view() =~= dec_collect(rs)->Ok_0);
    }
    Ok(out)
}

impl BmsTableData {
    /// Decodes a chart data document, as `dec_data` states: a bare array of
    /// charts, or an object whose `charts` field holds that array.
    pub fn from_json(j: &Json) -> (r: Result<BmsTableData, TableError>)
        ensures
            match (r, dec_data(jview(*j))) {
                (Ok(d), Ok(dv)) => d@ == dv,
                (Err(e), Err(d)) => is_schema_err(e, d),
                _ => false,
            },
    {
        match j {
            Json::Arr(arr) => match decode_chart_items(arr) {
                Ok(cs) => Ok(BmsTableData { charts: cs }),
                Err(e) => Err(e),
            },
            Json::Obj(m) => match m.get("charts") {
                None => Err(schema_err("charts", SchemaFault::MissingField)),
                Some(v) => match v {
                    Json::Arr(arr) => match decode_chart_items(arr) {
                        Ok(cs) => Ok(BmsTableData { charts: cs }),
                        Err(e) => Err(e),
                    },
                    _ => Err(schema_err("charts", SchemaFault::WrongType)),
                },
            },
            _ => Err(schema_err("data", SchemaFault::WrongType)),
        }
    }
}

impl BmsTableInfo {
    /// Decodes one index entry, as `dec_info0` states: `url` must be a
    /// string holding a valid URL, whose normalized text is kept.
    pub fn from_json(j: &Json) -> (r: Result<BmsTableInfo, TableError>)
        ensures
            match (r, dec_info0(jview(*j))) {
                (Ok(x), Ok(xv)) => x@ == xv,
                (Err(e), Err(d)) => is_schema_err(e, d),
                _ => false,
            },
    {
        let m = match j {
            Json::Obj(m) => m,
            _ => { return Err(schema_err("entry", SchemaFault::WrongType)) },
        };
        let name = match get_req_str(m, "name") {
            Ok(s) => s,
            Err(e) => { return Err(e) },
        };
        let symbol = match get_req_str(m, "symbol") {
            Ok(s) => s,
            Err(e) => { return Err(e) },
        };
        let u = match get_req_str(m, "url") {
            Ok(s) => s,
            Err(e) => { return Err(e) },
        };
        let url = match crate::urls::url_parse(u.as_str()) {
            Some(t) => t,
            None => { return Err(schema_err("url", SchemaFault::WrongType)) },
        };
        let extra = extra_fields(m, &NamedSet::Info);
        Ok(BmsTableInfo { name, symbol, url, extra })
    }
}

impl BmsTableList {
    /// Decodes an index document, as `dec_list` states: a bare array of
    /// entries, each failure naming the offending entry's position.
    pub fn from_json(j: &Json) -> (r: Result<BmsTableList, TableError>)
        ensures
            match (r, dec_list(jview(*j))) {
                (Ok(l), Ok(lv)) => l@ == lv,
                (Err(e), Err(d)) => is_schema_err(e, d),
                _ => false,
            },
    {
        let arr = match j {
            Json::Arr(a) => a,
            _ => { return Err(schema_err("list", SchemaFault::WrongType)) },
        };
        let ghost elems = jview_seq(arr@);
        let ghost rs = info_rs(elems);
        proof {
            lemma_jview_seq(arr@);
            assert forall|k: int| 0 <= k < elems.len() implies rs[k] == dec_info(
                elems[k],
                k,
            ) by {
                assert(rs[k] == (|i: int| dec_info(elems[i], i))(k));
            }
        }
        let n = arr.len();
        let mut out: Vec<BmsTableInfo> = Vec::new();
        let mut i: usize = 0;
        while i < n
            invariant
                *j == Json::Arr(*arr),
                n == arr.len(),
                elems == jview_seq(arr@),
                elems.len() == n,
                forall|k: int| 0 <= k < n ==> elems[k] == jview(arr@[k]),
                rs == info_rs(elems),
                rs.len() == n,
                forall|k: int| 0 <= k < n ==> rs[k] == dec_info(elems[k], k),
                0 <= i <= n,
                forall|k: int| 0 <= k < i ==> rs[k] is Ok,
                out@.len() == i,
                forall|k: int| 0 <= k < i ==> out@[k]@ == rs[k]->Ok_0,
            decreases n - i,
        {
            match BmsTableInfo::from_json(&arr[i]) {
                Ok(x) => {
                    out.push(x);
                },
                Err(e) => {
                    proof {
                        assert(rs[i as int] is Err);
                        lemma_dec_collect_err(rs, i as int);
                    }
                    match e {
                        TableError::SchemaViolation { path, fault, .. } => {
                            return Err(
                                TableError::SchemaViolation { path, index: Some(i), fault },
                            );
                        },
                        _ => {
                            proof {
                                assert(false);
                            }
                            return Err(e);
                        },
                    }
                },
            }
            i += 1;
        }
        proof {
            lemma_dec_collect_ok(rs);
            assert(out.deep_view() =~= dec_collect(rs)->Ok_0);
        }
        Ok(BmsTableList { listes: out })
    }
}

impl BmsTableHeader {
    /// Decodes a header from JSON text: the text must be well-formed JSON,
    /// then `dec_header` runs on the value.
    pub fn from_json_str(s: &str) -> (r: Result<BmsTableHeader, TableError>)
        ensures
            match (r, crate::jsonio::spec_parse_json(s@)) {
                (Err(e), None) => e matches TableError::MalformedDocument { .. },
                (Ok(h), Some(jv)) => dec_header(jv) == Ok::<HeaderV, DecErr>(h@),
                (Err(e), Some(jv)) => dec_header(jv) matches Err(d) && is_schema_err(e, d),
                _ => false,
            },
    {
        match crate::jsonio::parse_json_text(s) {
            Err(c) => Err(
                TableError::MalformedDocument { raw_cause: c, sanitized_cause: String::new() },
            ),
            Ok(j) => BmsTableHeader::from_json(&j),
        }
    }
}

impl BmsTableData {
    /// Decodes chart data from JSON text: the text must be well-formed JSON,
    /// then `dec_data` runs on the value.
    pub fn from_json_str(s: &str) -> (r: Result<BmsTableData, TableError>)
        ensures
            match (r, crate::jsonio::spec_parse_json(s@)) {
                (Err(e), None) => e matches TableError::MalformedDocument { .. },
                (Ok(d), Some(jv)) => dec_data(jv) == Ok::<Seq<ChartV>, DecErr>(d@),
                (Err(e), Some(jv)) => dec_data(jv) matches Err(d) && is_schema_err(e, d),
                _ => false,
            },
    {
        match crate::jsonio::parse_json_text(s) {
            Err(c) => Err(
                TableError::MalformedDocument { raw_cause: c, sanitized_cause: String::new() },
            ),
            Ok(j) => BmsTableData::from_json(&j),
        }
    }
}

impl CourseInfo {
    /// Decodes a course from JSON text: the text must be well-formed JSON,
    /// then `dec_course` runs on the value.
    pub fn from_json_str(s: &str) -> (r: Result<CourseInfo, TableError>)
        ensures
            match (r, crate::jsonio::spec_parse_json(s@)) {
                (Err(e), None) => e matches TableError::MalformedDocument { .. },
                (Ok(c), Some(jv)) => dec_course(jv) == Ok::<CourseV, DecErr>(c@),
                (Err(e), Some(jv)) => dec_course(jv) matches Err(d) && is_schema_err(e, d),
                _ => false,
            },
    {
        match crate::jsonio::parse_json_text(s) {
            Err(c) => Err(
                TableError::MalformedDocument { raw_cause: c, sanitized_cause: String::new() },
            ),
            Ok(j) => CourseInfo::from_json(&j),
        }
    }
}

impl BmsTableList {
    /// Decodes a table index from JSON text: the text must be well-formed
    /// JSON, then `dec_list` runs on the value.
    pub fn from_json_str(s: &str) -> (r: Result<BmsTableList, TableError>)
        ensures
            match (r, crate::jsonio::spec_parse_json(s@)) {
                (Err(e), None) => e matches TableError::MalformedDocument { .. },
                (Ok(l), Some(jv)) => dec_list(jv) == Ok::<Seq<InfoV>, DecErr>(l@),
                (Err(e), Some(jv)) => dec_list(jv) matches Err(d) && is_schema_err(e, d),
                _ => false,
            },
    {
        match crate::jsonio::parse_json_text(s) {
            Err(c) => Err(
                TableError::MalformedDocument { raw_cause: c, sanitized_cause: String::new() },
            ),
            Ok(j) => BmsTableList::from_json(&j),
        }
    }
}

} // verus!
