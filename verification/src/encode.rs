//! Canonical encoding of the model back into JSON values: the mathematical
//! encoders, and the verified executable encoders that match them.
//!
//! The canonical shape writes the named fields first, each optional chart
//! field only when present, and the preserved `extra` fields flattened at the
//! end — the exact inverse of the decoders on well-formed values.
use vstd::prelude::*;

use crate::json::{Json, JsonObject, JsonV, jview, jview_seq, lemma_jview_entries};
use crate::{
    BmsTableData, BmsTableHeader, BmsTableInfo, BmsTableList, ChartItem, ChartV, CourseInfo,
    CourseV, HeaderV, InfoV, Trophy, TrophyV,
};

verus! {

/// The field an optional chart text becomes: present values only.
pub open spec fn opt_field(key: Seq<char>, v: Option<Seq<char>>) -> Seq<(Seq<char>, JsonV)> {
    match v {
        Some(s) => seq![(key, JsonV::Str(s))],
        None => Seq::empty(),
    }
}

/// Encodes one chart record.
pub open spec fn enc_chart(c: ChartV) -> JsonV {
    JsonV::Obj(
        seq![("level"@, JsonV::Str(c.level))] + (opt_field("md5"@, c.md5) + (opt_field(
            "sha256"@,
            c.sha256,
        ) + (opt_field("title"@, c.title) + (opt_field("subtitle"@, c.subtitle) + (opt_field(
            "artist"@,
            c.artist,
        ) + (opt_field("subartist"@, c.subartist) + (opt_field("url"@, c.url) + (opt_field(
            "url_diff"@,
            c.url_diff,
        ) + c.extra)))))))),
    )
}

/// Encodes one trophy.
pub open spec fn enc_trophy(t: TrophyV) -> JsonV {
    JsonV::Obj(
        seq![
            ("name"@, JsonV::Str(t.name)),
            ("missrate"@, JsonV::Num(t.missrate)),
            ("scorerate"@, JsonV::Num(t.scorerate)),
        ],
    )
}

/// A list of texts as JSON strings, in order.
pub open spec fn strs_json(ss: Seq<Seq<char>>) -> Seq<JsonV> {
    Seq::new(ss.len(), |i: int| JsonV::Str(ss[i]))
}

/// A list of trophies as JSON values, in order.
pub open spec fn trophies_json(ts: Seq<TrophyV>) -> Seq<JsonV> {
    Seq::new(ts.len(), |i: int| enc_trophy(ts[i]))
}

/// A list of charts as JSON values, in order.
pub open spec fn charts_json(cs: Seq<ChartV>) -> Seq<JsonV> {
    Seq::new(cs.len(), |i: int| enc_chart(cs[i]))
}

/// Encodes one course: name, constraints, trophies and its full chart list.
pub open spec fn enc_course(c: CourseV) -> JsonV {
    JsonV::Obj(
        seq![
            ("name"@, JsonV::Str(c.name)),
            ("constraint"@, JsonV::Arr(strs_json(c.constraint))),
            ("trophy"@, JsonV::Arr(trophies_json(c.trophy))),
            ("charts"@, JsonV::Arr(charts_json(c.charts))),
        ],
    )
}

/// A list of courses as JSON values, in order.
pub open spec fn courses_json(cs: Seq<CourseV>) -> Seq<JsonV> {
    Seq::new(cs.len(), |i: int| enc_course(cs[i]))
}

/// Course groups as a nested JSON array, group for group.
pub open spec fn groups_json(gs: Seq<Seq<CourseV>>) -> Seq<JsonV> {
    Seq::new(gs.len(), |i: int| JsonV::Arr(courses_json(gs[i])))
}

/// Encodes a header: the five named fields, then `extra` flattened.
pub open spec fn enc_header(h: HeaderV) -> JsonV {
    JsonV::Obj(
        seq![
            ("name"@, JsonV::Str(h.name)),
            ("symbol"@, JsonV::Str(h.symbol)),
            ("data_url"@, JsonV::Str(h.data_url)),
            ("course"@, JsonV::Arr(groups_json(h.course))),
            ("level_order"@, JsonV::Arr(strs_json(h.level_order))),
        ] + h.extra,
    )
}

/// Encodes chart data as a bare array of chart records.
pub open spec fn enc_data(d: Seq<ChartV>) -> JsonV {
    JsonV::Arr(charts_json(d))
}

/// Encodes one index entry: the three named fields, then `extra` flattened.
pub open spec fn enc_info(x: InfoV) -> JsonV {
    JsonV::Obj(
        seq![
            ("name"@, JsonV::Str(x.name)),
            ("symbol"@, JsonV::Str(x.symbol)),
            ("url"@, JsonV::Str(x.url)),
        ] + x.extra,
    )
}

/// A table index as a bare array of entries.
pub open spec fn enc_list(xs: Seq<InfoV>) -> JsonV {
    JsonV::Arr(Seq::new(xs.len(), |i: int| enc_info(xs[i])))
}

/// Appends one field to an object under construction.
fn push_field(obj: &mut JsonObject, key: &str, value: Json)
    ensures
        final(obj)@ == old(obj)@ + seq![(key@, jview(value))],
{
    obj.push(key.to_owned(), value);
    proof {
        assert(obj@ =~= old(obj)@ + seq![(key@, jview(value))]);
    }
}

/// Appends an optional text field to an object under construction, only when
/// it is present.
fn push_opt_field(obj: &mut JsonObject, key: &str, v: &Option<String>)
    ensures
        final(obj)@ == old(obj)@ + opt_field(key@, v.deep_view()),
{
    match v {
        Some(s) => {
            push_field(obj, key, Json::Str(s.clone()));
        },
        None => {
            proof {
                assert(obj@ =~= old(obj)@ + opt_field(key@, v.deep_view()));
            }
        },
    }
}

/// Appends every preserved `extra` field to an object under construction.
fn push_extra(obj: &mut JsonObject, extra: &JsonObject)
    ensures
        final(obj)@ == old(obj)@ + extra@,
{
    proof {
        lemma_jview_entries(extra.entries@);
    }
    let n = extra.entries.len();
    let mut i: usize = 0;
    while i < n
        invariant
            n == extra.entries.len(),
            extra@.len() == n,
            forall|k: int|
                0 <= k < n ==> extra@[k] == (extra.entries@[k].0@, jview(extra.entries@[k].1)),
            0 <= i <= n,
            obj@ == old(obj)@ + extra@.take(i as int),
        decreases n - i,
    {
        let key = extra.entries[i].0.clone();
        let val = crate::json::clone_json(&extra.entries[i].1);
        obj.push(key, val);
        i += 1;
        proof {
            assert(extra@.take(i as int) =~= extra@.take(i - 1).push(extra@[i - 1]));
            assert(obj@ =~= old(obj)@ + extra@.take(i as int));
        }
    }
    proof {
        assert(extra@.take(n as int) =~= extra@);
        assert(obj@ =~= old(obj)@ + extra@);
    }
}

impl Trophy {
    /// Encodes this trophy, as `enc_trophy` states.
    pub fn to_json(&self) -> (r: Json)
        ensures
            jview(r) == enc_trophy(self@),
    {
        let mut obj = JsonObject::new();
        push_field(&mut obj, "name", Json::Str(self.name.clone()));
        push_field(&mut obj, "missrate", Json::Num(self.missrate.clone()));
        push_field(&mut obj, "scorerate", Json::Num(self.scorerate.clone()));
        proof {
            assert(obj@ =~= enc_trophy(self@)->Obj_0);
        }
        Json::Obj(obj)
    }
}

impl ChartItem {
    /// Encodes this chart record, as `enc_chart` states: `level`, then each
    /// optional field only when present, then `extra` flattened.
    #[verifier::rlimit(100)]
    pub fn to_json(&self) -> (r: Json)
        ensures
            jview(r) == enc_chart(self@),
    {
        let mut obj = JsonObject::new();
        push_field(&mut obj, "level", Json::Str(self.level.clone()));
        push_opt_field(&mut obj, "md5", &self.md5);
        push_opt_field(&mut obj, "sha256", &self.sha256);
        push_opt_field(&mut obj, "title", &self.title);
        push_opt_field(&mut obj, "subtitle", &self.subtitle);
        push_opt_field(&mut obj, "artist", &self.artist);
        push_opt_field(&mut obj, "subartist", &self.subartist);
        push_opt_field(&mut obj, "url", &self.url);
        push_opt_field(&mut obj, "url_diff", &self.url_diff);
        push_extra(&mut obj, &self.extra);
        proof {
            assert(obj@ =~= enc_chart(self@)->Obj_0);
        }
        Json::Obj(obj)
    }
}

/// Encodes a list of charts, as `charts_json` states.
fn charts_to_json(cs: &Vec<ChartItem>) -> (r: Vec<Json>)
    ensures
        jview_seq(r@) == charts_json(cs.deep_view()),
{
    let n = cs.len();
    let mut out: Vec<Json> = Vec::new();
    let mut i: usize = 0;
    while i < n
        invariant
            n == cs.len(),
            0 <= i <= n,
            out@.len() == i,
            forall|k: int| 0 <= k < i ==> jview(out@[k]) == enc_chart(cs@[k]@),
        decreases n - i,
    {
        let c = cs[i].to_json();
        out.push(c);
        i += 1;
    }
    proof {
        crate::json::lemma_jview_seq(out@);
        assert(jview_seq(out@) =~= charts_json(cs.deep_view()));
    }
    out
}

impl CourseInfo {
    /// Encodes this course, as `enc_course` states.
    pub fn to_json(&self) -> (r: Json)
        ensures
            jview(r) == enc_course(self@),
    {
        let mut obj = JsonObject::new();
        push_field(&mut obj, "name", Json::Str(self.name.clone()));

        let nc = self.constraint.len();
        let mut cons: Vec<Json> = Vec::new();
        let mut i: usize = 0;
        while i < nc
            invariant
                nc == self.constraint.len(),
                0 <= i <= nc,
                cons@.len() == i,
                forall|k: int|
                    0 <= k < i ==> jview(cons@[k]) == JsonV::Str(self.constraint@[k]@),
            decreases nc - i,
        {
            cons.push(Json::Str(self.constraint[i].clone()));
            i += 1;
        }
        proof {
            crate::json::lemma_jview_seq(cons@);
            assert(jview_seq(cons@) =~= strs_json(self.constraint.deep_view()));
        }
        push_field(&mut obj, "constraint", Json::Arr(cons));

        let nt = self.trophy.len();
        let mut tros: Vec<Json> = Vec::new();
        let mut i2: usize = 0;
        while i2 < nt
            invariant
                nt == self.trophy.len(),
                0 <= i2 <= nt,
                tros@.len() == i2,
                forall|k: int| 0 <= k < i2 ==> jview(tros@[k]) == enc_trophy(self.trophy@[k]@),
            decreases nt - i2,
        {
            let t = self.trophy[i2].to_json();
            tros.push(t);
            i2 += 1;
        }
        proof {
            crate::json::lemma_jview_seq(tros@);
            assert(jview_seq(tros@) =~= trophies_json(self.trophy.deep_view()));
        }
        push_field(&mut obj, "trophy", Json::Arr(tros));

        let chs = charts_to_json(&self.charts);
        push_field(&mut obj, "charts", Json::Arr(chs));
        proof {
            assert(obj@ =~= enc_course(self@)->Obj_0);
        }
        Json::Obj(obj)
    }
}

/// Encodes a list of texts as JSON strings, as `strs_json` states.
fn strings_to_json(ss: &Vec<String>) -> (r: Vec<Json>)
    ensures
        jview_seq(r@) == strs_json(ss.deep_view()),
{
    let n = ss.len();
    let mut out: Vec<Json> = Vec::new();
    let mut i: usize = 0;
    while i < n
        invariant
            n == ss.len(),
            0 <= i <= n,
            out@.len() == i,
            forall|k: int| 0 <= k < i ==> jview(out@[k]) == JsonV::Str(ss@[k]@),
        decreases n - i,
    {
        out.push(Json::Str(ss[i].clone()));
        i += 1;
    }
    proof {
        crate::json::lemma_jview_seq(out@);
        assert(jview_seq(out@) =~= strs_json(ss.deep_view()));
    }
    out
}

impl BmsTableHeader {
    /// Encodes this header, as `enc_header` states: the five named fields,
    /// then `extra` flattened at top level.
    pub fn to_json(&self) -> (r: Json)
        ensures
            jview(r) == enc_header(self@),
    {
        let mut obj = JsonObject::new();
        push_field(&mut obj, "name", Json::Str(self.name.clone()));
        push_field(&mut obj, "symbol", Json::Str(self.symbol.clone()));
        push_field(&mut obj, "data_url", Json::Str(self.data_url.clone()));

        let ng = self.course.len();
        let mut groups: Vec<Json> = Vec::new();
        let mut i: usize = 0;
        while i < ng
            invariant
                ng == self.course.len(),
                0 <= i <= ng,
                groups@.len() == i,
                forall|k: int|
                    0 <= k < i ==> jview(groups@[k]) == JsonV::Arr(
                        courses_json(self.course@[k].deep_view()),
                    ),
            decreases ng - i,
        {
            let nc = self.course[i].len();
            let mut cs: Vec<Json> = Vec::new();
            let mut k2: usize = 0;
            while k2 < nc
                invariant
                    0 <= i < ng,
                    ng == self.course.len(),
                    nc == self.course[i as int].len(),
                    0 <= k2 <= nc,
                    cs@.len() == k2,
                    forall|k: int|
                        0 <= k < k2 ==> jview(cs@[k]) == enc_course(self.course@[i as int]@[k]@),
                decreases nc - k2,
            {
                let c = self.course[i][k2].to_json();
                cs.push(c);
                k2 += 1;
            }
            proof {
                crate::json::lemma_jview_seq(cs@);
                assert(jview_seq(cs@) =~= courses_json(self.course@[i as int].deep_view()));
            }
            groups.push(Json::Arr(cs));
            i += 1;
        }
        proof {
            crate::json::lemma_jview_seq(groups@);
            assert(jview_seq(groups@) =~= groups_json(self.course.deep_view()));
        }
        push_field(&mut obj, "course", Json::Arr(groups));

        let lo = strings_to_json(&self.level_order);
        push_field(&mut obj, "level_order", Json::Arr(lo));
        push_extra(&mut obj, &self.extra);
        proof {
            assert(obj@ =~= enc_header(self@)->Obj_0);
        }
        Json::Obj(obj)
    }
}

impl BmsTableData {
    /// Encodes the chart list as a bare JSON array, as `enc_data` states.
    pub fn to_json(&self) -> (r: Json)
        ensures
            jview(r) == enc_data(self@),
    {
        let cs = charts_to_json(&self.charts);
        Json::Arr(cs)
    }
}

impl BmsTableInfo {
    /// Encodes this index entry, as `enc_info` states.
    pub fn to_json(&self) -> (r: Json)
        ensures
            jview(r) == enc_info(self@),
    {
        let mut obj = JsonObject::new();
        push_field(&mut obj, "name", Json::Str(self.name.clone()));
        push_field(&mut obj, "symbol", Json::Str(self.symbol.clone()));
        push_field(&mut obj, "url", Json::Str(self.url.clone()));
        push_extra(&mut obj, &self.extra);
        proof {
            assert(obj@ =~= enc_info(self@)->Obj_0);
        }
        Json::Obj(obj)
    }
}

impl BmsTableList {
    /// Encodes the index as a bare JSON array of entries, as `enc_list`
    /// states.
    pub fn to_json(&self) -> (r: Json)
        ensures
            jview(r) == enc_list(self@),
    {
        let n = self.listes.len();
        let mut out: Vec<Json> = Vec::new();
        let mut i: usize = 0;
        while i < n
            invariant
                n == self.listes.len(),
                0 <= i <= n,
                out@.len() == i,
                forall|k: int| 0 <= k < i ==> jview(out@[k]) == enc_info(self.listes@[k]@),
            decreases n - i,
        {
            let x = self.listes[i].to_json();
            out.push(x);
            i += 1;
        }
        proof {
            crate::json::lemma_jview_seq(out@);
            assert(jview_seq(out@) =~= enc_list(self@)->Arr_0);
        }
        Json::Arr(out)
    }
}

impl BmsTableHeader {
    /// The canonical JSON text of this header: the canonical encoding,
    /// printed by the JSON writer.
    pub fn to_json_text(&self) -> (r: String)
        ensures
            r@ == crate::jsonio::spec_json_text(enc_header(self@)),
    {
        let j = self.to_json();
        crate::jsonio::json_text(&j)
    }
}

impl BmsTableData {
    /// The canonical JSON text of the chart list.
    pub fn to_json_text(&self) -> (r: String)
        ensures
            r@ == crate::jsonio::spec_json_text(enc_data(self@)),
    {
        let j = self.to_json();
        crate::jsonio::json_text(&j)
    }
}

impl BmsTableList {
    /// The canonical JSON text of the table index.
    pub fn to_json_text(&self) -> (r: String)
        ensures
            r@ == crate::jsonio::spec_json_text(enc_list(self@)),
    {
        let j = self.to_json();
        crate::jsonio::json_text(&j)
    }
}

} // verus!
