//! The laws the decoders and encoders obey, stated and proved over the
//! mathematical decoders: shape normalization of the `course` field, hash
//! lists becoming synthetic charts, the `level` rules, empty-string
//! normalization, and the round trip from canonical encoding back through
//! decoding.
use vstd::prelude::*;

use crate::decode::{
    NamedSet, chart_named, chart_rs, course_chart_rs, course_rs, dec_chart, dec_collect,
    dec_course, dec_course_charts, dec_course_group, dec_course_groups, dec_data, dec_header,
    dec_level_order, dec_list, dec_str_elem, dec_str_list, dec_trophy, dec_trophy_list, err_at,
    extra_entries, group_rs, header_named, info_named, lvl_texts_of, md5_chart, md5_charts_of,
    named_in, sha256_charts_of, str_list_rs, trophy_list_rs, with_default_level,
};
use crate::errors::{DecErr, SchemaFault};
use crate::json::{JsonV, lemma_obj_get_at, lemma_obj_get_skip, obj_get_v, obj_has_v};
use crate::{ChartV, CourseV, HeaderV, TrophyV};

verus! {

/// Law: a flat `course` array of N course objects decodes to a single group
/// holding their decodings, in order.
pub proof fn lemma_course_flat_single_group(m: Seq<(Seq<char>, JsonV)>, elems: Seq<JsonV>)
    requires
        obj_get_v(m, "course"@) == Some(JsonV::Arr(elems)),
        elems.len() > 0,
        !(elems[0] is Arr),
        forall|k: int| 0 <= k < elems.len() ==> (#[trigger] dec_course(elems[k])) is Ok,
    ensures
        dec_course_groups(m) is Ok,
        dec_course_groups(m)->Ok_0.len() == 1,
        dec_course_groups(m)->Ok_0[0].len() == elems.len(),
        forall|k: int|
            0 <= k < elems.len() ==> dec_course_groups(m)->Ok_0[0][k] == dec_course(
                elems[k],
            )->Ok_0,
{
    let rs = course_rs(elems);
    assert forall|k: int| 0 <= k < elems.len() implies (#[trigger] rs[k]) == dec_course(
        elems[k],
    ) by {
        assert(rs[k] == (|w: JsonV| dec_course(w))(elems[k]));
    }
    crate::decode::lemma_dec_collect_ok(rs);
}

/// Law: a nested `course` array of arrays decodes to those groups unchanged,
/// group for group; and each group's courses decode element for element.
pub proof fn lemma_course_nested_groups_kept(m: Seq<(Seq<char>, JsonV)>, elems: Seq<JsonV>)
    requires
        obj_get_v(m, "course"@) == Some(JsonV::Arr(elems)),
        elems.len() > 0,
        elems[0] is Arr,
        forall|k: int| 0 <= k < elems.len() ==> (#[trigger] dec_course_group(elems[k])) is Ok,
    ensures
        dec_course_groups(m) is Ok,
        dec_course_groups(m)->Ok_0.len() == elems.len(),
        forall|k: int|
            0 <= k < elems.len() ==> dec_course_groups(m)->Ok_0[k] == dec_course_group(
                elems[k],
            )->Ok_0,
{
    let rs = group_rs(elems);
    assert forall|k: int| 0 <= k < elems.len() implies (#[trigger] rs[k]) == dec_course_group(
        elems[k],
    ) by {
        assert(rs[k] == (|w: JsonV| dec_course_group(w))(elems[k]));
    }
    crate::decode::lemma_dec_collect_ok(rs);
}

/// One group of a nested `course` array decodes element for element.
pub proof fn lemma_course_group_elementwise(inner: Seq<JsonV>)
    requires
        forall|k: int| 0 <= k < inner.len() ==> (#[trigger] dec_course(inner[k])) is Ok,
    ensures
        dec_course_group(JsonV::Arr(inner)) is Ok,
        dec_course_group(JsonV::Arr(inner))->Ok_0.len() == inner.len(),
        forall|k: int|
            0 <= k < inner.len() ==> dec_course_group(JsonV::Arr(inner))->Ok_0[k] == dec_course(
                inner[k],
            )->Ok_0,
{
    let rs = course_rs(inner);
    assert forall|k: int| 0 <= k < inner.len() implies (#[trigger] rs[k]) == dec_course(
        inner[k],
    ) by {
        assert(rs[k] == (|w: JsonV| dec_course(w))(inner[k]));
    }
    crate::decode::lemma_dec_collect_ok(rs);
}

/// Law: a missing, null or empty `course` field decodes to one empty group,
/// never to zero groups.
pub proof fn lemma_course_missing_or_empty_one_group(m: Seq<(Seq<char>, JsonV)>)
    requires
        ({
            ||| obj_get_v(m, "course"@) is None
            ||| obj_get_v(m, "course"@) == Some(JsonV::Null)
            ||| obj_get_v(m, "course"@) == Some(JsonV::Arr(Seq::<JsonV>::empty()))
        }),
    ensures
        dec_course_groups(m) == Ok::<Seq<Seq<CourseV>>, DecErr>(seq![Seq::<CourseV>::empty()]),
{
}

/// Law: a course carrying only a `md5` hash list decodes to one synthetic
/// chart per hash, in order, each with level `"0"`, that hash, and nothing
/// else.
pub proof fn lemma_md5_list_synthetic_charts(m: Seq<(Seq<char>, JsonV)>, hs: Seq<JsonV>)
    requires
        obj_get_v(m, "charts"@) is None,
        obj_get_v(m, "sha256"@) is None,
        obj_get_v(m, "md5"@) == Some(JsonV::Arr(hs)),
        forall|k: int| 0 <= k < hs.len() ==> (#[trigger] hs[k]) is Str,
    ensures
        dec_course_charts(m) is Ok,
        dec_course_charts(m)->Ok_0.len() == hs.len(),
        forall|k: int|
            0 <= k < hs.len() ==> dec_course_charts(m)->Ok_0[k] == md5_chart(hs[k]->Str_0),
{
    let rs = str_list_rs(hs, "md5"@);
    assert forall|k: int| 0 <= k < hs.len() implies (#[trigger] rs[k]) == dec_str_elem(
        hs[k],
        "md5"@,
    ) by {
        assert(rs[k] == (|w: JsonV| dec_str_elem(w, "md5"@))(hs[k]));
    }
    crate::decode::lemma_dec_collect_ok(rs);
    let texts = dec_collect(rs)->Ok_0;
    assert(dec_course_charts(m) == Ok::<Seq<ChartV>, DecErr>(
        Seq::<ChartV>::empty() + md5_charts_of(texts) + sha256_charts_of(Seq::empty()),
    ));
    assert(sha256_charts_of(Seq::empty()) =~= Seq::<ChartV>::empty());
    assert forall|k: int|
        0 <= k < hs.len() implies dec_course_charts(m)->Ok_0[k] == md5_chart(hs[k]->Str_0) by {
        assert(md5_charts_of(texts)[k] == md5_chart(texts[k]));
        assert((Seq::<ChartV>::empty() + md5_charts_of(texts) + Seq::<ChartV>::empty())[k]
            == md5_charts_of(texts)[k]);
    }
}

/// Law: a chart record without a `level` field fails to decode with a
/// missing-field schema violation at `level`.
pub proof fn lemma_chart_missing_level(m: Seq<(Seq<char>, JsonV)>)
    requires
        !obj_has_v(m, "level"@),
    ensures
        dec_chart(JsonV::Obj(m)) == Err::<ChartV, DecErr>(
            err_at("level"@, SchemaFault::MissingField),
        ),
{
}

/// Law: a numeric `level` decodes to its decimal text.
pub proof fn lemma_chart_numeric_level(m: Seq<(Seq<char>, JsonV)>, n: Seq<char>)
    requires
        obj_get_v(m, "level"@) == Some(JsonV::Num(n)),
        dec_chart(JsonV::Obj(m)) is Ok,
    ensures
        dec_chart(JsonV::Obj(m))->Ok_0.level == n,
{
}

/// Law: a `title` decoded from the empty string is absent, never
/// `Some("")`.
pub proof fn lemma_chart_empty_title_absent(m: Seq<(Seq<char>, JsonV)>)
    requires
        obj_get_v(m, "title"@) matches Some(JsonV::Str(t)) && t.len() == 0,
    ensures
        dec_chart(JsonV::Obj(m)) matches Ok(c) ==> c.title is None,
{
}

/// Field lookup passes over a whole segment free of the key.
proof fn lemma_obj_get_skip_seg(
    a: Seq<(Seq<char>, JsonV)>,
    b: Seq<(Seq<char>, JsonV)>,
    key: Seq<char>,
)
    requires
        forall|k: int| 0 <= k < a.len() ==> (#[trigger] a[k]).0 != key,
    ensures
        obj_get_v(a + b, key) == obj_get_v(b, key),
    decreases a.len(),
{
    if a.len() > 0 {
        assert((a + b)[0] == a[0]);
        assert((a + b).drop_first() =~= a.drop_first() + b);
        lemma_obj_get_skip_seg(a.drop_first(), b, key);
    } else {
        assert(a + b =~= b);
    }
}

/// Field lookup finds a key standing at the head.
proof fn lemma_obj_get_found(key: Seq<char>, v: JsonV, b: Seq<(Seq<char>, JsonV)>)
    ensures
        obj_get_v(seq![(key, v)] + b, key) == Some(v),
{
    assert((seq![(key, v)] + b)[0] == (key, v));
}

/// The `extra` capture distributes over concatenation.
proof fn lemma_extra_entries_append(
    a: Seq<(Seq<char>, JsonV)>,
    b: Seq<(Seq<char>, JsonV)>,
    which: NamedSet,
)
    ensures
        extra_entries(a + b, which) == extra_entries(a, which) + extra_entries(b, which),
    decreases a.len(),
{
    if a.len() == 0 {
        assert(a + b =~= b);
        assert(extra_entries(a, which) + extra_entries(b, which) =~= extra_entries(b, which));
    } else {
        assert((a + b)[0] == a[0]);
        assert((a + b).len() > 0);
        assert((a + b).drop_first() =~= a.drop_first() + b);
        lemma_extra_entries_append(a.drop_first(), b, which);
        if named_in(which, a[0].0) {
        } else {
            assert(seq![a[0]] + (extra_entries(a.drop_first(), which) + extra_entries(b, which))
                =~= (seq![a[0]] + extra_entries(a.drop_first(), which)) + extra_entries(
                b,
                which,
            ));
        }
    }
}

/// The `extra` capture drops a segment made of named fields entirely.
proof fn lemma_extra_entries_named_empty(a: Seq<(Seq<char>, JsonV)>, which: NamedSet)
    requires
        forall|k: int| 0 <= k < a.len() ==> named_in(which, (#[trigger] a[k]).0),
    ensures
        extra_entries(a, which) == Seq::<(Seq<char>, JsonV)>::empty(),
    decreases a.len(),
{
    if a.len() > 0 {
        assert(named_in(which, a[0].0));
        lemma_extra_entries_named_empty(a.drop_first(), which);
    }
}

/// The `extra` capture keeps a segment free of named fields verbatim.
proof fn lemma_extra_entries_unnamed_id(a: Seq<(Seq<char>, JsonV)>, which: NamedSet)
    requires
        forall|k: int| 0 <= k < a.len() ==> !named_in(which, (#[trigger] a[k]).0),
    ensures
        extra_entries(a, which) == a,
    decreases a.len(),
{
    if a.len() > 0 {
        assert(!named_in(which, a[0].0));
        lemma_extra_entries_unnamed_id(a.drop_first(), which);
        assert(seq![a[0]] + a.drop_first() =~= a);
    }
}

/// A well-formed optional chart text: never the empty string.
pub open spec fn opt_wf(v: Option<Seq<char>>) -> bool {
    match v {
        Some(t) => t.len() > 0,
        None => true,
    }
}

/// A chart the decoders can produce: optional fields are never empty
/// strings, and `extra` holds no named field.
pub open spec fn chart_wf(c: ChartV) -> bool {
    &&& opt_wf(c.md5)
    &&& opt_wf(c.sha256)
    &&& opt_wf(c.title)
    &&& opt_wf(c.subtitle)
    &&& opt_wf(c.artist)
    &&& opt_wf(c.subartist)
    &&& opt_wf(c.url)
    &&& opt_wf(c.url_diff)
    &&& forall|k: int| 0 <= k < c.extra.len() ==> !chart_named((#[trigger] c.extra[k]).0)
}

/// A course the decoders can produce: every chart is well-formed.
pub open spec fn course_wf(c: CourseV) -> bool {
    forall|k: int| 0 <= k < c.charts.len() ==> chart_wf(#[trigger] c.charts[k])
}

/// A header the decoders can produce: at least one course group, every
/// course well-formed, and `extra` holds no named field.
pub open spec fn header_wf(h: HeaderV) -> bool {
    &&& h.course.len() > 0
    &&& forall|g: int, k: int|
        0 <= g < h.course.len() && 0 <= k < h.course[g].len() ==> course_wf(
            #[trigger] h.course[g][k],
        )
    &&& forall|k: int| 0 <= k < h.extra.len() ==> !header_named((#[trigger] h.extra[k]).0)
}

/// Law: a trophy decodes back from its canonical encoding unchanged.
pub proof fn lemma_trophy_round_trip(t: TrophyV)
    ensures
        dec_trophy(crate::encode::enc_trophy(t)) == Ok::<TrophyV, DecErr>(t),
{
    reveal_strlit("name");
    reveal_strlit("missrate");
    reveal_strlit("scorerate");
    let fields = crate::encode::enc_trophy(t)->Obj_0;
    assert(fields[0].0 == "name"@);
    assert(fields[1].0 == "missrate"@);
    assert(fields[2].0 == "scorerate"@);
    assert("name"@.len() == 4 && "missrate"@.len() == 8 && "scorerate"@.len() == 9);
    lemma_obj_get_at(fields, "name"@, 0);
    lemma_obj_get_at(fields, "missrate"@, 1);
    lemma_obj_get_at(fields, "scorerate"@, 2);
}

/// What an encoded chart object holds under each key: the named fields as
/// the chart has them, and everything else as its `extra` holds it.
pub open spec fn chart_field_lookup(c: ChartV, key: Seq<char>) -> Option<JsonV> {
    if key == "level"@ {
        Some(JsonV::Str(c.level))
    } else if key == "md5"@ {
        match c.md5 { Some(s) => Some(JsonV::Str(s)), None => None }
    } else if key == "sha256"@ {
        match c.sha256 { Some(s) => Some(JsonV::Str(s)), None => None }
    } else if key == "title"@ {
        match c.title { Some(s) => Some(JsonV::Str(s)), None => None }
    } else if key == "subtitle"@ {
        match c.subtitle { Some(s) => Some(JsonV::Str(s)), None => None }
    } else if key == "artist"@ {
        match c.artist { Some(s) => Some(JsonV::Str(s)), None => None }
    } else if key == "subartist"@ {
        match c.subartist { Some(s) => Some(JsonV::Str(s)), None => None }
    } else if key == "url"@ {
        match c.url { Some(s) => Some(JsonV::Str(s)), None => None }
    } else if key == "url_diff"@ {
        match c.url_diff { Some(s) => Some(JsonV::Str(s)), None => None }
    } else {
        obj_get_v(c.extra, key)
    }
}

/// The encoded chart object answers every lookup as `chart_field_lookup`
/// states.
#[verifier::rlimit(100)]
proof fn lemma_chart_fields_get(c: ChartV, key: Seq<char>)
    requires
        forall|k: int| 0 <= k < c.extra.len() ==> !chart_named((#[trigger] c.extra[k]).0),
    ensures
        obj_get_v(crate::encode::enc_chart(c)->Obj_0, key) == chart_field_lookup(c, key),
{
    reveal_strlit("level");
    reveal_strlit("md5");
    reveal_strlit("sha256");
    reveal_strlit("title");
    reveal_strlit("subtitle");
    reveal_strlit("artist");
    reveal_strlit("subartist");
    reveal_strlit("url");
    reveal_strlit("url_diff");
    assert("level"@.len() == 5 && "md5"@.len() == 3 && "sha256"@.len() == 6 && "title"@.len()
        == 5 && "subtitle"@.len() == 8 && "artist"@.len() == 6 && "subartist"@.len() == 9
        && "url"@.len() == 3 && "url_diff"@.len() == 8);
    assert("level"@[0] == 'l' && "title"@[0] == 't' && "sha256"@[0] == 's' && "artist"@[0]
        == 'a' && "subtitle"@[0] == 's' && "url_diff"@[0] == 'u' && "md5"@[0] == 'm'
        && "url"@[0] == 'u');
    let lv = seq![("level"@, JsonV::Str(c.level))];
    let f1 = crate::encode::opt_field("md5"@, c.md5);
    let f2 = crate::encode::opt_field("sha256"@, c.sha256);
    let f3 = crate::encode::opt_field("title"@, c.title);
    let f4 = crate::encode::opt_field("subtitle"@, c.subtitle);
    let f5 = crate::encode::opt_field("artist"@, c.artist);
    let f6 = crate::encode::opt_field("subartist"@, c.subartist);
    let f7 = crate::encode::opt_field("url"@, c.url);
    let f8 = crate::encode::opt_field("url_diff"@, c.url_diff);
    let fields = crate::encode::enc_chart(c)->Obj_0;
    let r8 = f8 + c.extra;
    let r7 = f7 + r8;
    let r6 = f6 + r7;
    let r5 = f5 + r6;
    let r4 = f4 + r5;
    let r3 = f3 + r4;
    let r2 = f2 + r3;
    let r1 = f1 + r2;
    assert(fields == lv + r1);
    if key == "level"@ {
        lemma_obj_get_found("level"@, JsonV::Str(c.level), r1);
        assert(obj_get_v(fields, key) == chart_field_lookup(c, key));
    } else {
        lemma_obj_get_skip_seg(lv, r1, key);
        assert(obj_get_v(fields, key) == obj_get_v(r1, key));
        if key == "md5"@ && c.md5 is Some {
            lemma_obj_get_found("md5"@, JsonV::Str(c.md5->0), r2);
            assert(f1 == seq![("md5"@, JsonV::Str(c.md5->0))]);
            assert(obj_get_v(fields, key) == chart_field_lookup(c, key));
        } else {
            lemma_obj_get_skip_seg(f1, r2, key);
            assert(obj_get_v(fields, key) == obj_get_v(r2, key));
            if key == "sha256"@ && c.sha256 is Some {
                lemma_obj_get_found("sha256"@, JsonV::Str(c.sha256->0), r3);
                assert(f2 == seq![("sha256"@, JsonV::Str(c.sha256->0))]);
                assert(obj_get_v(fields, key) == chart_field_lookup(c, key));
            } else {
                lemma_obj_get_skip_seg(f2, r3, key);
                assert(obj_get_v(fields, key) == obj_get_v(r3, key));
                if key == "title"@ && c.title is Some {
                    lemma_obj_get_found("title"@, JsonV::Str(c.title->0), r4);
                assert(f3 == seq![("title"@, JsonV::Str(c.title->0))]);
                    assert(obj_get_v(fields, key) == chart_field_lookup(c, key));
                } else {
                    lemma_obj_get_skip_seg(f3, r4, key);
                    assert(obj_get_v(fields, key) == obj_get_v(r4, key));
                    if key == "subtitle"@ && c.subtitle is Some {
                        lemma_obj_get_found("subtitle"@, JsonV::Str(c.subtitle->0), r5);
                assert(f4 == seq![("subtitle"@, JsonV::Str(c.subtitle->0))]);
                        assert(obj_get_v(fields, key) == chart_field_lookup(c, key));
                    } else {
                        lemma_obj_get_skip_seg(f4, r5, key);
                        assert(obj_get_v(fields, key) == obj_get_v(r5, key));
                        if key == "artist"@ && c.artist is Some {
                            lemma_obj_get_found("artist"@, JsonV::Str(c.artist->0), r6);
                assert(f5 == seq![("artist"@, JsonV::Str(c.artist->0))]);
                            assert(obj_get_v(fields, key) == chart_field_lookup(c, key));
                        } else {
                            lemma_obj_get_skip_seg(f5, r6, key);
                            assert(obj_get_v(fields, key) == obj_get_v(r6, key));
                            if key == "subartist"@ && c.subartist is Some {
                                lemma_obj_get_found(
                                    "subartist"@,
                                    JsonV::Str(c.subartist->0),
                                    r7,
                                );
                                assert(f6 == seq![("subartist"@, JsonV::Str(c.subartist->0))]);
                                assert(obj_get_v(fields, key) == chart_field_lookup(c, key));
                            } else {
                                lemma_obj_get_skip_seg(f6, r7, key);
                                assert(obj_get_v(fields, key) == obj_get_v(r7, key));
                                if key == "url"@ && c.url is Some {
                                    lemma_obj_get_found("url"@, JsonV::Str(c.url->0), r8);
                assert(f7 == seq![("url"@, JsonV::Str(c.url->0))]);
                                    assert(obj_get_v(fields, key) == chart_field_lookup(c, key));
                                } else {
                                    lemma_obj_get_skip_seg(f7, r8, key);
                                    assert(obj_get_v(fields, key) == obj_get_v(r8, key));
                                    if key == "url_diff"@ && c.url_diff is Some {
                                        lemma_obj_get_found(
                                            "url_diff"@,
                                            JsonV::Str(c.url_diff->0),
                                            c.extra,
                                        );
                                        assert(f8 == seq![("url_diff"@, JsonV::Str(c.url_diff->0))]);
                                        assert(obj_get_v(fields, key) == chart_field_lookup(c, key));
                                    } else {
                                        lemma_obj_get_skip_seg(f8, c.extra, key);
                                        assert(obj_get_v(fields, key) == obj_get_v(
                                            c.extra,
                                            key,
                                        ));
                                        if chart_named(key) {
                                            assert forall|k: int|
                                                0 <= k < c.extra.len() implies (
                                            #[trigger] c.extra[k]).0 != key by {
                                                assert(!chart_named(c.extra[k].0));
                                            }
                                            lemma_obj_get_skip(
                                                c.extra,
                                                key,
                                                c.extra.len() as int,
                                            );
                                            assert(c.extra.skip(c.extra.len() as int) =~= Seq::<
                                                (Seq<char>, JsonV),
                                            >::empty());
                                        }
                                        assert(obj_get_v(fields, key)
                                            == chart_field_lookup(c, key));
                                    }
                                }
                            }
                        }
                    }
                }
            }
        }
    }
}

/// The `extra` capture of an encoded chart object is exactly the chart's
/// preserved `extra`.
proof fn lemma_chart_fields_extra(c: ChartV)
    requires
        forall|k: int| 0 <= k < c.extra.len() ==> !chart_named((#[trigger] c.extra[k]).0),
    ensures
        extra_entries(crate::encode::enc_chart(c)->Obj_0, NamedSet::Chart) == c.extra,
{
    reveal_strlit("level");
    let lv = seq![("level"@, JsonV::Str(c.level))];
    let f1 = crate::encode::opt_field("md5"@, c.md5);
    let f2 = crate::encode::opt_field("sha256"@, c.sha256);
    let f3 = crate::encode::opt_field("title"@, c.title);
    let f4 = crate::encode::opt_field("subtitle"@, c.subtitle);
    let f5 = crate::encode::opt_field("artist"@, c.artist);
    let f6 = crate::encode::opt_field("subartist"@, c.subartist);
    let f7 = crate::encode::opt_field("url"@, c.url);
    let f8 = crate::encode::opt_field("url_diff"@, c.url_diff);
    let fields = crate::encode::enc_chart(c)->Obj_0;
    let r8 = f8 + c.extra;
    let r7 = f7 + r8;
    let r6 = f6 + r7;
    let r5 = f5 + r6;
    let r4 = f4 + r5;
    let r3 = f3 + r4;
    let r2 = f2 + r3;
    let r1 = f1 + r2;
    assert(fields == lv + r1);
    lemma_extra_entries_append(lv, r1, NamedSet::Chart);
    lemma_extra_entries_append(f1, r2, NamedSet::Chart);
    lemma_extra_entries_append(f2, r3, NamedSet::Chart);
    lemma_extra_entries_append(f3, r4, NamedSet::Chart);
    lemma_extra_entries_append(f4, r5, NamedSet::Chart);
    lemma_extra_entries_append(f5, r6, NamedSet::Chart);
    lemma_extra_entries_append(f6, r7, NamedSet::Chart);
    lemma_extra_entries_append(f7, r8, NamedSet::Chart);
    lemma_extra_entries_append(f8, c.extra, NamedSet::Chart);
    lemma_extra_entries_named_empty(lv, NamedSet::Chart);
    lemma_extra_entries_named_empty(f1, NamedSet::Chart);
    lemma_extra_entries_named_empty(f2, NamedSet::Chart);
    lemma_extra_entries_named_empty(f3, NamedSet::Chart);
    lemma_extra_entries_named_empty(f4, NamedSet::Chart);
    lemma_extra_entries_named_empty(f5, NamedSet::Chart);
    lemma_extra_entries_named_empty(f6, NamedSet::Chart);
    lemma_extra_entries_named_empty(f7, NamedSet::Chart);
    lemma_extra_entries_named_empty(f8, NamedSet::Chart);
    lemma_extra_entries_unnamed_id(c.extra, NamedSet::Chart);
    assert(extra_entries(fields, NamedSet::Chart) =~= c.extra);
}

/// Law: a well-formed chart decodes back from its canonical encoding
/// unchanged.
#[verifier::rlimit(100)]
pub proof fn lemma_chart_round_trip(c: ChartV)
    requires
        chart_wf(c),
    ensures
        dec_chart(crate::encode::enc_chart(c)) == Ok::<ChartV, DecErr>(c),
{
    reveal_strlit("level");
    reveal_strlit("md5");
    reveal_strlit("sha256");
    reveal_strlit("title");
    reveal_strlit("subtitle");
    reveal_strlit("artist");
    reveal_strlit("subartist");
    reveal_strlit("url");
    reveal_strlit("url_diff");
    assert("level"@.len() == 5 && "md5"@.len() == 3 && "sha256"@.len() == 6 && "title"@.len()
        == 5 && "subtitle"@.len() == 8 && "artist"@.len() == 6 && "subartist"@.len() == 9
        && "url"@.len() == 3 && "url_diff"@.len() == 8);
    assert("level"@[0] == 'l' && "title"@[0] == 't' && "sha256"@[0] == 's' && "artist"@[0]
        == 'a' && "subtitle"@[0] == 's' && "url_diff"@[0] == 'u' && "md5"@[0] == 'm'
        && "url"@[0] == 'u');
    lemma_chart_fields_get(c, "level"@);
    lemma_chart_fields_get(c, "md5"@);
    lemma_chart_fields_get(c, "sha256"@);
    lemma_chart_fields_get(c, "title"@);
    lemma_chart_fields_get(c, "subtitle"@);
    lemma_chart_fields_get(c, "artist"@);
    lemma_chart_fields_get(c, "subartist"@);
    lemma_chart_fields_get(c, "url"@);
    lemma_chart_fields_get(c, "url_diff"@);
    lemma_chart_fields_extra(c);
    assert(c == ChartV {
        level: c.level,
        md5: c.md5,
        sha256: c.sha256,
        title: c.title,
        subtitle: c.subtitle,
        artist: c.artist,
        subartist: c.subartist,
        url: c.url,
        url_diff: c.url_diff,
        extra: c.extra,
    });
}

/// Law: a well-formed course decodes back from its canonical encoding
/// unchanged.
#[verifier::rlimit(100)]
pub proof fn lemma_course_round_trip(c: CourseV)
    requires
        course_wf(c),
    ensures
        dec_course(crate::encode::enc_course(c)) == Ok::<CourseV, DecErr>(c),
{
    reveal_strlit("name");
    reveal_strlit("constraint");
    reveal_strlit("trophy");
    reveal_strlit("charts");
    reveal_strlit("md5");
    reveal_strlit("sha256");
    reveal_strlit("level");
    assert("name"@.len() == 4 && "constraint"@.len() == 10 && "trophy"@.len() == 6
        && "charts"@.len() == 6 && "md5"@.len() == 3 && "sha256"@.len() == 6 && "level"@.len()
        == 5);
    assert("trophy"@[0] == 't' && "charts"@[0] == 'c' && "sha256"@[0] == 's');
    let fields = crate::encode::enc_course(c)->Obj_0;
    assert(fields[0].0 == "name"@ && fields[1].0 == "constraint"@ && fields[2].0 == "trophy"@
        && fields[3].0 == "charts"@);
    lemma_obj_get_at(fields, "name"@, 0);
    lemma_obj_get_at(fields, "constraint"@, 1);
    lemma_obj_get_at(fields, "trophy"@, 2);
    lemma_obj_get_at(fields, "charts"@, 3);
    lemma_obj_get_skip(fields, "md5"@, 4);
    lemma_obj_get_skip(fields, "sha256"@, 4);
    assert(fields.skip(4) =~= Seq::<(Seq<char>, JsonV)>::empty());

    // constraint
    let celems = crate::encode::strs_json(c.constraint);
    let crs = str_list_rs(celems, "constraint"@);
    assert forall|k: int| 0 <= k < celems.len() implies (#[trigger] crs[k]) == Ok::<
        Seq<char>,
        DecErr,
    >(c.constraint[k]) by {
        assert(celems[k] == JsonV::Str(c.constraint[k]));
        assert(crs[k] == (|w: JsonV| dec_str_elem(w, "constraint"@))(celems[k]));
    }
    crate::decode::lemma_dec_collect_ok(crs);
    assert(dec_collect(crs)->Ok_0 =~= c.constraint);
    assert(dec_str_list(fields, "constraint"@) == Ok::<Seq<Seq<char>>, DecErr>(c.constraint));

    // trophies
    let telems = crate::encode::trophies_json(c.trophy);
    let trs = trophy_list_rs(telems);
    assert forall|k: int| 0 <= k < telems.len() implies (#[trigger] trs[k]) == Ok::<
        TrophyV,
        DecErr,
    >(c.trophy[k]) by {
        assert(telems[k] == crate::encode::enc_trophy(c.trophy[k]));
        assert(trs[k] == (|w: JsonV| dec_trophy(w))(telems[k]));
        lemma_trophy_round_trip(c.trophy[k]);
    }
    crate::decode::lemma_dec_collect_ok(trs);
    assert(dec_collect(trs)->Ok_0 =~= c.trophy);
    assert(dec_trophy_list(fields) == Ok::<Seq<TrophyV>, DecErr>(c.trophy));

    // charts
    let chelems = crate::encode::charts_json(c.charts);
    let chrs = course_chart_rs(chelems);
    assert forall|k: int| 0 <= k < chelems.len() implies (#[trigger] chrs[k]) == Ok::<
        ChartV,
        DecErr,
    >(c.charts[k]) by {
        assert(chelems[k] == crate::encode::enc_chart(c.charts[k]));
        assert(chrs[k] == (|w: JsonV| dec_chart(with_default_level(w)))(chelems[k]));
        assert(chart_wf(c.charts[k]));
        lemma_chart_fields_get(c.charts[k], "level"@);
        assert(obj_has_v(crate::encode::enc_chart(c.charts[k])->Obj_0, "level"@));
        assert(with_default_level(chelems[k]) == chelems[k]);
        lemma_chart_round_trip(c.charts[k]);
    }
    crate::decode::lemma_dec_collect_ok(chrs);
    assert(dec_collect(chrs)->Ok_0 =~= c.charts);
    assert(dec_str_list(fields, "md5"@) == Ok::<Seq<Seq<char>>, DecErr>(Seq::empty()));
    assert(dec_str_list(fields, "sha256"@) == Ok::<Seq<Seq<char>>, DecErr>(Seq::empty()));
    assert(md5_charts_of(Seq::empty()) =~= Seq::<ChartV>::empty());
    assert(sha256_charts_of(Seq::empty()) =~= Seq::<ChartV>::empty());
    assert(dec_course_charts(fields) matches Ok(cs) && cs =~= c.charts);
    assert(dec_course_charts(fields) == Ok::<Seq<ChartV>, DecErr>(c.charts));

    assert(c == CourseV {
        name: c.name,
        constraint: c.constraint,
        trophy: c.trophy,
        charts: c.charts,
    });
}

/// Law: well-formed chart data decodes back from its canonical encoding
/// unchanged.
pub proof fn lemma_data_round_trip(d: Seq<ChartV>)
    requires
        forall|k: int| 0 <= k < d.len() ==> chart_wf(#[trigger] d[k]),
    ensures
        dec_data(crate::encode::enc_data(d)) == Ok::<Seq<ChartV>, DecErr>(d),
{
    let elems = crate::encode::charts_json(d);
    let rs = chart_rs(elems);
    assert forall|k: int| 0 <= k < elems.len() implies (#[trigger] rs[k]) == Ok::<
        ChartV,
        DecErr,
    >(d[k]) by {
        assert(elems[k] == crate::encode::enc_chart(d[k]));
        assert(rs[k] == (|w: JsonV| dec_chart(w))(elems[k]));
        lemma_chart_round_trip(d[k]);
    }
    crate::decode::lemma_dec_collect_ok(rs);
    assert(dec_collect(rs)->Ok_0 =~= d);
}

/// Law: a well-formed header decodes back from its canonical encoding
/// unchanged — round-trip stability, for the preserved `extra` fields in
/// particular.
#[verifier::rlimit(100)]
pub proof fn lemma_header_round_trip(h: HeaderV)
    requires
        header_wf(h),
    ensures
        dec_header(crate::encode::enc_header(h)) == Ok::<HeaderV, DecErr>(h),
{
    reveal_strlit("name");
    reveal_strlit("symbol");
    reveal_strlit("data_url");
    reveal_strlit("course");
    reveal_strlit("level_order");
    assert("name"@.len() == 4 && "symbol"@.len() == 6 && "data_url"@.len() == 8
        && "course"@.len() == 6 && "level_order"@.len() == 11);
    assert("symbol"@[0] == 's' && "course"@[0] == 'c');
    let named = seq![
        ("name"@, JsonV::Str(h.name)),
        ("symbol"@, JsonV::Str(h.symbol)),
        ("data_url"@, JsonV::Str(h.data_url)),
        ("course"@, JsonV::Arr(crate::encode::groups_json(h.course))),
        ("level_order"@, JsonV::Arr(crate::encode::strs_json(h.level_order))),
    ];
    let fields = crate::encode::enc_header(h)->Obj_0;
    assert(fields == named + h.extra);
    assert(fields[0].0 == "name"@ && fields[1].0 == "symbol"@ && fields[2].0 == "data_url"@
        && fields[3].0 == "course"@ && fields[4].0 == "level_order"@);
    lemma_obj_get_at(fields, "name"@, 0);
    lemma_obj_get_at(fields, "symbol"@, 1);
    lemma_obj_get_at(fields, "data_url"@, 2);
    lemma_obj_get_at(fields, "course"@, 3);
    lemma_obj_get_at(fields, "level_order"@, 4);

    // course groups
    let gelems = crate::encode::groups_json(h.course);
    assert(gelems.len() == h.course.len());
    assert(gelems.len() > 0);
    assert(gelems[0] == JsonV::Arr(crate::encode::courses_json(h.course[0])));
    let grs = group_rs(gelems);
    assert forall|k: int| 0 <= k < gelems.len() implies (#[trigger] grs[k]) == Ok::<
        Seq<CourseV>,
        DecErr,
    >(h.course[k]) by {
        assert(gelems[k] == JsonV::Arr(crate::encode::courses_json(h.course[k])));
        assert(grs[k] == (|w: JsonV| dec_course_group(w))(gelems[k]));
        let inner = crate::encode::courses_json(h.course[k]);
        let irs = course_rs(inner);
        assert forall|j: int| 0 <= j < inner.len() implies (#[trigger] irs[j]) == Ok::<
            CourseV,
            DecErr,
        >(h.course[k][j]) by {
            assert(inner[j] == crate::encode::enc_course(h.course[k][j]));
            assert(irs[j] == (|w: JsonV| dec_course(w))(inner[j]));
            assert(course_wf(h.course[k][j]));
            lemma_course_round_trip(h.course[k][j]);
        }
        crate::decode::lemma_dec_collect_ok(irs);
        assert(dec_collect(irs)->Ok_0 =~= h.course[k]);
    }
    crate::decode::lemma_dec_collect_ok(grs);
    assert(dec_collect(grs)->Ok_0 =~= h.course);
    assert(dec_course_groups(fields) == Ok::<Seq<Seq<CourseV>>, DecErr>(h.course));

    // level order
    let lelems = crate::encode::strs_json(h.level_order);
    assert(lvl_texts_of(lelems) =~= h.level_order);
    assert(dec_level_order(fields) == Ok::<Seq<Seq<char>>, DecErr>(h.level_order));

    // extra
    assert forall|k: int| 0 <= k < named.len() implies named_in(
        NamedSet::Header,
        (#[trigger] named[k]).0,
    ) by {}
    lemma_extra_entries_append(named, h.extra, NamedSet::Header);
    lemma_extra_entries_named_empty(named, NamedSet::Header);
    lemma_extra_entries_unnamed_id(h.extra, NamedSet::Header);
    assert(extra_entries(fields, NamedSet::Header) =~= h.extra);

    assert(h == HeaderV {
        name: h.name,
        symbol: h.symbol,
        data_url: h.data_url,
        course: h.course,
        level_order: h.level_order,
        extra: h.extra,
    });
}

/// An index entry the decoders can produce: `extra` holds no named field,
/// and the location text is a fixed point of URL normalization.
pub open spec fn info_wf(x: crate::InfoV) -> bool {
    &&& crate::urls::spec_url_parse(x.url) == Some(x.url)
    &&& forall|k: int| 0 <= k < x.extra.len() ==> !info_named((#[trigger] x.extra[k]).0)
}

/// Law: a well-formed index entry decodes back from its canonical encoding
/// unchanged.
pub proof fn lemma_info_round_trip(x: crate::InfoV)
    requires
        info_wf(x),
    ensures
        crate::decode::dec_info0(crate::encode::enc_info(x)) == Ok::<crate::InfoV, DecErr>(x),
{
    reveal_strlit("name");
    reveal_strlit("symbol");
    reveal_strlit("url");
    assert("name"@.len() == 4 && "symbol"@.len() == 6 && "url"@.len() == 3);
    let named = seq![
        ("name"@, JsonV::Str(x.name)),
        ("symbol"@, JsonV::Str(x.symbol)),
        ("url"@, JsonV::Str(x.url)),
    ];
    let fields = crate::encode::enc_info(x)->Obj_0;
    assert(fields == named + x.extra);
    assert(fields[0].0 == "name"@ && fields[1].0 == "symbol"@ && fields[2].0 == "url"@);
    lemma_obj_get_at(fields, "name"@, 0);
    lemma_obj_get_at(fields, "symbol"@, 1);
    lemma_obj_get_at(fields, "url"@, 2);
    assert forall|k: int| 0 <= k < named.len() implies named_in(
        NamedSet::Info,
        (#[trigger] named[k]).0,
    ) by {}
    lemma_extra_entries_append(named, x.extra, NamedSet::Info);
    lemma_extra_entries_named_empty(named, NamedSet::Info);
    lemma_extra_entries_unnamed_id(x.extra, NamedSet::Info);
    assert(extra_entries(fields, NamedSet::Info) =~= x.extra);
    assert(x == crate::InfoV { name: x.name, symbol: x.symbol, url: x.url, extra: x.extra });
}

/// Law: a well-formed table index decodes back from its canonical encoding
/// unchanged, entry for entry.
pub proof fn lemma_list_round_trip(xs: Seq<crate::InfoV>)
    requires
        forall|k: int| 0 <= k < xs.len() ==> info_wf(#[trigger] xs[k]),
    ensures
        dec_list(crate::encode::enc_list(xs)) == Ok::<Seq<crate::InfoV>, DecErr>(xs),
{
    let elems = crate::encode::enc_list(xs)->Arr_0;
    assert(elems.len() == xs.len());
    let rs = crate::decode::info_rs(elems);
    assert forall|k: int| 0 <= k < elems.len() implies (#[trigger] rs[k]) == Ok::<
        crate::InfoV,
        DecErr,
    >(xs[k]) by {
        assert(elems[k] == crate::encode::enc_info(xs[k]));
        assert(rs[k] == (|i: int| crate::decode::dec_info(elems[i], i))(k));
        lemma_info_round_trip(xs[k]);
    }
    crate::decode::lemma_dec_collect_ok(rs);
    assert(dec_collect(rs)->Ok_0 =~= xs);
}

/// Everything the `extra` capture keeps is outside the named set.
proof fn lemma_extra_entries_unnamed(m: Seq<(Seq<char>, JsonV)>, which: NamedSet)
    ensures
        forall|k: int|
            0 <= k < extra_entries(m, which).len() ==> !named_in(
                which,
                (#[trigger] extra_entries(m, which)[k]).0,
            ),
    decreases m.len(),
{
    if m.len() > 0 {
        lemma_extra_entries_unnamed(m.drop_first(), which);
        let rest = extra_entries(m.drop_first(), which);
        if !named_in(which, m[0].0) {
            assert forall|k: int|
                0 <= k < extra_entries(m, which).len() implies !named_in(
                which,
                (#[trigger] extra_entries(m, which)[k]).0,
            ) by {
                if k > 0 {
                    assert(extra_entries(m, which)[k] == rest[k - 1]);
                }
            }
        }
    }
}

/// A chart the decoder returns is well-formed: no optional field holds the
/// empty string, and `extra` holds no named field.
pub proof fn lemma_dec_chart_output_wf(j: JsonV)
    ensures
        dec_chart(j) matches Ok(c) ==> chart_wf(c),
{
    if dec_chart(j) is Ok {
        let m = j->Obj_0;
        lemma_extra_entries_unnamed(m, NamedSet::Chart);
    }
}

/// `dec_collect` keeps the element count when it succeeds.
proof fn lemma_dec_collect_len<T>(rs: Seq<Result<T, DecErr>>)
    ensures
        dec_collect(rs) matches Ok(out) ==> out.len() == rs.len(),
    decreases rs.len(),
{
    if rs.len() > 0 {
        lemma_dec_collect_len(rs.drop_first());
    }
}

/// The course groups the decoder returns are never empty: whatever the
/// source shape, at least one group comes out.
pub proof fn lemma_dec_course_groups_output_nonempty(m: Seq<(Seq<char>, JsonV)>)
    ensures
        dec_course_groups(m) matches Ok(gs) ==> gs.len() >= 1,
{
    match obj_get_v(m, "course"@) {
        Some(JsonV::Arr(elems)) => {
            if elems.len() > 0 && elems[0] is Arr {
                lemma_dec_collect_len(group_rs(elems));
            }
        },
        _ => {},
    }
}

/// Law: decoding a chart record, re-encoding it canonically, and decoding
/// again yields the first decoding, for every input the decoder accepts.
pub proof fn lemma_chart_decode_encode_decode(j: JsonV)
    ensures
        dec_chart(j) matches Ok(c) ==> dec_chart(crate::encode::enc_chart(c)) == Ok::<
            ChartV,
            DecErr,
        >(c),
{
    if dec_chart(j) is Ok {
        let c = dec_chart(j)->Ok_0;
        lemma_dec_chart_output_wf(j);
        lemma_chart_round_trip(c);
    }
}

} // verus!
