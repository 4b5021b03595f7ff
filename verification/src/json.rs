//! The JSON document model: a tree of plain values, its mathematical view, and
//! field lookup on objects.
//!
//! Numbers are carried as the decimal text the serde_json printer gives them,
//! so the model holds no floating-point field and every structural decision the
//! library makes about a document can be verified.
use vstd::prelude::*;

verus! {

/// A JSON value as plain data. `Num` holds the number's decimal text.
#[derive(Debug, PartialEq, Eq)]
pub enum Json {
    Null,
    Bool(bool),
    Num(String),
    Str(String),
    Arr(Vec<Json>),
    Obj(JsonObject),
}

/// The fields of a JSON object, in order. Objects read from a document have
/// unique keys (the reader collapses duplicates).
#[derive(Debug, PartialEq, Eq)]
pub struct JsonObject {
    pub entries: Vec<(String, Json)>,
}

/// The mathematical shape of a `Json` value.
pub enum JsonV {
    Null,
    Bool(bool),
    Num(Seq<char>),
    Str(Seq<char>),
    Arr(Seq<JsonV>),
    Obj(Seq<(Seq<char>, JsonV)>),
}

/// The view of a `Json` tree.
pub open spec fn jview(j: Json) -> JsonV
    decreases j,
{
    match j {
        Json::Null => JsonV::Null,
        Json::Bool(b) => JsonV::Bool(b),
        Json::Num(s) => JsonV::Num(s@),
        Json::Str(s) => JsonV::Str(s@),
        Json::Arr(items) => JsonV::Arr(jview_seq(items@)),
        Json::Obj(m) => JsonV::Obj(jview_entries(m.entries@)),
    }
}

/// The views of a sequence of JSON values, in order.
pub open spec fn jview_seq(s: Seq<Json>) -> Seq<JsonV>
    decreases s,
{
    if s.len() == 0 {
        Seq::empty()
    } else {
        seq![jview(s[0])] + jview_seq(s.drop_first())
    }
}

/// The views of a field list, in order.
pub open spec fn jview_entries(s: Seq<(String, Json)>) -> Seq<(Seq<char>, JsonV)>
    decreases s,
{
    if s.len() == 0 {
        Seq::empty()
    } else {
        seq![(s[0].0@, jview(s[0].1))] + jview_entries(s.drop_first())
    }
}

/// `jview_seq` maps the view over the sequence, element for element.
pub proof fn lemma_jview_seq(s: Seq<Json>)
    ensures
        jview_seq(s).len() == s.len(),
        forall|i: int| 0 <= i < s.len() ==> jview_seq(s)[i] == jview(s[i]),
    decreases s.len(),
{
    if s.len() > 0 {
        lemma_jview_seq(s.drop_first());
        assert forall|i: int| 0 <= i < s.len() implies jview_seq(s)[i] == jview(s[i]) by {
            if i > 0 {
                assert(jview_seq(s)[i] == jview_seq(s.drop_first())[i - 1]);
                assert(s.drop_first()[i - 1] == s[i]);
            }
        }
    }
}

/// `jview_entries` maps key view and value view, entry for entry.
pub proof fn lemma_jview_entries(s: Seq<(String, Json)>)
    ensures
        jview_entries(s).len() == s.len(),
        forall|i: int|
            0 <= i < s.len() ==> jview_entries(s)[i] == (s[i].0@, jview(s[i].1)),
    decreases s.len(),
{
    if s.len() > 0 {
        lemma_jview_entries(s.drop_first());
        assert forall|i: int|
            0 <= i < s.len() implies jview_entries(s)[i] == (s[i].0@, jview(s[i].1)) by {
            if i > 0 {
                assert(jview_entries(s)[i] == jview_entries(s.drop_first())[i - 1]);
                assert(s.drop_first()[i - 1] == s[i]);
            }
        }
    }
}

impl View for Json {
    type V = JsonV;

    open spec fn view(&self) -> JsonV {
        jview(*self)
    }
}

impl View for JsonObject {
    type V = Seq<(Seq<char>, JsonV)>;

    open spec fn view(&self) -> Seq<(Seq<char>, JsonV)> {
        jview_entries(self.entries@)
    }
}

/// The value under `key` in the field list `m`: the first entry whose key
/// matches, or `None`.
pub open spec fn obj_get_v(m: Seq<(Seq<char>, JsonV)>, key: Seq<char>) -> Option<JsonV>
    decreases m.len(),
{
    if m.len() == 0 {
        None
    } else if m[0].0 == key {
        Some(m[0].1)
    } else {
        obj_get_v(m.drop_first(), key)
    }
}

/// Whether the field list `m` holds `key`.
pub open spec fn obj_has_v(m: Seq<(Seq<char>, JsonV)>, key: Seq<char>) -> bool {
    obj_get_v(m, key) is Some
}

/// `obj_get_v` ignores a prefix free of `key`.
pub proof fn lemma_obj_get_skip(m: Seq<(Seq<char>, JsonV)>, key: Seq<char>, i: int)
    requires
        0 <= i <= m.len(),
        forall|k: int| 0 <= k < i ==> m[k].0 != key,
    ensures
        obj_get_v(m, key) == obj_get_v(m.skip(i), key),
    decreases i,
{
    if i > 0 {
        assert(m[0].0 != key);
        assert(m.drop_first().skip(i - 1) =~= m.skip(i));
        lemma_obj_get_skip(m.drop_first(), key, i - 1);
    } else {
        assert(m.skip(0) =~= m);
    }
}

/// When `m[i]` is the first entry with key `key`, `obj_get_v` returns its value.
pub proof fn lemma_obj_get_at(m: Seq<(Seq<char>, JsonV)>, key: Seq<char>, i: int)
    requires
        0 <= i < m.len(),
        m[i].0 == key,
        forall|k: int| 0 <= k < i ==> m[k].0 != key,
    ensures
        obj_get_v(m, key) == Some(m[i].1),
{
    lemma_obj_get_skip(m, key, i);
    assert(m.skip(i)[0] == m[i]);
}

/// A deep copy of a JSON value, with the same view.
pub fn clone_json(j: &Json) -> (r: Json)
    ensures
        jview(r) == jview(*j),
    decreases *j,
{
    match j {
        Json::Null => Json::Null,
        Json::Bool(b) => Json::Bool(*b),
        Json::Num(s) => Json::Num(s.clone()),
        Json::Str(s) => Json::Str(s.clone()),
        Json::Arr(items) => {
            let n = items.len();
            let mut out: Vec<Json> = Vec::new();
            let mut i: usize = 0;
            while i < n
                invariant
                    *j == Json::Arr(*items),
                    n == items.len(),
                    0 <= i <= n,
                    out@.len() == i,
                    forall|k: int| 0 <= k < i ==> jview(out@[k]) == jview(items@[k]),
                decreases n - i,
            {
                proof {
                    assert((*j)->Arr_0 == *items);
                    assert(decreases_to!(*j => (*j)->Arr_0));
                    assert(decreases_to!(*items => items@));
                    assert(decreases_to!(items@ => items@[i as int]));
                }
                let c = clone_json(&items[i]);
                out.push(c);
                i += 1;
            }
            proof {
                lemma_jview_seq(out@);
                lemma_jview_seq(items@);
                assert(jview_seq(out@) =~= jview_seq(items@));
            }
            Json::Arr(out)
        },
        Json::Obj(m) => {
            let c = clone_obj(m);
            Json::Obj(c)
        },
    }
}

/// A deep copy of a field list, with the same view.
pub fn clone_obj(m: &JsonObject) -> (r: JsonObject)
    ensures
        r@ == m@,
    decreases *m,
{
    let n = m.entries.len();
    let mut out: Vec<(String, Json)> = Vec::new();
    let mut i: usize = 0;
    while i < n
        invariant
            n == m.entries.len(),
            0 <= i <= n,
            out@.len() == i,
            forall|k: int|
                0 <= k < i ==> out@[k].0@ == m.entries@[k].0@ && jview(out@[k].1) == jview(
                    m.entries@[k].1,
                ),
        decreases n - i,
    {
        proof {
            assert(decreases_to!(*m => m.entries));
            assert(decreases_to!(m.entries => m.entries@));
            assert(decreases_to!(m.entries@ => m.entries@[i as int]));
            assert(decreases_to!(m.entries@[i as int] => m.entries@[i as int].1));
        }
        let key = m.entries[i].0.clone();
        let val = clone_json(&m.entries[i].1);
        out.push((key, val));
        i += 1;
    }
    let r = JsonObject { entries: out };
    proof {
        lemma_jview_entries(r.entries@);
        lemma_jview_entries(m.entries@);
        assert(r@ =~= m@);
    }
    r
}

impl Clone for Json {
    /// A deep copy, with the same view.
    fn clone(&self) -> (r: Json)
        ensures
            jview(r) == jview(*self),
    {
        clone_json(self)
    }
}

impl Clone for JsonObject {
    /// A deep copy, with the same view.
    fn clone(&self) -> (r: JsonObject)
        ensures
            r@ == self@,
    {
        clone_obj(self)
    }
}

impl JsonObject {
    /// An empty field list.
    pub fn new() -> (r: JsonObject)
        ensures
            r@ =~= Seq::<(Seq<char>, JsonV)>::empty(),
    {
        JsonObject { entries: Vec::new() }
    }

    /// How many fields the object holds.
    pub fn len(&self) -> (n: usize)
        ensures
            n == self@.len(),
    {
        proof {
            lemma_jview_entries(self.entries@);
        }
        self.entries.len()
    }

    /// The value under `key`: the first entry whose key matches.
    pub fn get<'a>(&'a self, key: &str) -> (r: Option<&'a Json>)
        ensures
            match r {
                Some(v) => obj_get_v(self@, key@) == Some(jview(*v)),
                None => obj_get_v(self@, key@) is None,
            },
    {
        proof {
            lemma_jview_entries(self.entries@);
        }
        let n = self.entries.len();
        let mut i: usize = 0;
        while i < n
            invariant
                n == self.entries.len(),
                self@.len() == n,
                forall|k: int|
                    0 <= k < n ==> self@[k] == (self.entries@[k].0@, jview(self.entries@[k].1)),
                0 <= i <= n,
                forall|k: int| 0 <= k < i ==> self@[k].0 != key@,
            decreases n - i,
        {
            if crate::chars::eq_str(self.entries[i].0.as_str(), key) {
                proof {
                    lemma_obj_get_at(self@, key@, i as int);
                }
                return Some(&self.entries[i].1);
            }
            i += 1;
        }
        proof {
            lemma_obj_get_skip(self@, key@, n as int);
            assert(self@.skip(n as int) =~= Seq::<(Seq<char>, JsonV)>::empty());
        }
        None
    }

    /// Whether the object holds `key`.
    pub fn contains_key(&self, key: &str) -> (r: bool)
        ensures
            r == obj_has_v(self@, key@),
    {
        self.get(key).is_some()
    }

    /// Adds a field at the end of the list.
    pub fn push(&mut self, key: String, value: Json)
        ensures
            final(self)@ == old(self)@.push((key@, jview(value))),
    {
        proof {
            lemma_jview_entries(old(self).entries@);
        }
        self.entries.push((key, value));
        proof {
            lemma_jview_entries(self.entries@);
            assert(self@ =~= old(self)@.push((key@, jview(value))));
        }
    }
}

impl Json {
    /// Whether this value is an array.
    pub fn is_array(&self) -> (r: bool)
        ensures
            r == (jview(*self) is Arr),
    {
        matches!(self, Json::Arr(_))
    }

    /// Whether this value is an object.
    pub fn is_object(&self) -> (r: bool)
        ensures
            r == (jview(*self) is Obj),
    {
        matches!(self, Json::Obj(_))
    }

    /// This value's fields, when it is an object.
    pub fn as_object<'a>(&'a self) -> (r: Option<&'a JsonObject>)
        ensures
            match r {
                Some(m) => jview(*self) == JsonV::Obj(m@),
                None => !(jview(*self) is Obj),
            },
    {
        match self {
            Json::Obj(m) => Some(m),
            _ => None,
        }
    }

    /// This value's text, when it is a string.
    pub fn as_str<'a>(&'a self) -> (r: Option<&'a String>)
        ensures
            match r {
                Some(t) => jview(*self) == JsonV::Str(t@),
                None => !(jview(*self) is Str),
            },
    {
        match self {
            Json::Str(t) => Some(t),
            _ => None,
        }
    }

    /// The value under `key`, when this value is an object holding it.
    pub fn get<'a>(&'a self, key: &str) -> (r: Option<&'a Json>)
        ensures
            match r {
                Some(v) => jview(*self) matches JsonV::Obj(m) && obj_get_v(m, key@) == Some(
                    jview(*v),
                ),
                None => !(jview(*self) matches JsonV::Obj(m) && obj_has_v(m, key@)),
            },
    {
        match self {
            Json::Obj(m) => m.get(key),
            _ => None,
        }
    }
}

} // verus!
