//! JSON documents as the controller reads and writes them: stored artifact
//! content, tool results and the bodies it records.
//!
//! An object is a sequence of key assignments; a later assignment of a key
//! overrides an earlier one, so `get` answers with the last entry for a key.
use vstd::prelude::*;
use crate::text::str_eq;

verus! {

broadcast use vstd::std_specs::vec::group_vec_axioms;

/// Whether member `key` of `v` is the string `expected`.
pub fn str_member_is(v: &JsonValue, key: &str, expected: &str) -> (r: bool)
    ensures
        r == (str_member(v@, key@) == Some(expected@)),
{
    match v.get(key) {
        Some(m) => match m.as_str() {
            Some(s) => str_eq(s, expected),
            None => false,
        },
        None => false,
    }
}

/// Whether the value at `path` in `v` is the string `expected`.
pub fn str_at_is(v: &JsonValue, path: &[&str], expected: &str) -> (r: bool)
    ensures
        r == (str_at(v@, path_view(path@)) == Some(expected@)),
{
    match v.pointer(path) {
        Some(m) => match m.as_str() {
            Some(s) => str_eq(s, expected),
            None => false,
        },
        None => false,
    }
}

/// The string member `key` of `v`, if any.
pub fn get_str<'a>(v: &'a JsonValue, key: &str) -> (r: Option<&'a str>)
    ensures
        match r {
            Some(s) => str_member(v@, key@) == Some(s@),
            None => str_member(v@, key@) is None,
        },
{
    match v.get(key) {
        Some(m) => m.as_str(),
        None => None,
    }
}

/// The string at `path` in `v`, if any.
pub fn get_str_at<'a>(v: &'a JsonValue, path: &[&str]) -> (r: Option<&'a str>)
    ensures
        match r {
            Some(s) => str_at(v@, path_view(path@)) == Some(s@),
            None => str_at(v@, path_view(path@)) is None,
        },
{
    match v.pointer(path) {
        Some(m) => m.as_str(),
        None => None,
    }
}

pub fn get_bool(v: &JsonValue, key: &str) -> (r: Option<bool>)
    ensures
        r == bool_member(v@, key@),
{
    match v.get(key) {
        Some(m) => m.as_bool(),
        None => None,
    }
}

pub fn get_i64(v: &JsonValue, key: &str) -> (r: Option<i64>)
    ensures
        match r {
            Some(n) => i64_member(v@, key@) == Some(n as int),
            None => i64_member(v@, key@) is None,
        },
{
    match v.get(key) {
        Some(m) => m.as_i64(),
        None => None,
    }
}

pub fn get_u64(v: &JsonValue, key: &str) -> (r: Option<u64>)
    ensures
        match r {
            Some(n) => u64_member(v@, key@) == Some(n as int),
            None => u64_member(v@, key@) is None,
        },
{
    match v.get(key) {
        Some(m) => m.as_u64(),
        None => None,
    }
}

} // verus!

verus! {

/// A JSON number. Integers are kept exactly; any other number is carried as
/// its decimal text.
pub enum JsonNumber {
    PosInt(u64),
    NegInt(i64),
    Float(String),
}

/// An executable JSON value.
pub enum JsonValue {
    Null,
    Bool(bool),
    Number(JsonNumber),
    Str(String),
    Array(Vec<JsonValue>),
    Object(Vec<(String, JsonValue)>),
}

/// The mathematical JSON value.
pub enum Json {
    Null,
    Bool(bool),
    Int(int),
    Float(Seq<char>),
    Str(Seq<char>),
    Array(Seq<Json>),
    Object(Seq<(Seq<char>, Json)>),
}

pub open spec fn json_view(v: JsonValue) -> Json
    decreases v,
{
    match v {
        JsonValue::Null => Json::Null,
        JsonValue::Bool(b) => Json::Bool(b),
        JsonValue::Number(JsonNumber::PosInt(n)) => Json::Int(n as int),
        JsonValue::Number(JsonNumber::NegInt(n)) => Json::Int(n as int),
        JsonValue::Number(JsonNumber::Float(t)) => Json::Float(t@),
        JsonValue::Str(s) => Json::Str(s@),
        JsonValue::Array(items) => Json::Array(
            Seq::new(
                items@.len(),
                |i: int|
                    if 0 <= i < items@.len() {
                        json_view(items@[i])
                    } else {
                        Json::Null
                    },
            ),
        ),
        JsonValue::Object(entries) => Json::Object(
            Seq::new(
                entries@.len(),
                |i: int|
                    if 0 <= i < entries@.len() {
                        (entries@[i].0@, json_view(entries@[i].1))
                    } else {
                        (Seq::empty(), Json::Null)
                    },
            ),
        ),
    }
}

impl View for JsonValue {
    type V = Json;

    open spec fn view(&self) -> Json {
        json_view(*self)
    }
}

pub open spec fn opt_json_view(v: Option<&JsonValue>) -> Option<Json> {
    match v {
        Some(j) => Some(j@),
        None => None,
    }
}

/// The value assigned last to `key` among `entries`.
pub open spec fn entries_get(entries: Seq<(Seq<char>, Json)>, key: Seq<char>) -> Option<Json>
    decreases entries.len(),
{
    if entries.len() == 0 {
        None
    } else if entries.last().0 == key {
        Some(entries.last().1)
    } else {
        entries_get(entries.drop_last(), key)
    }
}

impl Json {
    /// The member `key` of an object; nothing for any other value.
    pub open spec fn get(self, key: Seq<char>) -> Option<Json> {
        match self {
            Json::Object(entries) => entries_get(entries, key),
            _ => None,
        }
    }

    /// Follow a path of object keys.
    pub open spec fn pointer(self, path: Seq<Seq<char>>) -> Option<Json>
        decreases path.len(),
    {
        if path.len() == 0 {
            Some(self)
        } else {
            match self.get(path[0]) {
                Some(child) => child.pointer(path.drop_first()),
                None => None,
            }
        }
    }

    pub open spec fn as_str(self) -> Option<Seq<char>> {
        match self {
            Json::Str(s) => Some(s),
            _ => None,
        }
    }

    pub open spec fn as_bool(self) -> Option<bool> {
        match self {
            Json::Bool(b) => Some(b),
            _ => None,
        }
    }

    pub open spec fn as_i64(self) -> Option<int> {
        match self {
            Json::Int(n) => if i64::MIN <= n <= i64::MAX {
                Some(n)
            } else {
                None
            },
            _ => None,
        }
    }

    pub open spec fn as_u64(self) -> Option<int> {
        match self {
            Json::Int(n) => if 0 <= n <= u64::MAX {
                Some(n)
            } else {
                None
            },
            _ => None,
        }
    }

    pub open spec fn is_object(self) -> bool {
        self is Object
    }
}

/// The text found at `path`, if it is a string.
pub open spec fn str_at(v: Json, path: Seq<Seq<char>>) -> Option<Seq<char>> {
    match v.pointer(path) {
        Some(j) => j.as_str(),
        None => None,
    }
}

/// The text member `key`, if it is a string.
pub open spec fn str_member(v: Json, key: Seq<char>) -> Option<Seq<char>> {
    match v.get(key) {
        Some(j) => j.as_str(),
        None => None,
    }
}

pub open spec fn opt_str_member(v: Option<Json>, key: Seq<char>) -> Option<Seq<char>> {
    match v {
        Some(j) => str_member(j, key),
        None => None,
    }
}

pub open spec fn bool_member(v: Json, key: Seq<char>) -> Option<bool> {
    match v.get(key) {
        Some(j) => j.as_bool(),
        None => None,
    }
}

pub open spec fn i64_member(v: Json, key: Seq<char>) -> Option<int> {
    match v.get(key) {
        Some(j) => j.as_i64(),
        None => None,
    }
}

pub open spec fn u64_member(v: Json, key: Seq<char>) -> Option<int> {
    match v.get(key) {
        Some(j) => j.as_u64(),
        None => None,
    }
}

pub open spec fn path_view(path: Seq<&str>) -> Seq<Seq<char>> {
    path.map_values(|s: &str| s@)
}

impl JsonValue {
    /// The member `key` of an object.
    pub fn get(&self, key: &str) -> (r: Option<&JsonValue>)
        ensures
            opt_json_view(r) == self@.get(key@),
    {
        match self {
            JsonValue::Object(entries) => {
                let ghost es = self@->Object_0;
                proof {
                    assert(es.subrange(0, es.len() as int) =~= es);
                }
                let mut i = entries.len();
                while i > 0
                    invariant
                        i <= entries@.len(),
                        self@ == Json::Object(es),
                        es.len() == entries@.len(),
                        forall|k: int|
                            0 <= k < entries@.len() ==> #[trigger] es[k] == (
                                entries@[k].0@,
                                json_view(entries@[k].1),
                            ),
                        entries_get(es, key@) == entries_get(es.subrange(0, i as int), key@),
                    decreases i,
                {
                    let ghost prefix = es.subrange(0, i as int);
                    proof {
                        assert(prefix.drop_last() =~= es.subrange(0, i - 1));
                        assert(prefix.last() == es[i - 1]);
                    }
                    if str_eq(entries[i - 1].0.as_str(), key) {
                        proof {
                            assert(es[i - 1] == (entries@[i - 1].0@, json_view(entries@[i - 1].1)));
                        }
                        return Some(&entries[i - 1].1);
                    }
                    proof {
                        assert(es[i - 1] == (entries@[i - 1].0@, json_view(entries@[i - 1].1)));
                    }
                    i = i - 1;
                }
                None
            },
            _ => None,
        }
    }

    /// Follow a path of object keys.
    pub fn pointer(&self, path: &[&str]) -> (r: Option<&JsonValue>)
        ensures
            opt_json_view(r) == self@.pointer(path_view(path@)),
    {
        let mut cur = self;
        let mut i: usize = 0;
        let n = path.len();
        proof {
            assert(path_view(path@).subrange(0, n as int) =~= path_view(path@));
        }
        while i < n
            invariant
                n == path@.len(),
                i <= n,
                self@.pointer(path_view(path@)) == cur@.pointer(path_view(path@).subrange(i as int, n as int)),
            decreases n - i,
        {
            let ghost rest = path_view(path@).subrange(i as int, n as int);
            proof {
                assert(rest[0] == path@[i as int]@);
                assert(rest.drop_first() =~= path_view(path@).subrange(i + 1, n as int));
            }
            match cur.get(path[i]) {
                Some(child) => {
                    cur = child;
                },
                None => {
                    return None;
                },
            }
            i = i + 1;
        }
        proof {
            assert(path_view(path@).subrange(n as int, n as int) =~= Seq::<Seq<char>>::empty());
        }
        Some(cur)
    }

    pub fn as_str(&self) -> (r: Option<&str>)
        ensures
            match r {
                Some(s) => self@.as_str() == Some(s@),
                None => self@.as_str() is None,
            },
    {
        match self {
            JsonValue::Str(s) => Some(s.as_str()),
            _ => None,
        }
    }

    pub fn as_bool(&self) -> (r: Option<bool>)
        ensures
            r == self@.as_bool(),
    {
        match self {
            JsonValue::Bool(b) => Some(*b),
            _ => None,
        }
    }

    pub fn as_i64(&self) -> (r: Option<i64>)
        ensures
            match r {
                Some(n) => self@.as_i64() == Some(n as int),
                None => self@.as_i64() is None,
            },
    {
        match self {
            JsonValue::Number(JsonNumber::PosInt(n)) => if *n <= 9223372036854775807u64 {
                Some(*n as i64)
            } else {
                None
            },
            JsonValue::Number(JsonNumber::NegInt(n)) => Some(*n),
            _ => None,
        }
    }

    pub fn as_u64(&self) -> (r: Option<u64>)
        ensures
            match r {
                Some(n) => self@.as_u64() == Some(n as int),
                None => self@.as_u64() is None,
            },
    {
        match self {
            JsonValue::Number(JsonNumber::PosInt(n)) => Some(*n),
            JsonValue::Number(JsonNumber::NegInt(n)) => if *n >= 0 {
                Some(*n as u64)
            } else {
                None
            },
            _ => None,
        }
    }

    pub fn is_object(&self) -> (r: bool)
        ensures
            r == self@.is_object(),
    {
        match self {
            JsonValue::Object(_) => true,
            _ => false,
        }
    }
}

/// The mathematical entries of an executable object.
pub open spec fn entries_view(es: Seq<(String, JsonValue)>) -> Seq<(Seq<char>, Json)> {
    Seq::new(es.len(), |i: int| (es[i].0@, es[i].1@))
}

pub open spec fn items_view(items: Seq<JsonValue>) -> Seq<Json> {
    Seq::new(items.len(), |i: int| items[i]@)
}

pub proof fn lemma_object_view(entries: Vec<(String, JsonValue)>)
    ensures
        JsonValue::Object(entries)@ == Json::Object(entries_view(entries@)),
{
    assert(JsonValue::Object(entries)@->Object_0 =~= entries_view(entries@));
}

pub proof fn lemma_array_view(items: Vec<JsonValue>)
    ensures
        JsonValue::Array(items)@ == Json::Array(items_view(items@)),
{
    assert(JsonValue::Array(items)@->Array_0 =~= items_view(items@));
}

/// Append the assignment `key = value` to an object under construction.
pub fn obj_insert(entries: &mut Vec<(String, JsonValue)>, key: &str, value: JsonValue)
    ensures
        entries_view(final(entries)@) == entries_view(old(entries)@).push((key@, value@)),
{
    let ghost old_es = entries@;
    entries.push((key.to_owned(), value));
    proof {
        assert(entries_view(entries@) =~= entries_view(old_es).push((key@, value@)));
    }
}

/// A JSON string holding the given text.
pub fn json_str(s: &str) -> (r: JsonValue)
    ensures
        r@ == Json::Str(s@),
{
    JsonValue::Str(s.to_owned())
}

/// A JSON string holding an optional text, `null` when absent.
pub fn json_opt_str(s: Option<&str>) -> (r: JsonValue)
    ensures
        r@ == match s {
            Some(t) => Json::Str(t@),
            None => Json::Null,
        },
{
    match s {
        Some(t) => JsonValue::Str(t.to_owned()),
        None => JsonValue::Null,
    }
}

impl JsonValue {
    /// A structurally identical copy.
    pub fn duplicate(&self) -> (r: JsonValue)
        ensures
            r@ == self@,
        decreases self,
    {
        match self {
            JsonValue::Null => JsonValue::Null,
            JsonValue::Bool(b) => JsonValue::Bool(*b),
            JsonValue::Number(JsonNumber::PosInt(n)) => JsonValue::Number(JsonNumber::PosInt(*n)),
            JsonValue::Number(JsonNumber::NegInt(n)) => JsonValue::Number(JsonNumber::NegInt(*n)),
            JsonValue::Number(JsonNumber::Float(t)) => JsonValue::Number(
                JsonNumber::Float(t.clone()),
            ),
            JsonValue::Str(t) => JsonValue::Str(t.clone()),
            JsonValue::Array(items) => {
                let mut out: Vec<JsonValue> = Vec::new();
                let mut i: usize = 0;
                while i < items.len()
                    invariant
                        *self == JsonValue::Array(*items),
                        i <= items@.len(),
                        out@.len() == i,
                        forall|k: int| 0 <= k < i ==> #[trigger] out@[k]@ == items@[k]@,
                    decreases items@.len() - i,
                {
                    proof {
                        assert(decreases_to!(*self => (*self)->Array_0));
                        assert(decreases_to!(*items => items@));
                        assert(decreases_to!(items@ => items@[i as int]));
                        assert(decreases_to!(*self => items@[i as int]));
                    }
                    let item = items[i].duplicate();
                    out.push(item);
                    i = i + 1;
                }
                proof {
                    lemma_array_view(out);
                    lemma_array_view(*items);
                    assert(items_view(out@) =~= items_view(items@));
                }
                JsonValue::Array(out)
            },
            JsonValue::Object(entries) => {
                let mut out: Vec<(String, JsonValue)> = Vec::new();
                let mut i: usize = 0;
                while i < entries.len()
                    invariant
                        *self == JsonValue::Object(*entries),
                        i <= entries@.len(),
                        out@.len() == i,
                        forall|k: int|
                            0 <= k < i ==> #[trigger] out@[k].0@ == entries@[k].0@ && out@[k].1@
                                == entries@[k].1@,
                    decreases entries@.len() - i,
                {
                    proof {
                        assert(decreases_to!(*self => (*self)->Object_0));
                        assert(decreases_to!(*entries => entries@));
                        assert(decreases_to!(entries@ => entries@[i as int]));
                        assert(decreases_to!(entries@[i as int] => entries@[i as int].1));
                        assert(decreases_to!(*self => entries@[i as int].1));
                    }
                    let value = entries[i].1.duplicate();
                    let key = entries[i].0.clone();
                    out.push((key, value));
                    i = i + 1;
                }
                proof {
                    lemma_object_view(out);
                    lemma_object_view(*entries);
                    assert(entries_view(out@) =~= entries_view(entries@));
                }
                JsonValue::Object(out)
            },
        }
    }
}

/// Structural equality of two JSON values: numbers compare by value, texts
/// exactly, arrays element by element and objects member by member in order.
pub fn json_equal(a: &JsonValue, b: &JsonValue) -> (r: bool)
    ensures
        r == (a@ == b@),
    decreases a,
{
    match (a, b) {
        (JsonValue::Null, JsonValue::Null) => true,
        (JsonValue::Bool(x), JsonValue::Bool(y)) => *x == *y,
        (JsonValue::Number(x), JsonValue::Number(y)) => match (x, y) {
            (JsonNumber::Float(s), JsonNumber::Float(t)) => crate::text::str_eq(s.as_str(), t.as_str()),
            (JsonNumber::Float(_), _) => false,
            (_, JsonNumber::Float(_)) => false,
            (JsonNumber::PosInt(m), JsonNumber::PosInt(n)) => *m == *n,
            (JsonNumber::NegInt(m), JsonNumber::NegInt(n)) => *m == *n,
            (JsonNumber::PosInt(m), JsonNumber::NegInt(n)) => (*m as i128) == (*n as i128),
            (JsonNumber::NegInt(m), JsonNumber::PosInt(n)) => (*m as i128) == (*n as i128),
        },
        (JsonValue::Str(s), JsonValue::Str(t)) => crate::text::str_eq(s.as_str(), t.as_str()),
        (JsonValue::Array(xs), JsonValue::Array(ys)) => {
            proof {
                lemma_array_view(*xs);
                lemma_array_view(*ys);
            }
            if xs.len() != ys.len() {
                proof {
                    assert(items_view(xs@).len() != items_view(ys@).len());
                }
                return false;
            }
            let mut i: usize = 0;
            while i < xs.len()
                invariant
                    *a == JsonValue::Array(*xs),
                    a@ == Json::Array(items_view(xs@)),
                    b@ == Json::Array(items_view(ys@)),
                    xs@.len() == ys@.len(),
                    i <= xs@.len(),
                    forall|k: int| 0 <= k < i ==> #[trigger] xs@[k]@ == ys@[k]@,
                decreases xs@.len() - i,
            {
                proof {
                    assert(decreases_to!(*a => (*a)->Array_0));
                    assert(decreases_to!(*xs => xs@));
                    assert(decreases_to!(xs@ => xs@[i as int]));
                    assert(decreases_to!(*a => xs@[i as int]));
                }
                if !json_equal(&xs[i], &ys[i]) {
                    proof {
                        assert(items_view(xs@)[i as int] != items_view(ys@)[i as int]);
                    }
                    return false;
                }
                i = i + 1;
            }
            proof {
                assert(items_view(xs@) =~= items_view(ys@));
            }
            true
        },
        (JsonValue::Object(xs), JsonValue::Object(ys)) => {
            proof {
                lemma_object_view(*xs);
                lemma_object_view(*ys);
            }
            if xs.len() != ys.len() {
                proof {
                    assert(entries_view(xs@).len() != entries_view(ys@).len());
                }
                return false;
            }
            let mut i: usize = 0;
            while i < xs.len()
                invariant
                    *a == JsonValue::Object(*xs),
                    a@ == Json::Object(entries_view(xs@)),
                    b@ == Json::Object(entries_view(ys@)),
                    xs@.len() == ys@.len(),
                    i <= xs@.len(),
                    forall|k: int| 0 <= k < i ==> #[trigger] entries_view(xs@)[k] == entries_view(ys@)[k],
                decreases xs@.len() - i,
            {
                proof {
                    assert(decreases_to!(*a => (*a)->Object_0));
                    assert(decreases_to!(*xs => xs@));
                    assert(decreases_to!(xs@ => xs@[i as int]));
                    assert(decreases_to!(xs@[i as int] => xs@[i as int].1));
                    assert(decreases_to!(*a => xs@[i as int].1));
                }
                if !crate::text::str_eq(xs[i].0.as_str(), ys[i].0.as_str()) || !json_equal(&xs[i].1, &ys[i].1) {
                    proof {
                        assert(entries_view(xs@)[i as int] != entries_view(ys@)[i as int]);
                    }
                    return false;
                }
                proof {
                    assert(entries_view(xs@)[i as int] == entries_view(ys@)[i as int]);
                }
                i = i + 1;
            }
            proof {
                assert(entries_view(xs@) =~= entries_view(ys@));
            }
            true
        },
        (JsonValue::Null, _) | (JsonValue::Bool(_), _) | (JsonValue::Number(_), _) | (JsonValue::Str(_), _)
        | (JsonValue::Array(_), _) | (JsonValue::Object(_), _) => {
            proof {
                match (a, b) {
                    (JsonValue::Array(xs), _) => lemma_array_view(*xs),
                    (JsonValue::Object(xs), _) => lemma_object_view(*xs),
                    _ => {},
                }
                match (a, b) {
                    (_, JsonValue::Array(ys)) => lemma_array_view(*ys),
                    (_, JsonValue::Object(ys)) => lemma_object_view(*ys),
                    _ => {},
                }
            }
            false
        },
    }
}

/// `obj[key] = v`: an object gets the assignment, `null` becomes an object
/// holding it, and any other value is left as it is.
pub open spec fn spec_set_member(obj: Json, key: Seq<char>, v: Json) -> Json {
    match obj {
        Json::Object(es) => Json::Object(es.push((key, v))),
        Json::Null => Json::Object(seq![(key, v)]),
        _ => obj,
    }
}

/// Assign `key` in an object (or in `null`, which becomes an object).
pub fn set_member(obj: JsonValue, key: &str, v: JsonValue) -> (r: JsonValue)
    requires
        obj@ is Object || obj@ is Null,
    ensures
        r@ == spec_set_member(obj@, key@, v@),
{
    match obj {
        JsonValue::Object(mut es) => {
            proof {
                lemma_object_view(es);
            }
            obj_insert(&mut es, key, v);
            proof {
                lemma_object_view(es);
            }
            JsonValue::Object(es)
        },
        _ => {
            let mut es: Vec<(String, JsonValue)> = Vec::new();
            obj_insert(&mut es, key, v);
            proof {
                lemma_object_view(es);
                assert(entries_view(es@) =~= seq![(key@, v@)]);
            }
            JsonValue::Object(es)
        },
    }
}

} // verus!
