//! A structured wire-payload value: the shape that frame payloads take on
//! this protocol (null, booleans, integers, strings, arrays, objects).
//!
//! Contracts over payloads speak of the mathematical model `JsonV`, reached
//! through `json_view`.

use vstd::prelude::*;

verus! {

/// Executable payload value.
#[derive(Debug)]
pub enum JsonValue {
    Null,
    Bool(bool),
    Int(i64),
    Str(String),
    Arr(Vec<JsonValue>),
    Obj(Vec<(String, JsonValue)>),
}

/// Mathematical model of a payload value.
#[verifier::ext_equal]
pub enum JsonV {
    Null,
    Bool(bool),
    Int(int),
    Str(Seq<char>),
    Arr(Seq<JsonV>),
    Obj(Seq<(Seq<char>, JsonV)>),
}

/// The model of an executable payload value.
pub open spec fn json_view(v: JsonValue) -> JsonV
    decreases v,
{
    match v {
        JsonValue::Null => JsonV::Null,
        JsonValue::Bool(b) => JsonV::Bool(b),
        JsonValue::Int(i) => JsonV::Int(i as int),
        JsonValue::Str(s) => JsonV::Str(s@),
        JsonValue::Arr(items) => JsonV::Arr(
            Seq::new(
                items@.len(),
                |i: int|
                    if 0 <= i < items@.len() {
                        json_view(items@[i])
                    } else {
                        JsonV::Null
                    },
            ),
        ),
        JsonValue::Obj(fields) => JsonV::Obj(
            Seq::new(
                fields@.len(),
                |i: int|
                    if 0 <= i < fields@.len() {
                        (fields@[i].0@, json_view(fields@[i].1))
                    } else {
                        (Seq::empty(), JsonV::Null)
                    },
            ),
        ),
    }
}

impl View for JsonValue {
    type V = JsonV;

    open spec fn view(&self) -> JsonV {
        json_view(*self)
    }
}

/// First binding of `key` in an object's field list, if any.
pub open spec fn obj_lookup(fields: Seq<(Seq<char>, JsonV)>, key: Seq<char>) -> Option<JsonV>
    decreases fields.len(),
{
    if fields.len() == 0 {
        None
    } else if fields[0].0 == key {
        Some(fields[0].1)
    } else {
        obj_lookup(fields.drop_first(), key)
    }
}

/// Looks `key` up in `v`, when `v` models an object.
pub open spec fn spec_get(v: JsonV, key: Seq<char>) -> Option<JsonV> {
    match v {
        JsonV::Obj(fields) => obj_lookup(fields, key),
        _ => None,
    }
}

impl JsonValue {
    /// Returns the value bound to `key` when `self` is an object holding it.
    pub fn get<'a>(&'a self, key: &str) -> (r: Option<&'a JsonValue>)
        ensures
            match r {
                Some(x) => spec_get(self@, key@) == Some(x@),
                None => spec_get(self@, key@) is None,
            },
    {
        match self {
            JsonValue::Obj(fields) => {
                let ghost fs = self@->Obj_0;
                let key_string: String = key.to_owned();
                let n = fields.len();
                let mut i: usize = 0;
                proof {
                    assert(fs.skip(0) =~= fs);
                }
                while i < n
                    invariant
                        n == fields@.len(),
                        i <= n,
                        self@ == JsonV::Obj(fs),
                        fs.len() == n,
                        forall|j: int| 0 <= j < n ==> fs[j] == (fields@[j].0@, json_view(fields@[j].1)),
                        key_string@ == key@,
                        obj_lookup(fs, key@) == obj_lookup(fs.skip(i as int), key@),
                    decreases n - i,
                {
                    proof {
                        lemma_obj_lookup_skip_step(fs, key@, i as int);
                    }
                    if fields[i].0 == key_string {
                        return Some(&fields[i].1);
                    }
                    i = i + 1;
                }
                proof {
                    assert(fs.skip(n as int) =~= Seq::empty());
                }
                None
            },
            _ => None,
        }
    }
}

impl JsonValue {
    /// The string held by `self`, when `self` is a string value.
    pub fn as_str<'a>(&'a self) -> (r: Option<&'a String>)
        ensures
            match r {
                Some(s) => self@ == JsonV::Str(s@),
                None => !(self@ is Str),
            },
    {
        match self {
            JsonValue::Str(s) => Some(s),
            _ => None,
        }
    }

    /// The boolean held by `self`, when `self` is a boolean value.
    pub fn as_bool(&self) -> (r: Option<bool>)
        ensures
            match r {
                Some(b) => self@ == JsonV::Bool(b),
                None => !(self@ is Bool),
            },
    {
        match self {
            JsonValue::Bool(b) => Some(*b),
            _ => None,
        }
    }

    /// The integer held by `self`, when `self` is an integer value.
    pub fn as_int(&self) -> (r: Option<i64>)
        ensures
            match r {
                Some(i) => self@ == JsonV::Int(i as int),
                None => !(self@ is Int),
            },
    {
        match self {
            JsonValue::Int(i) => Some(*i),
            _ => None,
        }
    }

    /// The element list held by `self`, when `self` is an array.
    pub fn as_array<'a>(&'a self) -> (r: Option<&'a Vec<JsonValue>>)
        ensures
            match r {
                Some(items) => self@ == JsonV::Arr(items.deep_view()) && items.deep_view()
                    == self@->Arr_0,
                None => !(self@ is Arr),
            },
    {
        match self {
            JsonValue::Arr(items) => {
                proof {
                    assert(items.deep_view() =~= self@->Arr_0);
                }
                Some(items)
            },
            _ => None,
        }
    }

    /// The field list held by `self`, when `self` is an object.
    pub fn as_obj<'a>(&'a self) -> (r: Option<&'a Vec<(String, JsonValue)>>)
        ensures
            match r {
                Some(fields) => self@ matches JsonV::Obj(fs) && fs.len() == fields@.len() && (
                forall|i: int|
                    0 <= i < fields@.len() ==> fs[i] == ((#[trigger] fields@[i]).0@, json_view(
                        fields@[i].1,
                    ))),
                None => !(self@ is Obj),
            },
    {
        match self {
            JsonValue::Obj(fields) => Some(fields),
            _ => None,
        }
    }

    /// An exact copy of `self`.
    pub fn deep_clone(&self) -> (r: JsonValue)
        ensures
            r@ == self@,
        decreases *self,
    {
        match self {
            JsonValue::Null => JsonValue::Null,
            JsonValue::Bool(b) => JsonValue::Bool(*b),
            JsonValue::Int(i) => JsonValue::Int(*i),
            JsonValue::Str(s) => JsonValue::Str(s.clone()),
            JsonValue::Arr(items) => {
                let n = items.len();
                let mut out: Vec<JsonValue> = Vec::new();
                let mut i: usize = 0;
                while i < n
                    invariant
                        *self == JsonValue::Arr(*items),
                        n == items@.len(),
                        i <= n,
                        out@.len() == i,
                        forall|j: int| 0 <= j < i ==> json_view(#[trigger] out@[j]) == json_view(
                            items@[j],
                        ),
                    decreases n - i,
                {
                    proof {
                        assert(decreases_to!(*self => self->Arr_0));
                        assert(decreases_to!(items@ => items@[i as int]));
                    }
                    let c = items[i].deep_clone();
                    out.push(c);
                    i = i + 1;
                }
                let r = JsonValue::Arr(out);
                proof {
                    assert(r@->Arr_0 =~= self@->Arr_0);
                    assert(r@ =~~= self@);
                }
                r
            },
            JsonValue::Obj(fields) => {
                let n = fields.len();
                let mut out: Vec<(String, JsonValue)> = Vec::new();
                let mut i: usize = 0;
                while i < n
                    invariant
                        *self == JsonValue::Obj(*fields),
                        n == fields@.len(),
                        i <= n,
                        out@.len() == i,
                        forall|j: int| 0 <= j < i ==> (#[trigger] out@[j]).0@ == fields@[j].0@
                            && json_view(out@[j].1) == json_view(fields@[j].1),
                    decreases n - i,
                {
                    proof {
                        assert(decreases_to!(*self => self->Obj_0));
                        assert(decreases_to!(fields@ => fields@[i as int]));
                        assert(decreases_to!(fields@[i as int] => fields@[i as int].1));
                    }
                    let k = fields[i].0.clone();
                    let v = fields[i].1.deep_clone();
                    out.push((k, v));
                    i = i + 1;
                }
                let r = JsonValue::Obj(out);
                proof {
                    assert(r@->Obj_0 =~= self@->Obj_0);
                    assert(r@ =~~= self@);
                }
                r
            },
        }
    }
}

impl DeepView for JsonValue {
    type V = JsonV;

    open spec fn deep_view(&self) -> JsonV {
        json_view(*self)
    }
}

/// Skipping past a non-matching field leaves the lookup unchanged.
proof fn lemma_obj_lookup_skip_step(fields: Seq<(Seq<char>, JsonV)>, key: Seq<char>, i: int)
    requires
        0 <= i < fields.len(),
    ensures
        fields[i].0 == key ==> obj_lookup(fields.skip(i), key) == Some(fields[i].1),
        fields[i].0 != key ==> obj_lookup(fields.skip(i), key) == obj_lookup(
            fields.skip(i + 1),
            key,
        ),
{
    assert(fields.skip(i)[0] == fields[i]);
    assert(fields.skip(i).drop_first() =~= fields.skip(i + 1));
}

} // verus!
