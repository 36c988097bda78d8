//! A model of the JSON documents the external tool produces, and the
//! trusted bridge to the outside JSON parser.
//!
//! The build-info schema holds only strings, arrays and objects, so the
//! model keeps those three shapes and folds every other JSON value (null,
//! boolean, number) into one opaque case that fails decoding wherever the
//! schema requires structure.

use vstd::prelude::*;

verus! {

broadcast use vstd::std_specs::vec::group_vec_axioms;

/// A JSON value as the decoder sees it.
#[derive(Debug, PartialEq)]
pub enum JsonValue {
    Str(String),
    Arr(Vec<JsonValue>),
    Obj(Vec<(String, JsonValue)>),
    Other,
}

/// The mathematical value of a [`JsonValue`].
#[verifier::ext_equal]
pub ghost enum Json {
    Str(Seq<char>),
    Arr(Seq<Json>),
    Obj(Seq<(Seq<char>, Json)>),
    Other,
}

/// The mathematical values of a list of JSON values, in order.
pub open spec fn json_view_list(a: Seq<JsonValue>) -> Seq<Json>
    decreases a,
{
    if a.len() == 0 {
        Seq::empty()
    } else {
        seq![json_view(a[0])] + json_view_list(a.drop_first())
    }
}

/// The mathematical values of an object's entries, in order.
pub open spec fn json_view_obj(e: Seq<(String, JsonValue)>) -> Seq<(Seq<char>, Json)>
    decreases e,
{
    if e.len() == 0 {
        Seq::empty()
    } else {
        seq![(e[0].0@, json_view(e[0].1))] + json_view_obj(e.drop_first())
    }
}

/// The mathematical value of a [`JsonValue`], structurally.
pub open spec fn json_view(v: JsonValue) -> Json
    decreases v,
{
    match v {
        JsonValue::Str(s) => Json::Str(s@),
        JsonValue::Arr(a) => Json::Arr(json_view_list(a@)),
        JsonValue::Obj(e) => Json::Obj(json_view_obj(e@)),
        JsonValue::Other => Json::Other,
    }
}

/// Element-wise reading of [`json_view_list`].
pub proof fn lemma_json_view_list(a: Seq<JsonValue>)
    ensures
        json_view_list(a).len() == a.len(),
        forall|i: int| 0 <= i < a.len() ==> json_view_list(a)[i] == json_view(#[trigger] a[i]),
    decreases a.len(),
{
    if a.len() > 0 {
        lemma_json_view_list(a.drop_first());
        assert forall|i: int| 0 <= i < a.len() implies json_view_list(a)[i] == json_view(
            #[trigger] a[i],
        ) by {
            if i > 0 {
                assert(a.drop_first()[i - 1] == a[i]);
            }
        }
    }
}

/// Element-wise reading of [`json_view_obj`].
pub proof fn lemma_json_view_obj(e: Seq<(String, JsonValue)>)
    ensures
        json_view_obj(e).len() == e.len(),
        forall|i: int|
            0 <= i < e.len() ==> json_view_obj(e)[i] == ((#[trigger] e[i]).0@, json_view(e[i].1)),
    decreases e.len(),
{
    if e.len() > 0 {
        lemma_json_view_obj(e.drop_first());
        assert forall|i: int| 0 <= i < e.len() implies json_view_obj(e)[i] == ((#[trigger] e[i]).0@,
        json_view(e[i].1)) by {
            if i > 0 {
                assert(e.drop_first()[i - 1] == e[i]);
            }
        }
    }
}

impl View for JsonValue {
    type V = Json;

    open spec fn view(&self) -> Json {
        json_view(*self)
    }
}

impl DeepView for JsonValue {
    type V = Json;

    open spec fn deep_view(&self) -> Json {
        json_view(*self)
    }
}

/// The serde_json value tree is only ever carried from the parser straight
/// into [`JsonValue`]; the library never reads it directly.
#[verifier::external_type_specification]
#[verifier::external_body]
pub struct ExSerdeValue(serde_json::Value);

/// Relies on serde_json::Value's own variants: each is carried over to the
/// library's model one for one, with null, booleans and numbers folded into
/// `JsonValue::Other`.
#[verifier::external_body]
fn convert_value(v: serde_json::Value) -> JsonValue {
    match v {
        serde_json::Value::Null => JsonValue::Other,
        serde_json::Value::Bool(_) => JsonValue::Other,
        serde_json::Value::Number(_) => JsonValue::Other,
        serde_json::Value::String(s) => JsonValue::Str(s),
        serde_json::Value::Array(a) => JsonValue::Arr(
            a.into_iter().map(convert_value).collect(),
        ),
        serde_json::Value::Object(m) => JsonValue::Obj(
            m.into_iter().map(|(k, x)| (k, convert_value(x))).collect(),
        ),
    }
}

/// The JSON document a text parses to, when it is well-formed JSON: the
/// result of the outside parser on that text, a function of the text alone.
pub uninterp spec fn json_of(s: Seq<char>) -> Option<Json>;

/// Relies on serde_json::from_str::<serde_json::Value>: it returns `Ok`
/// exactly on well-formed JSON text and its result depends on the text
/// alone; object keys in the result are unique.
#[verifier::external_body]
pub(crate) fn parse_json(s: &str) -> (r: Option<JsonValue>)
    ensures
        match r {
            Some(v) => json_of(s@) == Some(v@),
            None => json_of(s@) is None,
        },
{
    match serde_json::from_str::<serde_json::Value>(s) {
        Ok(v) => Some(convert_value(v)),
        Err(_) => None,
    }
}

/// The value under the first entry of `e` with key `k`, if there is one.
pub open spec fn json_lookup(e: Seq<(Seq<char>, Json)>, k: Seq<char>) -> Option<Json>
    decreases e.len(),
{
    if e.len() == 0 {
        None
    } else if e[0].0 == k {
        Some(e[0].1)
    } else {
        json_lookup(e.drop_first(), k)
    }
}

/// Peels the head entry off a lookup: the head answers for its own key and
/// every other key is answered by the tail.
pub proof fn lemma_lookup_cons(
    k0: Seq<char>,
    v0: Json,
    rest: Seq<(Seq<char>, Json)>,
    k: Seq<char>,
)
    ensures
        json_lookup(seq![(k0, v0)] + rest, k) == if k0 == k {
            Some(v0)
        } else {
            json_lookup(rest, k)
        },
{
    let e = seq![(k0, v0)] + rest;
    assert(e[0] == (k0, v0));
    assert(e.drop_first() =~= rest);
}

/// An array whose elements are all strings.
pub open spec fn is_str_list(v: Json) -> bool {
    &&& v is Arr
    &&& forall|i: int| 0 <= i < v->Arr_0.len() ==> #[trigger] v->Arr_0[i] is Str
}

/// The strings of a string array.
pub open spec fn str_list_of(v: Json) -> Seq<Seq<char>> {
    Seq::new(v->Arr_0.len(), |i: int| v->Arr_0[i]->Str_0)
}

/// An object whose values are all strings.
pub open spec fn is_str_map(v: Json) -> bool {
    &&& v is Obj
    &&& forall|i: int| 0 <= i < v->Obj_0.len() ==> (#[trigger] v->Obj_0[i]).1 is Str
}

/// The key/string pairs of a string-valued object, in entry order.
pub open spec fn str_map_of(v: Json) -> Seq<(Seq<char>, Seq<char>)> {
    Seq::new(v->Obj_0.len(), |i: int| (v->Obj_0[i].0, v->Obj_0[i].1->Str_0))
}

/// An object whose values are all string arrays.
pub open spec fn is_str_list_map(v: Json) -> bool {
    &&& v is Obj
    &&& forall|i: int| 0 <= i < v->Obj_0.len() ==> is_str_list((#[trigger] v->Obj_0[i]).1)
}

/// The key/list pairs of a string-array-valued object, in entry order.
pub open spec fn str_list_map_of(v: Json) -> Seq<(Seq<char>, Seq<Seq<char>>)> {
    Seq::new(v->Obj_0.len(), |i: int| (v->Obj_0[i].0, str_list_of(v->Obj_0[i].1)))
}

/// An object whose values are all string-valued objects.
pub open spec fn is_str_map_map(v: Json) -> bool {
    &&& v is Obj
    &&& forall|i: int| 0 <= i < v->Obj_0.len() ==> is_str_map((#[trigger] v->Obj_0[i]).1)
}

/// The key/map pairs of an object-valued object, in entry order.
pub open spec fn str_map_map_of(v: Json) -> Seq<(Seq<char>, Seq<(Seq<char>, Seq<char>)>)> {
    Seq::new(v->Obj_0.len(), |i: int| (v->Obj_0[i].0, str_map_of(v->Obj_0[i].1)))
}

/// Finds the first entry with the given key among an object's entries.
pub(crate) fn json_lookup_exec<'a>(entries: &'a Vec<(String, JsonValue)>, key: &str) -> (r: Option<
    &'a JsonValue,
>)
    ensures
        match r {
            Some(v) => json_lookup(json_view_obj(entries@), key@) == Some(v@),
            None => json_lookup(json_view_obj(entries@), key@) is None,
        },
{
    let ghost dv = json_view_obj(entries@);
    proof {
        lemma_json_view_obj(entries@);
        assert(dv.subrange(0, entries@.len() as int) =~= dv);
    }
    let dvlen = entries.len();
    let mut i: usize = 0;
    while i < dvlen
        invariant
            dvlen == entries@.len(),
            i <= dvlen,
            dv == json_view_obj(entries@),
            dv.len() == dvlen,
            forall|q: int| 0 <= q < dvlen ==> dv[q] == ((#[trigger] entries@[q]).0@, json_view(
                entries@[q].1,
            )),
            json_lookup(dv, key@) == json_lookup(dv.subrange(i as int, dvlen as int), key@),
        decreases dvlen - i,
    {
        let ghost rem = dv.subrange(i as int, dvlen as int);
        proof {
            assert(rem[0] == dv[i as int]);
            assert(rem.drop_first() =~= dv.subrange(i as int + 1, dvlen as int));
        }
        if crate::strutil::str_eq(entries[i].0.as_str(), key) {
            return Some(&entries[i].1);
        }
        i += 1;
    }
    proof {
        assert(dv.subrange(dvlen as int, dvlen as int).len() == 0);
    }
    None
}

} // verus!
