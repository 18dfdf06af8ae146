//! Reading and writing the members of a JSON object: required and optional
//! strings, integers and flags. An optional member that is absent or null
//! reads as absent, never as a zero or an empty string.
use vstd::prelude::*;
use crate::json::{Json, JsonV, field, int_in_range, parse_int, int_text, int_to_text, lookup};

verus! {

pub open spec fn text_opt(o: Option<String>) -> Option<Seq<char>> {
    match o {
        Some(s) => Some(s@),
        None => None,
    }
}

pub open spec fn is_object(j: JsonV) -> bool {
    j is Object
}

/// A required string member.
pub open spec fn str_member(j: JsonV, key: Seq<char>) -> Option<Seq<char>> {
    match field(j, key) {
        Some(JsonV::Str(s)) => Some(s),
        _ => None,
    }
}

/// An optional string member: `Some(None)` when it is absent or null,
/// `Some(Some(s))` for a string, and `None` for any other value.
pub open spec fn opt_str_member(j: JsonV, key: Seq<char>) -> Option<Option<Seq<char>>> {
    match field(j, key) {
        None => Some(None),
        Some(JsonV::Null) => Some(None),
        Some(JsonV::Str(s)) => Some(Some(s)),
        _ => None,
    }
}

/// A required integer member in `lo..=hi`.
pub open spec fn int_member(j: JsonV, key: Seq<char>, lo: int, hi: int) -> Option<int> {
    match field(j, key) {
        Some(JsonV::Number(t)) => int_in_range(t, lo, hi),
        _ => None,
    }
}

/// An optional integer member in `lo..=hi`, read as `opt_str_member` reads strings.
pub open spec fn opt_int_member(j: JsonV, key: Seq<char>, lo: int, hi: int) -> Option<Option<int>> {
    match field(j, key) {
        None => Some(None),
        Some(JsonV::Null) => Some(None),
        Some(JsonV::Number(t)) => match int_in_range(t, lo, hi) {
            Some(v) => Some(Some(v)),
            None => None,
        },
        _ => None,
    }
}

/// A required boolean member.
pub open spec fn bool_member(j: JsonV, key: Seq<char>) -> Option<bool> {
    match field(j, key) {
        Some(JsonV::Bool(b)) => Some(b),
        _ => None,
    }
}

pub fn is_object_value(j: &Json) -> (r: bool)
    ensures
        r == is_object(j@),
{
    match j {
        Json::Object(_) => true,
        _ => false,
    }
}

pub fn req_str(j: &Json, key: &str) -> (r: Option<String>)
    ensures
        text_opt(r) == str_member(j@, key@),
{
    match j.get(key) {
        Some(Json::Str(s)) => Some(s.clone()),
        _ => None,
    }
}

pub fn opt_str(j: &Json, key: &str) -> (r: Option<Option<String>>)
    ensures
        match r {
            Some(v) => opt_str_member(j@, key@) == Some(text_opt(v)),
            None => opt_str_member(j@, key@) is None,
        },
{
    match j.get(key) {
        None => Some(None),
        Some(Json::Null) => Some(None),
        Some(Json::Str(s)) => Some(Some(s.clone())),
        _ => None,
    }
}

pub fn req_int(j: &Json, key: &str, lo: i64, hi: i64) -> (r: Option<i64>)
    ensures
        match int_member(j@, key@, lo as int, hi as int) {
            Some(v) => r == Some(v as i64),
            None => r is None,
        },
{
    match j.get(key) {
        Some(Json::Number(t)) => parse_int(t.as_str(), lo, hi),
        _ => None,
    }
}

pub fn opt_int(j: &Json, key: &str, lo: i64, hi: i64) -> (r: Option<Option<i64>>)
    ensures
        match opt_int_member(j@, key@, lo as int, hi as int) {
            Some(Some(v)) => r == Some(Some(v as i64)),
            Some(None) => r == Some(None::<i64>),
            None => r is None,
        },
{
    match j.get(key) {
        None => Some(None),
        Some(Json::Null) => Some(None),
        Some(Json::Number(t)) => match parse_int(t.as_str(), lo, hi) {
            Some(v) => Some(Some(v)),
            None => None,
        },
        _ => None,
    }
}

pub fn req_bool(j: &Json, key: &str) -> (r: Option<bool>)
    ensures
        r == bool_member(j@, key@),
{
    match j.get(key) {
        Some(Json::Bool(b)) => Some(*b),
        _ => None,
    }
}


/// The mathematical form of a list of object members.
pub open spec fn members_view(m: Seq<(String, Json)>) -> Seq<(Seq<char>, JsonV)> {
    Seq::new(m.len(), |i: int| (m[i].0@, m[i].1@))
}

/// The members written for `key`: one when there is a value, none otherwise.
pub open spec fn entry(key: Seq<char>, o: Option<JsonV>) -> Seq<(Seq<char>, JsonV)> {
    match o {
        Some(v) => seq![(key, v)],
        None => seq![],
    }
}

pub open spec fn str_entry(key: Seq<char>, s: Seq<char>) -> Seq<(Seq<char>, JsonV)> {
    entry(key, Some(JsonV::Str(s)))
}

pub open spec fn opt_str_entry(key: Seq<char>, o: Option<Seq<char>>) -> Seq<(Seq<char>, JsonV)> {
    entry(
        key,
        match o {
            Some(s) => Some(JsonV::Str(s)),
            None => None,
        },
    )
}

pub open spec fn int_entry(key: Seq<char>, v: int) -> Seq<(Seq<char>, JsonV)> {
    entry(key, Some(JsonV::Number(int_text(v))))
}

pub open spec fn opt_int_entry(key: Seq<char>, o: Option<int>) -> Seq<(Seq<char>, JsonV)> {
    entry(
        key,
        match o {
            Some(v) => Some(JsonV::Number(int_text(v))),
            None => None,
        },
    )
}

pub open spec fn bool_entry(key: Seq<char>, b: bool) -> Seq<(Seq<char>, JsonV)> {
    entry(key, Some(JsonV::Bool(b)))
}

pub open spec fn opt_bool_entry(key: Seq<char>, o: Option<bool>) -> Seq<(Seq<char>, JsonV)> {
    entry(
        key,
        match o {
            Some(b) => Some(JsonV::Bool(b)),
            None => None,
        },
    )
}

/// A number member written with the text given, digit for digit.
pub open spec fn opt_number_entry(key: Seq<char>, o: Option<Seq<char>>) -> Seq<(Seq<char>, JsonV)> {
    entry(
        key,
        match o {
            Some(t) => Some(JsonV::Number(t)),
            None => None,
        },
    )
}

pub open spec fn value_entry(key: Seq<char>, v: JsonV) -> Seq<(Seq<char>, JsonV)> {
    entry(key, Some(v))
}

pub open spec fn opt_value_entry(key: Seq<char>, o: Option<JsonV>) -> Seq<(Seq<char>, JsonV)> {
    entry(key, o)
}

/// The object made of the members `m`, in their order.
pub fn object_of(m: Vec<(String, Json)>) -> (r: Json)
    ensures
        r@ == JsonV::Object(members_view(m@)),
{
    let r = Json::Object(m);
    assert(r@->Object_0 =~= members_view(m@));
    r
}

pub fn push_value(m: &mut Vec<(String, Json)>, key: &str, v: Json)
    ensures
        members_view(final(m)@) == members_view(old(m)@) + value_entry(key@, v@),
{
    m.push((key.to_owned(), v));
    assert(members_view(final(m)@) =~= members_view(old(m)@) + value_entry(key@, v@));
}

pub fn push_str(m: &mut Vec<(String, Json)>, key: &str, s: &String)
    ensures
        members_view(final(m)@) == members_view(old(m)@) + str_entry(key@, s@),
{
    push_value(m, key, Json::Str(s.clone()));
}

pub fn push_opt_str(m: &mut Vec<(String, Json)>, key: &str, o: &Option<String>)
    ensures
        members_view(final(m)@) == members_view(old(m)@) + opt_str_entry(key@, text_opt(*o)),
{
    match o {
        Some(s) => push_str(m, key, s),
        None => {
            assert(members_view(old(m)@) + opt_str_entry(key@, text_opt(*o)) =~= members_view(old(m)@));
        },
    }
}

pub fn push_int(m: &mut Vec<(String, Json)>, key: &str, v: i64)
    ensures
        members_view(final(m)@) == members_view(old(m)@) + int_entry(key@, v as int),
{
    push_value(m, key, Json::Number(int_to_text(v)));
}

pub fn push_opt_int(m: &mut Vec<(String, Json)>, key: &str, o: Option<i64>)
    ensures
        members_view(final(m)@) == members_view(old(m)@) + opt_int_entry(
            key@,
            match o {
                Some(v) => Some(v as int),
                None => None,
            },
        ),
{
    match o {
        Some(v) => push_int(m, key, v),
        None => {
            assert(members_view(old(m)@) + opt_int_entry(key@, None) =~= members_view(old(m)@));
        },
    }
}

pub fn push_bool(m: &mut Vec<(String, Json)>, key: &str, b: bool)
    ensures
        members_view(final(m)@) == members_view(old(m)@) + bool_entry(key@, b),
{
    push_value(m, key, Json::Bool(b));
}

pub fn push_opt_value(m: &mut Vec<(String, Json)>, key: &str, o: Option<Json>)
    ensures
        members_view(final(m)@) == members_view(old(m)@) + opt_value_entry(
            key@,
            match o {
                Some(v) => Some(v@),
                None => None,
            },
        ),
{
    match o {
        Some(v) => push_value(m, key, v),
        None => {
            assert(members_view(old(m)@) + opt_value_entry(key@, None) =~= members_view(old(m)@));
        },
    }
}


/// A required member that is an array of strings.
pub open spec fn strs_member(j: JsonV, key: Seq<char>) -> Option<Seq<Seq<char>>> {
    match field(j, key) {
        Some(JsonV::Array(a)) => if forall|i: int| 0 <= i < a.len() ==> (#[trigger] a[i]) is Str {
            Some(Seq::new(a.len(), |i: int| a[i]->Str_0))
        } else {
            None
        },
        _ => None,
    }
}

/// The JSON array of the strings `s`.
pub open spec fn strs_json(s: Seq<Seq<char>>) -> JsonV {
    JsonV::Array(Seq::new(s.len(), |i: int| JsonV::Str(s[i])))
}

pub open spec fn strs_entry(key: Seq<char>, s: Seq<Seq<char>>) -> Seq<(Seq<char>, JsonV)> {
    entry(key, Some(strs_json(s)))
}

pub open spec fn texts_view(v: Seq<String>) -> Seq<Seq<char>> {
    Seq::new(v.len(), |i: int| v[i]@)
}

pub fn req_strs(j: &Json, key: &str) -> (r: Option<Vec<String>>)
    ensures
        match r {
            Some(v) => strs_member(j@, key@) == Some(texts_view(v@)),
            None => strs_member(j@, key@) is None,
        },
{
    match j.get(key) {
        Some(x) => match x {
            Json::Array(a) => {
                let ghost av = x@->Array_0;
                assert(forall|k: int| 0 <= k < a.len() ==> av[k] == #[trigger] a[k]@);
                let mut out: Vec<String> = Vec::new();
                let mut i: usize = 0;
                assert(x@ == JsonV::Array(av));
                #[verifier::loop_isolation(false)]
                while i < a.len()
                    invariant
                        0 <= i <= a.len(),
                        av.len() == a.len(),
                        forall|k: int| 0 <= k < a.len() ==> av[k] == #[trigger] a[k]@,
                        out.len() == i,
                        forall|k: int| 0 <= k < i ==> (#[trigger] av[k]) is Str && out[k]@ == av[k]->Str_0,
                    decreases a.len() - i,
                {
                    let ghost before = out@;
                    match &a[i] {
                        Json::Str(s) => {
                            assert(a[i as int]@ == JsonV::Str(s@));
                            out.push(s.clone());
                            assert(forall|k: int| 0 <= k < i ==> out[k] == before[k]);
                        },
                        _ => {
                            assert(!(a[i as int]@ is Str));
                            assert(!(av[i as int] is Str));
                            return None;
                        },
                    }
                    i = i + 1;
                }
                assert(texts_view(out@) =~= Seq::new(av.len(), |i: int| av[i]->Str_0));
                Some(out)
            },
            _ => None,
        },
        None => None,
    }
}

pub fn push_strs(m: &mut Vec<(String, Json)>, key: &str, v: &Vec<String>)
    ensures
        members_view(final(m)@) == members_view(old(m)@) + strs_entry(key@, texts_view(v@)),
{
    let mut items: Vec<Json> = Vec::new();
    let mut i: usize = 0;
    while i < v.len()
        invariant
            0 <= i <= v.len(),
            items.len() == i,
            forall|k: int| 0 <= k < i ==> (#[trigger] items[k])@ == JsonV::Str(v[k]@),
        decreases v.len() - i,
    {
        items.push(Json::Str(v[i].clone()));
        i = i + 1;
    }
    let arr = array_of(items);
    assert(arr@->Array_0 =~= strs_json(texts_view(v@))->Array_0);
    push_value(m, key, arr);
}

/// The array of the values `v`, in their order.
pub fn array_of(v: Vec<Json>) -> (r: Json)
    ensures
        r@ == JsonV::Array(Seq::new(v.len() as nat, |i: int| v[i]@)),
{
    let r = Json::Array(v);
    assert(r@->Array_0 =~= Seq::new(v.len() as nat, |i: int| v[i]@));
    r
}


pub fn push_opt_bool(m: &mut Vec<(String, Json)>, key: &str, o: Option<bool>)
    ensures
        members_view(final(m)@) == members_view(old(m)@) + opt_bool_entry(key@, o),
{
    match o {
        Some(b) => push_bool(m, key, b),
        None => {
            assert(members_view(old(m)@) + opt_bool_entry(key@, o) =~= members_view(old(m)@));
        },
    }
}

pub fn push_opt_number(m: &mut Vec<(String, Json)>, key: &str, o: &Option<String>)
    ensures
        members_view(final(m)@) == members_view(old(m)@) + opt_number_entry(key@, text_opt(*o)),
{
    match o {
        Some(t) => push_value(m, key, Json::Number(t.clone())),
        None => {
            assert(members_view(old(m)@) + opt_number_entry(key@, None) =~= members_view(old(m)@));
        },
    }
}


/// Looking a key up in two runs of members finds it in the first run when
/// it is there, else in the second.
pub broadcast proof fn lemma_lookup_concat(
    a: Seq<(Seq<char>, JsonV)>,
    b: Seq<(Seq<char>, JsonV)>,
    k: Seq<char>,
)
    ensures
        #[trigger] lookup(a + b, k) == match lookup(a, k) {
            Some(v) => Some(v),
            None => lookup(b, k),
        },
    decreases a.len(),
{
    if a.len() == 0 {
        assert(a + b =~= b);
    } else {
        assert((a + b)[0] == a[0]);
        assert((a + b).drop_first() =~= a.drop_first() + b);
        lemma_lookup_concat(a.drop_first(), b, k);
    }
}

/// The members written for `key` hold the value under `key` and nothing else.
pub broadcast proof fn lemma_lookup_entry(key: Seq<char>, o: Option<JsonV>, k: Seq<char>)
    ensures
        #[trigger] lookup(entry(key, o), k) == if key == k {
            o
        } else {
            None
        },
{
    let e = entry(key, o);
    if o is Some {
        assert(e[0] == (key, o->Some_0));
        assert(e.drop_first() =~= Seq::empty());
        assert(lookup(e.drop_first(), k) is None);
    } else {
        assert(e.len() == 0);
    }
}


/// A string-array member reads back the strings written for it.
pub proof fn lemma_strs_member_of_entry(j: JsonV, key: Seq<char>, s: Seq<Seq<char>>)
    requires
        field(j, key) == Some(strs_json(s)),
    ensures
        strs_member(j, key) == Some(s),
{
    let a = strs_json(s)->Array_0;
    assert(forall|i: int| 0 <= i < a.len() ==> (#[trigger] a[i]) is Str);
    assert(Seq::new(a.len(), |i: int| a[i]->Str_0) =~= s);
}

} // verus!
