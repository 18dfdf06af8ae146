//! A JSON value tree, the decimal integers carried in it, lookup of object
//! members, and the text form of a tree.
use vstd::prelude::*;

verus! {

/// A JSON value. Numbers keep their text, so no precision is lost.
pub enum Json {
    Null,
    Bool(bool),
    Number(String),
    Str(String),
    Array(Vec<Json>),
    Object(Vec<(String, Json)>),
}

/// The mathematical form of a [`Json`] value.
pub enum JsonV {
    Null,
    Bool(bool),
    Number(Seq<char>),
    Str(Seq<char>),
    Array(Seq<JsonV>),
    Object(Seq<(Seq<char>, JsonV)>),
}

pub open spec fn json_view(j: Json) -> JsonV
    decreases j,
{
    match j {
        Json::Null => JsonV::Null,
        Json::Bool(b) => JsonV::Bool(b),
        Json::Number(n) => JsonV::Number(n@),
        Json::Str(s) => JsonV::Str(s@),
        Json::Array(a) => JsonV::Array(
            Seq::new(
                a.len() as nat,
                |i: int|
                    if 0 <= i < a.len() {
                        json_view(a[i])
                    } else {
                        JsonV::Null
                    },
            ),
        ),
        Json::Object(o) => JsonV::Object(
            Seq::new(
                o.len() as nat,
                |i: int|
                    if 0 <= i < o.len() {
                        (o[i].0@, json_view(o[i].1))
                    } else {
                        (Seq::empty(), JsonV::Null)
                    },
            ),
        ),
    }
}

impl View for Json {
    type V = JsonV;

    open spec fn view(&self) -> JsonV {
        json_view(*self)
    }
}

/// The first member named `key` in a list of object members.
pub open spec fn lookup(members: Seq<(Seq<char>, JsonV)>, key: Seq<char>) -> Option<JsonV>
    decreases members.len(),
{
    if members.len() == 0 {
        None
    } else if members[0].0 == key {
        Some(members[0].1)
    } else {
        lookup(members.drop_first(), key)
    }
}

/// The member `key` of `j`, when `j` is an object that has one.
pub open spec fn field(j: JsonV, key: Seq<char>) -> Option<JsonV> {
    match j {
        JsonV::Object(members) => lookup(members, key),
        _ => None,
    }
}

impl Json {
    /// The member `key` of this value, when it is an object that has one.
    pub fn get(&self, key: &str) -> (r: Option<&Json>)
        ensures
            match r {
                Some(v) => field(self@, key@) == Some(v@),
                None => field(self@, key@) is None,
            },
    {
        match self {
            Json::Object(o) => {
                let k = key.to_owned();
                let ghost members = self@->Object_0;
                let mut i: usize = 0;
                assert(members.subrange(0, members.len() as int) =~= members);
                while i < o.len()
                    invariant
                        0 <= i <= o.len(),
                        members.len() == o.len(),
                        members == self@->Object_0,
                        *self == Json::Object(*o),
                        k@ == key@,
                        lookup(members, key@) == lookup(members.subrange(i as int, members.len() as int), key@),
                    decreases o.len() - i,
                {
                    let ghost rest = members.subrange(i as int, members.len() as int);
                    assert(rest[0] == members[i as int]);
                    assert(rest.drop_first() =~= members.subrange(i + 1, members.len() as int));
                    if o[i].0 == k {
                        return Some(&o[i].1);
                    }
                    i = i + 1;
                }
                None
            },
            _ => None,
        }
    }
}


pub open spec fn is_digit(c: char) -> bool {
    48 <= c as u32 <= 57
}

pub open spec fn all_digits(s: Seq<char>) -> bool {
    forall|i: int| 0 <= i < s.len() ==> is_digit(#[trigger] s[i])
}

/// The value of a run of decimal digits, most significant first.
pub open spec fn digits_value(s: Seq<char>) -> int
    decreases s.len(),
{
    if s.len() == 0 {
        0
    } else {
        digits_value(s.drop_last()) * 10 + (s.last() as u32 - 48)
    }
}

/// The integer that a number's text denotes, when the text is a plain
/// decimal integer: an optional minus sign and at least one digit.
pub open spec fn int_of_text(t: Seq<char>) -> Option<int> {
    if t.len() > 0 && t[0] == '-' {
        let d = t.drop_first();
        if d.len() > 0 && all_digits(d) {
            Some(-digits_value(d))
        } else {
            None
        }
    } else if t.len() > 0 && all_digits(t) {
        Some(digits_value(t))
    } else {
        None
    }
}

/// `int_of_text(t)` when it lies in `lo..=hi`.
pub open spec fn int_in_range(t: Seq<char>, lo: int, hi: int) -> Option<int> {
    match int_of_text(t) {
        Some(v) => if lo <= v <= hi {
            Some(v)
        } else {
            None
        },
        None => None,
    }
}

pub open spec fn digit_char(d: int) -> char {
    if d == 0 {
        '0'
    } else if d == 1 {
        '1'
    } else if d == 2 {
        '2'
    } else if d == 3 {
        '3'
    } else if d == 4 {
        '4'
    } else if d == 5 {
        '5'
    } else if d == 6 {
        '6'
    } else if d == 7 {
        '7'
    } else if d == 8 {
        '8'
    } else {
        '9'
    }
}

/// The decimal digits of `n`, without leading zeros.
pub open spec fn nat_text(n: nat) -> Seq<char>
    decreases n,
{
    if n < 10 {
        seq![digit_char(n as int)]
    } else {
        nat_text(n / 10).push(digit_char(n as int % 10))
    }
}

/// The decimal text of `v`: a minus sign for a negative value, then its digits.
pub open spec fn int_text(v: int) -> Seq<char> {
    if v < 0 {
        seq!['-'] + nat_text((-v) as nat)
    } else {
        nat_text(v as nat)
    }
}

proof fn lemma_digits_nonneg(s: Seq<char>)
    requires
        all_digits(s),
    ensures
        digits_value(s) >= 0,
    decreases s.len(),
{
    if s.len() > 0 {
        lemma_digits_nonneg(s.drop_last());
    }
}

proof fn lemma_digits_prefix(s: Seq<char>, k: int)
    requires
        all_digits(s),
        0 <= k <= s.len(),
    ensures
        digits_value(s.take(k)) <= digits_value(s),
    decreases s.len(),
{
    if k < s.len() {
        lemma_digits_prefix(s.drop_last(), k);
        assert(s.drop_last().take(k) =~= s.take(k));
        lemma_digits_nonneg(s.drop_last());
    } else {
        assert(s.take(k) =~= s);
    }
}

proof fn lemma_digit_char(d: int)
    requires
        0 <= d < 10,
    ensures
        is_digit(digit_char(d)),
        digit_char(d) as u32 - 48 == d,
{
}

proof fn lemma_nat_text(n: nat)
    ensures
        nat_text(n).len() > 0,
        all_digits(nat_text(n)),
        digits_value(nat_text(n)) == n,
    decreases n,
{
    lemma_digit_char(n as int % 10);
    let t = nat_text(n);
    if n < 10 {
        assert(t.drop_last() =~= Seq::<char>::empty());
        assert(digits_value(t.drop_last()) == 0);
    } else {
        lemma_nat_text(n / 10);
        assert(t.drop_last() =~= nat_text(n / 10));
        assert(n == (n / 10) * 10 + n % 10);
        assert forall|i: int| 0 <= i < t.len() implies is_digit(#[trigger] t[i]) by {
            if i < t.len() - 1 {
                assert(t[i] == nat_text(n / 10)[i]);
            }
        }
    }
}

/// Reading back the decimal text of an integer gives the integer.
pub proof fn lemma_int_text_round_trip(v: int)
    ensures
        int_of_text(int_text(v)) == Some(v),
{
    if v < 0 {
        lemma_nat_text((-v) as nat);
        assert((seq!['-'] + nat_text((-v) as nat)).drop_first() =~= nat_text((-v) as nat));
    } else {
        lemma_nat_text(v as nat);
        assert(is_digit(nat_text(v as nat)[0]));
    }
}

/// Reads a plain decimal integer that lies in `lo..=hi`.
pub fn parse_int(t: &str, lo: i64, hi: i64) -> (r: Option<i64>)
    ensures
        match int_in_range(t@, lo as int, hi as int) {
            Some(v) => r == Some(v as i64),
            None => r is None,
        },
{
    let n = t.unicode_len();
    if n == 0 {
        return None;
    }
    let c0 = t.get_char(0);
    let neg = c0 == '-';
    let start: usize = if neg {
        1
    } else {
        0
    };
    if start >= n {
        return None;
    }
    let ghost digits = if neg {
        t@.drop_first()
    } else {
        t@
    };
    assert(digits =~= t@.subrange(start as int, n as int));
    let limit: u128 = if neg {
        if lo < 0 {
            (0 - (lo as i128)) as u128
        } else {
            0
        }
    } else {
        if hi > 0 {
            hi as u128
        } else {
            0
        }
    };
    let mut acc: u128 = 0;
    let mut i: usize = start;
    assert(t@.subrange(start as int, start as int) =~= Seq::<char>::empty());
    while i < n
        invariant
            start <= i <= n,
            n == t@.len(),
            digits =~= t@.subrange(start as int, n as int),
            n > 0,
            neg == (t@[0] == '-'),
            start == (if neg {
                1usize
            } else {
                0usize
            }),
            digits == (if neg {
                t@.drop_first()
            } else {
                t@
            }),
            limit == (if neg {
                if lo < 0 {
                    -lo
                } else {
                    0
                }
            } else {
                if hi > 0 {
                    hi as int
                } else {
                    0
                }
            }),
            limit <= 0x8000_0000_0000_0000u128,
            acc <= limit,
            all_digits(t@.subrange(start as int, i as int)),
            acc == digits_value(t@.subrange(start as int, i as int)),
        decreases n - i,
    {
        let c = t.get_char(i);
        let cu = c as u32;
        if !(48 <= cu && cu <= 57) {
            assert(digits[i - start] == c);
            assert(!all_digits(digits));
            if neg {
                assert(t@[0] == '-');
            } else {
                assert(t@[0] != '-');
                assert(digits == t@);
            }
            return None;
        }
        let d = (cu - 48) as u128;
        let next = acc * 10 + d;
        let ghost pre = t@.subrange(start as int, i as int + 1);
        assert(pre.drop_last() =~= t@.subrange(start as int, i as int));
        assert(all_digits(pre)) by {
            assert forall|j: int| 0 <= j < pre.len() implies is_digit(#[trigger] pre[j]) by {
                if j < pre.len() - 1 {
                    assert(pre[j] == t@.subrange(start as int, i as int)[j]);
                }
            }
        }
        if next > limit {
            proof {
                if all_digits(digits) {
                    assert(digits.take(i - start + 1) =~= pre);
                    lemma_digits_prefix(digits, i - start + 1);
                }
                if neg {
                    assert(t@[0] == '-');
                } else {
                    assert(t@[0] != '-');
                    assert(digits == t@);
                }
            }
            return None;
        }
        acc = next;
        i = i + 1;
    }
    assert(t@.subrange(start as int, n as int) =~= digits);
    let v: i128 = if neg {
        0 - (acc as i128)
    } else {
        acc as i128
    };
    if (lo as i128) <= v && v <= (hi as i128) {
        Some(v as i64)
    } else {
        None
    }
}

fn digit_str(d: u64) -> (r: &'static str)
    requires
        d < 10,
    ensures
        r@ == seq![digit_char(d as int)],
{
    proof {
        reveal_strlit("0");
        reveal_strlit("1");
        reveal_strlit("2");
        reveal_strlit("3");
        reveal_strlit("4");
        reveal_strlit("5");
        reveal_strlit("6");
        reveal_strlit("7");
        reveal_strlit("8");
        reveal_strlit("9");
    }
    if d == 0 {
        "0"
    } else if d == 1 {
        "1"
    } else if d == 2 {
        "2"
    } else if d == 3 {
        "3"
    } else if d == 4 {
        "4"
    } else if d == 5 {
        "5"
    } else if d == 6 {
        "6"
    } else if d == 7 {
        "7"
    } else if d == 8 {
        "8"
    } else {
        "9"
    }
}

fn nat_to_text(n: u64) -> (r: String)
    ensures
        r@ == nat_text(n as nat),
    decreases n,
{
    if n < 10 {
        String::from_str(digit_str(n))
    } else {
        let mut s = nat_to_text(n / 10);
        s.append(digit_str(n % 10));
        s
    }
}

/// The decimal text of an integer.
pub fn int_to_text(v: i64) -> (r: String)
    ensures
        r@ == int_text(v as int),
{
    if v < 0 {
        let m = (0 - (v as i128)) as u64;
        let mut s = String::from_str("-");
        proof {
            reveal_strlit("-");
        }
        s.append(nat_to_text(m).as_str());
        s
    } else {
        nat_to_text(v as u64)
    }
}


/// The lower-case hex digit for `n` in `0..16`.
pub open spec fn hex_digit(n: int) -> char {
    if n < 10 {
        digit_char(n)
    } else if n == 10 {
        'a'
    } else if n == 11 {
        'b'
    } else if n == 12 {
        'c'
    } else if n == 13 {
        'd'
    } else if n == 14 {
        'e'
    } else {
        'f'
    }
}

/// How one character is written inside a JSON string literal: the quote and
/// the backslash escaped, the control characters with a short escape where
/// JSON has one and `\u00XX` otherwise, every other character as it is.
pub open spec fn escaped_char(c: char) -> Seq<char> {
    let u = c as u32;
    if c == '"' {
        seq!['\\', '"']
    } else if c == '\\' {
        seq!['\\', '\\']
    } else if u == 8 {
        seq!['\\', 'b']
    } else if u == 9 {
        seq!['\\', 't']
    } else if u == 10 {
        seq!['\\', 'n']
    } else if u == 12 {
        seq!['\\', 'f']
    } else if u == 13 {
        seq!['\\', 'r']
    } else if u < 32 {
        seq!['\\', 'u', '0', '0', hex_digit(u as int / 16), hex_digit(u as int % 16)]
    } else {
        seq![c]
    }
}

/// The characters of `s`, each written as in a JSON string literal.
pub open spec fn escaped(s: Seq<char>) -> Seq<char>
    decreases s.len(),
{
    if s.len() == 0 {
        Seq::empty()
    } else {
        escaped(s.drop_last()) + escaped_char(s.last())
    }
}

/// The JSON string literal for `s`: quotes around its escaped characters.
pub open spec fn string_literal_of(s: Seq<char>) -> Seq<char> {
    seq!['"'] + escaped(s) + seq!['"']
}

/// A character that JSON writes as it is inside a string literal.
pub open spec fn is_plain_char(c: char) -> bool {
    c as u32 >= 32 && c != '"' && c != '\\'
}

proof fn lemma_plain_escaped(s: Seq<char>)
    requires
        forall|i: int| 0 <= i < s.len() ==> is_plain_char(#[trigger] s[i]),
    ensures
        escaped(s) == s,
    decreases s.len(),
{
    if s.len() > 0 {
        let p = s.drop_last();
        assert forall|i: int| 0 <= i < p.len() implies is_plain_char(#[trigger] p[i]) by {
            assert(p[i] == s[i]);
        }
        lemma_plain_escaped(p);
        assert(is_plain_char(s[s.len() - 1]));
        assert(escaped(s) =~= s);
    } else {
        assert(escaped(s) =~= s);
    }
}

/// A string of plain characters is quoted as it is.
pub proof fn lemma_plain_literal(s: Seq<char>)
    requires
        forall|i: int| 0 <= i < s.len() ==> is_plain_char(#[trigger] s[i]),
    ensures
        string_literal_of(s) == seq!['"'] + s + seq!['"'],
{
    lemma_plain_escaped(s);
}

/// The tree that `text` denotes, when `text` is a JSON document.
pub uninterp spec fn parsed_json(text: Seq<char>) -> Option<JsonV>;

#[verifier::external_type_specification]
#[verifier::external_body]
pub struct ExValue(serde_json::Value);

/// Relies on the `Display` of `serde_json::Value::String`, which writes the
/// JSON string literal of its content: a quote, each byte that its escape
/// table marks written as an escape (`\u00XX` with lower-case digits for
/// the control characters without a short one), the rest as it is, a quote.
#[verifier::external_body]
fn quote_string(s: &str) -> (r: String)
    ensures
        r@ == string_literal_of(s@),
{
    serde_json::Value::String(s.to_string()).to_string()
}

/// The converting half of [`parse_json`]: moves a `serde_json::Value` into a
/// [`Json`], variant for variant, numbers as the text serde_json prints.
#[verifier::external_body]
fn from_value(v: serde_json::Value) -> Json {
    match v {
        serde_json::Value::Null => Json::Null,
        serde_json::Value::Bool(b) => Json::Bool(b),
        serde_json::Value::Number(n) => Json::Number(n.to_string()),
        serde_json::Value::String(s) => Json::Str(s),
        serde_json::Value::Array(a) => Json::Array(a.into_iter().map(from_value).collect()),
        serde_json::Value::Object(m) => Json::Object(m.into_iter().map(|(k, x)| (k, from_value(x))).collect()),
    }
}

/// Relies on `serde_json::from_str` into a `serde_json::Value`: whether the
/// text is a JSON document, and the tree it denotes, depend on the text alone.
#[verifier::external_body]
pub(crate) fn parse_json(text: &str) -> (r: Option<Json>)
    ensures
        match r {
            Some(j) => parsed_json(text@) == Some(j@),
            None => parsed_json(text@) is None,
        },
{
    serde_json::from_str::<serde_json::Value>(text).ok().map(from_value)
}

/// `parts` with a comma between each two.
pub open spec fn join(parts: Seq<Seq<char>>) -> Seq<char>
    decreases parts.len(),
{
    if parts.len() == 0 {
        Seq::empty()
    } else if parts.len() == 1 {
        parts[0]
    } else {
        join(parts.drop_last()) + ","@ + parts.last()
    }
}

pub open spec fn member_text(key: Seq<char>, value_text: Seq<char>) -> Seq<char> {
    string_literal_of(key) + ":"@ + value_text
}

/// The compact JSON text of a tree: no white space, members in their order.
pub open spec fn text_of(j: JsonV) -> Seq<char>
    decreases j, 1nat,
{
    match j {
        JsonV::Null => "null"@,
        JsonV::Bool(b) => if b {
            "true"@
        } else {
            "false"@
        },
        JsonV::Number(t) => t,
        JsonV::Str(s) => string_literal_of(s),
        JsonV::Array(a) => "["@ + join(item_texts(a)) + "]"@,
        JsonV::Object(o) => "{"@ + join(member_texts(o)) + "}"@,
    }
}

/// The text of each element of an array.
pub open spec fn item_texts(a: Seq<JsonV>) -> Seq<Seq<char>>
    decreases a, 0nat,
{
    Seq::new(
        a.len(),
        |i: int|
            if 0 <= i < a.len() {
                text_of(a[i])
            } else {
                Seq::empty()
            },
    )
}

/// The text of each member of an object.
pub open spec fn member_texts(o: Seq<(Seq<char>, JsonV)>) -> Seq<Seq<char>>
    decreases o, 0nat,
{
    Seq::new(
        o.len(),
        |i: int|
            if 0 <= i < o.len() {
                member_text(o[i].0, text_of(o[i].1))
            } else {
                Seq::empty()
            },
    )
}

proof fn lemma_join_step(parts: Seq<Seq<char>>, i: int)
    requires
        0 <= i < parts.len(),
    ensures
        join(parts.take(i + 1)) == if i == 0 {
            parts[0]
        } else {
            join(parts.take(i)) + ","@ + parts[i]
        },
{
    assert(parts.take(i + 1).drop_last() =~= parts.take(i));
}

impl Json {
    /// The compact JSON text of this value.
    #[verifier::rlimit(40)]
    pub fn to_text(&self) -> (r: String)
        ensures
            r@ == text_of(self@),
        decreases self,
    {
        match self {
            Json::Null => {
                let r = String::from_str("null");
                assert(self@ == JsonV::Null);
                assert(text_of(JsonV::Null) == "null"@);
                r
            },
            Json::Bool(b) => if *b {
                String::from_str("true")
            } else {
                String::from_str("false")
            },
            Json::Number(t) => {
                let r = t.clone();
                assert(r@ == text_of(self@));
                r
            },
            Json::Str(s) => {
                let r = quote_string(s.as_str());
                assert(r@ == text_of(self@));
                r
            },
            Json::Array(a) => {
                let ghost parts = item_texts(self@->Array_0);
                assert(self@->Array_0.len() == a.len());
                assert(forall|k: int| 0 <= k < a.len() ==> self@->Array_0[k] == #[trigger] a[k]@);
                assert(forall|k: int| 0 <= k < a.len() ==> parts[k] == text_of(#[trigger] a[k]@));
                let mut out = String::from_str("[");
                let mut i: usize = 0;
                #[verifier::loop_isolation(false)]
                while i < a.len()
                    invariant
                        0 <= i <= a.len(),
                        *self == Json::Array(*a),
                        parts.len() == a.len(),
                        out@ == "["@ + join(parts.take(i as int)),
                    decreases a.len() - i,
                {
                    if i > 0 {
                        out.append(",");
                    }
                    proof {
                        vstd::std_specs::vec::axiom_vec_index_decreases(*a, i as int);
                        assert(decreases_to!(*self => *a));
                        assert(decreases_to!(*self => a[i as int]));
                    }
                    let t = a[i].to_text();
                    proof {
                        lemma_join_step(parts, i as int);
                        assert(parts.take(0) =~= Seq::<Seq<char>>::empty());
                    }
                    out.append(t.as_str());
                    i = i + 1;
                }
                out.append("]");
                assert(parts.take(a.len() as int) =~= parts);
                assert(out@ == text_of(self@));
                out
            },
            Json::Object(o) => {
                let ghost parts = member_texts(self@->Object_0);
                assert(self@->Object_0.len() == o.len());
                assert(forall|k: int| 0 <= k < o.len() ==> self@->Object_0[k] == (#[trigger] o[k].0@, o[k].1@));
                assert(forall|k: int| 0 <= k < o.len() ==> parts[k] == member_text(#[trigger] o[k].0@, text_of(o[k].1@)));
                let mut out = String::from_str("{");
                let mut i: usize = 0;
                #[verifier::loop_isolation(false)]
                while i < o.len()
                    invariant
                        0 <= i <= o.len(),
                        *self == Json::Object(*o),
                        parts.len() == o.len(),
                        out@ == "{"@ + join(parts.take(i as int)),
                    decreases o.len() - i,
                {
                    if i > 0 {
                        out.append(",");
                    }
                    let key = quote_string(o[i].0.as_str());
                    proof {
                        vstd::std_specs::vec::axiom_vec_index_decreases(*o, i as int);
                        assert(decreases_to!(*self => *o));
                        assert(decreases_to!(*self => o[i as int].1));
                    }
                    let t = o[i].1.to_text();
                    proof {
                        lemma_join_step(parts, i as int);
                        assert(parts.take(0) =~= Seq::<Seq<char>>::empty());
                    }
                    out.append(key.as_str());
                    out.append(":");
                    out.append(t.as_str());
                    i = i + 1;
                }
                out.append("}");
                assert(parts.take(o.len() as int) =~= parts);
                assert(out@ == text_of(self@));
                out
            },
        }
    }
}

} // verus!
