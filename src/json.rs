//! The JSON tree that decoding and building work on, and the two calls into
//! serde_json that turn text into a tree and a tree into text.

use vstd::prelude::*;

verus! {

broadcast use vstd::std_specs::vec::axiom_vec_index_decreases, vstd::seq::axiom_seq_index_decreases;

/// A JSON document as a tree of plain values.
///
/// A number keeps its decimal text as the parser printed it; an object keeps
/// its members in order.
#[derive(Debug)]
pub enum JsonValue {
    Null,
    Bool(bool),
    Number(String),
    Str(String),
    Array(Vec<JsonValue>),
    Object(Vec<(String, JsonValue)>),
}

/// Two trees that hold the same text, numbers and structure.
pub open spec fn same(a: JsonValue, b: JsonValue) -> bool
    decreases a,
{
    match a {
        JsonValue::Null => b is Null,
        JsonValue::Bool(x) => b matches JsonValue::Bool(y) && x == y,
        JsonValue::Number(x) => b matches JsonValue::Number(y) && x@ == y@,
        JsonValue::Str(x) => b matches JsonValue::Str(y) && x@ == y@,
        JsonValue::Array(x) => b matches JsonValue::Array(y) && same_items(x@, y@),
        JsonValue::Object(x) => b matches JsonValue::Object(y) && same_members(x@, y@),
    }
}

/// Two item lists of the same length with `same` items.
pub open spec fn same_items(x: Seq<JsonValue>, y: Seq<JsonValue>) -> bool
    decreases x,
{
    x.len() == y.len() && forall|i: int| 0 <= i < x.len() ==> #[trigger] same(x[i], y[i])
}

/// Two member lists with the same names and `same` values, in the same order.
pub open spec fn same_members(x: Seq<(String, JsonValue)>, y: Seq<(String, JsonValue)>) -> bool
    decreases x,
{
    x.len() == y.len() && forall|i: int|
        0 <= i < x.len() ==> x[i].0@ == y[i].0@ && #[trigger] same(x[i].1, y[i].1)
}

/// The value of the first member named `k`.
pub open spec fn entry(m: Seq<(String, JsonValue)>, k: Seq<char>) -> Option<JsonValue>
    decreases m.len(),
{
    if m.len() == 0 {
        None
    } else if m[0].0@ == k {
        Some(m[0].1)
    } else {
        entry(m.drop_first(), k)
    }
}

/// The member named `k` of an object; `None` for an absent member or a value
/// that is no object.
pub open spec fn member(j: JsonValue, k: Seq<char>) -> Option<JsonValue> {
    match j {
        JsonValue::Object(m) => entry(m@, k),
        _ => None,
    }
}

/// Skipping members with other names does not change what a lookup finds.
pub proof fn lemma_entry_skip(m: Seq<(String, JsonValue)>, k: Seq<char>, i: int)
    requires
        0 <= i <= m.len(),
        forall|j: int| 0 <= j < i ==> m[j].0@ != k,
    ensures
        entry(m, k) == entry(m.subrange(i, m.len() as int), k),
    decreases i,
{
    if i == 0 {
        assert(m.subrange(0, m.len() as int) =~= m);
    } else {
        let rest = m.drop_first();
        assert forall|j: int| 0 <= j < i - 1 implies rest[j].0@ != k by {
            assert(rest[j] == m[j + 1]);
        }
        lemma_entry_skip(rest, k, i - 1);
        assert(rest.subrange(i - 1, rest.len() as int) =~= m.subrange(i, m.len() as int));
    }
}

impl JsonValue {
    /// A copy of the tree.
    pub fn duplicate(&self) -> (r: JsonValue)
        ensures
            same(*self, r),
        decreases self,
    {
        match self {
            JsonValue::Null => {
                assert(same(JsonValue::Null, JsonValue::Null));
                JsonValue::Null
            },
            JsonValue::Bool(v) => {
                JsonValue::Bool(*v)
            },
            JsonValue::Number(t) => JsonValue::Number(t.clone()),
            JsonValue::Str(t) => JsonValue::Str(t.clone()),
            JsonValue::Array(a) => {
                JsonValue::Array(duplicate_items(a))
            },
            JsonValue::Object(m) => JsonValue::Object(duplicate_members(m)),
        }
    }
}

/// A copy of the items of an array.
pub fn duplicate_items(a: &Vec<JsonValue>) -> (r: Vec<JsonValue>)
    ensures
        same_items(a@, r@),
    decreases a,
{
    let mut out: Vec<JsonValue> = Vec::new();
    let mut i: usize = 0;
    while i < a.len()
        invariant
            0 <= i <= a.len(),
            out@.len() == i,
            forall|j: int| 0 <= j < i ==> same(a@[j], #[trigger] out@[j]),
        decreases a.len() - i,
    {
        proof {
            assert(decreases_to!(*a => a@[i as int]));
        }
        out.push(a[i].duplicate());
        i = i + 1;
    }
    out
}

/// A copy of the members of an object.
pub fn duplicate_members(m: &Vec<(String, JsonValue)>) -> (r: Vec<(String, JsonValue)>)
    ensures
        same_members(m@, r@),
    decreases m,
{
    let mut out: Vec<(String, JsonValue)> = Vec::new();
    let mut i: usize = 0;
    while i < m.len()
        invariant
            0 <= i <= m.len(),
            out@.len() == i,
            forall|j: int|
                0 <= j < i ==> m@[j].0@ == #[trigger] out@[j].0@ && same(m@[j].1, out@[j].1),
        decreases m.len() - i,
    {
        proof {
            assert(decreases_to!(*m => m@[i as int].1));
        }
        let name = m[i].0.clone();
        let value = m[i].1.duplicate();
        out.push((name, value));
        i = i + 1;
    }
    out
}

/// A member that a lookup finds is one of the members.
pub proof fn lemma_entry_in(m: Seq<(String, JsonValue)>, k: Seq<char>)
    ensures
        entry(m, k) matches Some(v) ==> exists|i: int| 0 <= i < m.len() && m[i].1 == v,
    decreases m.len(),
{
    if m.len() > 0 && m[0].0@ != k {
        lemma_entry_in(m.drop_first(), k);
        if entry(m, k) is Some {
            let i = choose|i: int| 0 <= i < m.len() - 1 && m.drop_first()[i].1 == entry(m, k)->0;
            assert(m[i + 1] == m.drop_first()[i]);
        }
    }
}

/// A member of an object is smaller than the object.
pub proof fn lemma_member_decreases(j: JsonValue, k: Seq<char>)
    ensures
        member(j, k) matches Some(v) ==> decreases_to!(j => v),
{
    if let JsonValue::Object(m) = j {
        lemma_entry_in(m@, k);
        if let Some(v) = entry(m@, k) {
            let i = choose|i: int| 0 <= i < m@.len() && m@[i].1 == v;
            assert(decreases_to!(m => m@[i].1));
        }
    }
}

/// Finds the first member named `key` in the members of an object.
pub fn find_entry<'a>(m: &'a Vec<(String, JsonValue)>, key: &str) -> (r: Option<&'a JsonValue>)
    ensures
        r matches Some(v) ==> entry(m@, key@) == Some(*v),
        r is None ==> entry(m@, key@) is None,
{
    let k: String = key.to_owned();
    let mut i: usize = 0;
    while i < m.len()
        invariant
            0 <= i <= m.len(),
            k@ == key@,
            forall|j: int| 0 <= j < i ==> m@[j].0@ != key@,
        decreases m.len() - i,
    {
        if m[i].0 == k {
            proof {
                lemma_entry_skip(m@, key@, i as int);
                assert(m@.subrange(i as int, m@.len() as int)[0] == m@[i as int]);
            }
            return Some(&m[i].1);
        }
        i = i + 1;
    }
    proof {
        lemma_entry_skip(m@, key@, i as int);
    }
    None
}

/// Finds the member named `key` of `j`; `None` where `j` is no object.
pub fn get_member<'a>(j: &'a JsonValue, key: &str) -> (r: Option<&'a JsonValue>)
    ensures
        r matches Some(v) ==> member(*j, key@) == Some(*v),
        r is None ==> member(*j, key@) is None,
{
    match j {
        JsonValue::Object(m) => find_entry(m, key),
        _ => None,
    }
}

/// Whether `c` is one of the ten decimal digits.
pub open spec fn is_digit(c: char) -> bool {
    '0' <= c <= '9'
}

/// The value of a decimal digit.
pub open spec fn digit_value(c: char) -> nat {
    (c as u32 - '0' as u32) as nat
}

/// The character of a decimal digit `d < 10`.
pub open spec fn digit_char(d: nat) -> char {
    ((d + 48) as u8) as char
}

/// A non-empty run of decimal digits.
pub open spec fn all_digits(t: Seq<char>) -> bool {
    t.len() > 0 && forall|i: int| 0 <= i < t.len() ==> #[trigger] is_digit(t[i])
}

/// The value of a run of decimal digits.
pub open spec fn digits_value(t: Seq<char>) -> nat
    decreases t.len(),
{
    if t.len() == 0 {
        0
    } else {
        digits_value(t.drop_last()) * 10 + digit_value(t.last())
    }
}

/// The decimal text of `n`, without leading zeros.
pub open spec fn decimal(n: nat) -> Seq<char>
    decreases n,
{
    if n < 10 {
        seq![digit_char(n)]
    } else {
        decimal(n / 10).push(digit_char(n % 10))
    }
}

/// The integer that the text of a JSON number stands for; `None` for a
/// number with a fraction or an exponent.
pub open spec fn integer_of(t: Seq<char>) -> Option<int> {
    if all_digits(t) {
        Some(digits_value(t) as int)
    } else if t.len() > 1 && t[0] == '-' && all_digits(t.drop_first()) {
        Some(-(digits_value(t.drop_first()) as int))
    } else {
        None
    }
}

/// The decimal text of `n` is a run of digits whose value is `n`, so a
/// number written by the library reads back as the same integer.
pub proof fn lemma_decimal_reads_back(n: nat)
    ensures
        all_digits(decimal(n)),
        digits_value(decimal(n)) == n,
        integer_of(decimal(n)) == Some(n as int),
    decreases n,
{
    let d = (n % 10) as nat;
    assert(digit_value(digit_char(d)) == d) by {
        assert(d < 10);
        assert((((d + 48) as u8) as char) as u32 == d + 48);
    }
    assert(is_digit(digit_char(d))) by {
        assert((((d + 48) as u8) as char) as u32 == d + 48);
    }
    if n < 10 {
        assert(decimal(n).drop_last() =~= Seq::<char>::empty());
        assert(decimal(n).last() == digit_char(d));
        assert(digits_value(decimal(n)) == digits_value(decimal(n).drop_last()) * 10 + digit_value(
            decimal(n).last(),
        ));
        assert(digits_value(Seq::<char>::empty()) == 0);
        assert(n % 10 == n);
    } else {
        lemma_decimal_reads_back(n / 10);
        let s = decimal(n / 10);
        assert(decimal(n).drop_last() =~= s);
        assert(decimal(n).last() == digit_char(d));
        assert((n / 10) * 10 + n % 10 == n) by (nonlinear_arith);
        assert(digits_value(decimal(n)) == digits_value(s) * 10 + digit_value(digit_char(d)));
        assert forall|i: int| 0 <= i < decimal(n).len() implies #[trigger] is_digit(decimal(n)[i]) by {
            if i < s.len() {
                assert(decimal(n)[i] == s[i]);
            }
        }
    }
}

/// The text of a number that serde_json reads back as an integer: an integer
/// from `i64::MIN` to `u64::MAX`, in its shortest decimal form.
pub open spec fn integer_text(t: Seq<char>) -> bool {
    integer_of(t) matches Some(n) && i64::MIN <= n <= u64::MAX && signed_decimal(n) == t
}

/// Every number in the tree has integer text.
pub open spec fn numbers_ok(j: JsonValue) -> bool
    decreases j,
{
    match j {
        JsonValue::Number(t) => integer_text(t@),
        JsonValue::Array(a) => numbers_ok_items(a@),
        JsonValue::Object(m) => numbers_ok_members(m@),
        _ => true,
    }
}

/// Every number in the items has integer text.
pub open spec fn numbers_ok_items(a: Seq<JsonValue>) -> bool
    decreases a,
{
    forall|i: int| 0 <= i < a.len() ==> #[trigger] numbers_ok(a[i])
}

/// Every number in the values of the members has integer text.
pub open spec fn numbers_ok_members(m: Seq<(String, JsonValue)>) -> bool
    decreases m,
{
    forall|i: int| 0 <= i < m.len() ==> #[trigger] numbers_ok(m[i].1)
}

/// The decimal text of a `u64` is integer text.
pub proof fn lemma_decimal_integer_text(n: nat)
    requires
        n <= u64::MAX,
    ensures
        integer_text(decimal(n)),
{
    lemma_decimal_reads_back(n);
}

/// The value of a longer run of digits is at least that of its prefix.
proof fn lemma_digits_prefix(t: Seq<char>, i: int)
    requires
        0 <= i <= t.len(),
    ensures
        digits_value(t.subrange(0, i)) <= digits_value(t),
    decreases t.len(),
{
    if i == t.len() {
        assert(t.subrange(0, i) =~= t);
    } else {
        lemma_digits_prefix(t.drop_last(), i);
        assert(t.drop_last().subrange(0, i) =~= t.subrange(0, i));
    }
}

/// Reads the digits of `t` from position `start` on, where they all are
/// digits and their value fits in a `u64`.
fn read_digits(t: &str, start: usize) -> (r: Option<u64>)
    requires
        start <= t@.len(),
    ensures
        r matches Some(n) ==> all_digits(t@.skip(start as int)) && n as nat == digits_value(
            t@.skip(start as int),
        ),
        r is None ==> !all_digits(t@.skip(start as int)) || digits_value(t@.skip(start as int))
            > u64::MAX,
{
    let len = t.unicode_len();
    if start >= len {
        return None;
    }
    let ghost s = t@.skip(start as int);
    let mut acc: u64 = 0;
    let mut i: usize = start;
    while i < len
        invariant
            start <= i <= len,
            len == t@.len(),
            s == t@.skip(start as int),
            forall|j: int| 0 <= j < i - start ==> #[trigger] is_digit(s[j]),
            acc as nat == digits_value(s.subrange(0, i - start)),
        decreases len - i,
    {
        let c = t.get_char(i);
        if c < '0' || c > '9' {
            assert(!is_digit(s[i - start]));
            return None;
        }
        let d: u64 = (c as u32 - '0' as u32) as u64;
        assert(s.subrange(0, i - start + 1).drop_last() =~= s.subrange(0, i - start));
        if acc > (u64::MAX - d) / 10 {
            proof {
                lemma_digits_prefix(s, i - start + 1);
            }
            return None;
        }
        acc = acc * 10 + d;
        i = i + 1;
    }
    assert(s.subrange(0, s.len() as int) =~= s);
    Some(acc)
}

/// Reads the text of a JSON number as a sign and a magnitude: `Some((true, m))`
/// for `-m`, `Some((false, m))` for `m`; `None` where the text is no integer or
/// the magnitude does not fit in a `u64`.
pub fn read_integer(t: &str) -> (r: Option<(bool, u64)>)
    ensures
        r matches Some((neg, m)) ==> integer_of(t@) == Some(if neg { -(m as int) } else { m as int }),
        r is None ==> integer_of(t@) is None || integer_of(t@)->0 > u64::MAX || integer_of(t@)->0
            < -(u64::MAX as int),
{
    let len = t.unicode_len();
    if len > 1 && t.get_char(0) == '-' {
        proof {
            assert(t@.skip(0) =~= t@);
            assert(!is_digit(t@[0]));
            assert(!all_digits(t@));
            assert(t@.skip(1) =~= t@.drop_first());
        }
        match read_digits(t, 1) {
            Some(m) => Some((true, m)),
            None => None,
        }
    } else {
        proof {
            assert(t@.skip(0) =~= t@);
        }
        match read_digits(t, 0) {
            Some(m) => Some((false, m)),
            None => None,
        }
    }
}

/// Relies on String::push: the character is appended at the end.
#[verifier::external_body]
pub(crate) fn push_char(s: &mut String, c: char)
    ensures
        final(s)@ == old(s)@.push(c),
{
    s.push(c)
}

/// Appends the decimal text of `n` to `out`.
pub fn push_decimal(out: &mut String, n: u64)
    ensures
        final(out)@ == old(out)@ + decimal(n as nat),
    decreases n,
{
    if n >= 10 {
        push_decimal(out, n / 10);
    }
    let d: u8 = (n % 10) as u8;
    push_char(out, (d + 48) as char);
    proof {
        if n >= 10 {
            assert(old(out)@ + decimal(n as nat) =~= old(out)@ + decimal((n / 10) as nat) + seq![
                digit_char((n % 10) as nat),
            ]);
        }
    }
}

/// The decimal text of a signed integer.
pub open spec fn signed_decimal(n: int) -> Seq<char> {
    if n < 0 {
        seq!['-'] + decimal((-n) as nat)
    } else {
        decimal(n as nat)
    }
}

impl JsonValue {
    /// The number `n`.
    pub fn unsigned(n: u64) -> (r: JsonValue)
        ensures
            r matches JsonValue::Number(t) && t@ == decimal(n as nat),
            numbers_ok(r),
    {
        let mut t = String::new();
        push_decimal(&mut t, n);
        proof {
            lemma_decimal_integer_text(n as nat);
        }
        JsonValue::Number(t)
    }

    /// The number `n`.
    pub fn signed(n: i64) -> (r: JsonValue)
        ensures
            r matches JsonValue::Number(t) && t@ == signed_decimal(n as int),
    {
        JsonValue::Number(signed_text(n))
    }

    /// The string `s`.
    pub fn text(s: &str) -> (r: JsonValue)
        ensures
            r matches JsonValue::Str(t) && t@ == s@,
    {
        JsonValue::Str(s.to_owned())
    }
}

/// The decimal text of a signed integer.
pub fn signed_text(n: i64) -> (r: String)
    ensures
        r@ == signed_decimal(n as int),
{
    let mut t = String::new();
    if n < 0 {
        push_char(&mut t, '-');
        let m: u64 = ((-(n + 1)) as u64) + 1;
        push_decimal(&mut t, m);
    } else {
        push_decimal(&mut t, n as u64);
    }
    t
}

/// serde_json's document type, which only the two conversions below handle.
#[verifier::external_type_specification]
#[verifier::external_body]
pub struct ExValue(serde_json::Value);

/// serde_json's error type, which only the conversion of a tree handles.
#[verifier::external_type_specification]
#[verifier::external_body]
pub struct ExError(serde_json::Error);

/// The tree that serde_json reads from the text `s`, if `s` is a JSON document.
pub uninterp spec fn parsed_json(s: Seq<char>) -> Option<JsonValue>;

/// The compact text that serde_json prints for the tree `v`.
pub uninterp spec fn printed_json(v: JsonValue) -> Seq<char>;

/// Relies on serde_json::Value's variants and serde_json::Number's `Display`:
/// one variant of the tree for each, a number by its decimal text. Only
/// [`parse_json`] calls it; it states nothing, as its argument is opaque.
#[verifier::external_body]
fn tree_of(v: serde_json::Value) -> JsonValue {
    match v {
        serde_json::Value::Null => JsonValue::Null,
        serde_json::Value::Bool(b) => JsonValue::Bool(b),
        serde_json::Value::Number(n) => JsonValue::Number(n.to_string()),
        serde_json::Value::String(t) => JsonValue::Str(t),
        serde_json::Value::Array(a) => JsonValue::Array(a.into_iter().map(tree_of).collect()),
        serde_json::Value::Object(m) => JsonValue::Object(
            m.into_iter().map(|(k, x)| (k, tree_of(x))).collect(),
        ),
    }
}

/// Relies on serde_json::Value's variants and on serde_json::Number's
/// `FromStr`, which refuses text that is no JSON number. Only [`print_json`]
/// calls it; it states nothing, as its result is opaque.
#[verifier::external_body]
fn value_of(v: &JsonValue) -> Result<serde_json::Value, serde_json::Error> {
    Ok(match v {
        JsonValue::Null => serde_json::Value::Null,
        JsonValue::Bool(b) => serde_json::Value::Bool(*b),
        JsonValue::Number(t) => serde_json::Value::Number(t.parse()?),
        JsonValue::Str(t) => serde_json::Value::String(t.clone()),
        JsonValue::Array(a) => serde_json::Value::Array(a.iter().map(value_of).collect::<Result<_, _>>()?),
        JsonValue::Object(m) => serde_json::Value::Object(
            m.iter().map(|(k, x)| value_of(x).map(|y| (k.clone(), y))).collect::<Result<_, _>>()?,
        ),
    })
}

/// Relies on serde_json::from_str into a serde_json::Value: the document that
/// the text holds, or the parser's message where it holds none.
#[verifier::external_body]
pub(crate) fn parse_json(s: &str) -> (r: Result<JsonValue, String>)
    ensures
        r is Ok <==> parsed_json(s@) is Some,
        r matches Ok(j) ==> parsed_json(s@) == Some(j),
{
    serde_json::from_str::<serde_json::Value>(s).map(tree_of).map_err(|e| e.to_string())
}

/// Relies on serde_json::to_string of a serde_json::Value: the compact text of
/// the tree. Converting the tree fails only where `Number::from_str` refuses a
/// number's text, which it never does for integer text in its shortest form
/// from `i64::MIN` to `u64::MAX`; printing a `Value` never fails.
#[verifier::external_body]
pub(crate) fn print_json(v: &JsonValue) -> (r: Result<String, String>)
    ensures
        r matches Ok(t) ==> t@ == printed_json(*v),
        numbers_ok(*v) ==> r is Ok,
{
    value_of(v).and_then(|x| serde_json::to_string(&x)).map_err(|e| e.to_string())
}

/// `j` is an array of strings with the texts `items`.
pub open spec fn string_array(j: JsonValue, items: Seq<Seq<char>>) -> bool {
    j matches JsonValue::Array(a) && a@.len() == items.len() && forall|i: int|
        0 <= i < items.len() ==> (#[trigger] a@[i] matches JsonValue::Str(t) && t@ == items[i])
}

/// The texts of a list of string slices.
pub open spec fn texts(items: Seq<&str>) -> Seq<Seq<char>> {
    items.map_values(|t: &str| t@)
}

/// One string item for each of `items`.
fn string_items(items: &Vec<&str>) -> (r: Vec<JsonValue>)
    ensures
        r@.len() == items@.len(),
        forall|i: int| 0 <= i < items@.len() ==> (#[trigger] r@[i] matches JsonValue::Str(t) && t@ == items@[i]@),
{
    let mut out: Vec<JsonValue> = Vec::new();
    let mut i: usize = 0;
    while i < items.len()
        invariant
            0 <= i <= items@.len(),
            out@.len() == i,
            forall|k: int| 0 <= k < i ==> (#[trigger] out@[k] matches JsonValue::Str(t) && t@ == items@[k]@),
        decreases items@.len() - i,
    {
        out.push(JsonValue::Str(items[i].to_owned()));
        i = i + 1;
    }
    out
}

impl JsonValue {
    /// The array of the strings `items`.
    pub fn strings(items: &Vec<&str>) -> (r: JsonValue)
        ensures
            string_array(r, texts(items@)),
            numbers_ok(r),
    {
        let a = string_items(items);
        assert(numbers_ok_items(a@)) by {
            assert forall|i: int| 0 <= i < a@.len() implies #[trigger] numbers_ok(a@[i]) by {
                assert(a@[i] is Str);
            }
        }
        JsonValue::Array(a)
    }
}

} // verus!
