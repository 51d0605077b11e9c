//! Decoding typed records out of a JSON tree.
//!
//! Each decodable type states, as two spec functions, which trees it accepts
//! and which value a tree decodes to; `from_json` is proved to follow them.
//! Record fields come in three shapes: required (absent is an error),
//! optional (absent or `null` is `None`) and defaulted (absent is a default).

use vstd::prelude::*;
use crate::json::{JsonValue, member, get_member, integer_of, read_integer, same, entry, find_entry};

verus! {

/// A type that can be decoded from a JSON tree.
pub trait FromJson: Sized {
    /// Whether `j` decodes into a value of this type.
    spec fn accepts(j: JsonValue) -> bool;

    /// Whether `v` is the value that `j` decodes into.
    spec fn decodes_to(j: JsonValue, v: Self) -> bool;

    /// Decodes `j`, or says why it does not fit.
    fn from_json(j: &JsonValue) -> (r: Result<Self, String>)
        ensures
            r is Ok <==> Self::accepts(*j),
            r matches Ok(v) ==> Self::decodes_to(*j, v),
    ;
}

/// The message for a value of the wrong shape.
fn mismatch(expected: &str) -> (r: String) {
    let mut e = "invalid type: expected ".to_owned();
    e.append(expected);
    e
}

impl FromJson for String {
    open spec fn accepts(j: JsonValue) -> bool {
        j is Str
    }

    open spec fn decodes_to(j: JsonValue, v: String) -> bool {
        j matches JsonValue::Str(s) && v@ == s@
    }

    fn from_json(j: &JsonValue) -> (r: Result<String, String>) {
        match j {
            JsonValue::Str(s) => Ok(s.clone()),
            _ => Err(mismatch("a string")),
        }
    }
}

impl FromJson for bool {
    open spec fn accepts(j: JsonValue) -> bool {
        j is Bool
    }

    open spec fn decodes_to(j: JsonValue, v: bool) -> bool {
        j matches JsonValue::Bool(b) && v == b
    }

    fn from_json(j: &JsonValue) -> (r: Result<bool, String>) {
        match j {
            JsonValue::Bool(b) => Ok(*b),
            _ => Err(mismatch("a boolean")),
        }
    }
}

/// The integer that `j` holds, where it is a number without fraction or exponent.
pub open spec fn integer_in(j: JsonValue) -> Option<int> {
    match j {
        JsonValue::Number(t) => integer_of(t@),
        _ => None,
    }
}

/// Reads the integer of a number in `lo..=hi`.
fn integer_between(j: &JsonValue, lo: i128, hi: i128) -> (r: Result<i128, String>)
    requires
        lo >= -(u64::MAX as int),
        hi <= u64::MAX,
    ensures
        r is Ok <==> (integer_in(*j) matches Some(n) && lo <= n <= hi),
        r matches Ok(n) ==> integer_in(*j) == Some(n as int),
{
    match j {
        JsonValue::Number(t) => match read_integer(t) {
            Some((neg, m)) => {
                let n: i128 = if neg {
                    -(m as i128)
                } else {
                    m as i128
                };
                if lo <= n && n <= hi {
                    Ok(n)
                } else {
                    Err(mismatch("an integer in range"))
                }
            },
            None => Err(mismatch("an integer")),
        },
        _ => Err(mismatch("a number")),
    }
}

impl FromJson for u8 {
    open spec fn accepts(j: JsonValue) -> bool {
        integer_in(j) matches Some(n) && 0 <= n <= u8::MAX
    }

    open spec fn decodes_to(j: JsonValue, v: u8) -> bool {
        integer_in(j) == Some(v as int)
    }

    fn from_json(j: &JsonValue) -> (r: Result<u8, String>) {
        let n = integer_between(j, 0, u8::MAX as i128)?;
        Ok(n as u8)
    }
}

impl FromJson for u32 {
    open spec fn accepts(j: JsonValue) -> bool {
        integer_in(j) matches Some(n) && 0 <= n <= u32::MAX
    }

    open spec fn decodes_to(j: JsonValue, v: u32) -> bool {
        integer_in(j) == Some(v as int)
    }

    fn from_json(j: &JsonValue) -> (r: Result<u32, String>) {
        let n = integer_between(j, 0, u32::MAX as i128)?;
        Ok(n as u32)
    }
}

impl FromJson for u64 {
    open spec fn accepts(j: JsonValue) -> bool {
        integer_in(j) matches Some(n) && 0 <= n <= u64::MAX
    }

    open spec fn decodes_to(j: JsonValue, v: u64) -> bool {
        integer_in(j) == Some(v as int)
    }

    fn from_json(j: &JsonValue) -> (r: Result<u64, String>) {
        let n = integer_between(j, 0, u64::MAX as i128)?;
        Ok(n as u64)
    }
}

impl FromJson for i64 {
    open spec fn accepts(j: JsonValue) -> bool {
        integer_in(j) matches Some(n) && i64::MIN <= n <= i64::MAX
    }

    open spec fn decodes_to(j: JsonValue, v: i64) -> bool {
        integer_in(j) == Some(v as int)
    }

    fn from_json(j: &JsonValue) -> (r: Result<i64, String>) {
        let n = integer_between(j, i64::MIN as i128, i64::MAX as i128)?;
        Ok(n as i64)
    }
}

impl FromJson for JsonValue {
    open spec fn accepts(j: JsonValue) -> bool {
        true
    }

    open spec fn decodes_to(j: JsonValue, v: JsonValue) -> bool {
        same(j, v)
    }

    fn from_json(j: &JsonValue) -> (r: Result<JsonValue, String>) {
        Ok(j.duplicate())
    }
}

impl<T: FromJson> FromJson for Option<T> {
    open spec fn accepts(j: JsonValue) -> bool {
        j is Null || T::accepts(j)
    }

    open spec fn decodes_to(j: JsonValue, v: Option<T>) -> bool {
        match v {
            None => j is Null,
            Some(x) => !(j is Null) && T::decodes_to(j, x),
        }
    }

    fn from_json(j: &JsonValue) -> (r: Result<Option<T>, String>) {
        match j {
            JsonValue::Null => Ok(None),
            _ => {
                let x = T::from_json(j)?;
                Ok(Some(x))
            },
        }
    }
}

impl<T: FromJson> FromJson for Box<T> {
    open spec fn accepts(j: JsonValue) -> bool {
        T::accepts(j)
    }

    open spec fn decodes_to(j: JsonValue, v: Box<T>) -> bool {
        T::decodes_to(j, *v)
    }

    fn from_json(j: &JsonValue) -> (r: Result<Box<T>, String>) {
        let x = T::from_json(j)?;
        Ok(Box::new(x))
    }
}

/// Every item decodes as a `T`.
pub open spec fn items_accepted<T: FromJson>(a: Seq<JsonValue>) -> bool {
    forall|i: int| 0 <= i < a.len() ==> #[trigger] T::accepts(a[i])
}

/// Each item of `v` is what the item of `a` at its position decodes to.
pub open spec fn items_decode_to<T: FromJson>(a: Seq<JsonValue>, v: Seq<T>) -> bool {
    v.len() == a.len() && forall|i: int| 0 <= i < a.len() ==> #[trigger] T::decodes_to(a[i], v[i])
}

impl<T: FromJson> FromJson for Vec<T> {
    open spec fn accepts(j: JsonValue) -> bool {
        j matches JsonValue::Array(a) && items_accepted::<T>(a@)
    }

    open spec fn decodes_to(j: JsonValue, v: Vec<T>) -> bool {
        j matches JsonValue::Array(a) && items_decode_to(a@, v@)
    }

    fn from_json(j: &JsonValue) -> (r: Result<Vec<T>, String>) {
        match j {
            JsonValue::Array(a) => decode_items(a),
            _ => Err(mismatch("an array")),
        }
    }
}

/// Decodes each item of an array.
pub fn decode_items<T: FromJson>(a: &Vec<JsonValue>) -> (r: Result<Vec<T>, String>)
    ensures
        r is Ok <==> items_accepted::<T>(a@),
        r matches Ok(v) ==> items_decode_to(a@, v@),
{
    let mut out: Vec<T> = Vec::new();
    let mut i: usize = 0;
    while i < a.len()
        invariant
            0 <= i <= a.len(),
            out@.len() == i,
            forall|k: int| 0 <= k < i ==> #[trigger] T::accepts(a@[k]),
            forall|k: int| 0 <= k < i ==> T::decodes_to(a@[k], #[trigger] out@[k]),
        decreases a.len() - i,
    {
        match T::from_json(&a[i]) {
            Ok(x) => out.push(x),
            Err(e) => {
                assert(!T::accepts(a@[i as int]));
                return Err(e);
            },
        }
        i = i + 1;
    }
    Ok(out)
}

/// A required member `k` that is present and decodes.
pub open spec fn required<T: FromJson>(j: JsonValue, k: Seq<char>) -> bool {
    member(j, k) matches Some(v) && T::accepts(v)
}

/// `x` is what the required member `k` decodes to.
pub open spec fn required_is<T: FromJson>(j: JsonValue, k: Seq<char>, x: T) -> bool {
    member(j, k) matches Some(v) && T::decodes_to(v, x)
}

/// An optional member `k`: absent, or present and decodes as an `Option`.
pub open spec fn optional<T: FromJson>(j: JsonValue, k: Seq<char>) -> bool {
    member(j, k) matches Some(v) ==> Option::<T>::accepts(v)
}

/// `x` is what the optional member `k` decodes to: `None` when it is absent.
pub open spec fn optional_is<T: FromJson>(j: JsonValue, k: Seq<char>, x: Option<T>) -> bool {
    match member(j, k) {
        None => x is None,
        Some(v) => Option::<T>::decodes_to(v, x),
    }
}

/// The member `k` of `j` is absent or `null`.
pub open spec fn absent(j: JsonValue, k: Seq<char>) -> bool {
    match member(j, k) {
        None => true,
        Some(v) => v is Null,
    }
}

/// A member `k` with a default: absent, or present and decodes.
pub open spec fn defaulted<T: FromJson>(j: JsonValue, k: Seq<char>) -> bool {
    member(j, k) matches Some(v) ==> T::accepts(v)
}

/// `x` is what the member `k` decodes to, or a value that `is_default`
/// holds of when the member is absent.
pub open spec fn defaulted_is<T: FromJson>(
    j: JsonValue,
    k: Seq<char>,
    x: T,
    is_default: spec_fn(T) -> bool,
) -> bool {
    match member(j, k) {
        None => is_default(x),
        Some(v) => T::decodes_to(v, x),
    }
}

/// Prefixes a message with the name of the member it is about.
pub fn at_member(key: &str, e: String) -> (r: String) {
    let mut m = "`".to_owned();
    m.append(key);
    m.append("`: ");
    m.append(e.as_str());
    m
}

/// Decodes the required member `key` of `j`.
pub fn required_member<T: FromJson>(j: &JsonValue, key: &str) -> (r: Result<T, String>)
    ensures
        r is Ok <==> required::<T>(*j, key@),
        r matches Ok(x) ==> required_is(*j, key@, x),
{
    match get_member(j, key) {
        Some(v) => match T::from_json(v) {
            Ok(x) => Ok(x),
            Err(e) => Err(at_member(key, e)),
        },
        None => {
            let mut e = "missing field `".to_owned();
            e.append(key);
            e.append("`");
            Err(e)
        },
    }
}

/// Decodes the optional member `key` of `j`.
pub fn optional_member<T: FromJson>(j: &JsonValue, key: &str) -> (r: Result<Option<T>, String>)
    ensures
        r is Ok <==> optional::<T>(*j, key@),
        r matches Ok(x) ==> optional_is(*j, key@, x),
{
    match get_member(j, key) {
        Some(v) => match Option::<T>::from_json(v) {
            Ok(x) => Ok(x),
            Err(e) => Err(at_member(key, e)),
        },
        None => Ok(None),
    }
}

/// Decodes the member `key` of `j`, or gives `default` when it is absent.
pub fn defaulted_member<T: FromJson>(j: &JsonValue, key: &str, default: T) -> (r: Result<
    T,
    String,
>)
    ensures
        r is Ok <==> defaulted::<T>(*j, key@),
        r matches Ok(x) ==> (member(*j, key@) is None ==> x == default) && (member(
            *j,
            key@,
        ) matches Some(v) ==> T::decodes_to(v, x)),
{
    match get_member(j, key) {
        Some(v) => match T::from_json(v) {
            Ok(x) => Ok(x),
            Err(e) => Err(at_member(key, e)),
        },
        None => Ok(default),
    }
}

/// Checks that `j` is an object, as every record is.
pub fn expect_object(j: &JsonValue) -> (r: Result<(), String>)
    ensures
        r is Ok <==> j is Object,
{
    match j {
        JsonValue::Object(_) => Ok(()),
        _ => Err(mismatch("an object")),
    }
}

/// The names in a list of member names.
pub open spec fn names(known: Seq<&str>) -> Seq<Seq<char>> {
    known.map_values(|k: &str| k@)
}

/// The members of `m` whose names are not among `known`, in order.
pub open spec fn unknown_members(m: Seq<(String, JsonValue)>, known: Seq<Seq<char>>) -> Seq<
    (String, JsonValue),
> {
    m.filter(|e: (String, JsonValue)| !known.contains(e.0@))
}

/// Member lists with the same names and `same` values, in the same order.
pub open spec fn copied_members(x: Seq<(String, JsonValue)>, y: Seq<(String, JsonValue)>) -> bool {
    x.len() == y.len() && forall|i: int|
        0 <= i < x.len() ==> x[i].0@ == (#[trigger] y[i]).0@ && same(x[i].1, y[i].1)
}

/// `extra` holds the members of the object `j` that no field of a record
/// takes, in order.
pub open spec fn extra_is(j: JsonValue, known: Seq<Seq<char>>, extra: Seq<(String, JsonValue)>) -> bool {
    j matches JsonValue::Object(m) && copied_members(unknown_members(m@, known), extra)
}

/// Whether `key` is one of `known`.
pub fn is_among(known: &[&str], key: &String) -> (r: bool)
    ensures
        r == names(known@).contains(key@),
{
    let mut i: usize = 0;
    while i < known.len()
        invariant
            0 <= i <= known@.len(),
            forall|j: int| 0 <= j < i ==> known@[j]@ != key@,
        decreases known@.len() - i,
    {
        let k: String = known[i].to_owned();
        if k == *key {
            assert(names(known@)[i as int] == key@);
            return true;
        }
        i = i + 1;
    }
    proof {
        if names(known@).contains(key@) {
            let j = choose|j: int| 0 <= j < names(known@).len() && names(known@)[j] == key@;
            assert(known@[j]@ == key@);
        }
    }
    false
}

/// Copies the members of `m` that are not among `known`.
pub fn unknown_members_of(m: &Vec<(String, JsonValue)>, known: &[&str]) -> (r: Vec<(String, JsonValue)>)
    ensures
        copied_members(unknown_members(m@, names(known@)), r@),
{
    let ghost ks = names(known@);
    let ghost p = |e: (String, JsonValue)| !ks.contains(e.0@);
    let mut out: Vec<(String, JsonValue)> = Vec::new();
    let mut i: usize = 0;
    while i < m.len()
        invariant
            0 <= i <= m.len(),
            ks == names(known@),
            p == (|e: (String, JsonValue)| !ks.contains(e.0@)),
            copied_members(m@.subrange(0, i as int).filter(p), out@),
        decreases m.len() - i,
    {
        let ghost before = out@;
        let ghost s1 = m@.subrange(0, i + 1);
        proof {
            reveal(Seq::filter);
        }
        assert(s1.drop_last() =~= m@.subrange(0, i as int));
        assert(s1.last() == m@[i as int]);
        if !is_among(known, &m[i].0) {
            assert(p(m@[i as int]));
            let name = m[i].0.clone();
            let value = m[i].1.duplicate();
            out.push((name, value));
            assert(m@.subrange(0, i + 1).filter(p) == m@.subrange(0, i as int).filter(p).push(m@[i as int]));
            let ghost f0 = m@.subrange(0, i as int).filter(p);
            let ghost f1 = m@.subrange(0, i + 1).filter(p);
            assert forall|k: int| 0 <= k < f1.len() implies f1[k].0@ == (#[trigger] out@[k]).0@ && same(
                f1[k].1,
                out@[k].1,
            ) by {
                if k < before.len() {
                    assert(out@[k] == before[k]);
                    assert(f1[k] == f0[k]);
                }
            }
        } else {
            assert(!p(m@[i as int]));
            assert(m@.subrange(0, i + 1).filter(p) == m@.subrange(0, i as int).filter(p));
        }
        i = i + 1;
    }
    assert(m@.subrange(0, m@.len() as int) =~= m@);
    out
}

/// Copies the members of the object `j` that no field of a record takes.
pub fn extra_members(j: &JsonValue, known: &[&str]) -> (r: Vec<(String, JsonValue)>)
    requires
        j is Object,
    ensures
        extra_is(*j, names(known@), r@),
{
    match j {
        JsonValue::Object(m) => unknown_members_of(m, known),
        _ => Vec::new(),
    }
}

/// What an accessor of an optional section returns: a reference to the
/// section where it is present, else the error `message`.
pub open spec fn section_result<T>(s: Option<T>, r: Result<&T, String>, message: Seq<char>) -> bool {
    match s {
        Some(x) => r matches Ok(y) && *y == x,
        None => r matches Err(e) && e@ == message,
    }
}

/// `s` begins with `p`.
pub open spec fn starts_with(s: Seq<char>, p: Seq<char>) -> bool {
    p.len() <= s.len() && s.subrange(0, p.len() as int) == p
}

/// The message `prefix` followed by the reason `why`.
pub fn with_reason(prefix: &str, why: &str) -> (r: String)
    ensures
        r@ == prefix@ + why@,
        starts_with(r@, prefix@),
{
    let mut e = prefix.to_owned();
    e.append(why);
    assert(e@.subrange(0, prefix@.len() as int) =~= prefix@);
    e
}

/// A lookup in a list with one more member at the end finds what it found
/// before, or else that member.
pub proof fn lemma_entry_push(s: Seq<(String, JsonValue)>, x: (String, JsonValue), k: Seq<char>)
    ensures
        entry(s.push(x), k) == if entry(s, k) is Some {
            entry(s, k)
        } else if x.0@ == k {
            Some(x.1)
        } else {
            None
        },
    decreases s.len(),
{
    if s.len() > 0 {
        assert(s.push(x).drop_first() =~= s.drop_first().push(x));
        assert(s.push(x)[0] == s[0]);
        lemma_entry_push(s.drop_first(), x, k);
    } else {
        assert(s.push(x).drop_first() =~= s);
        assert(s.push(x)[0] == x);
    }
}

/// Dropping the members with known names does not change a lookup of a name
/// that is not known.
pub proof fn lemma_entry_unknown(m: Seq<(String, JsonValue)>, known: Seq<Seq<char>>, k: Seq<char>)
    requires
        !known.contains(k),
    ensures
        entry(unknown_members(m, known), k) == entry(m, k),
    decreases m.len(),
{
    reveal(Seq::filter);
    if m.len() > 0 {
        let d = m.drop_last();
        assert(m =~= d.push(m.last()));
        lemma_entry_unknown(d, known, k);
        lemma_entry_push(d, m.last(), k);
        if !known.contains(m.last().0@) {
            lemma_entry_push(unknown_members(d, known), m.last(), k);
        }
    }
}

/// A lookup in a copy of a member list finds a copy of what it finds in the list.
pub proof fn lemma_entry_copied(x: Seq<(String, JsonValue)>, y: Seq<(String, JsonValue)>, k: Seq<char>)
    requires
        copied_members(x, y),
    ensures
        entry(x, k) is None <==> entry(y, k) is None,
        entry(x, k) matches Some(v) ==> same(v, entry(y, k)->0),
    decreases x.len(),
{
    if x.len() > 0 {
        assert(x[0].0@ == y[0].0@ && same(x[0].1, y[0].1));
        assert forall|i: int| 0 <= i < x.len() - 1 implies x.drop_first()[i].0@ == (
        #[trigger] y.drop_first()[i]).0@ && same(x.drop_first()[i].1, y.drop_first()[i].1) by {
            assert(x.drop_first()[i] == x[i + 1] && y.drop_first()[i] == y[i + 1]);
        }
        lemma_entry_copied(x.drop_first(), y.drop_first(), k);
    }
}

} // verus!
