//! The named fields that an outbound builder gathers: a map from field name
//! to JSON value in which a later write to a name replaces the earlier one.

use vstd::prelude::*;
use crate::json::{
    JsonValue, print_json, printed_json, decimal, entry, member, numbers_ok, numbers_ok_members,
};
use crate::decode::lemma_entry_push;

verus! {

/// No two members share a name.
pub open spec fn keys_unique(s: Seq<(String, JsonValue)>) -> bool {
    forall|i: int, j: int| 0 <= i < j < s.len() ==> s[i].0@ != s[j].0@
}

/// The map from name to value of a member list.
pub open spec fn map_of(s: Seq<(String, JsonValue)>) -> Map<Seq<char>, JsonValue>
    decreases s.len(),
{
    if s.len() == 0 {
        Map::empty()
    } else {
        map_of(s.drop_last()).insert(s.last().0@, s.last().1)
    }
}

/// `j` is an object whose members have distinct names and make up `fields`.
pub open spec fn object_with(j: JsonValue, fields: Map<Seq<char>, JsonValue>) -> bool {
    j matches JsonValue::Object(m) && keys_unique(m@) && map_of(m@) == fields
}

/// Every number in the values of `fields` has integer text.
pub open spec fn numbers_ok_fields(fields: Map<Seq<char>, JsonValue>) -> bool {
    forall|k: Seq<char>| fields.contains_key(k) ==> numbers_ok(#[trigger] fields[k])
}

/// A list of members with distinct names maps each of its names to the value
/// beside it, and has as many entries as members.
pub proof fn lemma_map_of(s: Seq<(String, JsonValue)>)
    requires
        keys_unique(s),
    ensures
        map_of(s).dom().finite(),
        map_of(s).len() == s.len(),
        forall|i: int| #![trigger s[i]]
            0 <= i < s.len() ==> map_of(s).contains_key(s[i].0@) && map_of(s)[s[i].0@] == s[i].1,
        forall|k: Seq<char>| #[trigger]
            map_of(s).contains_key(k) ==> exists|i: int| 0 <= i < s.len() && s[i].0@ == k,
    decreases s.len(),
{
    if s.len() > 0 {
        let d = s.drop_last();
        assert(keys_unique(d));
        lemma_map_of(d);
        if map_of(d).contains_key(s.last().0@) {
            let i = choose|i: int| 0 <= i < d.len() && d[i].0@ == s.last().0@;
            assert(s[i].0@ == s[s.len() - 1].0@);
        }
        assert forall|k: Seq<char>| #[trigger] map_of(s).contains_key(k) implies exists|i: int|
            0 <= i < s.len() && s[i].0@ == k by {
            if k != s.last().0@ {
                let i = choose|i: int| 0 <= i < d.len() && d[i].0@ == k;
                assert(s[i].0@ == k);
            } else {
                assert(s[s.len() - 1].0@ == k);
            }
        }
        assert forall|i: int| #![trigger s[i]] 0 <= i < s.len() implies map_of(s).contains_key(s[i].0@)
            && map_of(s)[s[i].0@] == s[i].1 by {
            if i < s.len() - 1 {
                assert(s[i] == d[i]);
            }
        }
    }
}

/// Replacing the value of a member keeps the names and replaces that one
/// entry of the map.
pub proof fn lemma_map_of_update(s: Seq<(String, JsonValue)>, i: int, e: (String, JsonValue))
    requires
        keys_unique(s),
        0 <= i < s.len(),
        e.0@ == s[i].0@,
    ensures
        keys_unique(s.update(i, e)),
        map_of(s.update(i, e)) == map_of(s).insert(e.0@, e.1),
    decreases s.len(),
{
    let u = s.update(i, e);
    assert forall|a: int, b: int| 0 <= a < b < u.len() implies u[a].0@ != u[b].0@ by {
        assert(u[a].0@ == s[a].0@ && u[b].0@ == s[b].0@);
    }
    let d = s.drop_last();
    if i == s.len() - 1 {
        assert(u.drop_last() =~= d);
        assert(map_of(u) =~= map_of(s).insert(e.0@, e.1));
    } else {
        assert(keys_unique(d));
        lemma_map_of_update(d, i, e);
        assert(u.drop_last() =~= d.update(i, e));
        assert(s.last().0@ != e.0@);
        assert(map_of(u) =~= map_of(s).insert(e.0@, e.1));
    }
}

/// The fields gathered by a builder.
#[derive(Debug)]
pub struct FieldMap {
    entries: Vec<(String, JsonValue)>,
}

impl View for FieldMap {
    type V = Map<Seq<char>, JsonValue>;

    closed spec fn view(&self) -> Map<Seq<char>, JsonValue> {
        map_of(self.entries@)
    }
}

impl FieldMap {
    /// The fields, in the order their names were first written.
    pub closed spec fn tree(&self) -> JsonValue {
        JsonValue::Object(self.entries)
    }

    /// No two fields share a name.
    #[verifier::type_invariant]
    closed spec fn wf(&self) -> bool {
        keys_unique(self.entries@)
    }

    /// No fields.
    pub fn new() -> (r: FieldMap)
        ensures
            r@ == Map::<Seq<char>, JsonValue>::empty(),
    {
        FieldMap { entries: Vec::new() }
    }

    /// One field.
    pub fn with(key: &str, value: JsonValue) -> (r: FieldMap)
        ensures
            r@ == Map::<Seq<char>, JsonValue>::empty().insert(key@, value),
    {
        FieldMap::new().set(key.to_owned(), value)
    }

    /// Writes `value` under `key`, replacing what was there.
    pub fn set(self, key: String, value: JsonValue) -> (r: FieldMap)
        ensures
            r@ == self@.insert(key@, value),
    {
        proof {
            use_type_invariant(&self);
        }
        let FieldMap { mut entries } = self;
        let mut i: usize = 0;
        while i < entries.len()
            invariant
                0 <= i <= entries@.len(),
                entries@ == self.entries@,
                keys_unique(entries@),
                forall|j: int| 0 <= j < i ==> entries@[j].0@ != key@,
            decreases entries@.len() - i,
        {
            if entries[i].0 == key {
                proof {
                    lemma_map_of_update(entries@, i as int, (key, value));
                }
                entries[i] = (key, value);
                return FieldMap { entries };
            }
            i = i + 1;
        }
        let ghost before = entries@;
        entries.push((key, value));
        assert(entries@.drop_last() =~= before);
        FieldMap { entries }
    }

    /// Whether a field is named `key`.
    pub fn contains(&self, key: &str) -> (r: bool)
        ensures
            r == self@.contains_key(key@),
    {
        proof {
            use_type_invariant(self);
            lemma_map_of(self.entries@);
        }
        let k: String = key.to_owned();
        let mut i: usize = 0;
        while i < self.entries.len()
            invariant
                0 <= i <= self.entries@.len(),
                k@ == key@,
                keys_unique(self.entries@),
                forall|j: int| 0 <= j < i ==> self.entries@[j].0@ != key@,
            decreases self.entries@.len() - i,
        {
            if self.entries[i].0 == k {
                proof {
                    lemma_map_of(self.entries@);
                    assert(self.entries@[i as int].0@ == key@);
                }
                return true;
            }
            i = i + 1;
        }
        proof {
            if map_of(self.entries@).contains_key(key@) {
                let j = choose|j: int| 0 <= j < self.entries@.len() && self.entries@[j].0@ == key@;
            }
        }
        false
    }

    /// The number of fields.
    pub fn len(&self) -> (r: usize)
        ensures
            r == self@.len(),
    {
        proof {
            use_type_invariant(self);
            lemma_map_of(self.entries@);
        }
        self.entries.len()
    }

    /// The value of the field named `key`, if there is one.
    pub fn get(&self, key: &str) -> (r: Option<&JsonValue>)
        ensures
            r matches Some(v) ==> self@.contains_key(key@) && self@[key@] == *v,
            r is None ==> !self@.contains_key(key@),
    {
        proof {
            use_type_invariant(self);
            lemma_map_of(self.entries@);
        }
        let k: String = key.to_owned();
        let mut i: usize = 0;
        while i < self.entries.len()
            invariant
                0 <= i <= self.entries@.len(),
                k@ == key@,
                keys_unique(self.entries@),
                forall|j: int| 0 <= j < i ==> self.entries@[j].0@ != key@,
            decreases self.entries@.len() - i,
        {
            if self.entries[i].0 == k {
                proof {
                    lemma_map_of(self.entries@);
                    assert(self.entries@[i as int].0@ == key@);
                }
                return Some(&self.entries[i].1);
            }
            i = i + 1;
        }
        proof {
            lemma_map_of(self.entries@);
            if map_of(self.entries@).contains_key(key@) {
                let j = choose|j: int| 0 <= j < self.entries@.len() && self.entries@[j].0@ == key@;
            }
        }
        None
    }

    /// The object that holds the fields: it is made of exactly the fields.
    pub fn into_json(self) -> (r: JsonValue)
        ensures
            r == self.tree(),
            object_with(r, self@),
            numbers_ok_fields(self@) ==> numbers_ok(r),
    {
        proof {
            use_type_invariant(&self);
            lemma_map_of(self.entries@);
            if numbers_ok_fields(self@) {
                let s = self.entries@;
                assert forall|i: int| 0 <= i < s.len() implies #[trigger] numbers_ok(s[i].1) by {
                    assert(map_of(s).contains_key(s[i].0@));
                    assert(numbers_ok(map_of(s)[s[i].0@]));
                }
                assert(numbers_ok_members(s));
            }
        }
        JsonValue::Object(self.entries)
    }
}

/// `t` is the text that serde_json prints for an object made of exactly `fields`.
pub open spec fn printed_object(fields: Map<Seq<char>, JsonValue>, t: Seq<char>) -> bool {
    exists|j: JsonValue| object_with(j, fields) && t == printed_json(j)
}

/// The message of a build that failed for the reason `why`.
pub fn build_error(why: &str) -> (r: String)
    ensures
        r@ == "OutboundData build failed: "@ + why@,
{
    let mut e = "OutboundData build failed: ".to_owned();
    e.append(why);
    e
}

/// Prints the object made of `fields`; it succeeds where every number in
/// them has integer text.
pub fn emit(fields: FieldMap) -> (r: Result<String, String>)
    ensures
        r matches Ok(t) ==> printed_object(fields@, t@),
        numbers_ok_fields(fields@) ==> r is Ok,
{
    let ghost g = fields;
    let j = fields.into_json();
    match print_json(&j) {
        Ok(t) => {
            assert(object_with(j, g@) && t@ == printed_json(j));
            Ok(t)
        },
        Err(e) => Err(build_error(e.as_str())),
    }
}

/// `new` is `old` with `key` written: `key` now holds a value that
/// `is_value` holds of, and every other name keeps its value.
pub open spec fn written(
    old: Map<Seq<char>, JsonValue>,
    new: Map<Seq<char>, JsonValue>,
    key: Seq<char>,
    is_value: spec_fn(JsonValue) -> bool,
) -> bool {
    new.contains_key(key) && is_value(new[key]) && new == old.insert(key, new[key])
}

/// A string with the text `s`.
pub open spec fn is_text(s: Seq<char>) -> spec_fn(JsonValue) -> bool {
    |j: JsonValue| j matches JsonValue::Str(t) && t@ == s
}

/// A number with the decimal text of `n`.
pub open spec fn is_number(n: nat) -> spec_fn(JsonValue) -> bool {
    |j: JsonValue| j matches JsonValue::Number(t) && t@ == decimal(n)
}

/// Writing a name adds it to the names present and leaves the others.
pub proof fn lemma_written_names(
    old: Map<Seq<char>, JsonValue>,
    new: Map<Seq<char>, JsonValue>,
    key: Seq<char>,
    is_value: spec_fn(JsonValue) -> bool,
)
    requires
        written(old, new, key, is_value),
    ensures
        new.dom() == old.dom().insert(key),
{
    assert(new.dom() =~= old.dom().insert(key));
}

/// Writing the same name twice keeps only the second value: the result is
/// that of the second write alone.
pub proof fn lemma_last_write_wins(
    m0: Map<Seq<char>, JsonValue>,
    m1: Map<Seq<char>, JsonValue>,
    m2: Map<Seq<char>, JsonValue>,
    key: Seq<char>,
    first: spec_fn(JsonValue) -> bool,
    second: spec_fn(JsonValue) -> bool,
)
    requires
        written(m0, m1, key, first),
        written(m1, m2, key, second),
    ensures
        written(m0, m2, key, second),
{
    assert(m2 =~= m0.insert(key, m2[key]));
}

/// In a member list with distinct names, a lookup by name finds the map's
/// entry for that name, and nothing where the map has none.
pub proof fn lemma_entry_of_unique(s: Seq<(String, JsonValue)>, k: Seq<char>)
    requires
        keys_unique(s),
    ensures
        entry(s, k) == if map_of(s).contains_key(k) {
            Some(map_of(s)[k])
        } else {
            None
        },
    decreases s.len(),
{
    if s.len() > 0 {
        let d = s.drop_last();
        assert(keys_unique(d));
        assert(s =~= d.push(s.last()));
        lemma_entry_of_unique(d, k);
        lemma_entry_push(d, s.last(), k);
        lemma_map_of(d);
        if map_of(d).contains_key(s.last().0@) {
            let i = choose|i: int| 0 <= i < d.len() && d[i].0@ == s.last().0@;
            assert(s[i].0@ == s[s.len() - 1].0@);
        }
    }
}

/// An object printed from fields has a member for exactly each field, with
/// the field's value: looked up by any name, it gives what the fields hold.
pub proof fn lemma_object_lookup(j: JsonValue, fields: Map<Seq<char>, JsonValue>, k: Seq<char>)
    requires
        object_with(j, fields),
    ensures
        member(j, k) == if fields.contains_key(k) {
            Some(fields[k])
        } else {
            None
        },
{
    if let JsonValue::Object(m) = j {
        lemma_entry_of_unique(m@, k);
    }
}

/// Writing a value whose numbers have integer text keeps every number of the
/// fields integer text.
pub proof fn lemma_numbers_ok_insert(fields: Map<Seq<char>, JsonValue>, key: Seq<char>, value: JsonValue)
    requires
        numbers_ok_fields(fields),
        numbers_ok(value),
    ensures
        numbers_ok_fields(fields.insert(key, value)),
{
    assert forall|k: Seq<char>| fields.insert(key, value).contains_key(k) implies numbers_ok(
        #[trigger] fields.insert(key, value)[k],
    ) by {
        if k != key {
            assert(fields.contains_key(k));
        }
    }
}

} // verus!
