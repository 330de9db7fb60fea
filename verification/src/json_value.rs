//! JSON values.

use crate::text;
use crate::text::{text_order, TextOrder};
use vstd::prelude::*;

verus! {

/// The outside type of JSON numbers.
#[verifier::external_type_specification]
#[verifier::external_body]
pub struct ExNumber(serde_json::Number);

/// The integer that a number holds; `None` for a number that is held as a fraction.
pub uninterp spec fn number_int(number: serde_json::Number) -> Option<int>;

/// `serde_json::Number::clone` gives back the number it is called on.
pub assume_specification[ <serde_json::Number as Clone>::clone ](
    number: &serde_json::Number,
) -> (copy: serde_json::Number)
    ensures
        copy == *number,
;

/// `serde_json::Number::as_i64` gives the integer that the number holds, provided that an `i64`
/// can hold it too.
pub assume_specification[ serde_json::Number::as_i64 ](number: &serde_json::Number) -> (held: Option<i64>)
    ensures
        held == as_i64_of(number_int(*number)),
;

/// `serde_json::Number::from`, called on an `i64`, gives the number that holds it.
#[verifier::external_body]
fn number_from_i64(n: i64) -> (number: serde_json::Number)
    ensures
        number_int(number) == Some(n as int),
{
    serde_json::Number::from(n)
}

/// `serde_json::Number::from`, called on a `u64`, gives the number that holds it.
#[verifier::external_body]
fn number_from_u64(n: u64) -> (number: serde_json::Number)
    ensures
        number_int(number) == Some(n as int),
{
    serde_json::Number::from(n)
}

/// The `i64` that is equal to `held`.
pub open spec fn as_i64_of(held: Option<int>) -> Option<i64> {
    match held {
        Some(n) => if i64::MIN <= n <= i64::MAX {
            Some(n as i64)
        } else {
            None
        },
        None => None,
    }
}

/// What a number is as a JSON value.
pub open spec fn number_view(number: serde_json::Number) -> JsonView {
    match number_int(number) {
        Some(n) => JsonView::Int(n),
        None => JsonView::Float(number),
    }
}

/// What a JSON value is.
pub enum JsonView {
    Null,
    Bool(bool),
    Int(int),
    Float(serde_json::Number),
    String(Seq<char>),
    Array(Seq<JsonView>),
    Object(Map<Seq<char>, JsonView>),
}

/// A JSON value.
#[derive(Debug, PartialEq)]
pub enum JsonValue {
    Null,
    Bool(bool),
    Number(serde_json::Number),
    String(String),
    Array(Vec<JsonValue>),
    Object(JsonMap),
}

/// The fields of a JSON object, each name once, in the lexicographic order of the names.
#[derive(Debug, PartialEq)]
pub struct JsonMap {
    entries: Vec<(String, JsonValue)>,
}

/// What the values of a sequence are.
pub open spec fn values_view(values: Seq<JsonValue>) -> Seq<JsonView>
    decreases values,
{
    Seq::new(
        values.len(),
        |i: int|
            if 0 <= i < values.len() {
                values[i].view()
            } else {
                JsonView::Null
            },
    )
}

/// The fields that a sequence of entries makes up; a later entry replaces an earlier one.
pub open spec fn entries_view(entries: Seq<(String, JsonValue)>) -> Map<Seq<char>, JsonView>
    decreases entries,
{
    if entries.len() == 0 {
        Map::empty()
    } else {
        entries_view(entries.drop_last()).insert(entries.last().0@, entries.last().1.view())
    }
}

impl JsonValue {
    /// What the value is.
    pub open spec fn view(&self) -> JsonView
        decreases self,
    {
        match *self {
            JsonValue::Null => JsonView::Null,
            JsonValue::Bool(b) => JsonView::Bool(b),
            JsonValue::Number(n) => number_view(n),
            JsonValue::String(s) => JsonView::String(s@),
            JsonValue::Array(items) => JsonView::Array(values_view(items@)),
            JsonValue::Object(map) => JsonView::Object(map.view()),
        }
    }

    /// The number `n`.
    pub fn from_i64(n: i64) -> (json: JsonValue)
        ensures
            json@ == JsonView::Int(n as int),
    {
        JsonValue::Number(number_from_i64(n))
    }

    /// The number `n`.
    pub fn from_u64(n: u64) -> (json: JsonValue)
        ensures
            json@ == JsonView::Int(n as int),
    {
        JsonValue::Number(number_from_u64(n))
    }

    /// The text `s`.
    pub fn from_text(s: &str) -> (json: JsonValue)
        ensures
            json@ == JsonView::String(s@),
    {
        JsonValue::String(s.to_owned())
    }
}

impl Clone for JsonValue {
    fn clone(&self) -> (copy: JsonValue)
        ensures
            copy@ == self@,
        decreases self,
    {
        match self {
            JsonValue::Null => JsonValue::Null,
            JsonValue::Bool(b) => JsonValue::Bool(*b),
            JsonValue::Number(n) => JsonValue::Number(n.clone()),
            JsonValue::String(s) => JsonValue::String(s.clone()),
            JsonValue::Array(items) => {
                let mut copies: Vec<JsonValue> = Vec::new();
                for i in 0..items.len()
                    invariant
                        *self == JsonValue::Array(*items),
                        values_view(copies@) == values_view(items@).take(i as int),
                        copies@.len() == i,
                {
                    assert(decreases_to!(self => self->Array_0@[i as int]));
                    let copy = items[i].clone();
                    let ghost before = copies@;
                    copies.push(copy);
                    proof {
                        assert(values_view(copies@) =~= values_view(before).push(copy@));
                        assert(values_view(items@).take(i + 1) =~= values_view(items@).take(
                            i as int,
                        ).push(items@[i as int]@));
                    }
                }
                assert(values_view(items@).take(items@.len() as int) =~= values_view(items@));
                JsonValue::Array(copies)
            },
            JsonValue::Object(map) => JsonValue::Object(map.clone()),
        }
    }
}

impl Clone for JsonMap {
    fn clone(&self) -> (copy: JsonMap)
        ensures
            copy@ == self@,
        decreases self,
    {
        proof {
            use_type_invariant(self);
        }
        let mut copies: Vec<(String, JsonValue)> = Vec::new();
        for i in 0..self.entries.len()
            invariant
                copies@.len() == i,
                forall|k: int|
                    #![trigger copies@[k]]
                    0 <= k < i ==> copies@[k].0@ == self.entries@[k].0@,
                entries_view(copies@) == entries_view(self.entries@.take(i as int)),
        {
            let name = self.entries[i].0.clone();
            let copy = self.entries[i].1.clone();
            let ghost before = copies@;
            copies.push((name, copy));
            proof {
                assert(copies@.drop_last() =~= before);
                assert(self.entries@.take(i + 1).drop_last() =~= self.entries@.take(i as int));
            }
        }
        proof {
            assert(self.entries@.take(self.entries@.len() as int) =~= self.entries@);
            assert forall|i: int, j: int|
                #![trigger copies@[i], copies@[j]]
                0 <= i < j < copies@.len() implies text::text_before(copies@[i].0@, copies@[j].0@) by {
                let x = self.entries@[i];
                let y = self.entries@[j];
            }
        }
        JsonMap { entries: copies }
    }
}

/// The names of the entries stand in strictly increasing order.
pub open spec fn in_name_order(entries: Seq<(String, JsonValue)>) -> bool {
    forall|i: int, j: int|
        #![trigger entries[i], entries[j]]
        0 <= i < j < entries.len() ==> text::text_before(entries[i].0@, entries[j].0@)
}

/// `name` is the first in order of the names of `fields`.
pub open spec fn is_first_name(fields: Map<Seq<char>, JsonView>, name: Seq<char>) -> bool {
    &&& fields.contains_key(name)
    &&& forall|other: Seq<char>| #[trigger]
        fields.contains_key(other) ==> other == name || text::text_before(name, other)
}

/// The first in order of the names of `fields`.
pub open spec fn first_name(fields: Map<Seq<char>, JsonView>) -> Seq<char> {
    choose|name: Seq<char>| is_first_name(fields, name)
}

/// There is at most one first name.
pub proof fn first_name_unique(fields: Map<Seq<char>, JsonView>, name: Seq<char>)
    requires
        is_first_name(fields, name),
    ensures
        first_name(fields) == name,
{
    let other = first_name(fields);
    assert(is_first_name(fields, other));
    if other != name {
        text::text_before_transitive(name, other, name);
        text::text_before_irreflexive(name);
    }
}

/// The first name is the name of a field, and that of no other field stands before it.
pub proof fn no_name_stands_before_the_first(
    fields: Map<Seq<char>, JsonView>,
    name: Seq<char>,
    other: Seq<char>,
)
    requires
        is_first_name(fields, name),
        fields.contains_key(other),
    ensures
        fields.contains_key(name),
        !text::text_before(other, name),
{
    text::text_before_irreflexive(name);
    if text::text_before(other, name) {
        text::text_before_transitive(name, other, name);
    }
}

/// Of several entries with one name the last counts; each name of an entry is that of a field, and
/// there are no other fields.
pub proof fn last_entry_counts(
    entries: Seq<(String, JsonValue)>,
    entry: (String, JsonValue),
    name: Seq<char>,
)
    ensures
        entries_view(entries.push(entry)).contains_key(entry.0@),
        entries_view(entries.push(entry))[entry.0@] == entry.1@,
        name != entry.0@ ==> {
            &&& entries_view(entries.push(entry)).contains_key(name) <==> entries_view(
                entries,
            ).contains_key(name)
            &&& entries_view(entries.push(entry))[name] == entries_view(entries)[name]
        },
        !entries_view(Seq::empty()).contains_key(name),
{
    assert(entries.push(entry).drop_last() =~= entries);
}

/// Where there are fields, and not endlessly many, one of their names is the first.
pub proof fn first_name_exists(fields: Map<Seq<char>, JsonView>)
    requires
        fields.dom().finite(),
        fields != Map::<Seq<char>, JsonView>::empty(),
    ensures
        is_first_name(fields, first_name(fields)),
    decreases fields.dom().len(),
{
    if forall|name: Seq<char>| !#[trigger] fields.dom().contains(name) {
        assert(fields =~= Map::empty());
    }
    let name = choose|name: Seq<char>| #[trigger] fields.dom().contains(name);
    let rest = fields.remove(name);
    if rest == Map::<Seq<char>, JsonView>::empty() {
        assert forall|other: Seq<char>| #[trigger] fields.contains_key(other) implies other == name by {
            if other != name {
                assert(rest.contains_key(other));
            }
        }
        assert(is_first_name(fields, name));
    } else {
        first_name_exists(rest);
        let first = first_name(rest);
        assert(rest.contains_key(first));
        text::text_before_total(name, first);
        if text::text_before(name, first) {
            assert forall|other: Seq<char>| #[trigger] fields.contains_key(other) implies other == name
                || text::text_before(name, other) by {
                if other != name {
                    assert(rest.contains_key(other));
                    if other != first {
                        text::text_before_transitive(name, first, other);
                    }
                }
            }
            assert(is_first_name(fields, name));
        } else {
            assert forall|other: Seq<char>| #[trigger] fields.contains_key(other) implies other
                == first || text::text_before(first, other) by {
                if other != name {
                    assert(rest.contains_key(other));
                }
            }
            assert(is_first_name(fields, first));
        }
    }
}

proof fn lemma_entries(entries: Seq<(String, JsonValue)>)
    requires
        in_name_order(entries),
    ensures
        entries_view(entries).dom().finite(),
        entries_view(entries).len() == entries.len(),
        forall|i: int|
            #![trigger entries[i]]
            0 <= i < entries.len() ==> {
                &&& entries_view(entries).contains_key(entries[i].0@)
                &&& entries_view(entries)[entries[i].0@] == entries[i].1@
            },
        forall|name: Seq<char>| #[trigger]
            entries_view(entries).contains_key(name) ==> exists|i: int|
                #![trigger entries[i]]
                0 <= i < entries.len() && entries[i].0@ == name,
    decreases entries.len(),
{
    if entries.len() > 0 {
        let rest = entries.drop_last();
        let last = entries.last();
        assert forall|i: int, j: int|
            #![trigger rest[i], rest[j]]
            0 <= i < j < rest.len() implies text::text_before(rest[i].0@, rest[j].0@) by {
            assert(rest[i] == entries[i] && rest[j] == entries[j]);
        }
        lemma_entries(rest);
        if entries_view(rest).contains_key(last.0@) {
            let i = choose|i: int| #![trigger rest[i]] 0 <= i < rest.len() && rest[i].0@ == last.0@;
            assert(entries[i] == rest[i]);
            assert(entries[entries.len() - 1] == last);
            text::text_before_irreflexive(last.0@);
        }
        assert forall|i: int|
            #![trigger entries[i]]
            0 <= i < entries.len() implies {
            &&& entries_view(entries).contains_key(entries[i].0@)
            &&& entries_view(entries)[entries[i].0@] == entries[i].1@
        } by {
            if i < entries.len() - 1 {
                assert(rest[i] == entries[i]);
                assert(entries[entries.len() - 1] == last);
                if entries[i].0@ == last.0@ {
                    text::text_before_irreflexive(last.0@);
                }
            }
        }
        assert forall|name: Seq<char>| #[trigger]
            entries_view(entries).contains_key(name) implies exists|i: int|
            #![trigger entries[i]]
            0 <= i < entries.len() && entries[i].0@ == name by {
            if name == last.0@ {
                assert(entries[entries.len() - 1].0@ == name);
            } else {
                let i = choose|i: int| #![trigger rest[i]] 0 <= i < rest.len() && rest[i].0@ == name;
                assert(entries[i].0@ == name);
            }
        }
    }
}

/// What is left after one entry is taken out.
proof fn lemma_entry_removed(before: Seq<(String, JsonValue)>, at: int)
    requires
        in_name_order(before),
        0 <= at < before.len(),
    ensures
        in_name_order(before.remove(at)),
        entries_view(before.remove(at)) == entries_view(before).remove(before[at].0@),
        forall|k: int|
            #![trigger before.remove(at)[k]]
            0 <= k < at ==> text::text_before(before.remove(at)[k].0@, before[at].0@),
        forall|k: int|
            #![trigger before.remove(at)[k]]
            at <= k < before.len() - 1 ==> text::text_before(before[at].0@, before.remove(at)[k].0@),
{
    let after = before.remove(at);
    let name = before[at].0@;
    assert forall|i: int, j: int|
        #![trigger after[i], after[j]]
        0 <= i < j < after.len() implies text::text_before(after[i].0@, after[j].0@) by {
        let p = if i < at { i } else { i + 1 };
        let q = if j < at { j } else { j + 1 };
        assert(after[i] == before[p] && after[j] == before[q]);
    }
    lemma_entries(before);
    lemma_entries(after);
    let goal = entries_view(before).remove(name);
    assert forall|k: Seq<char>| #[trigger]
        entries_view(after).contains_key(k) == goal.contains_key(k) by {
        if entries_view(after).contains_key(k) {
            let i = choose|i: int| #![trigger after[i]] 0 <= i < after.len() && after[i].0@ == k;
            let q = if i < at { i } else { i + 1 };
            assert(after[i] == before[q]);
            text::text_before_irreflexive(name);
        }
        if goal.contains_key(k) {
            let q = choose|q: int| #![trigger before[q]] 0 <= q < before.len() && before[q].0@ == k;
            let i = if q < at { q } else { q - 1 };
            assert(after[i] == before[q]);
        }
    }
    assert forall|k: Seq<char>| entries_view(after).contains_key(k) implies #[trigger]
        entries_view(after)[k] == goal[k] by {
        let i = choose|i: int| #![trigger after[i]] 0 <= i < after.len() && after[i].0@ == k;
        let q = if i < at { i } else { i + 1 };
        assert(after[i] == before[q]);
    }
    assert(entries_view(after) =~= goal);
}

/// What there is after an entry is put in where its name belongs.
proof fn lemma_entry_inserted(
    before: Seq<(String, JsonValue)>,
    at: int,
    entry: (String, JsonValue),
)
    requires
        in_name_order(before),
        0 <= at <= before.len(),
        forall|k: int|
            #![trigger before[k]]
            0 <= k < at ==> text::text_before(before[k].0@, entry.0@),
        forall|k: int|
            #![trigger before[k]]
            at <= k < before.len() ==> text::text_before(entry.0@, before[k].0@),
    ensures
        in_name_order(before.insert(at, entry)),
        entries_view(before.insert(at, entry)) == entries_view(before).insert(entry.0@, entry.1@),
{
    let after = before.insert(at, entry);
    assert forall|i: int, j: int|
        #![trigger after[i], after[j]]
        0 <= i < j < after.len() implies text::text_before(after[i].0@, after[j].0@) by {
        if i != at {
            let p = if i < at { i } else { i - 1 };
            assert(after[i] == before[p]);
        }
        if j != at {
            let q = if j < at { j } else { j - 1 };
            assert(after[j] == before[q]);
        }
    }
    lemma_entries(before);
    lemma_entries(after);
    let goal = entries_view(before).insert(entry.0@, entry.1@);
    assert(after[at] == entry);
    assert forall|k: Seq<char>| #[trigger]
        entries_view(after).contains_key(k) == goal.contains_key(k) by {
        if entries_view(after).contains_key(k) {
            let i = choose|i: int| #![trigger after[i]] 0 <= i < after.len() && after[i].0@ == k;
            if i != at {
                let p = if i < at { i } else { i - 1 };
                assert(after[i] == before[p]);
            }
        }
        if goal.contains_key(k) && k != entry.0@ {
            let p = choose|p: int| #![trigger before[p]] 0 <= p < before.len() && before[p].0@ == k;
            let i = if p < at { p } else { p + 1 };
            assert(after[i] == before[p]);
        }
    }
    assert forall|k: Seq<char>| entries_view(after).contains_key(k) implies #[trigger]
        entries_view(after)[k] == goal[k] by {
        let i = choose|i: int| #![trigger after[i]] 0 <= i < after.len() && after[i].0@ == k;
        if i != at {
            let p = if i < at { i } else { i - 1 };
            assert(after[i] == before[p]);
            text::text_before_irreflexive(entry.0@);
        }
    }
    assert(entries_view(after) =~= goal);
}

impl JsonMap {
    /// The fields by name.
    pub closed spec fn view(&self) -> Map<Seq<char>, JsonView>
        decreases self,
    {
        entries_view(self.entries@)
    }

    #[verifier::type_invariant]
    closed spec fn ordered(&self) -> bool {
        in_name_order(self.entries@)
    }

    /// An object without fields.
    pub fn new() -> (map: JsonMap)
        ensures
            map@ == Map::<Seq<char>, JsonView>::empty(),
    {
        JsonMap { entries: Vec::new() }
    }

    /// The number of fields.
    pub fn len(&self) -> (len: usize)
        ensures
            self@.dom().finite(),
            len == self@.len(),
    {
        proof {
            use_type_invariant(self);
            lemma_entries(self.entries@);
        }
        self.entries.len()
    }

    /// Whether there is no field.
    pub fn is_empty(&self) -> (empty: bool)
        ensures
            empty == (self@ == Map::<Seq<char>, JsonView>::empty()),
    {
        proof {
            use_type_invariant(self);
            lemma_entries(self.entries@);
            if self.entries@.len() > 0 {
                assert(self@.contains_key(self.entries@[0].0@));
            }
        }
        self.entries.len() == 0
    }

    /// Where the entry named `name` stands, or else where it would have to stand.
    fn position(&self, name: &str) -> (found: Result<usize, usize>)
        ensures
            match found {
                Ok(i) => i < self.entries@.len() && self.entries@[i as int].0@ == name@,
                Err(i) => {
                    &&& i <= self.entries@.len()
                    &&& forall|k: int|
                        #![trigger self.entries@[k]]
                        0 <= k < i ==> text::text_before(self.entries@[k].0@, name@)
                    &&& forall|k: int|
                        #![trigger self.entries@[k]]
                        i <= k < self.entries@.len() ==> text::text_before(name@, self.entries@[k].0@)
                },
            },
    {
        proof {
            use_type_invariant(self);
        }
        let mut low: usize = 0;
        let mut high: usize = self.entries.len();
        while low < high
            invariant
                low <= high <= self.entries@.len(),
                in_name_order(self.entries@),
                forall|k: int|
                    #![trigger self.entries@[k]]
                    0 <= k < low ==> text::text_before(self.entries@[k].0@, name@),
                forall|k: int|
                    #![trigger self.entries@[k]]
                    high <= k < self.entries@.len() ==> text::text_before(name@, self.entries@[k].0@),
            decreases high - low,
        {
            let mid: usize = low + (high - low) / 2;
            let ghost here = self.entries@[mid as int];
            match text_order(self.entries[mid].0.as_str(), name) {
                TextOrder::Same => {
                    return Ok(mid);
                },
                TextOrder::Before => {
                    proof {
                        assert forall|k: int|
                            #![trigger self.entries@[k]]
                            0 <= k < mid + 1 implies text::text_before(self.entries@[k].0@, name@) by {
                            if k < mid {
                                text::text_before_transitive(self.entries@[k].0@, here.0@, name@);
                            }
                        }
                    }
                    low = mid + 1;
                },
                TextOrder::After => {
                    proof {
                        assert forall|k: int|
                            #![trigger self.entries@[k]]
                            mid <= k < self.entries@.len() implies text::text_before(
                            name@,
                            self.entries@[k].0@,
                        ) by {
                            if k > mid {
                                text::text_before_transitive(name@, here.0@, self.entries@[k].0@);
                            }
                        }
                    }
                    high = mid;
                },
            }
        }
        Err(low)
    }

    /// What `position` says of the fields.
    proof fn lemma_position(&self, name: Seq<char>, found: Result<usize, usize>)
        requires
            in_name_order(self.entries@),
            match found {
                Ok(i) => i < self.entries@.len() && self.entries@[i as int].0@ == name,
                Err(i) => {
                    &&& i <= self.entries@.len()
                    &&& forall|k: int|
                        #![trigger self.entries@[k]]
                        0 <= k < i ==> text::text_before(self.entries@[k].0@, name)
                    &&& forall|k: int|
                        #![trigger self.entries@[k]]
                        i <= k < self.entries@.len() ==> text::text_before(name, self.entries@[k].0@)
                },
            },
        ensures
            found is Ok <==> self@.contains_key(name),
            found matches Ok(i) ==> self@[name] == self.entries@[i as int].1@,
    {
        lemma_entries(self.entries@);
        if found is Err && self@.contains_key(name) {
            let i = choose|i: int|
                #![trigger self.entries@[i]]
                0 <= i < self.entries@.len() && self.entries@[i].0@ == name;
            text::text_before_irreflexive(name);
        }
    }

    /// Whether there is a field named `name`.
    pub fn contains_key(&self, name: &str) -> (there: bool)
        ensures
            there == self@.contains_key(name@),
    {
        let found = self.position(name);
        proof {
            use_type_invariant(self);
            self.lemma_position(name@, found);
        }
        found.is_ok()
    }

    /// The value of the field named `name`.
    pub fn get(&self, name: &str) -> (value: Option<&JsonValue>)
        ensures
            value is Some <==> self@.contains_key(name@),
            value matches Some(v) ==> v@ == self@[name@],
    {
        let found = self.position(name);
        proof {
            use_type_invariant(self);
            self.lemma_position(name@, found);
        }
        match found {
            Ok(i) => Some(&self.entries[i].1),
            Err(_) => None,
        }
    }

    /// Gives the field named `name` the value `value`.
    pub fn insert(&mut self, name: String, value: JsonValue)
        ensures
            final(self)@ == old(self)@.insert(name@, value@),
    {
        let found = self.position(name.as_str());
        proof {
            use_type_invariant(&*self);
            self.lemma_position(name@, found);
        }
        let mut entries: Vec<(String, JsonValue)> = Vec::new();
        std::mem::swap(&mut entries, &mut self.entries);
        let ghost before = entries@;
        let at: usize = match found {
            Ok(i) => {
                proof {
                    lemma_entry_removed(before, i as int);
                }
                entries.remove(i);
                i
            },
            Err(i) => i,
        };
        proof {
            lemma_entry_inserted(entries@, at as int, (name, value));
            assert(entries_view(before).remove(name@).insert(name@, value@) =~= entries_view(
                before,
            ).insert(name@, value@));
        }
        entries.insert(at, (name, value));
        self.entries = entries;
    }

    /// Takes the field named `name` out.
    pub fn remove(&mut self, name: &str) -> (value: Option<JsonValue>)
        ensures
            final(self)@ == old(self)@.remove(name@),
            value is Some <==> old(self)@.contains_key(name@),
            value matches Some(v) ==> v@ == old(self)@[name@],
    {
        let found = self.position(name);
        proof {
            use_type_invariant(&*self);
            self.lemma_position(name@, found);
        }
        match found {
            Ok(at) => {
                let mut entries: Vec<(String, JsonValue)> = Vec::new();
                std::mem::swap(&mut entries, &mut self.entries);
                proof {
                    lemma_entry_removed(entries@, at as int);
                }
                let (_, value) = entries.remove(at);
                self.entries = entries;
                Some(value)
            },
            Err(_) => {
                assert(self@.remove(name@) =~= self@);
                None
            },
        }
    }

    /// The object whose fields the entries make up; a later entry replaces an earlier one.
    pub fn from_entries(entries: Vec<(String, JsonValue)>) -> (map: JsonMap)
        ensures
            map@ == entries_view(entries@),
    {
        let mut map = JsonMap::new();
        for entry in rest: entries
            invariant
                rest.seq() == entries@,
                map@ == entries_view(entries@.take(rest.index() as int)),
        {
            let ghost n = rest.index() as int;
            map.insert(entry.0, entry.1);
            assert(entries@.take(n + 1).drop_last() =~= entries@.take(n));
        }
        assert(entries@.take(entries@.len() as int) =~= entries@);
        map
    }

    /// The fields as entries, in the order of their names.
    pub fn into_entries(self) -> (entries: Vec<(String, JsonValue)>)
        ensures
            entries_view(entries@) == self@,
            in_name_order(entries@),
            forall|i: int|
                #![trigger entries@[i]]
                0 <= i < entries@.len() ==> decreases_to!(self => entries@[i].1),
    {
        proof {
            use_type_invariant(&self);
        }
        self.entries
    }

    /// The first in order of the names.
    pub fn first_key(&self) -> (name: Option<String>)
        ensures
            name is None <==> self@ == Map::<Seq<char>, JsonView>::empty(),
            name matches Some(n) ==> is_first_name(self@, n@) && n@ == first_name(self@),
    {
        proof {
            use_type_invariant(self);
            lemma_entries(self.entries@);
        }
        if self.entries.len() == 0 {
            None
        } else {
            let name = self.entries[0].0.clone();
            proof {
                assert(self@.contains_key(self.entries@[0].0@));
                assert forall|other: Seq<char>| #[trigger] self@.contains_key(other) implies other
                    == name@ || text::text_before(name@, other) by {
                    let i = choose|i: int|
                        #![trigger self.entries@[i]]
                        0 <= i < self.entries@.len() && self.entries@[i].0@ == other;
                    assert(self.entries@[0].0@ == name@);
                }
                first_name_unique(self@, name@);
            }
            Some(name)
        }
    }
}

} // verus!
