//! The body of a request: named values of a closed set of shapes, and the
//! JSON text they are sent as.

use vstd::prelude::*;

use crate::api::json::{
    all_encoded, array_of, array_text, collected, encode_string, encode_strings, encoded,
    lemma_collected_prefix_failure, lemma_collected_push, object_of, object_text, str_texts,
    text_pairs,
};
use crate::errors::{result_view, Error, ErrorView};

verus! {

/// One value of a payload. The set of shapes is closed: a string, a boolean
/// or a list of strings.
#[derive(Debug, PartialEq, Eq)]
pub enum PayloadValue<'a> {
    String(&'a str),
    Bool(&'a bool),
    ListOfString(Vec<&'a str>),
}

pub enum PayloadValueView {
    String(Seq<char>),
    Bool(bool),
    ListOfString(Seq<Seq<char>>),
}

impl<'a> View for PayloadValue<'a> {
    type V = PayloadValueView;

    open spec fn view(&self) -> PayloadValueView {
        match self {
            PayloadValue::String(val) => PayloadValueView::String(val@),
            PayloadValue::Bool(val) => PayloadValueView::Bool(**val),
            PayloadValue::ListOfString(val) => PayloadValueView::ListOfString(str_texts(val@)),
        }
    }
}

impl PayloadValueView {
    /// The JSON text of the value: a string literal, `true` or `false`, or
    /// an array of string literals.
    pub open spec fn json_text(self) -> Result<Seq<char>, ErrorView> {
        match self {
            PayloadValueView::String(val) => encoded(val),
            PayloadValueView::Bool(val) => Ok(
                if val {
                    "true"@
                } else {
                    "false"@
                },
            ),
            PayloadValueView::ListOfString(val) => match all_encoded(val) {
                Ok(literals) => Ok(array_of(literals)),
                Err(e) => Err(e),
            },
        }
    }
}

impl<'a> PayloadValue<'a> {
    /// Writes the value as JSON text. The shape decides the form, never the
    /// content: a string that reads `true` is still sent as a string.
    pub fn serialize(&self) -> (r: Result<String, Error>)
        ensures
            result_view(r) == self@.json_text(),
    {
        match self {
            PayloadValue::String(val) => encode_string(val),
            PayloadValue::Bool(val) => {
                if **val {
                    Ok(String::from_str("true"))
                } else {
                    Ok(String::from_str("false"))
                }
            },
            PayloadValue::ListOfString(val) => {
                match encode_strings(val) {
                    Ok(literals) => Ok(array_text(&literals)),
                    Err(e) => Err(e),
                }
            },
        }
    }
}

/// A payload as a mathematical value: field names and values, in the order
/// in which the names were first set.
pub type PayloadView = Seq<(Seq<char>, PayloadValueView)>;

/// Whether `entries` holds a value under `key`.
pub open spec fn has_key(entries: PayloadView, key: Seq<char>) -> bool {
    exists|i: int| 0 <= i < entries.len() && (#[trigger] entries[i]).0 == key
}

/// Where `entries` holds `key`. Meaningful where it does; the place is one
/// only where no name occurs twice.
pub open spec fn index_of(entries: PayloadView, key: Seq<char>) -> int {
    choose|i: int| 0 <= i < entries.len() && (#[trigger] entries[i]).0 == key
}

/// No field name occurs twice.
pub open spec fn distinct_keys(entries: PayloadView) -> bool {
    forall|i: int, j: int|
        0 <= i < j < entries.len() ==> (#[trigger] entries[i]).0 != (#[trigger] entries[j]).0
}

/// The value that `entries` holds under `key`.
pub open spec fn lookup(entries: PayloadView, key: Seq<char>) -> Option<PayloadValueView> {
    if has_key(entries, key) {
        Some(entries[index_of(entries, key)].1)
    } else {
        None
    }
}

/// `entries` after `key` is set to `value`: a known name keeps its place and
/// gets the new value, a new one goes to the end.
pub open spec fn with_entry(entries: PayloadView, key: Seq<char>, value: PayloadValueView)
    -> PayloadView {
    if has_key(entries, key) {
        entries.update(index_of(entries, key), (key, value))
    } else {
        entries.push((key, value))
    }
}

/// One member of the JSON object: the literal of the name and the text of
/// the value.
pub open spec fn encoded_member(entry: (Seq<char>, PayloadValueView)) -> Result<
    (Seq<char>, Seq<char>),
    ErrorView,
> {
    match encoded(entry.0) {
        Err(e) => Err(e),
        Ok(key) => match entry.1.json_text() {
            Err(e) => Err(e),
            Ok(value) => Ok((key, value)),
        },
    }
}

/// The members of the JSON object, one for each entry.
pub open spec fn encoded_members(entries: PayloadView) -> Seq<
    Result<(Seq<char>, Seq<char>), ErrorView>,
> {
    Seq::new(entries.len(), |i: int| encoded_member(entries[i]))
}

/// The JSON object that holds exactly the entries, in their order: an
/// entry that is not there is not written, as nothing stands for it.
pub open spec fn payload_text(entries: PayloadView) -> Result<Seq<char>, ErrorView> {
    match collected(encoded_members(entries)) {
        Ok(members) => Ok(object_of(members)),
        Err(e) => Err(e),
    }
}

/// Where no name occurs twice, a field's value is found under its name.
pub proof fn lemma_lookup_at(entries: PayloadView, at: int)
    requires
        distinct_keys(entries),
        0 <= at < entries.len(),
    ensures
        lookup(entries, entries[at].0) == Some(entries[at].1),
{
}

/// Setting a name keeps the names distinct, and afterwards the name holds
/// the value.
pub proof fn lemma_with_entry(entries: PayloadView, key: Seq<char>, value: PayloadValueView)
    requires
        distinct_keys(entries),
    ensures
        distinct_keys(with_entry(entries, key, value)),
        lookup(with_entry(entries, key, value), key) == Some(value),
        with_entry(entries, key, value).len() == if has_key(entries, key) {
            entries.len()
        } else {
            entries.len() + 1
        },
{
    let after = with_entry(entries, key, value);
    let at = if has_key(entries, key) {
        index_of(entries, key)
    } else {
        entries.len() as int
    };
    assert(after[at].0 == key);
}

/// Setting a name leaves what the other names hold.
pub proof fn lemma_with_entry_others(
    entries: PayloadView,
    key: Seq<char>,
    value: PayloadValueView,
    other: Seq<char>,
)
    requires
        distinct_keys(entries),
        other != key,
    ensures
        lookup(with_entry(entries, key, value), other) == lookup(entries, other),
{
    let after = with_entry(entries, key, value);
    lemma_with_entry(entries, key, value);
    if has_key(entries, other) {
        let at = index_of(entries, other);
        assert(after[at] == entries[at]);
    }
}

/// The payload of one request: a mapping from field names to values. No
/// name occurs twice; the names keep the order in which they were first
/// set, and that is the order in which they are sent.
#[derive(Debug, PartialEq, Eq)]
pub struct Payload<'a> {
    entries: Vec<(String, PayloadValue<'a>)>,
}

impl<'a> View for Payload<'a> {
    type V = PayloadView;

    closed spec fn view(&self) -> PayloadView {
        Seq::new(self.entries@.len(), |i: int| (self.entries@[i].0@, self.entries@[i].1@))
    }
}

impl<'a> Payload<'a> {
    /// The invariant of the type: no field name occurs twice.
    pub open spec fn wf(&self) -> bool {
        distinct_keys(self@)
    }

    /// A payload without fields.
    pub fn new() -> (payload: Self)
        ensures
            payload.wf(),
            payload@ == Seq::<(Seq<char>, PayloadValueView)>::empty(),
    {
        Payload { entries: Vec::new() }
    }

    /// The number of fields.
    pub fn len(&self) -> (n: usize)
        ensures
            n == self@.len(),
    {
        self.entries.len()
    }

    /// Sets the field `key` to `value` and returns what it held before.
    pub fn insert(&mut self, key: String, value: PayloadValue<'a>) -> (previous: Option<
        PayloadValue<'a>,
    >)
        requires
            old(self).wf(),
        ensures
            final(self).wf(),
            final(self)@ == with_entry(old(self)@, key@, value@),
            match previous {
                Some(held) => lookup(old(self)@, key@) == Some(held@),
                None => lookup(old(self)@, key@) is None,
            },
    {
        proof {
            lemma_with_entry(self@, key@, value@);
        }
        let ghost before = self@;
        let mut i: usize = 0;
        while i < self.entries.len()
            invariant
                i <= self.entries@.len(),
                self@ == before,
                before == old(self)@,
                distinct_keys(before),
                forall|k: int| 0 <= k < i ==> (#[trigger] before[k]).0 != key@,
            decreases self.entries@.len() - i,
        {
            if self.entries[i].0 == key {
                assert(before[i as int].0 == key@);
                let held = self.entries.remove(i);
                self.entries.insert(i, (key, value));
                assert(self@ =~= before.update(i as int, (key@, value@)));
                return Some(held.1);
            }
            i += 1;
        }
        self.entries.push((key, value));
        assert(self@ =~= before.push((key@, value@)));
        None
    }

    /// The value of the field `key`.
    pub fn get(&self, key: &str) -> (r: Option<&PayloadValue<'a>>)
        requires
            self.wf(),
        ensures
            match r {
                Some(value) => lookup(self@, key@) == Some(value@),
                None => lookup(self@, key@) is None,
            },
    {
        let name = String::from_str(key);
        let mut i: usize = 0;
        while i < self.entries.len()
            invariant
                i <= self.entries@.len(),
                name@ == key@,
                distinct_keys(self@),
                forall|k: int| 0 <= k < i ==> (#[trigger] self@[k]).0 != key@,
            decreases self.entries@.len() - i,
        {
            if self.entries[i].0 == name {
                let ghost at = index_of(self@, key@);
                assert(at == i) by {
                    if at != i {
                        assert(self@[at].0 == self@[i as int].0);
                    }
                }
                return Some(&self.entries[i].1);
            }
            i += 1;
        }
        None
    }

    /// Writes the payload as one JSON object, the fields in their order.
    /// Where the encoder refuses a name or a value, its refusal is the
    /// result.
    pub fn serialize(&self) -> (r: Result<String, Error>)
        ensures
            result_view(r) == payload_text(self@),
    {
        let ghost results = encoded_members(self@);
        let mut members: Vec<(String, String)> = Vec::new();
        let mut i: usize = 0;
        assert(text_pairs(members@) =~= Seq::empty());
        while i < self.entries.len()
            invariant
                i <= self.entries@.len(),
                results == encoded_members(self@),
                collected(results.take(i as int)) == Ok::<Seq<(Seq<char>, Seq<char>)>, ErrorView>(
                    text_pairs(members@),
                ),
            decreases self.entries@.len() - i,
        {
            proof {
                lemma_collected_push(results.take(i as int), results[i as int]);
                assert(results.take(i as int).push(results[i as int]) =~= results.take(i + 1));
            }
            let key = match encode_string(self.entries[i].0.as_str()) {
                Ok(key) => key,
                Err(e) => {
                    proof {
                        lemma_collected_prefix_failure(results, i + 1);
                    }
                    return Err(e);
                },
            };
            let value = match self.entries[i].1.serialize() {
                Ok(value) => value,
                Err(e) => {
                    proof {
                        lemma_collected_prefix_failure(results, i + 1);
                    }
                    return Err(e);
                },
            };
            assert(text_pairs(members@).push((key@, value@)) =~= text_pairs(
                members@.push((key, value)),
            ));
            members.push((key, value));
            i += 1;
        }
        assert(results.take(i as int) =~= results);
        Ok(object_text(&members))
    }
}

} // verus!
