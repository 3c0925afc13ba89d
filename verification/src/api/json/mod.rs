//! JSON text, written and read with `serde_json`.
//!
//! Strings are escaped and documents are parsed by `serde_json` (see
//! [`backend`]). The rest is done here: arrays and objects are framed, and
//! string members are picked out of a parsed document.

pub mod backend;

use vstd::prelude::*;

use crate::api::json::backend::{
    from_json_text, get_member, get_str, json_document, json_member, json_string_encoding,
    json_string_value, to_json_string,
};
use crate::errors::{result_view, Error, ErrorView};

verus! {

/// The JSON string literal for `s`, or the failure to report where the
/// encoder refuses it.
pub open spec fn encoded(s: Seq<char>) -> Result<Seq<char>, ErrorView> {
    match json_string_encoding(s) {
        Ok(text) => Ok(text),
        Err(reason) => Err(ErrorView::RequestFailed(reason)),
    }
}

/// All the values of `results` if none is a failure, else the first failure.
pub open spec fn collected<T>(results: Seq<Result<T, ErrorView>>) -> Result<Seq<T>, ErrorView>
    decreases results.len(),
{
    if results.len() == 0 {
        Ok(Seq::empty())
    } else {
        match collected(results.drop_last()) {
            Err(e) => Err(e),
            Ok(head) => match results.last() {
                Err(e) => Err(e),
                Ok(item) => Ok(head.push(item)),
            },
        }
    }
}

/// The JSON string literals for all of `items`, or the first failure.
pub open spec fn all_encoded(items: Seq<Seq<char>>) -> Result<Seq<Seq<char>>, ErrorView> {
    collected(Seq::new(items.len(), |i: int| encoded(items[i])))
}

/// `items` with `separator` between each two neighbours.
pub open spec fn joined(items: Seq<Seq<char>>, separator: Seq<char>) -> Seq<char>
    decreases items.len(),
{
    if items.len() == 0 {
        Seq::empty()
    } else if items.len() == 1 {
        items[0]
    } else {
        joined(items.drop_last(), separator) + separator + items.last()
    }
}

/// The JSON array whose elements are the JSON texts `items`.
pub open spec fn array_of(items: Seq<Seq<char>>) -> Seq<char> {
    "["@ + joined(items, ","@) + "]"@
}

/// One member of a JSON object: the encoded key, a colon, the value's text.
pub open spec fn member_of(member: (Seq<char>, Seq<char>)) -> Seq<char> {
    member.0 + ":"@ + member.1
}

/// The JSON object whose members are `members`, each an encoded key and the
/// JSON text of its value, in the order given.
pub open spec fn object_of(members: Seq<(Seq<char>, Seq<char>)>) -> Seq<char> {
    "{"@ + joined(Seq::new(members.len(), |i: int| member_of(members[i])), ","@) + "}"@
}

/// The document that `text` holds, or the failure to report where the
/// parser refuses it.
pub open spec fn parsed(text: Seq<char>) -> Result<serde_json::Value, ErrorView> {
    match json_document(text) {
        Ok(document) => Ok(document),
        Err(reason) => Err(ErrorView::JsonDecodeError(reason)),
    }
}

/// The string member `key` of `value`: present where `value` is an object
/// whose member of that name is a JSON string.
pub open spec fn string_member(value: serde_json::Value, key: Seq<char>) -> Option<Seq<char>> {
    match json_member(value, key) {
        Some(member) => json_string_value(member),
        None => None,
    }
}

/// The views of the string slices in `items`.
pub open spec fn str_texts(items: Seq<&str>) -> Seq<Seq<char>> {
    Seq::new(items.len(), |i: int| items[i]@)
}

/// The views of the strings in `items`.
pub open spec fn texts(items: Seq<String>) -> Seq<Seq<char>> {
    Seq::new(items.len(), |i: int| items[i]@)
}

/// The views of the pairs in `members`.
pub open spec fn text_pairs(members: Seq<(String, String)>) -> Seq<(Seq<char>, Seq<char>)> {
    Seq::new(members.len(), |i: int| (members[i].0@, members[i].1@))
}

/// Adding one item to a non-empty list adds the separator and the item to
/// the joined text.
pub proof fn lemma_joined_push(items: Seq<Seq<char>>, separator: Seq<char>, item: Seq<char>)
    ensures
        joined(items.push(item), separator) == if items.len() == 0 {
            item
        } else {
            joined(items, separator) + separator + item
        },
{
    let extended = items.push(item);
    assert(extended.drop_last() =~= items);
}

/// Collecting stops at the first failure: one more result changes nothing
/// after a failure, and otherwise adds its value or is the failure.
pub proof fn lemma_collected_push<T>(results: Seq<Result<T, ErrorView>>, next: Result<T, ErrorView>)
    ensures
        collected(results.push(next)) == match collected(results) {
            Err(e) => Err::<Seq<T>, ErrorView>(e),
            Ok(head) => match next {
                Err(e) => Err(e),
                Ok(item) => Ok(head.push(item)),
            },
        },
{
    let extended = results.push(next);
    assert(extended.drop_last() =~= results);
}

/// A failure among the first results is the failure of the whole.
pub proof fn lemma_collected_prefix_failure<T>(results: Seq<Result<T, ErrorView>>, n: int)
    requires
        0 <= n <= results.len(),
        collected(results.take(n)) is Err,
    ensures
        collected(results) == collected(results.take(n)),
    decreases results.len() - n,
{
    if n < results.len() {
        lemma_collected_push(results.take(n), results[n]);
        assert(results.take(n).push(results[n]) =~= results.take(n + 1));
        lemma_collected_prefix_failure(results, n + 1);
    } else {
        assert(results.take(n) =~= results);
    }
}

/// The JSON string literal for `s`. A refusal by the encoder is reported as
/// `RequestFailed` with the encoder's words, as no request can be built
/// without the text.
pub fn encode_string(s: &str) -> (r: Result<String, Error>)
    ensures
        result_view(r) == encoded(s@),
{
    match to_json_string(s) {
        Ok(text) => Ok(text),
        Err(reason) => Err(Error::RequestFailed(reason)),
    }
}

/// The JSON string literals for all of `items`, in order. Fails as
/// [`encode_string`] does, on the first item that has no encoding.
pub fn encode_strings(items: &Vec<&str>) -> (r: Result<Vec<String>, Error>)
    ensures
        match all_encoded(str_texts(items@)) {
            Ok(literals) => r matches Ok(out) && texts(out@) == literals,
            Err(e) => r matches Err(x) && x@ == e,
        },
{
    let ghost plain = str_texts(items@);
    let ghost results = Seq::new(items@.len(), |i: int| encoded(items@[i]@));
    assert(results =~= Seq::new(plain.len(), |i: int| encoded(plain[i])));
    let mut out: Vec<String> = Vec::new();
    let mut i: usize = 0;
    assert(texts(out@) =~= Seq::empty());
    while i < items.len()
        invariant
            i <= items.len(),
            results.len() == items.len(),
            forall|k: int| 0 <= k < items.len() ==> #[trigger] results[k] == encoded(items@[k]@),
            plain == str_texts(items@),
            all_encoded(plain) == collected(results),
            collected(results.take(i as int)) == Ok::<Seq<Seq<char>>, ErrorView>(texts(out@)),
        decreases items.len() - i,
    {
        proof {
            lemma_collected_push(results.take(i as int), results[i as int]);
            assert(results.take(i as int).push(results[i as int]) =~= results.take(i + 1));
        }
        match encode_string(items[i]) {
            Ok(text) => {
                assert(texts(out@).push(text@) =~= texts(out@.push(text)));
                out.push(text);
            },
            Err(error) => {
                proof {
                    lemma_collected_prefix_failure(results, i + 1);
                }
                return Err(error);
            },
        }
        i += 1;
    }
    assert(results.take(i as int) =~= results);
    Ok(out)
}

/// `items` with `separator` between each two neighbours.
pub fn join(items: &Vec<String>, separator: &str) -> (r: String)
    ensures
        r@ == joined(texts(items@), separator@),
{
    let ghost all = texts(items@);
    let mut out = String::new();
    let mut i: usize = 0;
    while i < items.len()
        invariant
            i <= items.len(),
            all == texts(items@),
            out@ == joined(all.take(i as int), separator@),
        decreases items.len() - i,
    {
        proof {
            lemma_joined_push(all.take(i as int), separator@, all[i as int]);
            assert(all.take(i as int).push(all[i as int]) =~= all.take(i + 1));
        }
        if i > 0 {
            out.append(separator);
        }
        out.append(items[i].as_str());
        i += 1;
    }
    assert(all.take(i as int) =~= all);
    out
}

/// Frames JSON texts as a JSON array.
pub fn array_text(items: &Vec<String>) -> (r: String)
    ensures
        r@ == array_of(texts(items@)),
{
    let mut out = String::from_str("[");
    let inner = join(items, ",");
    out.append(inner.as_str());
    out.append("]");
    out
}

/// Frames encoded keys and JSON texts of values as a JSON object.
pub fn object_text(members: &Vec<(String, String)>) -> (r: String)
    ensures
        r@ == object_of(text_pairs(members@)),
{
    let ghost pairs = text_pairs(members@);
    let mut parts: Vec<String> = Vec::new();
    let mut i: usize = 0;
    while i < members.len()
        invariant
            i <= members.len(),
            pairs == text_pairs(members@),
            parts@.len() == i,
            forall|k: int| 0 <= k < i ==> (#[trigger] parts@[k])@ == member_of(pairs[k]),
        decreases members.len() - i,
    {
        let mut part = members[i].0.clone();
        part.append(":");
        part.append(members[i].1.as_str());
        parts.push(part);
        i += 1;
    }
    assert(texts(parts@) =~= Seq::new(pairs.len(), |k: int| member_of(pairs[k])));
    let mut out = String::from_str("{");
    let inner = join(&parts, ",");
    out.append(inner.as_str());
    out.append("}");
    out
}

/// Parses `text` as a JSON document. A refusal by the parser is reported as
/// `JsonDecodeError` with the parser's words.
pub fn parse(text: &str) -> (r: Result<serde_json::Value, Error>)
    ensures
        match parsed(text@) {
            Ok(document) => r matches Ok(d) && d == document,
            Err(e) => r matches Err(x) && x@ == e,
        },
{
    match from_json_text(text) {
        Ok(document) => Ok(document),
        Err(reason) => Err(Error::JsonDecodeError(reason)),
    }
}

/// The text of the member `key` of `value`, where `value` is an object whose
/// member of that name is a JSON string.
pub fn member_string(value: &serde_json::Value, key: &str) -> (r: Option<String>)
    ensures
        r.deep_view() == string_member(*value, key@),
{
    match get_member(value, key) {
        Some(member) => match get_str(member) {
            Some(text) => Some(String::from_str(text)),
            None => None,
        },
        None => None,
    }
}

} // verus!
