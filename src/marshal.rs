use vstd::prelude::*;
use vstd::utf8::{decode_utf8, valid_utf8};

use crate::blocker::strings_view;
use crate::errors::RustException;

verus! {

/// Relies on `std::str::from_utf8`: it succeeds exactly on valid UTF-8, and
/// the text then holds the characters the bytes encode.
#[verifier::external_body]
fn str_from_utf8(bytes: &[u8]) -> (r: Result<&str, core::str::Utf8Error>)
    ensures
        r is Ok <==> valid_utf8(bytes@),
        r is Ok ==> r->Ok_0@ == decode_utf8(bytes@),
{
    core::str::from_utf8(bytes)
}

/// The text one element of a host list stands for, if it has one.
pub open spec fn entity_text(item: Option<Vec<u8>>) -> Option<Seq<char>> {
    match item {
        Some(b) => if valid_utf8(b@) {
            Some(decode_utf8(b@))
        } else {
            None
        },
        None => None,
    }
}

/// The texts of the decodable elements of a host list, in list order.
pub open spec fn decoded_rules(items: Seq<Option<Vec<u8>>>) -> Seq<Seq<char>>
    decreases items.len(),
{
    if items.len() == 0 {
        Seq::empty()
    } else {
        let prev = decoded_rules(items.drop_last());
        match entity_text(items.last()) {
            Some(t) => prev.push(t),
            None => prev,
        }
    }
}

/// Decodes the bytes of a host string as text.
pub fn decode_text(bytes: &[u8]) -> (r: Result<String, RustException>)
    ensures
        r is Ok <==> valid_utf8(bytes@),
        r is Ok ==> r->Ok_0@ == decode_utf8(bytes@),
        r is Err ==> r->Err_0 is ExtractParameter,
{
    match str_from_utf8(bytes) {
        Ok(s) => Ok(s.to_string()),
        Err(e) => Err(RustException::ExtractParameter(e)),
    }
}

/// Decodes one element of a host list; an absent element is an error.
pub fn extract_entity(item: &Option<Vec<u8>>) -> (r: Result<String, RustException>)
    ensures
        r is Ok <==> entity_text(*item) is Some,
        r is Ok ==> r->Ok_0@ == entity_text(*item)->Some_0,
        item is None ==> r is Err && r->Err_0 is ParseJavaObject,
        item is Some && r is Err ==> r->Err_0 is ExtractParameter,
{
    match item {
        Some(bytes) => decode_text(bytes.as_slice()),
        None => Err(RustException::ParseJavaObject("parsed rule is none, skipped".to_string())),
    }
}

/// Decodes every element of a host list, skipping those that fail: the
/// first result holds the decoded texts in list order, the second the
/// failures of the skipped elements.
pub fn extract_list_str(items: &Vec<Option<Vec<u8>>>) -> (r: (Vec<String>, Vec<RustException>))
    ensures
        strings_view(r.0@) == decoded_rules(items@),
        r.0.len() + r.1.len() == items.len(),
{
    let mut list_data: Vec<String> = Vec::new();
    let mut skipped: Vec<RustException> = Vec::new();
    let mut index: usize = 0;
    while index < items.len()
        invariant
            index <= items.len(),
            strings_view(list_data@) == decoded_rules(items@.take(index as int)),
            list_data.len() + skipped.len() == index,
        decreases items.len() - index,
    {
        proof {
            assert(items@.take(index + 1).drop_last() =~= items@.take(index as int));
        }
        match extract_entity(&items[index]) {
            Ok(data) => {
                list_data.push(data);
                assert(strings_view(list_data@) =~= decoded_rules(items@.take(index + 1)));
            },
            Err(err) => {
                skipped.push(err);
            },
        }
        index += 1;
    }
    assert(items@.take(items.len() as int) =~= items@);
    (list_data, skipped)
}

/// An element that cannot be decoded is dropped, and only it: the texts
/// decoded from the list are those decoded from the list without it.
pub proof fn lemma_undecodable_dropped(items: Seq<Option<Vec<u8>>>, k: int)
    requires
        0 <= k < items.len(),
        entity_text(items[k]) is None,
    ensures
        decoded_rules(items) == decoded_rules(items.remove(k)),
    decreases items.len(),
{
    if k == items.len() - 1 {
        assert(items.remove(k) =~= items.drop_last());
    } else {
        lemma_undecodable_dropped(items.drop_last(), k);
        assert(items.remove(k).drop_last() =~= items.drop_last().remove(k));
        assert(items.remove(k).last() == items.last());
    }
}

/// A list whose elements all decode yields every one of their texts, in
/// order.
pub proof fn lemma_all_decodable_kept(items: Seq<Option<Vec<u8>>>)
    requires
        forall|i: int| 0 <= i < items.len() ==> (#[trigger] entity_text(items[i])) is Some,
    ensures
        decoded_rules(items).len() == items.len(),
        forall|i: int| 0 <= i < items.len() ==> decoded_rules(items)[i] == (#[trigger] entity_text(items[i]))->Some_0,
    decreases items.len(),
{
    if items.len() > 0 {
        let prev = items.drop_last();
        assert forall|i: int| 0 <= i < prev.len() implies (#[trigger] entity_text(prev[i])) is Some by {
            assert(prev[i] == items[i]);
        }
        lemma_all_decodable_kept(prev);
        assert(entity_text(items[items.len() - 1]) is Some);
        assert forall|i: int| 0 <= i < items.len() implies decoded_rules(items)[i] == (#[trigger] entity_text(items[i]))->Some_0 by {
            if i < items.len() - 1 {
                assert(prev[i] == items[i]);
            }
        }
    }
}

} // verus!
