//! Key and value pairs attached to buckets, objects and users.
use vstd::prelude::*;
use vstd::string::*;

use crate::text;

verus! {

/// A key and a value.
#[derive(Debug)]
pub struct Tag {
    pub key: String,
    pub value: String,
}

impl View for Tag {
    type V = (Seq<char>, Seq<char>);

    open spec fn view(&self) -> (Seq<char>, Seq<char>) {
        (self.key@, self.value@)
    }
}

impl Tag {
    pub fn new(key: &str, value: &str) -> (r: Tag)
        ensures
            r@ == (key@, value@),
    {
        Tag { key: String::from_str(key), value: String::from_str(value) }
    }
}

impl Clone for Tag {
    fn clone(&self) -> (r: Self)
        ensures
            r == *self,
    {
        Tag { key: self.key.clone(), value: self.value.clone() }
    }
}

/// The value of the first tag with the key `key`.
pub open spec fn tag_value(tags: Seq<Tag>, key: Seq<char>) -> Option<Seq<char>>
    decreases tags.len(),
{
    if tags.len() == 0 {
        None
    } else if tags[0].key@ == key {
        Some(tags[0].value@)
    } else {
        tag_value(tags.skip(1), key)
    }
}

/// Whether one of the tags has the key `key` and the value `value`.
pub open spec fn has_tag(tags: Seq<Tag>, key: Seq<char>, value: Seq<char>) -> bool {
    exists|i: int| 0 <= i < tags.len() && (#[trigger] tags[i])@ == (key, value)
}

/// The value of the first tag with the key `key`.
pub fn find_tag<'a>(tags: &'a [Tag], key: &str) -> (r: Option<&'a str>)
    ensures
        match r {
            Some(value) => tag_value(tags@, key@) == Some(value@),
            None => tag_value(tags@, key@) is None,
        },
{
    let mut i: usize = 0;
    assert(tags@.skip(0) =~= tags@);
    while i < tags.len()
        invariant
            i <= tags.len(),
            tag_value(tags@, key@) == tag_value(tags@.skip(i as int), key@),
        decreases tags.len() - i,
    {
        assert(tags@.skip(i as int).skip(1) =~= tags@.skip(i + 1));
        if text::same(tags[i].key.as_str(), key) {
            return Some(tags[i].value.as_str());
        }
        i += 1;
    }
    None
}

/// Whether one of the tags has the key `key` and the value `value`.
pub fn contains_tag(tags: &[Tag], key: &str, value: &str) -> (r: bool)
    ensures
        r == has_tag(tags@, key@, value@),
{
    let mut i: usize = 0;
    while i < tags.len()
        invariant
            i <= tags.len(),
            forall|j: int| 0 <= j < i ==> (#[trigger] tags@[j])@ != (key@, value@),
        decreases tags.len() - i,
    {
        if text::same(tags[i].key.as_str(), key) && text::same(tags[i].value.as_str(), value) {
            assert(tags@[i as int]@ == (key@, value@));
            return true;
        }
        i += 1;
    }
    false
}

/// `tag_value` finds a tag exactly where there is one with the key, and the
/// value it gives belongs to such a tag.
pub proof fn tag_value_is_a_tag(tags: Seq<Tag>, key: Seq<char>)
    ensures
        tag_value(tags, key) is Some <==> exists|i: int|
            0 <= i < tags.len() && (#[trigger] tags[i]).key@ == key,
        tag_value(tags, key) matches Some(value) ==> has_tag(tags, key, value),
    decreases tags.len(),
{
    if tags.len() > 0 {
        let rest = tags.skip(1);
        tag_value_is_a_tag(rest, key);
        if tags[0].key@ == key {
            assert(tags[0]@ == (key, tags[0].value@));
        } else {
            if tag_value(rest, key) is Some {
                let value = tag_value(rest, key)->0;
                let i = choose|i: int| 0 <= i < rest.len() && (#[trigger] rest[i])@ == (key, value);
                assert(tags[i + 1]@ == (key, value));
                assert(tags[i + 1].key@ == key);
            }
            if exists|i: int| 0 <= i < tags.len() && (#[trigger] tags[i]).key@ == key {
                let i = choose|i: int| 0 <= i < tags.len() && (#[trigger] tags[i]).key@ == key;
                assert(rest[i - 1].key@ == key);
            }
        }
    }
}

/// `tag_value` gives the value of the first tag with the key, whatever stands behind it.
pub proof fn first_tag_is_found(tags: Seq<Tag>, key: Seq<char>)
    ensures
        forall|i: int|
            0 <= i < tags.len() && (#[trigger] tags[i]).key@ == key && (forall|n: int|
                0 <= n < i ==> (#[trigger] tags[n]).key@ != key) ==> tag_value(tags, key) == Some(
                tags[i].value@,
            ),
        (forall|n: int| 0 <= n < tags.len() ==> (#[trigger] tags[n]).key@ != key) ==> tag_value(
            tags,
            key,
        ) is None,
    decreases tags.len(),
{
    tag_value_is_a_tag(tags, key);
    if tags.len() > 0 && tags[0].key@ != key {
        let rest = tags.skip(1);
        first_tag_is_found(rest, key);
        assert forall|i: int|
            0 <= i < tags.len() && (#[trigger] tags[i]).key@ == key && (forall|n: int|
                0 <= n < i ==> (#[trigger] tags[n]).key@ != key) implies tag_value(tags, key)
            == Some(tags[i].value@) by {
            assert(rest[i - 1] == tags[i]);
            assert forall|n: int| 0 <= n < i - 1 implies (#[trigger] rest[n]).key@ != key by {
                assert(rest[n] == tags[n + 1]);
            }
        }
    }
}

/// A tag is contained exactly where one has both the key and the value.
pub proof fn contained_tag_has_the_key_and_the_value(
    tags: Seq<Tag>,
    key: Seq<char>,
    value: Seq<char>,
)
    ensures
        has_tag(tags, key, value) <==> exists|i: int|
            0 <= i < tags.len() && (#[trigger] tags[i]).key@ == key && tags[i].value@ == value,
{
    if exists|i: int|
        0 <= i < tags.len() && (#[trigger] tags[i]).key@ == key && tags[i].value@ == value {
        let i = choose|i: int|
            0 <= i < tags.len() && (#[trigger] tags[i]).key@ == key && tags[i].value@ == value;
        assert(tags[i]@ == (key, value));
    }
}

} // verus!
