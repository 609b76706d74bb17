//! Tags, and the series name that an application name and its tags make up.
//!
//! The name sent to the server is the application name followed by the tags in
//! braces, `name{k1=v1,k2=v2}`, the tags sorted so that the same set of tags
//! always gives the same name.

use crate::text::{
    join, joined, lemma_text_order_is_total, pair_texts, sort_texts, text_order, texts,
};
use vstd::prelude::*;
use vstd::relations::sorted_by;
use vstd::seq_lib::{lemma_multiset_commutative, lemma_sorted_unique, to_multiset_remove};

verus! {

/// A tag as the contracts see it: a key and a value.
pub type Tag = (Seq<char>, Seq<char>);

/// The key that the server keeps for the application name: a tag under it is
/// never sent.
pub open spec fn reserved_key() -> Seq<char> {
    seq!['_', '_', 'n', 'a', 'm', 'e', '_', '_']
}

/// Whether a tag is sent: every tag is, but one under the reserved key.
pub open spec fn is_sent() -> spec_fn(Tag) -> bool {
    |tag: Tag| tag.0 != reserved_key()
}

/// A tag written as `key=value`.
pub open spec fn tag_text() -> spec_fn(Tag) -> Seq<char> {
    |tag: Tag| tag.0 + seq!['='] + tag.1
}

/// The tags that are sent, each written as `key=value`, in the order given.
pub open spec fn tag_texts(tags: Seq<Tag>) -> Seq<Seq<char>> {
    tags.filter(is_sent()).map_values(tag_text())
}

/// The part of a series name between the braces: the `key=value` texts in
/// dictionary order, with commas between them.
pub open spec fn tag_string(tags: Seq<Tag>) -> Seq<char> {
    joined(tag_texts(tags).sort_by(text_order()), seq![','])
}

/// The series name of an application with its tags: the application name
/// alone where no tag is sent, else the name with the tag string in braces.
pub open spec fn merged_name(application_name: Seq<char>, tags: Seq<Tag>) -> Seq<char> {
    let inner = tag_string(tags);
    if inner.len() == 0 {
        application_name
    } else {
        application_name + seq!['{'] + inner + seq!['}']
    }
}

/// No key occurs twice.
pub open spec fn distinct_keys(tags: Seq<Tag>) -> bool {
    forall|i: int, j: int|
        #![trigger tags[i], tags[j]]
        0 <= i < j < tags.len() ==> tags[i].0 != tags[j].0
}

/// Whether some tag has this key.
pub open spec fn has_key(tags: Seq<Tag>, key: Seq<char>) -> bool {
    exists|i: int| 0 <= i < tags.len() && (#[trigger] tags[i]).0 == key
}

/// Where the tag with this key stands, if there is one.
pub open spec fn key_position(tags: Seq<Tag>, key: Seq<char>) -> int {
    choose|i: int| 0 <= i < tags.len() && (#[trigger] tags[i]).0 == key
}

/// The tags after `key` was set to `value`: the tag with that key has the new
/// value and keeps its place, or, if there was none, a new tag stands last.
pub open spec fn with_tag(tags: Seq<Tag>, key: Seq<char>, value: Seq<char>) -> Seq<Tag> {
    if has_key(tags, key) {
        tags.update(key_position(tags, key), (key, value))
    } else {
        tags.push((key, value))
    }
}

/// A mapping from tag keys to tag values, in the order the keys were first set.
pub struct Tags {
    entries: Vec<(String, String)>,
}

impl View for Tags {
    type V = Seq<Tag>;

    closed spec fn view(&self) -> Seq<Tag> {
        pair_texts(self.entries@)
    }
}

impl Tags {
    #[verifier::type_invariant]
    spec fn keys_are_distinct(&self) -> bool {
        distinct_keys(self@)
    }

    /// No tags.
    pub fn new() -> (tags: Tags)
        ensures
            tags@ == Seq::<Tag>::empty(),
    {
        Tags { entries: Vec::new() }
    }

    /// How many tags there are.
    pub fn len(&self) -> (n: usize)
        ensures
            n == self@.len(),
    {
        self.entries.len()
    }

    /// Sets `key` to `value`, and hands back the value that `key` had before.
    pub fn insert(&mut self, key: String, value: String) -> (previous: Option<String>)
        ensures
            final(self)@ == with_tag(old(self)@, key@, value@),
            distinct_keys(final(self)@),
            match previous {
                Some(p) => has_key(old(self)@, key@) && p@ == old(self)@[key_position(
                    old(self)@,
                    key@,
                )].1,
                None => !has_key(old(self)@, key@),
            },
    {
        proof {
            use_type_invariant(&*self);
        }
        let ghost before = self@;
        let mut taken = Tags::new();
        core::mem::swap(self, &mut taken);
        let mut entries = taken.entries;
        let mut i: usize = 0;
        while i < entries.len()
            invariant
                i <= entries.len(),
                pair_texts(entries@) == before,
                before == old(self)@,
                distinct_keys(before),
                forall|k: int| 0 <= k < i ==> #[trigger] before[k].0 != key@,
            decreases entries.len() - i,
        {
            assert(before[i as int] == entries@[i as int]@);
            if entries[i].0 == key {
                let mut entry = (key, value);
                core::mem::swap(&mut entries[i], &mut entry);
                assert(pair_texts(entries@) =~= before.update(i as int, (key@, value@)));
                *self = Tags { entries };
                return Some(entry.1);
            }
            i += 1;
        }
        entries.push((key, value));
        assert(pair_texts(entries@) =~= before.push((key@, value@)));
        *self = Tags { entries };
        None
    }
}

impl Default for Tags {
    fn default() -> (tags: Tags)
        ensures
            tags@ == Seq::<Tag>::empty(),
    {
        Tags::new()
    }
}

/// Makes the series name of an application out of its name and its tags.
///
/// A tag under the reserved key `__name__` is left out. The others are written
/// as `key=value`, sorted by that whole text and joined with commas.
pub fn merge_tags_with_app_name(application_name: String, tags: Tags) -> (name: String)
    ensures
        name@ == merged_name(application_name@, tags@),
{
    let reserved = String::from_str("__name__");
    proof {
        reveal_strlit("__name__");
        reveal_strlit("=");
    }
    let mut tags_vec: Vec<String> = Vec::new();
    let mut i: usize = 0;
    assert(texts(tags_vec@) =~= tag_texts(tags@.take(0))) by {
        reveal(Seq::filter);
    }
    while i < tags.entries.len()
        invariant
            i <= tags.entries.len(),
            reserved@ == reserved_key(),
            "="@ == seq!['='],
            texts(tags_vec@) == tag_texts(tags@.take(i as int)),
        decreases tags.entries.len() - i,
    {
        let ghost done = tags@.take(i as int);
        let ghost tag = tags@[i as int];
        proof {
            assert(tags@.take(i + 1) =~= done.push(tag));
            done.lemma_filter_push(tag, is_sent());
            done.filter(is_sent()).lemma_push_map_commute(tag_text(), tag);
        }
        if !(tags.entries[i].0 == reserved) {
            let mut text = tags.entries[i].0.clone();
            text.append("=");
            text.append(tags.entries[i].1.as_str());
            tags_vec.push(text);
        }
        i += 1;
    }
    assert(tags@.take(i as int) =~= tags@);
    let sorted = sort_texts(tags_vec);
    let tags_str = join(&sorted, ",");
    proof {
        reveal_strlit(",");
        reveal_strlit("{");
        reveal_strlit("}");
        assert(","@ =~= seq![',']);
    }
    if !tags_str.as_str().is_empty() {
        let mut name = application_name;
        name.append("{");
        name.append(tags_str.as_str());
        name.append("}");
        name
    } else {
        application_name
    }
}

proof fn lemma_tag_texts_concat(a: Seq<Tag>, b: Seq<Tag>)
    ensures
        tag_texts(a + b) == tag_texts(a) + tag_texts(b),
{
    Seq::filter_distributes_over_add(a, b, is_sent());
}

proof fn lemma_tag_texts_one(tag: Tag)
    ensures
        tag_texts(seq![tag]) == if tag.0 != reserved_key() {
            seq![tag_text()(tag)]
        } else {
            Seq::<Seq<char>>::empty()
        },
{
    reveal(Seq::filter);
    let none = Seq::<Tag>::empty();
    none.lemma_filter_push(tag, is_sent());
    assert(tag_texts(seq![tag]) =~= if tag.0 != reserved_key() {
        seq![tag_text()(tag)]
    } else {
        Seq::<Seq<char>>::empty()
    });
}

/// Taking one tag out takes its text out, if it had one.
proof fn lemma_tag_texts_remove(tags: Seq<Tag>, i: int)
    requires
        0 <= i < tags.len(),
    ensures
        tag_texts(tags) == tag_texts(tags.take(i)) + tag_texts(seq![tags[i]]) + tag_texts(
            tags.skip(i + 1),
        ),
        tag_texts(tags.remove(i)) == tag_texts(tags.take(i)) + tag_texts(tags.skip(i + 1)),
{
    let front = tags.take(i);
    let back = tags.skip(i + 1);
    assert(tags =~= front + seq![tags[i]] + back);
    lemma_tag_texts_concat(front, seq![tags[i]]);
    lemma_tag_texts_concat(front + seq![tags[i]], back);
    lemma_tag_texts_concat(front, back);
}

proof fn lemma_tag_texts_permutation(a: Seq<Tag>, b: Seq<Tag>)
    requires
        a.to_multiset() == b.to_multiset(),
    ensures
        tag_texts(a).to_multiset() == tag_texts(b).to_multiset(),
    decreases a.len(),
{
    broadcast use vstd::multiset::group_multiset_axioms;

    a.to_multiset_ensures();
    b.to_multiset_ensures();
    if a.len() == 0 {
        assert(a =~= b);
    } else {
        let last = a.len() - 1;
        let tag = a[last];
        assert(b.to_multiset().count(tag) > 0);
        let j = choose|j: int| 0 <= j < b.len() && b[j] == tag;
        to_multiset_remove(a, last);
        to_multiset_remove(b, j);
        lemma_tag_texts_permutation(a.remove(last), b.remove(j));
        lemma_tag_texts_remove(a, last);
        lemma_tag_texts_remove(b, j);
        let one = tag_texts(seq![tag]);
        let (a0, a1) = (tag_texts(a.take(last)), tag_texts(a.skip(last + 1)));
        let (b0, b1) = (tag_texts(b.take(j)), tag_texts(b.skip(j + 1)));
        lemma_multiset_commutative(a0, a1);
        lemma_multiset_commutative(b0, b1);
        lemma_multiset_commutative(a0, one);
        lemma_multiset_commutative(b0, one);
        lemma_multiset_commutative(a0 + one, a1);
        lemma_multiset_commutative(b0 + one, b1);
    }
}

/// The tag string is the `key=value` texts of the tags that are sent, put in
/// order and joined: whatever sorted arrangement of those texts one has, joining
/// it with commas gives the tag string.
pub proof fn lemma_tag_string_joins_the_sorted_texts(tags: Seq<Tag>, sorted: Seq<Seq<char>>)
    requires
        sorted_by(sorted, text_order()),
        sorted.to_multiset() == tag_texts(tags).to_multiset(),
    ensures
        tag_string(tags) == joined(sorted, seq![',']),
{
    lemma_text_order_is_total();
    tag_texts(tags).lemma_sort_by_ensures(text_order());
    lemma_sorted_unique(sorted, tag_texts(tags).sort_by(text_order()), text_order());
}

/// The series name does not depend on the order of the tags: two sequences
/// that hold the same tags, each as often as the other, give the same name.
pub proof fn lemma_merged_name_ignores_order(
    application_name: Seq<char>,
    a: Seq<Tag>,
    b: Seq<Tag>,
)
    requires
        a.to_multiset() == b.to_multiset(),
    ensures
        merged_name(application_name, a) == merged_name(application_name, b),
{
    lemma_text_order_is_total();
    lemma_tag_texts_permutation(a, b);
    tag_texts(a).lemma_sort_by_ensures(text_order());
    tag_texts(b).lemma_sort_by_ensures(text_order());
    lemma_sorted_unique(
        tag_texts(a).sort_by(text_order()),
        tag_texts(b).sort_by(text_order()),
        text_order(),
    );
}

/// Without tags the series name is the application name.
pub proof fn lemma_merged_name_without_tags(application_name: Seq<char>)
    ensures
        merged_name(application_name, Seq::<Tag>::empty()) == application_name,
{
    reveal(Seq::filter);
    lemma_text_order_is_total();
    let none = tag_texts(Seq::<Tag>::empty());
    none.lemma_sort_by_ensures(text_order());
    none.to_multiset_ensures();
    none.sort_by(text_order()).to_multiset_ensures();
}

/// A tag under the reserved key never shows in the series name: the name is
/// what it would be without that tag.
pub proof fn lemma_merged_name_drops_reserved_key(
    application_name: Seq<char>,
    tags: Seq<Tag>,
    i: int,
)
    requires
        0 <= i < tags.len(),
        tags[i].0 == reserved_key(),
    ensures
        merged_name(application_name, tags) == merged_name(application_name, tags.remove(i)),
{
    lemma_tag_texts_remove(tags, i);
    lemma_tag_texts_one(tags[i]);
}

/// With a tag under the reserved key and no other, the series name is the
/// application name.
pub proof fn lemma_merged_name_with_reserved_key_only(
    application_name: Seq<char>,
    value: Seq<char>,
)
    ensures
        merged_name(application_name, seq![(reserved_key(), value)]) == application_name,
{
    let only = seq![(reserved_key(), value)];
    lemma_merged_name_drops_reserved_key(application_name, only, 0);
    assert(only.remove(0) =~= Seq::<Tag>::empty());
    lemma_merged_name_without_tags(application_name);
}

} // verus!
