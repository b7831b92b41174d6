//! The label table: a prefix-searchable name-to-address mapping, populated
//! during pass 1 and queried during resolution. The table itself is
//! `radix_trie::Trie`; its behaviour is assumed here, as a map from label
//! names to addresses, and everything built on it is verified against that.

use vstd::prelude::*;
use radix_trie::Trie;

verus! {

#[verifier::external_type_specification]
#[verifier::external_body]
#[verifier::reject_recursive_types(K)]
#[verifier::reject_recursive_types(V)]
pub struct ExTrie<K, V>(Trie<K, V>);

/// What a label table holds: the mapping from label names to addresses.
/// The label table's concrete shape: names are byte strings, addresses are
/// byte offsets.
pub type LabelTrie = Trie<Vec<u8>, usize>;

pub uninterp spec fn trie_contents(t: LabelTrie) -> Map<Seq<u8>, usize>;

/// Relies on radix_trie::Trie::new: a fresh trie holds no keys.
#[verifier::external_body]
pub fn trie_new() -> (r: LabelTrie)
    ensures
        trie_contents(r) =~= Map::empty(),
{
    Trie::new()
}

/// Relies on radix_trie::Trie::insert: the key now maps to the value, any
/// earlier value for it is replaced, and every other key is untouched.
#[verifier::external_body]
pub fn trie_insert(t: &mut LabelTrie, key: Vec<u8>, value: usize)
    ensures
        trie_contents(*final(t)) == trie_contents(*old(t)).insert(key@, value),
{
    t.insert(key, value);
}

/// Relies on radix_trie::Trie::get: the value stored for the key, if any.
#[verifier::external_body]
pub fn trie_get(t: &LabelTrie, key: &Vec<u8>) -> (r: Option<usize>)
    ensures
        r == if trie_contents(*t).contains_key(key@) {
            Option::Some(trie_contents(*t)[key@])
        } else {
            Option::None::<usize>
        },
{
    t.get(key).copied()
}

} // verus!
