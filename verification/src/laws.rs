//! Laws relating the registry operations, proved over the spec functions
//! that the operations' contracts use.
//!
//! The operations describe their post-states with `push` (registration) and
//! `update` at `index_of_key` (ownership transfer). The lemmas here say what
//! those post-states mean for later lookups: a registered key is found with
//! the owner it was registered with, a transfer changes exactly the one
//! owner, and no operation disturbs the bindings of other keys.

use vstd::prelude::*;

verus! {

use crate::registry::KeyEntry;
use crate::registry::Pubkey;
use crate::registry::has_key;
use crate::registry::index_of_key;
use crate::registry::keys_unique;
use crate::registry::owner_of;

/// When keys are unique, `index_of_key` is the one index whose entry binds
/// the key: any index seen to match is it.
pub proof fn lemma_index_of_key_is_unique(entries: Seq<KeyEntry>, key: Seq<char>, i: int)
    requires
        keys_unique(entries),
        0 <= i < entries.len(),
        entries[i].key@ == key,
    ensures
        index_of_key(entries, key) == i,
{
    let w = index_of_key(entries, key);
    assert(has_key(entries, key));
    assert(entries[w].key@ == key);
    if w < i {
        assert(entries[w].key@ != entries[i].key@);
    } else if i < w {
        assert(entries[i].key@ != entries[w].key@);
    }
}

/// Appending an entry makes its key present. Since `register_key` fails on
/// a present key and changes nothing, registering the same key twice gets
/// `KeyAlreadyExists` the second time, the entries left as the first call
/// made them.
pub proof fn lemma_reregistration_is_rejected(entries: Seq<KeyEntry>, entry: KeyEntry)
    ensures
        has_key(entries.push(entry), entry.key@),
{
    assert(entries.push(entry)[entries.len() as int] == entry);
}

/// Registering a fresh key keeps keys unique and binds the key to exactly
/// the owner given: the owner a later lookup returns.
pub proof fn lemma_registered_key_is_owned(entries: Seq<KeyEntry>, entry: KeyEntry)
    requires
        keys_unique(entries),
        !has_key(entries, entry.key@),
    ensures
        keys_unique(entries.push(entry)),
        owner_of(entries.push(entry), entry.key@) == entry.owner,
{
    let post = entries.push(entry);
    let n = entries.len() as int;
    assert forall|i: int, j: int| 0 <= i < j < post.len() implies post[i].key@ != post[j].key@ by {
        if j == n {
            assert(post[i] == entries[i]);
            if post[i].key@ == entry.key@ {
                assert(has_key(entries, entry.key@));
            }
        }
    }
    assert(post[n] == entry);
    lemma_index_of_key_is_unique(post, entry.key@, n);
}

/// Registering one key does not disturb any other key: a different key is
/// present afterwards exactly when it was before, with the same owner.
pub proof fn lemma_registration_preserves_other_keys(
    entries: Seq<KeyEntry>,
    entry: KeyEntry,
    other: Seq<char>,
)
    requires
        other != entry.key@,
    ensures
        has_key(entries.push(entry), other) == has_key(entries, other),
        keys_unique(entries) && has_key(entries, other) ==> owner_of(entries.push(entry), other)
            == owner_of(entries, other),
{
    let post = entries.push(entry);
    let n = entries.len() as int;
    if has_key(entries, other) {
        let i = index_of_key(entries, other);
        assert(post[i] == entries[i]);
        assert(has_key(post, other));
        if keys_unique(entries) {
            let w = index_of_key(post, other);
            assert(post[w].key@ == other);
            assert(w != n);
            assert(post[w] == entries[w]);
            lemma_index_of_key_is_unique(entries, other, w);
        }
    } else {
        if has_key(post, other) {
            let w = index_of_key(post, other);
            assert(post[w].key@ == other);
            assert(w != n);
            assert(post[w] == entries[w]);
            assert(has_key(entries, other));
        }
    }
}

/// A transfer gives the key exactly the new owner, and keeps keys unique:
/// this is what a lookup after a successful `update_key_owner` sees.
pub proof fn lemma_transfer_sets_owner(entries: Seq<KeyEntry>, key: Seq<char>, new_owner: Pubkey)
    requires
        keys_unique(entries),
        has_key(entries, key),
    ensures
        keys_unique(
            entries.update(
                index_of_key(entries, key),
                KeyEntry { key: entries[index_of_key(entries, key)].key, owner: new_owner },
            ),
        ),
        owner_of(
            entries.update(
                index_of_key(entries, key),
                KeyEntry { key: entries[index_of_key(entries, key)].key, owner: new_owner },
            ),
            key,
        ) == new_owner,
{
    let i = index_of_key(entries, key);
    let post = entries.update(i, KeyEntry { key: entries[i].key, owner: new_owner });
    assert(entries[i].key@ == key);
    assert(forall|j: int| 0 <= j < post.len() ==> post[j].key@ == entries[j].key@);
    assert(post[i].key@ == key);
    lemma_index_of_key_is_unique(post, key, i);
}

/// A transfer of one key does not disturb any other key: a different key
/// keeps both its presence and its owner.
pub proof fn lemma_transfer_preserves_other_keys(
    entries: Seq<KeyEntry>,
    key: Seq<char>,
    new_owner: Pubkey,
    other: Seq<char>,
)
    requires
        keys_unique(entries),
        has_key(entries, key),
        other != key,
    ensures
        has_key(
            entries.update(
                index_of_key(entries, key),
                KeyEntry { key: entries[index_of_key(entries, key)].key, owner: new_owner },
            ),
            other,
        ) == has_key(entries, other),
        has_key(entries, other) ==> owner_of(
            entries.update(
                index_of_key(entries, key),
                KeyEntry { key: entries[index_of_key(entries, key)].key, owner: new_owner },
            ),
            other,
        ) == owner_of(entries, other),
{
    let i = index_of_key(entries, key);
    let post = entries.update(i, KeyEntry { key: entries[i].key, owner: new_owner });
    assert(entries[i].key@ == key);
    assert(forall|j: int| 0 <= j < post.len() ==> post[j].key@ == entries[j].key@);
    if has_key(entries, other) {
        let w = index_of_key(entries, other);
        assert(post[w].key@ == other);
        assert(has_key(post, other));
        assert forall|a: int, b: int| 0 <= a < b < post.len() implies post[a].key@
            != post[b].key@ by {
            assert(entries[a].key@ != entries[b].key@);
        }
        lemma_index_of_key_is_unique(post, other, w);
        assert(w != i);
        assert(post[w] == entries[w]);
    } else {
        if has_key(post, other) {
            let w = index_of_key(post, other);
            assert(entries[w].key@ == other);
            assert(has_key(entries, other));
        }
    }
}

} // verus!
