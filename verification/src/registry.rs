//! The registry record, its invariant, and the four operations on it.

use vstd::prelude::*;

verus! {

/// An opaque identity (a 32-byte public key), held as four 64-bit words.
/// The registry never inspects an identity beyond comparing it for equality.
#[derive(Clone, Copy, PartialEq, Eq, Structural, Debug, Hash)]
pub struct Pubkey {
    pub w0: u64,
    pub w1: u64,
    pub w2: u64,
    pub w3: u64,
}

/// One binding of a string key to its current owner.
#[derive(Clone, Debug)]
pub struct KeyEntry {
    /// The key: an identifier string, fixed once the entry is created.
    pub key: String,
    /// The identity that currently owns the key.
    pub owner: Pubkey,
}

/// The reasons an operation can fail. Every failure leaves the registry
/// exactly as it was.
#[derive(Clone, Copy, PartialEq, Eq, Structural, Debug)]
pub enum ErrorCode {
    /// `register_key` was given a key that is already bound.
    KeyAlreadyExists,
    /// The named key is not bound in the registry.
    KeyNotFound,
    /// The caller of `update_key_owner` is not the registry's authority.
    Unauthorized,
}

/// The registry: the authority chosen at initialization plus the ordered
/// list of key/owner bindings, insertion order preserved.
pub struct Registry {
    /// The one identity allowed to transfer ownership of a key. Set by
    /// `initialize` and never changed by any operation.
    pub authority: Pubkey,
    /// The key/owner bindings, in insertion order. No two entries share a
    /// key (`Registry::wf`).
    pub entries: Vec<KeyEntry>,
}

/// True when some entry of `entries` binds `key`.
pub open spec fn has_key(entries: Seq<KeyEntry>, key: Seq<char>) -> bool {
    exists|i: int| 0 <= i < entries.len() && entries[i].key@ == key
}

/// No two entries of `entries` bind the same key.
pub open spec fn keys_unique(entries: Seq<KeyEntry>) -> bool {
    forall|i: int, j: int| 0 <= i < j < entries.len() ==> entries[i].key@ != entries[j].key@
}

/// The index of the entry binding `key`. Meaningful only when `has_key`
/// holds and keys are unique, which every operation maintains.
pub open spec fn index_of_key(entries: Seq<KeyEntry>, key: Seq<char>) -> int {
    choose|i: int| 0 <= i < entries.len() && entries[i].key@ == key
}

/// The owner recorded for `key`. Meaningful under the same conditions as
/// `index_of_key`.
pub open spec fn owner_of(entries: Seq<KeyEntry>, key: Seq<char>) -> Pubkey {
    entries[index_of_key(entries, key)].owner
}

impl Registry {
    /// The registry's invariant: no two entries bind the same key.
    pub open spec fn wf(self) -> bool {
        keys_unique(self.entries@)
    }
}

/// What `initialize` works on: the freshly allocated registry record and
/// the identity of the caller, which becomes the authority.
pub struct Initialize {
    pub registry: Registry,
    pub user: Pubkey,
}

/// What `register_key` works on: the registry and the caller's identity.
/// The caller is accepted but deliberately not checked against the
/// authority: registration of a fresh key is open to anyone.
pub struct RegisterKey {
    pub registry: Registry,
    pub user: Pubkey,
}

/// What `update_key_owner` works on: the registry and the caller's
/// identity, which must equal the authority.
pub struct UpdateKeyOwner {
    pub registry: Registry,
    pub user: Pubkey,
}

/// What `get_key_owner` works on: the registry alone. Lookup needs no
/// caller identity.
pub struct GetKeyOwner {
    pub registry: Registry,
}

/// Sets the registry up: no entries, and the caller as its authority.
/// Whatever the record held before is discarded.
pub fn initialize(ctx: &mut Initialize)
    ensures
        final(ctx).user == old(ctx).user,
        final(ctx).registry.authority == old(ctx).user,
        final(ctx).registry.entries@ == Seq::<KeyEntry>::empty(),
        final(ctx).registry.wf(),
{
    ctx.registry.entries = Vec::new();
    ctx.registry.authority = ctx.user;
}

/// Binds `key` to `owner` by appending an entry, provided `key` is not
/// bound yet; fails with `KeyAlreadyExists` and changes nothing otherwise.
/// Any caller may register a fresh key: `ctx.user` is not consulted.
pub fn register_key(ctx: &mut RegisterKey, key: String, owner: Pubkey) -> (r: Result<
    (),
    ErrorCode,
>)
    requires
        old(ctx).registry.wf(),
    ensures
        final(ctx).user == old(ctx).user,
        final(ctx).registry.authority == old(ctx).registry.authority,
        final(ctx).registry.wf(),
        has_key(old(ctx).registry.entries@, key@) ==> {
            &&& r == Err::<(), ErrorCode>(ErrorCode::KeyAlreadyExists)
            &&& final(ctx).registry == old(ctx).registry
        },
        !has_key(old(ctx).registry.entries@, key@) ==> {
            &&& r == Ok::<(), ErrorCode>(())
            &&& final(ctx).registry.entries@ == old(ctx).registry.entries@.push(
                KeyEntry { key, owner },
            )
        },
{
    let n = ctx.registry.entries.len();
    let mut i: usize = 0;
    while i < n
        invariant
            i <= n,
            n == ctx.registry.entries@.len(),
            *ctx == *old(ctx),
            old(ctx).registry.wf(),
            forall|j: int| 0 <= j < i ==> ctx.registry.entries@[j].key@ != key@,
        decreases n - i,
    {
        if ctx.registry.entries[i].key == key {
            return Err(ErrorCode::KeyAlreadyExists);
        }
        i += 1;
    }
    ctx.registry.entries.push(KeyEntry { key, owner });
    Ok(())
}

/// Transfers ownership of `key` to `new_owner`, provided the caller is the
/// authority and `key` is bound. The matching entry keeps its key and its
/// position; every other entry is untouched. Fails with `Unauthorized`
/// (checked first) or `KeyNotFound`, changing nothing.
pub fn update_key_owner(ctx: &mut UpdateKeyOwner, key: String, new_owner: Pubkey) -> (r: Result<
    (),
    ErrorCode,
>)
    requires
        old(ctx).registry.wf(),
    ensures
        final(ctx).user == old(ctx).user,
        final(ctx).registry.authority == old(ctx).registry.authority,
        final(ctx).registry.wf(),
        old(ctx).user != old(ctx).registry.authority ==> {
            &&& r == Err::<(), ErrorCode>(ErrorCode::Unauthorized)
            &&& final(ctx).registry == old(ctx).registry
        },
        old(ctx).user == old(ctx).registry.authority && !has_key(
            old(ctx).registry.entries@,
            key@,
        ) ==> {
            &&& r == Err::<(), ErrorCode>(ErrorCode::KeyNotFound)
            &&& final(ctx).registry == old(ctx).registry
        },
        old(ctx).user == old(ctx).registry.authority && has_key(
            old(ctx).registry.entries@,
            key@,
        ) ==> {
            &&& r == Ok::<(), ErrorCode>(())
            &&& final(ctx).registry.entries@ == old(ctx).registry.entries@.update(
                index_of_key(old(ctx).registry.entries@, key@),
                KeyEntry {
                    key: old(ctx).registry.entries@[index_of_key(
                        old(ctx).registry.entries@,
                        key@,
                    )].key,
                    owner: new_owner,
                },
            )
        },
{
    if !(ctx.registry.authority == ctx.user) {
        return Err(ErrorCode::Unauthorized);
    }
    let n = ctx.registry.entries.len();
    let mut i: usize = 0;
    while i < n
        invariant
            i <= n,
            n == ctx.registry.entries@.len(),
            *ctx == *old(ctx),
            old(ctx).registry.wf(),
            old(ctx).user == old(ctx).registry.authority,
            forall|j: int| 0 <= j < i ==> ctx.registry.entries@[j].key@ != key@,
        decreases n - i,
    {
        if ctx.registry.entries[i].key == key {
            proof {
                let entries = old(ctx).registry.entries@;
                assert(has_key(entries, key@));
                let w = index_of_key(entries, key@);
                // keys are unique, so the chosen index is the one we found
                assert(entries[w].key@ == key@ && entries[i as int].key@ == key@);
                assert(w == i as int);
            }
            ctx.registry.entries[i].owner = new_owner;
            return Ok(());
        }
        i += 1;
    }
    Err(ErrorCode::KeyNotFound)
}

/// Reads the owner recorded for `key`, or fails with `KeyNotFound`. A pure
/// read: the registry is borrowed immutably and cannot change.
pub fn get_key_owner(ctx: &GetKeyOwner, key: String) -> (r: Result<Pubkey, ErrorCode>)
    requires
        ctx.registry.wf(),
    ensures
        has_key(ctx.registry.entries@, key@) ==> r == Ok::<Pubkey, ErrorCode>(
            owner_of(ctx.registry.entries@, key@),
        ),
        !has_key(ctx.registry.entries@, key@) ==> r == Err::<Pubkey, ErrorCode>(
            ErrorCode::KeyNotFound,
        ),
{
    let n = ctx.registry.entries.len();
    let mut i: usize = 0;
    while i < n
        invariant
            i <= n,
            n == ctx.registry.entries@.len(),
            ctx.registry.wf(),
            forall|j: int| 0 <= j < i ==> ctx.registry.entries@[j].key@ != key@,
        decreases n - i,
    {
        if ctx.registry.entries[i].key == key {
            proof {
                let entries = ctx.registry.entries@;
                let w = index_of_key(entries, key@);
                assert(entries[w].key@ == key@ && entries[i as int].key@ == key@);
                assert(w == i as int);
            }
            return Ok(ctx.registry.entries[i].owner);
        }
        i += 1;
    }
    Err(ErrorCode::KeyNotFound)
}

} // verus!
