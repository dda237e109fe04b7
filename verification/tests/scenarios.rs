//! End-to-end scenarios for the registry operations.

use key_registry::registry::{
    get_key_owner, initialize, register_key, update_key_owner, ErrorCode, GetKeyOwner, Initialize,
    KeyEntry, RegisterKey, Registry, UpdateKeyOwner,
};
use key_registry::registry::Pubkey;

fn pk(n: u64) -> Pubkey {
    Pubkey { w0: n, w1: 0, w2: 0, w3: 0 }
}

fn fresh_registry() -> Registry {
    Registry { authority: pk(0), entries: Vec::new() }
}

fn initialized_by(user: Pubkey) -> Registry {
    let mut ctx = Initialize { registry: fresh_registry(), user };
    initialize(&mut ctx);
    ctx.registry
}

#[test]
fn initialize_sets_authority_and_empty_entries() {
    let a = pk(1);
    let registry = initialized_by(a);
    assert_eq!(registry.authority, a);
    assert_eq!(registry.entries.len(), 0);
}

#[test]
fn register_binds_key_to_owner() {
    let a = pk(1);
    let b = pk(2);
    let c = pk(3);
    let mut ctx = RegisterKey { registry: initialized_by(a), user: b };
    let r = register_key(&mut ctx, "k1".to_owned(), c);
    assert_eq!(r, Ok(()));
    assert_eq!(ctx.registry.entries.len(), 1);
    assert_eq!(ctx.registry.entries[0].key, "k1");
    assert_eq!(ctx.registry.entries[0].owner, c);
    let gctx = GetKeyOwner { registry: ctx.registry };
    assert_eq!(get_key_owner(&gctx, "k1".to_owned()), Ok(c));
}

#[test]
fn register_existing_key_fails_and_changes_nothing() {
    let a = pk(1);
    let b = pk(2);
    let c = pk(3);
    let d = pk(4);
    let mut ctx = RegisterKey { registry: initialized_by(a), user: b };
    assert_eq!(register_key(&mut ctx, "k1".to_owned(), c), Ok(()));
    let r = register_key(&mut ctx, "k1".to_owned(), d);
    assert_eq!(r, Err(ErrorCode::KeyAlreadyExists));
    assert_eq!(ctx.registry.entries.len(), 1);
    assert_eq!(ctx.registry.entries[0].key, "k1");
    assert_eq!(ctx.registry.entries[0].owner, c);
}

#[test]
fn update_by_non_authority_fails_and_changes_nothing() {
    let a = pk(1);
    let b = pk(2);
    let c = pk(3);
    let e = pk(5);
    let mut ctx = RegisterKey { registry: initialized_by(a), user: b };
    assert_eq!(register_key(&mut ctx, "k1".to_owned(), c), Ok(()));
    // the owner of the key is not the authority, so even it may not transfer
    let mut uctx = UpdateKeyOwner { registry: ctx.registry, user: c };
    let r = update_key_owner(&mut uctx, "k1".to_owned(), e);
    assert_eq!(r, Err(ErrorCode::Unauthorized));
    assert_eq!(uctx.registry.entries.len(), 1);
    assert_eq!(uctx.registry.entries[0].key, "k1");
    assert_eq!(uctx.registry.entries[0].owner, c);
}

#[test]
fn update_by_authority_replaces_owner() {
    let a = pk(1);
    let b = pk(2);
    let c = pk(3);
    let e = pk(5);
    let mut ctx = RegisterKey { registry: initialized_by(a), user: b };
    assert_eq!(register_key(&mut ctx, "k1".to_owned(), c), Ok(()));
    let mut uctx = UpdateKeyOwner { registry: ctx.registry, user: a };
    let r = update_key_owner(&mut uctx, "k1".to_owned(), e);
    assert_eq!(r, Ok(()));
    assert_eq!(uctx.registry.entries.len(), 1);
    assert_eq!(uctx.registry.entries[0].key, "k1");
    assert_eq!(uctx.registry.entries[0].owner, e);
    let gctx = GetKeyOwner { registry: uctx.registry };
    assert_eq!(get_key_owner(&gctx, "k1".to_owned()), Ok(e));
}

#[test]
fn lookup_of_missing_key_fails() {
    let a = pk(1);
    let gctx = GetKeyOwner { registry: initialized_by(a) };
    let r = get_key_owner(&gctx, "missing".to_owned());
    assert_eq!(r, Err(ErrorCode::KeyNotFound));
}

#[test]
fn update_of_missing_key_fails_and_changes_nothing() {
    let a = pk(1);
    let e = pk(5);
    let mut uctx = UpdateKeyOwner { registry: initialized_by(a), user: a };
    let r = update_key_owner(&mut uctx, "k1".to_owned(), e);
    assert_eq!(r, Err(ErrorCode::KeyNotFound));
    assert_eq!(uctx.registry.entries.len(), 0);
}

#[test]
fn entries_keep_insertion_order() {
    let a = pk(1);
    let b = pk(2);
    let mut ctx = RegisterKey { registry: initialized_by(a), user: b };
    for (i, key) in ["alpha", "beta", "gamma"].iter().enumerate() {
        assert_eq!(register_key(&mut ctx, (*key).to_owned(), pk(10 + i as u64)), Ok(()));
    }
    let keys: Vec<&str> = ctx.registry.entries.iter().map(|e: &KeyEntry| e.key.as_str()).collect();
    assert_eq!(keys, vec!["alpha", "beta", "gamma"]);
}
