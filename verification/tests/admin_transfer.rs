//! End-to-end runs of the transfer protocol against the modeled environment.

use pool_admin_transfer::contract::AdminTransfer;
use pool_admin_transfer::env::Env;
use pool_admin_transfer::errors::ContractError;
use pool_admin_transfer::pool;

const START_SEQ: u32 = 100_000;

#[test]
fn test_admin_transfer() {
    let admin_transfer_id: u64 = 100;
    let admin: u64 = 1;
    let new_admin: u64 = 2;
    let sauron: u64 = 3;
    let pool: u64 = 10;
    let pool_2: u64 = 11;

    let mut env = Env::new(admin_transfer_id, START_SEQ);
    pool::register_pool(&mut env, pool, admin);
    pool::register_pool(&mut env, pool_2, admin);

    // validate that only the pool admin can create an admin transfer
    let result = AdminTransfer::set_admin_transfer(&mut env, sauron, pool, sauron, new_admin);
    assert!(result.is_err());
    assert_eq!(result, Err(ContractError::ResourceRejected));

    // create admin transfer
    let result = AdminTransfer::set_admin_transfer(&mut env, admin, pool, admin, new_admin);
    assert_eq!(result, Ok(()));

    // -> validate chain state
    let record = AdminTransfer::get_admin_transfer(&env, pool).unwrap();
    assert_eq!(record.new_admin, new_admin);
    assert_eq!(record.cur_admin, admin);

    // -> validate admin is no longer the admin: the pool rejects a
    //    reassignment made as the former admin
    assert_eq!(pool::get_admin(&env, pool), Some(admin_transfer_id));
    let result = pool::set_admin(&mut env, admin, pool, admin);
    assert_eq!(result, Err(ContractError::ResourceRejected));

    // validate another admin transfer cannot be created
    let result = AdminTransfer::set_admin_transfer(&mut env, admin, pool, admin, sauron);
    assert_eq!(result, Err(ContractError::TransferAlreadyPending));

    // perform admin transfer
    let result = AdminTransfer::transfer_admin(&mut env, new_admin, pool);
    assert_eq!(result, Ok(()));

    // -> validate chain state: the new admin holds the pool and the transfer
    //    was deleted
    assert_eq!(pool::get_admin(&env, pool), Some(new_admin));
    let result = AdminTransfer::get_admin_transfer(&env, pool);
    assert!(result.is_none());

    // validate that transfer admin cannot be re-run
    let result = AdminTransfer::transfer_admin(&mut env, new_admin, pool);
    assert!(result.is_err());
    assert_eq!(result, Err(ContractError::NoTransferPending));

    // validate that transfer admin for a random pool fails
    let result = AdminTransfer::transfer_admin(&mut env, new_admin, pool_2);
    assert_eq!(result, Err(ContractError::NoTransferPending));
}

#[test]
fn test_admin_transfer_cancel() {
    let admin_transfer_id: u64 = 100;
    let admin: u64 = 1;
    let new_admin: u64 = 2;
    let pool: u64 = 10;

    let mut env = Env::new(admin_transfer_id, START_SEQ);
    pool::register_pool(&mut env, pool, admin);

    // create admin transfer
    let result = AdminTransfer::set_admin_transfer(&mut env, admin, pool, admin, new_admin);
    assert_eq!(result, Ok(()));

    // -> validate chain state
    let record = AdminTransfer::get_admin_transfer(&env, pool).unwrap();
    assert_eq!(record.new_admin, new_admin);
    assert_eq!(record.cur_admin, admin);

    // -> validate admin is no longer the admin
    assert_eq!(pool::get_admin(&env, pool), Some(admin_transfer_id));

    // cancel admin transfer
    let result = AdminTransfer::cancel_admin_transfer(&mut env, admin, pool);
    assert_eq!(result, Ok(()));

    // -> validate chain state: the pool is back with its admin and the
    //    transfer was deleted
    assert_eq!(pool::get_admin(&env, pool), Some(admin));
    let result = AdminTransfer::get_admin_transfer(&env, pool);
    assert!(result.is_none());

    // validate another admin transfer can be created
    let result = AdminTransfer::set_admin_transfer(&mut env, admin, pool, admin, new_admin);
    assert_eq!(result, Ok(()));

    // -> validate chain state
    let record = AdminTransfer::get_admin_transfer(&env, pool).unwrap();
    assert_eq!(record.new_admin, new_admin);
    assert_eq!(record.cur_admin, admin);
}

/// Propose, accept by the designated new admin, then a second accept: the
/// pool's admin walks admin -> protocol -> new admin, and the second accept
/// finds nothing pending.
#[test]
fn accept_scenario_full_walk() {
    let protocol: u64 = 500;
    let a: u64 = 21;
    let b: u64 = 22;
    let r: u64 = 30;

    let mut env = Env::new(protocol, START_SEQ);
    pool::register_pool(&mut env, r, a);

    assert_eq!(
        AdminTransfer::set_admin_transfer(&mut env, a, r, a, b),
        Ok(())
    );
    assert_eq!(pool::get_admin(&env, r), Some(protocol));
    let record = AdminTransfer::get_admin_transfer(&env, r).unwrap();
    assert_eq!((record.cur_admin, record.new_admin), (a, b));

    assert_eq!(AdminTransfer::transfer_admin(&mut env, b, r), Ok(()));
    assert_eq!(pool::get_admin(&env, r), Some(b));
    assert!(AdminTransfer::get_admin_transfer(&env, r).is_none());

    assert_eq!(
        AdminTransfer::transfer_admin(&mut env, b, r),
        Err(ContractError::NoTransferPending)
    );
}

/// A second proposal while one is pending fails and the pending record keeps
/// its first candidate.
#[test]
fn second_propose_keeps_first_candidate() {
    let protocol: u64 = 500;
    let a: u64 = 21;
    let b: u64 = 22;
    let c: u64 = 23;
    let r: u64 = 30;

    let mut env = Env::new(protocol, START_SEQ);
    pool::register_pool(&mut env, r, a);

    assert_eq!(
        AdminTransfer::set_admin_transfer(&mut env, a, r, a, b),
        Ok(())
    );
    assert_eq!(
        AdminTransfer::set_admin_transfer(&mut env, a, r, a, c),
        Err(ContractError::TransferAlreadyPending)
    );
    let record = AdminTransfer::get_admin_transfer(&env, r).unwrap();
    assert_eq!(record.new_admin, b);
}

/// A cancel by the candidate (the wrong authority) is rejected: the pool
/// stays in the protocol's custody and the record is unchanged.
#[test]
fn cancel_by_wrong_authority_changes_nothing() {
    let protocol: u64 = 500;
    let a: u64 = 21;
    let b: u64 = 22;
    let r: u64 = 30;

    let mut env = Env::new(protocol, START_SEQ);
    pool::register_pool(&mut env, r, a);

    assert_eq!(
        AdminTransfer::set_admin_transfer(&mut env, a, r, a, b),
        Ok(())
    );
    assert_eq!(
        AdminTransfer::cancel_admin_transfer(&mut env, b, r),
        Err(ContractError::Unauthorized)
    );
    assert_eq!(pool::get_admin(&env, r), Some(protocol));
    let record = AdminTransfer::get_admin_transfer(&env, r).unwrap();
    assert_eq!((record.cur_admin, record.new_admin), (a, b));
}

/// An accept by anyone but the candidate is rejected and the record is
/// unchanged.
#[test]
fn accept_by_wrong_authority_changes_nothing() {
    let protocol: u64 = 500;
    let a: u64 = 21;
    let b: u64 = 22;
    let sauron: u64 = 29;
    let r: u64 = 30;

    let mut env = Env::new(protocol, START_SEQ);
    pool::register_pool(&mut env, r, a);

    assert_eq!(
        AdminTransfer::set_admin_transfer(&mut env, a, r, a, b),
        Ok(())
    );
    assert_eq!(
        AdminTransfer::transfer_admin(&mut env, sauron, r),
        Err(ContractError::Unauthorized)
    );
    // the proposer is not the candidate either
    assert_eq!(
        AdminTransfer::transfer_admin(&mut env, a, r),
        Err(ContractError::Unauthorized)
    );
    assert_eq!(pool::get_admin(&env, r), Some(protocol));
    let record = AdminTransfer::get_admin_transfer(&env, r).unwrap();
    assert_eq!((record.cur_admin, record.new_admin), (a, b));
}

/// Round trip: propose, cancel, propose again with a different candidate; the
/// second record is freshly and correctly populated.
#[test]
fn propose_cancel_propose_round_trip() {
    let protocol: u64 = 500;
    let a: u64 = 21;
    let b: u64 = 22;
    let c: u64 = 23;
    let r: u64 = 30;

    let mut env = Env::new(protocol, START_SEQ);
    pool::register_pool(&mut env, r, a);

    assert_eq!(
        AdminTransfer::set_admin_transfer(&mut env, a, r, a, b),
        Ok(())
    );
    assert_eq!(AdminTransfer::cancel_admin_transfer(&mut env, a, r), Ok(()));
    assert_eq!(pool::get_admin(&env, r), Some(a));
    assert_eq!(
        AdminTransfer::set_admin_transfer(&mut env, a, r, a, c),
        Ok(())
    );
    let record = AdminTransfer::get_admin_transfer(&env, r).unwrap();
    assert_eq!((record.cur_admin, record.new_admin), (a, c));
    assert_eq!(pool::get_admin(&env, r), Some(protocol));
}

/// Accept and cancel with nothing pending fail with `NoTransferPending`,
/// whoever calls.
#[test]
fn accept_cancel_without_pending() {
    let protocol: u64 = 500;
    let a: u64 = 21;
    let r: u64 = 30;

    let mut env = Env::new(protocol, START_SEQ);
    pool::register_pool(&mut env, r, a);

    for caller in [a, protocol, 77u64] {
        assert_eq!(
            AdminTransfer::transfer_admin(&mut env, caller, r),
            Err(ContractError::NoTransferPending)
        );
        assert_eq!(
            AdminTransfer::cancel_admin_transfer(&mut env, caller, r),
            Err(ContractError::NoTransferPending)
        );
    }
    assert_eq!(pool::get_admin(&env, r), Some(a));
}

/// A proposal naming the true admin but invoked by someone else fails the
/// authentication check before the pool is ever consulted.
#[test]
fn propose_requires_callers_own_identity() {
    let protocol: u64 = 500;
    let a: u64 = 21;
    let b: u64 = 22;
    let sauron: u64 = 29;
    let r: u64 = 30;

    let mut env = Env::new(protocol, START_SEQ);
    pool::register_pool(&mut env, r, a);

    assert_eq!(
        AdminTransfer::set_admin_transfer(&mut env, sauron, r, a, b),
        Err(ContractError::Unauthorized)
    );
    assert!(AdminTransfer::get_admin_transfer(&env, r).is_none());
    assert_eq!(pool::get_admin(&env, r), Some(a));
}

/// A proposal for a pool that was never deployed is rejected by the resource
/// lookup.
#[test]
fn propose_unknown_pool_rejected() {
    let protocol: u64 = 500;
    let a: u64 = 21;
    let b: u64 = 22;

    let mut env = Env::new(protocol, START_SEQ);

    assert_eq!(
        AdminTransfer::set_admin_transfer(&mut env, a, 31, a, b),
        Err(ContractError::ResourceRejected)
    );
    assert!(AdminTransfer::get_admin_transfer(&env, 31).is_none());
}

/// Transfers for distinct pools are independent records.
#[test]
fn transfers_per_pool_are_independent() {
    let protocol: u64 = 500;
    let a: u64 = 21;
    let b: u64 = 22;
    let c: u64 = 23;
    let d: u64 = 24;
    let r1: u64 = 30;
    let r2: u64 = 31;

    let mut env = Env::new(protocol, START_SEQ);
    pool::register_pool(&mut env, r1, a);
    pool::register_pool(&mut env, r2, c);

    assert_eq!(
        AdminTransfer::set_admin_transfer(&mut env, a, r1, a, b),
        Ok(())
    );
    assert_eq!(
        AdminTransfer::set_admin_transfer(&mut env, c, r2, c, d),
        Ok(())
    );

    assert_eq!(AdminTransfer::transfer_admin(&mut env, b, r1), Ok(()));

    let record = AdminTransfer::get_admin_transfer(&env, r2).unwrap();
    assert_eq!((record.cur_admin, record.new_admin), (c, d));
    assert_eq!(pool::get_admin(&env, r1), Some(b));
    assert_eq!(pool::get_admin(&env, r2), Some(protocol));

    assert_eq!(AdminTransfer::cancel_admin_transfer(&mut env, c, r2), Ok(()));
    assert_eq!(pool::get_admin(&env, r2), Some(c));
}
