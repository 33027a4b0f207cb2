use casper_swap::address::Address;
use casper_swap::lock_vault::{CallContext, Error, LockVault, Transfer, DEFAULT_TIMEOUT_MS};
use casper_swap::uint::{U256, U512};

fn controller() -> Address {
    Address::account(0, 100)
}

fn depositor() -> Address {
    Address::account(0, 1)
}

fn relayer() -> Address {
    Address::account(0, 2)
}

fn other() -> Address {
    Address::account(7, 3)
}

fn token() -> Address {
    Address::contract(0, 50)
}

fn call(caller: Address, now: u64, attached: u64) -> CallContext {
    CallContext { caller, block_time_ms: now, attached_value: U512::from_u64(attached) }
}

fn vault_with_relayer() -> LockVault {
    let mut vault = LockVault::init(controller());
    assert_eq!(vault.add_relayer(controller(), relayer()), Ok(()));
    vault
}

fn lock(vault: &mut LockVault, by: Address, now: u64, units: u64) -> u64 {
    let out = vault.deposit(
        &call(by, now, units),
        String::from("eth"),
        token(),
        String::from("0xabc"),
        U256::from_u64(units),
        true,
    );
    match out {
        Ok((id, _)) => id,
        Err(e) => panic!("deposit refused: {:?}", e),
    }
}

#[test]
fn new_vault_has_defaults() {
    let vault = LockVault::init(controller());
    assert_eq!(vault.next_swap_id(), 0);
    assert_eq!(vault.timeout_ms(), 3_600_000);
    assert_eq!(DEFAULT_TIMEOUT_MS, 3_600_000);
    assert_eq!(vault.controller(), controller());
    assert!(!vault.is_relayer(relayer()));
    assert!(!vault.is_released(0));
    assert!(vault.get_deposit(0).is_none());
}

#[test]
fn swap_ids_start_at_zero_and_increase() {
    let mut vault = vault_with_relayer();
    assert_eq!(lock(&mut vault, depositor(), 0, 10), 0);
    assert_eq!(lock(&mut vault, other(), 5, 20), 1);
    // a payout in between does not disturb the sequence
    assert!(vault.release(&call(relayer(), 6, 0), 0, other(), U256::from_u64(10), true).is_ok());
    assert_eq!(lock(&mut vault, depositor(), 7, 30), 2);
    assert_eq!(vault.next_swap_id(), 3);
}

#[test]
fn deposit_records_all_fields_and_reports_them() {
    let mut vault = vault_with_relayer();
    let out = vault.deposit(
        &call(depositor(), 42, 1000),
        String::from("eth"),
        token(),
        String::from("0xabc"),
        U256::from_u64(1000),
        true,
    );
    let (id, event) = out.expect("deposit");
    assert_eq!(id, 0);
    assert_eq!(event.swap_id, 0);
    assert_eq!(event.depositor, depositor());
    assert_eq!(event.amount, U256::from_u64(1000));
    assert_eq!(event.to_chain, "eth");
    assert_eq!(event.recipient, "0xabc");
    assert_eq!(event.token, token());
    let stored = vault.get_deposit(0).expect("stored");
    assert_eq!(stored.depositor, depositor());
    assert_eq!(stored.amount, U256 { hi: 0, lo: 1000 });
    assert_eq!(stored.to_chain, "eth");
    assert_eq!(stored.recipient, "0xabc");
    assert_eq!(stored.token, token());
    assert_eq!(stored.deposit_time_ms, 42);
    assert!(!vault.is_released(0));
}

#[test]
fn deposit_transfer_names_the_inbound_movement() {
    let order = LockVault::deposit_transfer(
        &call(depositor(), 0, 77),
        &String::from("eth"),
        &String::from("0xabc"),
        U256::from_u64(77),
    );
    assert_eq!(order, Ok(Transfer::IntoCustody { from: depositor(), amount: 77 }));
}

#[test]
fn deposit_of_zero_is_invalid_amount() {
    let mut vault = vault_with_relayer();
    let out = vault.deposit(
        &call(depositor(), 0, 0),
        String::from("eth"),
        token(),
        String::from("0xabc"),
        U256::from_u64(0),
        true,
    );
    assert_eq!(out.err(), Some(Error::InvalidAmount));
    assert_eq!(vault.next_swap_id(), 0);
}

#[test]
fn deposit_wider_than_the_transfer_is_invalid_amount() {
    let mut vault = vault_with_relayer();
    // two to the power 64: the low 64 bits alone would read as zero
    let wide = U256 { hi: 0, lo: 1u128 << 64 };
    let out = vault.deposit(
        &call(depositor(), 0, 0),
        String::from("eth"),
        token(),
        String::from("0xabc"),
        wide,
        true,
    );
    assert_eq!(out.err(), Some(Error::InvalidAmount));
    let high = U256 { hi: 1, lo: 5 };
    let out = vault.deposit(
        &call(depositor(), 0, 5),
        String::from("eth"),
        token(),
        String::from("0xabc"),
        high,
        true,
    );
    assert_eq!(out.err(), Some(Error::InvalidAmount));
    assert_eq!(vault.next_swap_id(), 0);
}

#[test]
fn deposit_of_the_widest_amount_that_fits_passes() {
    let mut vault = vault_with_relayer();
    assert_eq!(lock(&mut vault, depositor(), 0, u64::MAX), 0);
    assert_eq!(
        vault.refund_transfer(&call(depositor(), 3_600_000, 0), 0),
        Ok(Transfer::OutOfCustody { to: depositor(), amount: u64::MAX })
    );
}

#[test]
fn deposit_with_other_attached_value_is_invalid_argument() {
    let mut vault = vault_with_relayer();
    let out = vault.deposit(
        &call(depositor(), 0, 999),
        String::from("eth"),
        token(),
        String::from("0xabc"),
        U256::from_u64(1000),
        true,
    );
    assert_eq!(out.err(), Some(Error::InvalidArgument));
    let mut env = call(depositor(), 0, 1000);
    env.attached_value.hi = U256 { hi: 0, lo: 1 };
    let out = vault.deposit(
        &env,
        String::from("eth"),
        token(),
        String::from("0xabc"),
        U256::from_u64(1000),
        true,
    );
    assert_eq!(out.err(), Some(Error::InvalidArgument));
    assert_eq!(vault.next_swap_id(), 0);
}

fn deposit_with_strings(to_chain: String, recipient: String) -> Result<u64, Error> {
    let mut vault = vault_with_relayer();
    let out =
        vault.deposit(&call(depositor(), 0, 9), to_chain, token(), recipient, U256::from_u64(9), true);
    match out {
        Ok((id, _)) => {
            assert_eq!(vault.next_swap_id(), 1);
            Ok(id)
        }
        Err(e) => {
            assert_eq!(vault.next_swap_id(), 0);
            Err(e)
        }
    }
}

#[test]
fn to_chain_bounds() {
    assert_eq!(deposit_with_strings(String::new(), String::from("r")), Err(Error::InvalidArgument));
    assert_eq!(deposit_with_strings("c".repeat(33), String::from("r")), Err(Error::InvalidArgument));
    assert_eq!(deposit_with_strings("c".repeat(32), String::from("r")), Ok(0));
    assert_eq!(deposit_with_strings("c".repeat(1), String::from("r")), Ok(0));
}

#[test]
fn recipient_bounds() {
    assert_eq!(deposit_with_strings(String::from("eth"), String::new()), Err(Error::InvalidArgument));
    assert_eq!(
        deposit_with_strings(String::from("eth"), "r".repeat(129)),
        Err(Error::InvalidArgument)
    );
    assert_eq!(deposit_with_strings(String::from("eth"), "r".repeat(128)), Ok(0));
}

#[test]
fn string_bounds_count_bytes() {
    // sixteen two-byte characters fill the bound, seventeen exceed it
    assert_eq!(deposit_with_strings("\u{e9}".repeat(16), String::from("r")), Ok(0));
    assert_eq!(
        deposit_with_strings("\u{e9}".repeat(17), String::from("r")),
        Err(Error::InvalidArgument)
    );
}

#[test]
fn zero_amount_is_reported_before_a_bad_string() {
    let mut vault = vault_with_relayer();
    let out = vault.deposit(
        &call(depositor(), 0, 0),
        String::new(),
        token(),
        String::new(),
        U256::from_u64(0),
        true,
    );
    assert_eq!(out.err(), Some(Error::InvalidAmount));
}

#[test]
fn failed_inbound_transfer_leaves_no_trace() {
    let mut vault = vault_with_relayer();
    let out = vault.deposit(
        &call(depositor(), 0, 10),
        String::from("eth"),
        token(),
        String::from("0xabc"),
        U256::from_u64(10),
        false,
    );
    assert_eq!(out.err(), Some(Error::TransferFailed));
    assert_eq!(vault.next_swap_id(), 0);
    assert!(vault.get_deposit(0).is_none());
    // the id was not used up
    assert_eq!(lock(&mut vault, depositor(), 0, 10), 0);
}

#[test]
fn release_then_refund_scenario() {
    let mut vault = vault_with_relayer();
    assert_eq!(vault.set_timeout_ms(controller(), 3_600_000), Ok(()));
    let id = lock(&mut vault, depositor(), 0, 1000);
    let d2 = Address::account(0, 22);
    assert_eq!(
        vault.release_transfer(&call(relayer(), 10, 0), id, d2, U256::from_u64(1000)),
        Ok(Transfer::OutOfCustody { to: d2, amount: 1000 })
    );
    let event = vault
        .release(&call(relayer(), 10, 0), id, d2, U256::from_u64(1000), true)
        .expect("release");
    assert_eq!(event.swap_id, id);
    assert_eq!(event.recipient, d2);
    assert_eq!(event.amount, U256::from_u64(1000));
    assert!(vault.is_released(id));
    let late = call(depositor(), 4_000_000, 0);
    assert_eq!(vault.refund_transfer(&late, id), Err(Error::AlreadyFinalized));
    assert_eq!(vault.refund(&late, id, true).err(), Some(Error::AlreadyFinalized));
    assert!(vault.is_released(id));
}

#[test]
fn refund_then_release_scenario() {
    let mut vault = vault_with_relayer();
    assert_eq!(vault.set_timeout_ms(controller(), 3_600_000), Ok(()));
    let id = lock(&mut vault, depositor(), 0, 500);
    let at = call(depositor(), 3_600_001, 0);
    assert_eq!(
        vault.refund_transfer(&at, id),
        Ok(Transfer::OutOfCustody { to: depositor(), amount: 500 })
    );
    let event = vault.refund(&at, id, true).expect("refund");
    assert_eq!(event.swap_id, id);
    assert_eq!(event.recipient, depositor());
    assert_eq!(event.amount, U256::from_u64(500));
    assert!(vault.is_released(id));
    let again = call(relayer(), 3_600_002, 0);
    assert_eq!(
        vault.release_transfer(&again, id, other(), U256::from_u64(500)),
        Err(Error::AlreadyFinalized)
    );
    assert_eq!(
        vault.release(&again, id, other(), U256::from_u64(500), true).err(),
        Some(Error::AlreadyFinalized)
    );
}

#[test]
fn second_release_is_already_finalized() {
    let mut vault = vault_with_relayer();
    let id = lock(&mut vault, depositor(), 0, 5);
    assert!(vault.release(&call(relayer(), 1, 0), id, other(), U256::from_u64(5), true).is_ok());
    assert_eq!(
        vault.release(&call(relayer(), 2, 0), id, other(), U256::from_u64(5), true).err(),
        Some(Error::AlreadyFinalized)
    );
}

#[test]
fn second_refund_is_already_finalized() {
    let mut vault = vault_with_relayer();
    let id = lock(&mut vault, depositor(), 0, 5);
    let at = call(depositor(), 3_600_000, 0);
    assert!(vault.refund(&at, id, true).is_ok());
    assert_eq!(vault.refund(&at, id, true).err(), Some(Error::AlreadyFinalized));
}

#[test]
fn payout_of_one_deposit_leaves_the_others_locked() {
    let mut vault = vault_with_relayer();
    let a = lock(&mut vault, depositor(), 0, 5);
    let b = lock(&mut vault, depositor(), 0, 6);
    assert!(vault.release(&call(relayer(), 1, 0), b, other(), U256::from_u64(6), true).is_ok());
    assert!(!vault.is_released(a));
    assert!(vault.is_released(b));
    assert!(vault.refund(&call(depositor(), 3_600_000, 0), a, true).is_ok());
}

#[test]
fn refund_timeout_is_exact() {
    let mut vault = vault_with_relayer();
    let id = lock(&mut vault, depositor(), 1_000, 5);
    let early = call(depositor(), 1_000 + 3_600_000 - 1, 0);
    assert_eq!(vault.refund(&early, id, true).err(), Some(Error::TooEarly));
    assert!(!vault.is_released(id));
    let on_time = call(depositor(), 1_000 + 3_600_000, 0);
    assert!(vault.refund(&on_time, id, true).is_ok());
}

#[test]
fn refund_follows_the_configured_timeout() {
    let mut vault = vault_with_relayer();
    assert_eq!(vault.set_timeout_ms(controller(), 10), Ok(()));
    assert_eq!(vault.timeout_ms(), 10);
    let id = lock(&mut vault, depositor(), 100, 5);
    assert_eq!(vault.refund(&call(depositor(), 109, 0), id, true).err(), Some(Error::TooEarly));
    assert!(vault.refund(&call(depositor(), 110, 0), id, true).is_ok());
}

#[test]
fn timeout_sum_saturates() {
    let mut vault = vault_with_relayer();
    assert_eq!(vault.set_timeout_ms(controller(), u64::MAX), Ok(()));
    let id = lock(&mut vault, depositor(), 1_000, 5);
    // a wrapping sum would allow the refund at 999
    assert_eq!(vault.refund(&call(depositor(), 5_000, 0), id, true).err(), Some(Error::TooEarly));
    assert_eq!(
        vault.refund(&call(depositor(), u64::MAX - 1, 0), id, true).err(),
        Some(Error::TooEarly)
    );
    assert!(vault.refund(&call(depositor(), u64::MAX, 0), id, true).is_ok());
}

#[test]
fn release_by_a_stranger_is_unauthorized() {
    let mut vault = vault_with_relayer();
    let id = lock(&mut vault, depositor(), 0, 5);
    let env = call(other(), 1, 0);
    assert_eq!(
        vault.release(&env, id, other(), U256::from_u64(5), true).err(),
        Some(Error::Unauthorized)
    );
    // whatever the state of the deposit: unknown, zero amount, finalized
    assert_eq!(
        vault.release(&env, 99, other(), U256::from_u64(0), true).err(),
        Some(Error::Unauthorized)
    );
    assert!(vault.release(&call(relayer(), 1, 0), id, other(), U256::from_u64(5), true).is_ok());
    assert_eq!(
        vault.release(&env, id, other(), U256::from_u64(5), true).err(),
        Some(Error::Unauthorized)
    );
    // the depositor and the controller are no relayers either
    assert_eq!(
        vault.release(&call(depositor(), 1, 0), id, other(), U256::from_u64(5), true).err(),
        Some(Error::Unauthorized)
    );
    assert_eq!(
        vault.release(&call(controller(), 1, 0), id, other(), U256::from_u64(5), true).err(),
        Some(Error::Unauthorized)
    );
}

#[test]
fn refund_by_a_stranger_is_unauthorized_after_timeout() {
    let mut vault = vault_with_relayer();
    let id = lock(&mut vault, depositor(), 0, 5);
    assert_eq!(
        vault.refund(&call(other(), 3_600_000, 0), id, true).err(),
        Some(Error::Unauthorized)
    );
    assert_eq!(
        vault.refund(&call(relayer(), 9_000_000, 0), id, true).err(),
        Some(Error::Unauthorized)
    );
    assert!(!vault.is_released(id));
    // before the timeout the clock speaks first
    assert_eq!(vault.refund(&call(other(), 10, 0), id, true).err(), Some(Error::TooEarly));
}

#[test]
fn refund_of_an_unknown_id_is_not_found() {
    let mut vault = vault_with_relayer();
    assert_eq!(
        vault.refund(&call(depositor(), 9_000_000, 0), 0, true).err(),
        Some(Error::DepositNotFound)
    );
    let _ = lock(&mut vault, depositor(), 0, 5);
    assert_eq!(
        vault.refund(&call(depositor(), 9_000_000, 0), 1, true).err(),
        Some(Error::DepositNotFound)
    );
    assert_eq!(
        vault.refund(&call(depositor(), 9_000_000, 0), u64::MAX, true).err(),
        Some(Error::DepositNotFound)
    );
}

#[test]
fn release_of_an_unknown_id_is_not_found() {
    let mut vault = vault_with_relayer();
    assert_eq!(
        vault.release(&call(relayer(), 1, 0), 0, other(), U256::from_u64(5), true).err(),
        Some(Error::DepositNotFound)
    );
    assert!(!vault.is_released(0));
}

#[test]
fn release_of_zero_is_invalid_amount() {
    let mut vault = vault_with_relayer();
    let id = lock(&mut vault, depositor(), 0, 5);
    assert_eq!(
        vault.release(&call(relayer(), 1, 0), id, other(), U256::from_u64(0), true).err(),
        Some(Error::InvalidAmount)
    );
    assert!(!vault.is_released(id));
}

#[test]
fn release_wider_than_the_transfer_fails_the_transfer() {
    let mut vault = vault_with_relayer();
    let id = lock(&mut vault, depositor(), 0, 5);
    let wide = U256 { hi: 0, lo: (1u128 << 64) + 5 };
    assert_eq!(
        vault.release(&call(relayer(), 1, 0), id, other(), wide, true).err(),
        Some(Error::TransferFailed)
    );
    assert!(!vault.is_released(id));
}

#[test]
fn release_to_a_contract_is_invalid_argument() {
    let mut vault = vault_with_relayer();
    let id = lock(&mut vault, depositor(), 0, 5);
    assert_eq!(
        vault.release(&call(relayer(), 1, 0), id, token(), U256::from_u64(5), true).err(),
        Some(Error::InvalidArgument)
    );
    assert!(!vault.is_released(id));
}

#[test]
fn refund_to_a_contract_depositor_is_invalid_argument() {
    let mut vault = vault_with_relayer();
    let by = Address::contract(1, 1);
    let id = lock(&mut vault, by, 0, 5);
    assert_eq!(
        vault.refund(&call(by, 3_600_000, 0), id, true).err(),
        Some(Error::InvalidArgument)
    );
    assert!(!vault.is_released(id));
}

#[test]
fn failed_outbound_transfer_keeps_the_deposit_locked() {
    let mut vault = vault_with_relayer();
    let id = lock(&mut vault, depositor(), 0, 5);
    assert_eq!(
        vault.release(&call(relayer(), 1, 0), id, other(), U256::from_u64(5), false).err(),
        Some(Error::TransferFailed)
    );
    assert!(!vault.is_released(id));
    assert_eq!(
        vault.refund(&call(depositor(), 3_600_000, 0), id, false).err(),
        Some(Error::TransferFailed)
    );
    assert!(!vault.is_released(id));
    assert!(vault.refund(&call(depositor(), 3_600_000, 0), id, true).is_ok());
}

#[test]
fn release_may_differ_from_the_deposit() {
    let mut vault = vault_with_relayer();
    let id = lock(&mut vault, depositor(), 0, 5);
    let event = vault
        .release(&call(relayer(), 1, 0), id, other(), U256::from_u64(3), true)
        .expect("release");
    assert_eq!(event.amount, U256::from_u64(3));
    assert_eq!(event.recipient, other());
    assert_eq!(vault.get_deposit(id).expect("stored").amount, U256::from_u64(5));
}

#[test]
fn vault_admin_calls_are_for_the_controller() {
    let mut vault = LockVault::init(controller());
    assert_eq!(vault.add_relayer(other(), relayer()), Err(Error::Unauthorized));
    assert!(!vault.is_relayer(relayer()));
    assert_eq!(vault.set_timeout_ms(other(), 5), Err(Error::Unauthorized));
    assert_eq!(vault.timeout_ms(), 3_600_000);
    assert_eq!(vault.add_relayer(controller(), relayer()), Ok(()));
    assert_eq!(vault.remove_relayer(other(), relayer()), Err(Error::Unauthorized));
    assert!(vault.is_relayer(relayer()));
    assert_eq!(vault.remove_relayer(controller(), relayer()), Ok(()));
    assert!(!vault.is_relayer(relayer()));
}

#[test]
fn vault_relayer_changes_are_idempotent() {
    let mut vault = LockVault::init(controller());
    assert_eq!(vault.remove_relayer(controller(), relayer()), Ok(()));
    assert_eq!(vault.remove_relayer(controller(), relayer()), Ok(()));
    assert!(!vault.is_relayer(relayer()));
    assert_eq!(vault.add_relayer(controller(), relayer()), Ok(()));
    assert_eq!(vault.add_relayer(controller(), relayer()), Ok(()));
    assert!(vault.is_relayer(relayer()));
    assert_eq!(vault.remove_relayer(controller(), relayer()), Ok(()));
    assert!(!vault.is_relayer(relayer()));
}

#[test]
fn removed_relayer_can_no_longer_release() {
    let mut vault = vault_with_relayer();
    let id = lock(&mut vault, depositor(), 0, 5);
    assert_eq!(vault.remove_relayer(controller(), relayer()), Ok(()));
    assert_eq!(
        vault.release(&call(relayer(), 1, 0), id, other(), U256::from_u64(5), true).err(),
        Some(Error::Unauthorized)
    );
}

#[test]
fn vault_survives_storing_and_restoring() {
    let mut vault = vault_with_relayer();
    assert_eq!(vault.set_timeout_ms(controller(), 77), Ok(()));
    let a = lock(&mut vault, depositor(), 5, 10);
    let b = lock(&mut vault, other(), 6, 20);
    assert!(vault.release(&call(relayer(), 7, 0), a, other(), U256::from_u64(10), true).is_ok());
    let (stored_controller, timeout_ms, relayers, ledger) = vault.into_parts();
    assert_eq!(stored_controller, controller());
    assert_eq!(timeout_ms, 77);
    assert_eq!(relayers, vec![relayer()]);
    assert_eq!(ledger.len(), 2);
    assert!(ledger[0].released);
    assert!(!ledger[1].released);
    assert_eq!(ledger[1].deposit.depositor, other());
    assert_eq!(ledger[1].deposit.amount, U256::from_u64(20));
    let mut back = LockVault::restore(stored_controller, timeout_ms, relayers, ledger);
    assert_eq!(back.next_swap_id(), 2);
    assert_eq!(back.timeout_ms(), 77);
    assert_eq!(back.controller(), controller());
    assert!(back.is_relayer(relayer()));
    assert!(back.is_released(a));
    assert!(!back.is_released(b));
    assert_eq!(back.refund(&call(other(), 6 + 77, 0), b, true).map(|e| e.swap_id), Ok(b));
    assert_eq!(lock(&mut back, depositor(), 100, 1), 2);
}
