//! The escrow vault: the deposit ledger and the release-or-refund state
//! machine.
//!
//! The vault decides; it moves no value itself. For each payout or deposit it
//! names the custody transfer that has to happen, and it records the step
//! only when told that the transfer went through.

use vstd::prelude::*;
use crate::address::Address;
use crate::address_set::AddressSet;
use crate::uint::{pow2_64, U256, U512};

verus! {

/// Longest destination chain identifier, in bytes.
pub const MAX_TO_CHAIN_LEN: usize = 32;

/// Longest destination recipient identifier, in bytes.
pub const MAX_RECIPIENT_LEN: usize = 128;

/// The refund timeout of a new vault: one hour, in milliseconds.
pub const DEFAULT_TIMEOUT_MS: u64 = 3_600_000;

/// Why a vault call was refused. A refused call changes nothing.
#[derive(Clone, Copy, Debug, PartialEq, Eq, Structural)]
pub enum Error {
    /// The caller lacks the role or identity that the call asks for.
    Unauthorized,
    /// The amount is zero, or too large for the custody transfer.
    InvalidAmount,
    /// A string is out of bounds, the attached value does not match, or the
    /// recipient cannot receive a payout.
    InvalidArgument,
    /// No deposit has this id.
    DepositNotFound,
    /// The deposit was released or refunded before.
    AlreadyFinalized,
    /// The refund timeout has not elapsed.
    TooEarly,
    /// The custody transfer was rejected.
    TransferFailed,
}

/// What the host tells about one call: who calls, when, and with how much
/// value attached.
#[derive(Clone, Copy, Debug, PartialEq, Eq, Structural)]
pub struct CallContext {
    pub caller: Address,
    pub block_time_ms: u64,
    pub attached_value: U512,
}

/// A movement of value that the host has to carry out at the custody store.
#[derive(Clone, Copy, Debug, PartialEq, Eq, Structural)]
pub enum Transfer {
    /// From the depositor into custody.
    IntoCustody { from: Address, amount: u64 },
    /// Out of custody to an account.
    OutOfCustody { to: Address, amount: u64 },
}

/// One locked-value commitment.
#[derive(Clone, Debug)]
pub struct Deposit {
    pub depositor: Address,
    pub amount: U256,
    pub to_chain: String,
    pub recipient: String,
    pub token: Address,
    pub deposit_time_ms: u64,
}

/// A deposit as a mathematical value.
pub struct DepositView {
    pub depositor: Address,
    pub amount: nat,
    pub to_chain: Seq<char>,
    pub recipient: Seq<char>,
    pub token: Address,
    pub deposit_time_ms: u64,
}

impl View for Deposit {
    type V = DepositView;

    open spec fn view(&self) -> DepositView {
        DepositView {
            depositor: self.depositor,
            amount: self.amount@,
            to_chain: self.to_chain@,
            recipient: self.recipient@,
            token: self.token,
            deposit_time_ms: self.deposit_time_ms,
        }
    }
}

/// The notification that a deposit was recorded.
#[derive(Clone, Debug)]
pub struct DepositInitiated {
    pub swap_id: u64,
    pub depositor: Address,
    pub amount: U256,
    pub to_chain: String,
    pub recipient: String,
    pub token: Address,
}

/// A deposit notification as a mathematical value.
pub struct DepositInitiatedView {
    pub swap_id: u64,
    pub depositor: Address,
    pub amount: nat,
    pub to_chain: Seq<char>,
    pub recipient: Seq<char>,
    pub token: Address,
}

impl View for DepositInitiated {
    type V = DepositInitiatedView;

    open spec fn view(&self) -> DepositInitiatedView {
        DepositInitiatedView {
            swap_id: self.swap_id,
            depositor: self.depositor,
            amount: self.amount@,
            to_chain: self.to_chain@,
            recipient: self.recipient@,
            token: self.token,
        }
    }
}

/// The notification that a deposit was paid out to the destination side.
#[derive(Clone, Copy, Debug, PartialEq, Eq, Structural)]
pub struct ReleaseExecuted {
    pub swap_id: u64,
    pub recipient: Address,
    pub amount: U256,
}

/// The notification that a deposit was paid back to its depositor.
#[derive(Clone, Copy, Debug, PartialEq, Eq, Structural)]
pub struct RefundExecuted {
    pub swap_id: u64,
    pub recipient: Address,
    pub amount: U256,
}

/// The length of a string in bytes, as the machine reports it.
pub open spec fn byte_len(s: Seq<char>) -> usize {
    vstd::utf8::encode_utf8(s).len() as usize
}

/// The earliest time at which a deposit can be refunded. The sum saturates:
/// a huge timeout pushes the refund to the end of time, never to its start.
pub open spec fn refund_opens_at(deposit_time_ms: u64, timeout_ms: u64) -> u64 {
    if deposit_time_ms + timeout_ms > u64::MAX {
        u64::MAX
    } else {
        (deposit_time_ms + timeout_ms) as u64
    }
}

/// Why a deposit is refused before any value moves, if it is.
pub open spec fn deposit_refusal(
    env: CallContext,
    to_chain: Seq<char>,
    recipient: Seq<char>,
    amount: nat,
) -> Option<Error> {
    if amount == 0 {
        Some(Error::InvalidAmount)
    } else if byte_len(to_chain) == 0 || byte_len(to_chain) > MAX_TO_CHAIN_LEN {
        Some(Error::InvalidArgument)
    } else if byte_len(recipient) == 0 || byte_len(recipient) > MAX_RECIPIENT_LEN {
        Some(Error::InvalidArgument)
    } else if amount >= pow2_64() {
        Some(Error::InvalidAmount)
    } else if env.attached_value@ != amount {
        Some(Error::InvalidArgument)
    } else {
        None
    }
}

/// The deposit that a call records once it has passed: the caller is the
/// depositor and the time of the call is the deposit time.
pub open spec fn recorded(
    env: CallContext,
    to_chain: Seq<char>,
    token: Address,
    recipient: Seq<char>,
    amount: nat,
) -> DepositView {
    DepositView {
        depositor: env.caller,
        amount,
        to_chain,
        recipient,
        token,
        deposit_time_ms: env.block_time_ms,
    }
}

/// The error of a call, given why it is refused before the transfer, if it
/// is, and whether the transfer went through.
pub open spec fn failure(refusal: Option<Error>, moved: bool) -> Option<Error> {
    if refusal is Some {
        refusal
    } else if !moved {
        Some(Error::TransferFailed)
    } else {
        None
    }
}

impl DepositView {
    /// What holds of every deposit on the ledger: a nonzero amount that the
    /// custody transfer can carry, and strings within their bounds.
    pub open spec fn valid(self) -> bool {
        &&& 0 < self.amount < pow2_64()
        &&& 1 <= byte_len(self.to_chain) <= MAX_TO_CHAIN_LEN
        &&& 1 <= byte_len(self.recipient) <= MAX_RECIPIENT_LEN
    }
}

/// One line of the ledger as a mathematical value.
pub struct EntryView {
    pub deposit: DepositView,
    pub released: bool,
}

/// The vault as a mathematical value. The id of a deposit is its place on the
/// ledger.
pub struct VaultView {
    pub ledger: Seq<EntryView>,
    pub relayers: Set<Address>,
    pub controller: Address,
    pub timeout_ms: u64,
}

impl VaultView {
    /// Every recorded deposit is valid.
    pub open spec fn wf(self) -> bool {
        forall|i: int| 0 <= i < self.ledger.len() ==> (#[trigger] self.ledger[i]).deposit.valid()
    }

    /// Whether a deposit with this id was recorded.
    pub open spec fn has(self, swap_id: u64) -> bool {
        swap_id < self.ledger.len()
    }

    /// Whether the deposit exists and was neither released nor refunded.
    pub open spec fn is_locked(self, swap_id: u64) -> bool {
        self.has(swap_id) && !self.ledger[swap_id as int].released
    }

    /// Whether the deposit exists and was released or refunded.
    pub open spec fn is_finalized(self, swap_id: u64) -> bool {
        self.has(swap_id) && self.ledger[swap_id as int].released
    }

    /// The vault after `deposit` was recorded under the next id.
    pub open spec fn with_deposit(self, deposit: DepositView) -> VaultView {
        VaultView { ledger: self.ledger.push(EntryView { deposit, released: false }), ..self }
    }

    /// The vault after the deposit `swap_id` was paid out.
    pub open spec fn finalize(self, swap_id: u64) -> VaultView {
        VaultView {
            ledger: self.ledger.update(
                swap_id as int,
                EntryView { released: true, ..self.ledger[swap_id as int] },
            ),
            ..self
        }
    }

    /// The vault after `relayer` was allowed to release.
    pub open spec fn with_relayer(self, relayer: Address) -> VaultView {
        VaultView { relayers: self.relayers.insert(relayer), ..self }
    }

    /// The vault after `relayer` was stopped from releasing.
    pub open spec fn without_relayer(self, relayer: Address) -> VaultView {
        VaultView { relayers: self.relayers.remove(relayer), ..self }
    }

    /// The vault after the refund timeout was set.
    pub open spec fn with_timeout(self, timeout_ms: u64) -> VaultView {
        VaultView { timeout_ms, ..self }
    }

    /// What an administrative call by `caller` returns: the controller
    /// succeeds, anyone else is refused.
    pub open spec fn verdict(self, caller: Address) -> Result<(), Error> {
        if caller == self.controller {
            Ok(())
        } else {
            Err(Error::Unauthorized)
        }
    }

    /// The state after an administrative call by `caller` that would lead to
    /// `changed`: a refused call changes nothing.
    pub open spec fn gated(self, caller: Address, changed: VaultView) -> VaultView {
        if caller == self.controller {
            changed
        } else {
            self
        }
    }

    /// Why a release is refused before any value moves, if it is.
    pub open spec fn release_refusal(
        self,
        caller: Address,
        swap_id: u64,
        recipient: Address,
        amount: nat,
    ) -> Option<Error> {
        if !self.relayers.contains(caller) {
            Some(Error::Unauthorized)
        } else if amount == 0 {
            Some(Error::InvalidAmount)
        } else if !self.has(swap_id) {
            Some(Error::DepositNotFound)
        } else if self.ledger[swap_id as int].released {
            Some(Error::AlreadyFinalized)
        } else if amount >= pow2_64() {
            Some(Error::TransferFailed)
        } else if !recipient.payable() {
            Some(Error::InvalidArgument)
        } else {
            None
        }
    }

    /// Why a refund is refused before any value moves, if it is.
    pub open spec fn refund_refusal(self, env: CallContext, swap_id: u64) -> Option<Error> {
        if !self.has(swap_id) {
            Some(Error::DepositNotFound)
        } else if self.ledger[swap_id as int].released {
            Some(Error::AlreadyFinalized)
        } else if env.block_time_ms < refund_opens_at(
            self.ledger[swap_id as int].deposit.deposit_time_ms,
            self.timeout_ms,
        ) {
            Some(Error::TooEarly)
        } else if env.caller != self.ledger[swap_id as int].deposit.depositor {
            Some(Error::Unauthorized)
        } else if self.ledger[swap_id as int].deposit.amount >= pow2_64() {
            Some(Error::TransferFailed)
        } else if !self.ledger[swap_id as int].deposit.depositor.payable() {
            Some(Error::InvalidArgument)
        } else {
            None
        }
    }

    /// Whether `later` can follow this vault: the ledger only grows, no
    /// recorded deposit changes, and no paid-out deposit is locked again.
    pub open spec fn evolves_to(self, later: VaultView) -> bool {
        &&& self.ledger.len() <= later.ledger.len()
        &&& forall|i: int|
            0 <= i < self.ledger.len() ==> {
                &&& (#[trigger] later.ledger[i]).deposit == self.ledger[i].deposit
                &&& self.ledger[i].released ==> later.ledger[i].released
            }
    }
}

/// One call to the vault, with everything that its outcome depends on:
/// what the host tells, the arguments, and for a call that moves value,
/// whether the custody transfer went through.
pub enum Call {
    Deposit {
        env: CallContext,
        to_chain: Seq<char>,
        token: Address,
        recipient: Seq<char>,
        amount: nat,
        moved: bool,
    },
    Release { env: CallContext, swap_id: u64, recipient: Address, amount: nat, moved: bool },
    Refund { env: CallContext, swap_id: u64, moved: bool },
    SetTimeout { caller: Address, timeout_ms: u64 },
    AddRelayer { caller: Address, relayer: Address },
    RemoveRelayer { caller: Address, relayer: Address },
}

/// The id that a release or a refund is about, and 0 for any other call.
pub open spec fn swap_id_of(call: Call) -> u64 {
    match call {
        Call::Release { env, swap_id, recipient, amount, moved } => swap_id,
        Call::Refund { env, swap_id, moved } => swap_id,
        _ => 0,
    }
}

impl VaultView {
    /// The error that `call` returns on this vault, if it fails.
    pub open spec fn failure_of(self, call: Call) -> Option<Error> {
        match call {
            Call::Deposit { env, to_chain, token, recipient, amount, moved } => failure(
                deposit_refusal(env, to_chain, recipient, amount),
                moved,
            ),
            Call::Release { env, swap_id, recipient, amount, moved } => failure(
                self.release_refusal(env.caller, swap_id, recipient, amount),
                moved,
            ),
            Call::Refund { env, swap_id, moved } => failure(
                self.refund_refusal(env, swap_id),
                moved,
            ),
            Call::SetTimeout { caller, timeout_ms } => self.verdict(caller).err(),
            Call::AddRelayer { caller, relayer } => self.verdict(caller).err(),
            Call::RemoveRelayer { caller, relayer } => self.verdict(caller).err(),
        }
    }

    /// The vault after `call`: a call that fails changes nothing.
    pub open spec fn after(self, call: Call) -> VaultView {
        if self.failure_of(call) is Some {
            self
        } else {
            match call {
                Call::Deposit { env, to_chain, token, recipient, amount, moved } => {
                    self.with_deposit(recorded(env, to_chain, token, recipient, amount))
                },
                Call::Release { env, swap_id, recipient, amount, moved } => self.finalize(swap_id),
                Call::Refund { env, swap_id, moved } => self.finalize(swap_id),
                Call::SetTimeout { caller, timeout_ms } => self.with_timeout(timeout_ms),
                Call::AddRelayer { caller, relayer } => self.with_relayer(relayer),
                Call::RemoveRelayer { caller, relayer } => self.without_relayer(relayer),
            }
        }
    }

    /// The vault after a sequence of calls, made one after the other.
    pub open spec fn after_all(self, calls: Seq<Call>) -> VaultView
        decreases calls.len(),
    {
        if calls.len() == 0 {
            self
        } else {
            self.after_all(calls.drop_last()).after(calls.last())
        }
    }
}

/// One line of the ledger: a deposit and whether it was paid out.
#[derive(Clone, Debug)]
pub struct LedgerEntry {
    pub deposit: Deposit,
    pub released: bool,
}

impl View for LedgerEntry {
    type V = EntryView;

    open spec fn view(&self) -> EntryView {
        EntryView { deposit: self.deposit@, released: self.released }
    }
}

/// The escrow vault.
pub struct LockVault {
    ledger: Vec<LedgerEntry>,
    controller: Address,
    relayers: AddressSet,
    timeout_ms: u64,
}

impl View for LockVault {
    type V = VaultView;

    closed spec fn view(&self) -> VaultView {
        VaultView {
            ledger: self.ledger@.map_values(|e: LedgerEntry| e@),
            relayers: self.relayers@,
            controller: self.controller,
            timeout_ms: self.timeout_ms,
        }
    }
}

impl LockVault {
    /// An empty vault under `controller`, with the default timeout and no
    /// relayers. The first deposit gets the id 0.
    pub fn init(controller: Address) -> (vault: LockVault)
        ensures
            vault@ == (VaultView {
                ledger: Seq::empty(),
                relayers: Set::empty(),
                controller,
                timeout_ms: DEFAULT_TIMEOUT_MS,
            }),
            vault@.wf(),
    {
        let vault = LockVault {
            ledger: Vec::new(),
            controller,
            relayers: AddressSet::new(),
            timeout_ms: DEFAULT_TIMEOUT_MS,
        };
        assert(vault@.ledger =~= Seq::empty());
        vault
    }

    /// The vault with the given configuration, relayers and ledger, as it
    /// was stored. The place of an entry on the ledger is its id.
    pub fn restore(
        controller: Address,
        timeout_ms: u64,
        relayers: Vec<Address>,
        ledger: Vec<LedgerEntry>,
    ) -> (vault: LockVault)
        ensures
            vault@ == (VaultView {
                ledger: ledger@.map_values(|e: LedgerEntry| e@),
                relayers: relayers@.to_set(),
                controller,
                timeout_ms,
            }),
    {
        LockVault { ledger, controller, relayers: AddressSet::from_vec(relayers), timeout_ms }
    }

    /// The controller, the timeout, the relayers and the ledger, for
    /// storing.
    pub fn into_parts(self) -> (parts: (Address, u64, Vec<Address>, Vec<LedgerEntry>))
        ensures
            self@ == (VaultView {
                ledger: parts.3@.map_values(|e: LedgerEntry| e@),
                relayers: parts.2@.to_set(),
                controller: parts.0,
                timeout_ms: parts.1,
            }),
    {
        (self.controller, self.timeout_ms, self.relayers.into_vec(), self.ledger)
    }

    /// The id that the next deposit gets: the number of deposits so far.
    pub fn next_swap_id(&self) -> (id: u64)
        ensures
            id == self@.ledger.len(),
    {
        self.ledger.len() as u64
    }

    /// The refund timeout in milliseconds.
    pub fn timeout_ms(&self) -> (t: u64)
        ensures
            t == self@.timeout_ms,
    {
        self.timeout_ms
    }

    /// The principal that may change the relayer set and the timeout.
    pub fn controller(&self) -> (c: Address)
        ensures
            c == self@.controller,
    {
        self.controller
    }

    /// Whether `relayer` may release. An unknown principal may not.
    pub fn is_relayer(&self, relayer: Address) -> (r: bool)
        ensures
            r == self@.relayers.contains(relayer),
    {
        self.relayers.contains(relayer)
    }

    /// The deposit recorded under `swap_id`, if there is one.
    pub fn get_deposit(&self, swap_id: u64) -> (d: Option<&Deposit>)
        ensures
            d is Some <==> self@.has(swap_id),
            d matches Some(dep) ==> dep@ == self@.ledger[swap_id as int].deposit,
    {
        if swap_id >= self.ledger.len() as u64 {
            None
        } else {
            Some(&self.ledger[swap_id as usize].deposit)
        }
    }

    /// Whether the deposit `swap_id` was released or refunded. An id without
    /// a deposit was not.
    pub fn is_released(&self, swap_id: u64) -> (r: bool)
        ensures
            r == self@.is_finalized(swap_id),
    {
        if swap_id >= self.ledger.len() as u64 {
            false
        } else {
            self.ledger[swap_id as usize].released
        }
    }

    /// Sets the refund timeout, for the controller only.
    pub fn set_timeout_ms(&mut self, caller: Address, timeout_ms: u64) -> (r: Result<(), Error>)
        ensures
            r == old(self)@.verdict(caller),
            final(self)@ == old(self)@.gated(caller, old(self)@.with_timeout(timeout_ms)),
            old(self)@.wf() ==> final(self)@.wf(),
            final(self)@ == old(self)@.after(Call::SetTimeout { caller, timeout_ms }),
            old(self)@.evolves_to(final(self)@),
    {
        if caller != self.controller {
            return Err(Error::Unauthorized);
        }
        self.timeout_ms = timeout_ms;
        Ok(())
    }

    /// Lets `relayer` release, for the controller only.
    pub fn add_relayer(&mut self, caller: Address, relayer: Address) -> (r: Result<(), Error>)
        ensures
            r == old(self)@.verdict(caller),
            final(self)@ == old(self)@.gated(caller, old(self)@.with_relayer(relayer)),
            old(self)@.wf() ==> final(self)@.wf(),
            final(self)@ == old(self)@.after(Call::AddRelayer { caller, relayer }),
            old(self)@.evolves_to(final(self)@),
    {
        if caller != self.controller {
            return Err(Error::Unauthorized);
        }
        self.relayers.insert(relayer);
        Ok(())
    }

    /// Stops `relayer` from releasing, for the controller only.
    pub fn remove_relayer(&mut self, caller: Address, relayer: Address) -> (r: Result<(), Error>)
        ensures
            r == old(self)@.verdict(caller),
            final(self)@ == old(self)@.gated(caller, old(self)@.without_relayer(relayer)),
            old(self)@.wf() ==> final(self)@.wf(),
            final(self)@ == old(self)@.after(Call::RemoveRelayer { caller, relayer }),
            old(self)@.evolves_to(final(self)@),
    {
        if caller != self.controller {
            return Err(Error::Unauthorized);
        }
        self.relayers.remove(relayer);
        Ok(())
    }

    /// Checks a deposit and names the transfer that has to bring its value
    /// into custody. Nothing is recorded yet.
    pub fn deposit_transfer(
        env: &CallContext,
        to_chain: &String,
        recipient: &String,
        amount: U256,
    ) -> (r: Result<Transfer, Error>)
        ensures
            r == (match deposit_refusal(*env, to_chain@, recipient@, amount@) {
                Some(e) => Err::<Transfer, Error>(e),
                None => Ok(Transfer::IntoCustody { from: env.caller, amount: amount@ as u64 }),
            }),
    {
        if amount.is_zero() {
            return Err(Error::InvalidAmount);
        }
        let chain_len: usize = to_chain.as_str().len();
        if chain_len == 0 || chain_len > MAX_TO_CHAIN_LEN {
            return Err(Error::InvalidArgument);
        }
        let recipient_len: usize = recipient.as_str().len();
        if recipient_len == 0 || recipient_len > MAX_RECIPIENT_LEN {
            return Err(Error::InvalidArgument);
        }
        let narrow: u64 = match amount.to_u64() {
            Some(n) => n,
            None => {
                return Err(Error::InvalidAmount);
            },
        };
        if !env.attached_value.eq_u64(narrow) {
            return Err(Error::InvalidArgument);
        }
        Ok(Transfer::IntoCustody { from: env.caller, amount: narrow })
    }

    /// Records a deposit of `amount` by the caller, bound for `recipient` on
    /// `to_chain`, and returns its id with the notification to emit. `moved`
    /// says whether the transfer named by `deposit_transfer` went through.
    /// A refused deposit, or one whose transfer failed, leaves no trace.
    pub fn deposit(
        &mut self,
        env: &CallContext,
        to_chain: String,
        token: Address,
        recipient: String,
        amount: U256,
        moved: bool,
    ) -> (r: Result<(u64, DepositInitiated), Error>)
        ensures
            match failure(deposit_refusal(*env, to_chain@, recipient@, amount@), moved) {
                Some(e) => r == Err::<(u64, DepositInitiated), Error>(e) && *final(self) == *old(
                    self,
                ),
                None => {
                    &&& r matches Ok((swap_id, event))
                    &&& swap_id == old(self)@.ledger.len()
                    &&& event@ == (DepositInitiatedView {
                        swap_id,
                        depositor: env.caller,
                        amount: amount@,
                        to_chain: to_chain@,
                        recipient: recipient@,
                        token,
                    })
                    &&& final(self)@ == old(self)@.with_deposit(
                        recorded(*env, to_chain@, token, recipient@, amount@),
                    )
                },
            },
            old(self)@.wf() ==> final(self)@.wf(),
            final(self)@ == old(self)@.after(
                Call::Deposit {
                    env: *env,
                    to_chain: to_chain@,
                    token,
                    recipient: recipient@,
                    amount: amount@,
                    moved,
                },
            ),
            old(self)@.evolves_to(final(self)@),
    {
        match Self::deposit_transfer(env, &to_chain, &recipient, amount) {
            Err(e) => {
                return Err(e);
            },
            Ok(_) => {},
        }
        if !moved {
            return Err(Error::TransferFailed);
        }
        let swap_id: u64 = self.ledger.len() as u64;
        let event = DepositInitiated {
            swap_id,
            depositor: env.caller,
            amount,
            to_chain: to_chain.clone(),
            recipient: recipient.clone(),
            token,
        };
        let deposit = Deposit {
            depositor: env.caller,
            amount,
            to_chain,
            recipient,
            token,
            deposit_time_ms: env.block_time_ms,
        };
        self.ledger.push(LedgerEntry { deposit, released: false });
        proof {
            let written = recorded(*env, event.to_chain@, token, event.recipient@, amount@);
            assert(self@.ledger =~= old(self)@.with_deposit(written).ledger);
            lemma_recording_evolves(old(self)@, written);
        }
        Ok((swap_id, event))
    }

    /// Checks a release and names the transfer that has to pay it out of
    /// custody. Nothing is recorded yet.
    pub fn release_transfer(
        &self,
        env: &CallContext,
        swap_id: u64,
        recipient: Address,
        amount: U256,
    ) -> (r: Result<Transfer, Error>)
        ensures
            r == (match self@.release_refusal(env.caller, swap_id, recipient, amount@) {
                Some(e) => Err::<Transfer, Error>(e),
                None => Ok(Transfer::OutOfCustody { to: recipient, amount: amount@ as u64 }),
            }),
    {
        if !self.relayers.contains(env.caller) {
            return Err(Error::Unauthorized);
        }
        if amount.is_zero() {
            return Err(Error::InvalidAmount);
        }
        if swap_id >= self.ledger.len() as u64 {
            return Err(Error::DepositNotFound);
        }
        if self.ledger[swap_id as usize].released {
            return Err(Error::AlreadyFinalized);
        }
        let narrow: u64 = match amount.to_u64() {
            Some(n) => n,
            None => {
                return Err(Error::TransferFailed);
            },
        };
        if recipient.as_account_hash().is_none() {
            return Err(Error::InvalidArgument);
        }
        Ok(Transfer::OutOfCustody { to: recipient, amount: narrow })
    }

    /// Pays the deposit `swap_id` out to `recipient`, on the word of a
    /// relayer, and returns the notification to emit. `moved` says whether
    /// the transfer named by `release_transfer` went through. Amount and
    /// recipient are the relayer's: the vault does not hold them against the
    /// deposit. A refused release, or one whose transfer failed, changes
    /// nothing.
    pub fn release(
        &mut self,
        env: &CallContext,
        swap_id: u64,
        recipient: Address,
        amount: U256,
        moved: bool,
    ) -> (r: Result<ReleaseExecuted, Error>)
        ensures
            match failure(
                old(self)@.release_refusal(env.caller, swap_id, recipient, amount@),
                moved,
            ) {
                Some(e) => r == Err::<ReleaseExecuted, Error>(e) && *final(self) == *old(self),
                None => {
                    &&& r == Ok::<ReleaseExecuted, Error>(
                        ReleaseExecuted { swap_id, recipient, amount },
                    )
                    &&& final(self)@ == old(self)@.finalize(swap_id)
                },
            },
            old(self)@.wf() ==> final(self)@.wf(),
            final(self)@ == old(self)@.after(
                Call::Release { env: *env, swap_id, recipient, amount: amount@, moved },
            ),
            old(self)@.evolves_to(final(self)@),
    {
        match self.release_transfer(env, swap_id, recipient, amount) {
            Err(e) => {
                return Err(e);
            },
            Ok(_) => {},
        }
        if !moved {
            return Err(Error::TransferFailed);
        }
        assert(self@.has(swap_id) && self.ledger@.len() == self.ledger.len());
        self.ledger[swap_id as usize].released = true;
        proof {
            assert(self@.ledger =~= old(self)@.finalize(swap_id).ledger);
            lemma_payout_evolves(old(self)@, swap_id);
        }
        Ok(ReleaseExecuted { swap_id, recipient, amount })
    }

    /// Checks a refund and names the transfer that has to pay the deposit
    /// back out of custody. Nothing is recorded yet.
    pub fn refund_transfer(&self, env: &CallContext, swap_id: u64) -> (r: Result<Transfer, Error>)
        ensures
            r == (match self@.refund_refusal(*env, swap_id) {
                Some(e) => Err::<Transfer, Error>(e),
                None => Ok(
                    Transfer::OutOfCustody {
                        to: self@.ledger[swap_id as int].deposit.depositor,
                        amount: self@.ledger[swap_id as int].deposit.amount as u64,
                    },
                ),
            }),
    {
        if swap_id >= self.ledger.len() as u64 {
            return Err(Error::DepositNotFound);
        }
        let entry = &self.ledger[swap_id as usize];
        if entry.released {
            return Err(Error::AlreadyFinalized);
        }
        if env.block_time_ms < entry.deposit.deposit_time_ms.saturating_add(self.timeout_ms) {
            return Err(Error::TooEarly);
        }
        if env.caller != entry.deposit.depositor {
            return Err(Error::Unauthorized);
        }
        let narrow: u64 = match entry.deposit.amount.to_u64() {
            Some(n) => n,
            None => {
                return Err(Error::TransferFailed);
            },
        };
        if entry.deposit.depositor.as_account_hash().is_none() {
            return Err(Error::InvalidArgument);
        }
        Ok(Transfer::OutOfCustody { to: entry.deposit.depositor, amount: narrow })
    }

    /// Pays the deposit `swap_id` back to its depositor once the timeout has
    /// elapsed, and returns the notification to emit. `moved` says whether
    /// the transfer named by `refund_transfer` went through. A refused
    /// refund, or one whose transfer failed, changes nothing.
    pub fn refund(&mut self, env: &CallContext, swap_id: u64, moved: bool) -> (r: Result<
        RefundExecuted,
        Error,
    >)
        ensures
            match failure(old(self)@.refund_refusal(*env, swap_id), moved) {
                Some(e) => r == Err::<RefundExecuted, Error>(e) && *final(self) == *old(self),
                None => {
                    &&& r matches Ok(event)
                    &&& event.swap_id == swap_id
                    &&& event.recipient == old(self)@.ledger[swap_id as int].deposit.depositor
                    &&& event.amount@ == old(self)@.ledger[swap_id as int].deposit.amount
                    &&& final(self)@ == old(self)@.finalize(swap_id)
                },
            },
            old(self)@.wf() ==> final(self)@.wf(),
            final(self)@ == old(self)@.after(Call::Refund { env: *env, swap_id, moved }),
            old(self)@.evolves_to(final(self)@),
    {
        match self.refund_transfer(env, swap_id) {
            Err(e) => {
                return Err(e);
            },
            Ok(_) => {},
        }
        if !moved {
            return Err(Error::TransferFailed);
        }
        assert(self@.has(swap_id) && self.ledger@.len() == self.ledger.len());
        let recipient = self.ledger[swap_id as usize].deposit.depositor;
        let amount = self.ledger[swap_id as usize].deposit.amount;
        self.ledger[swap_id as usize].released = true;
        proof {
            assert(self@.ledger =~= old(self)@.finalize(swap_id).ledger);
            lemma_payout_evolves(old(self)@, swap_id);
        }
        Ok(RefundExecuted { swap_id, recipient, amount })
    }
}

/// A vault can follow itself, and what can follow a follower can follow the
/// vault: following is a preorder.
pub proof fn lemma_evolves_preorder(a: VaultView, b: VaultView, c: VaultView)
    ensures
        a.evolves_to(a),
        a.evolves_to(b) && b.evolves_to(c) ==> a.evolves_to(c),
{
    if a.evolves_to(b) && b.evolves_to(c) {
        assert forall|i: int| 0 <= i < a.ledger.len() implies {
            &&& (#[trigger] c.ledger[i]).deposit == a.ledger[i].deposit
            &&& a.ledger[i].released ==> c.ledger[i].released
        } by {
            assert(b.ledger[i].deposit == a.ledger[i].deposit);
        }
    }
}

/// Recording a deposit leads to a vault that can follow, and a valid deposit
/// keeps every recorded deposit valid.
pub proof fn lemma_recording_evolves(v: VaultView, deposit: DepositView)
    ensures
        v.evolves_to(v.with_deposit(deposit)),
        v.wf() && deposit.valid() ==> v.with_deposit(deposit).wf(),
{
    let w = v.with_deposit(deposit);
    if v.wf() && deposit.valid() {
        assert forall|i: int| 0 <= i < w.ledger.len() implies (#[trigger] w.ledger[i])
            .deposit.valid() by {
            if i < v.ledger.len() {
                assert(v.ledger[i].deposit.valid());
            }
        }
    }
}

/// Paying a deposit out leads to a vault that can follow, and keeps every
/// recorded deposit valid.
pub proof fn lemma_payout_evolves(v: VaultView, swap_id: u64)
    requires
        v.has(swap_id),
    ensures
        v.evolves_to(v.finalize(swap_id)),
        v.finalize(swap_id).is_finalized(swap_id),
        v.wf() ==> v.finalize(swap_id).wf(),
{
    let w = v.finalize(swap_id);
    if v.wf() {
        assert forall|i: int| 0 <= i < w.ledger.len() implies (#[trigger] w.ledger[i])
            .deposit.valid() by {
            assert(v.ledger[i].deposit.valid());
        }
    }
}

/// A change that leaves the ledger alone leads to a vault that can follow,
/// and keeps every recorded deposit valid.
pub proof fn lemma_quiet_change_evolves(v: VaultView, w: VaultView)
    requires
        w.ledger == v.ledger,
    ensures
        v.evolves_to(w),
        v.wf() ==> w.wf(),
{
}

/// Every call leads to a vault that can follow, and keeps every recorded
/// deposit valid.
pub proof fn lemma_call_evolves(v: VaultView, call: Call)
    ensures
        v.evolves_to(v.after(call)),
        v.wf() ==> v.after(call).wf(),
{
    if v.failure_of(call) is None {
        match call {
            Call::Deposit { env, to_chain, token, recipient, amount, moved } => {
                lemma_recording_evolves(v, recorded(env, to_chain, token, recipient, amount));
            },
            Call::Release { env, swap_id, recipient, amount, moved } => {
                lemma_payout_evolves(v, swap_id);
            },
            Call::Refund { env, swap_id, moved } => {
                lemma_payout_evolves(v, swap_id);
            },
            Call::SetTimeout { caller, timeout_ms } => {
                lemma_quiet_change_evolves(v, v.after(call));
            },
            Call::AddRelayer { caller, relayer } => {
                lemma_quiet_change_evolves(v, v.after(call));
            },
            Call::RemoveRelayer { caller, relayer } => {
                lemma_quiet_change_evolves(v, v.after(call));
            },
        }
    }
}

/// Every sequence of calls leads to a vault that can follow, and keeps every
/// recorded deposit valid: the ledger only grows, no recorded deposit ever
/// changes, and no paid-out deposit is ever locked again.
pub proof fn lemma_calls_evolve(v: VaultView, calls: Seq<Call>)
    ensures
        v.evolves_to(v.after_all(calls)),
        v.wf() ==> v.after_all(calls).wf(),
    decreases calls.len(),
{
    if calls.len() > 0 {
        let mid = v.after_all(calls.drop_last());
        lemma_calls_evolve(v, calls.drop_last());
        lemma_call_evolves(mid, calls.last());
        lemma_evolves_preorder(v, mid, mid.after(calls.last()));
    }
}

/// Ids across any sequence of calls. A deposit that succeeds gets the number
/// of deposits so far as its id. Whatever calls follow it, a later deposit
/// that succeeds gets a larger id, and the earlier deposit still stands on
/// the ledger under its own id as it was recorded.
pub proof fn lemma_ids_unique_across_calls(
    v: VaultView,
    first: Call,
    between: Seq<Call>,
    second: Call,
)
    requires
        first is Deposit,
        second is Deposit,
        v.failure_of(first) is None,
        v.after(first).after_all(between).failure_of(second) is None,
    ensures
        ({
            let first_id = v.ledger.len() as int;
            let later = v.after(first).after_all(between);
            let second_id = later.ledger.len() as int;
            &&& first_id < second_id
            &&& later.after(second).ledger.len() == second_id + 1
            &&& later.after(second).ledger[first_id].deposit == v.after(
                first,
            ).ledger[first_id].deposit
        }),
{
    let later = v.after(first).after_all(between);
    lemma_calls_evolve(v.after(first), between);
    lemma_call_evolves(later, second);
    lemma_evolves_preorder(v.after(first), later, later.after(second));
    assert(v.after(first).ledger.len() == v.ledger.len() + 1);
}

/// Exactly one payout across any sequence of calls. Once a release or a
/// refund of a deposit has succeeded, then whatever calls follow, every
/// later release and every later refund of that deposit fails and leaves
/// the vault as it was: a refund as already finalized, and a release as
/// already finalized unless the caller is no relayer or the amount is zero.
pub proof fn lemma_one_payout_across_calls(
    v: VaultView,
    payout: Call,
    between: Seq<Call>,
    again: Call,
)
    requires
        payout is Release || payout is Refund,
        again is Release || again is Refund,
        v.failure_of(payout) is None,
        swap_id_of(again) == swap_id_of(payout),
    ensures
        ({
            let later = v.after(payout).after_all(between);
            &&& later.failure_of(again) is Some
            &&& later.after(again) == later
            &&& again is Refund ==> later.failure_of(again) == Some(Error::AlreadyFinalized)
            &&& again matches Call::Release { env, swap_id, recipient, amount, moved } ==> {
                later.relayers.contains(env.caller) && 0 < amount ==> later.failure_of(again)
                    == Some(Error::AlreadyFinalized)
            }
        }),
{
    let swap_id = swap_id_of(payout);
    let later = v.after(payout).after_all(between);
    assert(v.has(swap_id));
    assert(v.after(payout) == v.finalize(swap_id));
    lemma_calls_evolve(v.finalize(swap_id), between);
    assert(v.finalize(swap_id).ledger[swap_id as int].released);
    assert(later.ledger[swap_id as int].released);
}

/// Allowing and stopping a relayer are idempotent: doing either twice leaves
/// what doing it once left, and neither touches the ledger, the timeout or
/// the controller.
pub proof fn lemma_relayer_changes_idempotent(v: VaultView, relayer: Address)
    ensures
        v.with_relayer(relayer).relayers.contains(relayer),
        v.with_relayer(relayer).with_relayer(relayer) == v.with_relayer(relayer),
        !v.without_relayer(relayer).relayers.contains(relayer),
        v.without_relayer(relayer).without_relayer(relayer) == v.without_relayer(relayer),
        v.evolves_to(v.with_relayer(relayer)),
        v.evolves_to(v.without_relayer(relayer)),
{
    assert(v.relayers.insert(relayer).insert(relayer) =~= v.relayers.insert(relayer));
    assert(v.relayers.remove(relayer).remove(relayer) =~= v.relayers.remove(relayer));
}

/// Ids are unique and strictly increasing: a deposit gets the number of
/// deposits before it as its id, so the first gets 0, and whatever happens
/// between two deposits, the later one gets the larger id and finds the
/// earlier one on the ledger as it was recorded.
pub proof fn lemma_swap_ids_increase(
    before: VaultView,
    first: DepositView,
    between: VaultView,
    second: DepositView,
)
    requires
        before.with_deposit(first).evolves_to(between),
    ensures
        before.ledger.len() < between.ledger.len(),
        between.with_deposit(second).ledger[before.ledger.len() as int].deposit == first,
        between.with_deposit(second).ledger[between.ledger.len() as int].deposit == second,
{
    let id = before.ledger.len() as int;
    assert(before.with_deposit(first).ledger[id].deposit == first);
    assert(between.ledger[id].deposit == first);
}

/// A deposit is paid out at most once. Once a release or a refund has
/// succeeded for an id, then whatever happens in between, every later refund
/// of that id is refused as already finalized, and every later release of
/// it is refused: as already finalized when a relayer asks with a nonzero
/// amount, and for the caller or the amount otherwise. A refused call moves
/// no value and changes nothing.
pub proof fn lemma_payout_at_most_once(
    v: VaultView,
    swap_id: u64,
    later: VaultView,
    env: CallContext,
    recipient: Address,
    amount: nat,
    moved: bool,
)
    requires
        v.has(swap_id),
        v.finalize(swap_id).evolves_to(later),
    ensures
        v.finalize(swap_id).is_finalized(swap_id),
        later.is_finalized(swap_id),
        failure(later.refund_refusal(env, swap_id), moved) == Some(Error::AlreadyFinalized),
        failure(later.release_refusal(env.caller, swap_id, recipient, amount), moved) is Some,
        later.relayers.contains(env.caller) && amount > 0 ==> failure(
            later.release_refusal(env.caller, swap_id, recipient, amount),
            moved,
        ) == Some(Error::AlreadyFinalized),
{
    assert(v.finalize(swap_id).ledger[swap_id as int].released);
    assert(later.ledger[swap_id as int].released);
}

/// The refund timeout. For a locked, valid deposit and its depositor, being an
/// account, a refund is refused as too early at every time before the
/// deposit time plus the timeout, and passes at that time and at every later
/// one, where it succeeds if the transfer goes through. Refunds never open
/// before the deposit time, and where the sum does not fit the clock they
/// open at the clock's last value.
pub proof fn lemma_refund_timeout(v: VaultView, env: CallContext, swap_id: u64, moved: bool)
    requires
        v.is_locked(swap_id),
        v.ledger[swap_id as int].deposit.valid(),
        env.caller == v.ledger[swap_id as int].deposit.depositor,
        env.caller.payable(),
    ensures
        ({
            let d = v.ledger[swap_id as int].deposit;
            let opens = refund_opens_at(d.deposit_time_ms, v.timeout_ms);
            &&& opens >= d.deposit_time_ms
            &&& opens == if d.deposit_time_ms + v.timeout_ms <= u64::MAX {
                d.deposit_time_ms + v.timeout_ms
            } else {
                u64::MAX as int
            }
            &&& env.block_time_ms < opens ==> failure(v.refund_refusal(env, swap_id), moved)
                == Some(Error::TooEarly)
            &&& env.block_time_ms >= opens ==> v.refund_refusal(env, swap_id) is None
            &&& env.block_time_ms >= opens && moved ==> failure(
                v.refund_refusal(env, swap_id),
                moved,
            ) is None
        }),
{
}

/// Only a relayer can release: whatever the deposit's state and the other
/// arguments, a release by anyone else is refused as unauthorized.
pub proof fn lemma_release_needs_relayer(
    v: VaultView,
    caller: Address,
    swap_id: u64,
    recipient: Address,
    amount: nat,
    moved: bool,
)
    requires
        !v.relayers.contains(caller),
    ensures
        failure(v.release_refusal(caller, swap_id, recipient, amount), moved) == Some(
            Error::Unauthorized,
        ),
{
}

/// Only the depositor can refund: for a locked deposit whose timeout has
/// elapsed, a refund by anyone else is refused as unauthorized; and no
/// refund ever passes for another caller.
pub proof fn lemma_refund_needs_depositor(v: VaultView, env: CallContext, swap_id: u64, moved: bool)
    ensures
        v.is_locked(swap_id) && env.block_time_ms >= refund_opens_at(
            v.ledger[swap_id as int].deposit.deposit_time_ms,
            v.timeout_ms,
        ) && env.caller != v.ledger[swap_id as int].deposit.depositor ==> failure(
            v.refund_refusal(env, swap_id),
            moved,
        ) == Some(Error::Unauthorized),
        failure(v.refund_refusal(env, swap_id), moved) is None ==> v.is_locked(swap_id)
            && env.caller == v.ledger[swap_id as int].deposit.depositor,
{
}

/// The string bounds of a deposit. With a nonzero amount that fits the
/// custody transfer and is attached in full, a deposit passes exactly when
/// the chain identifier has 1 to 32 bytes and the recipient 1 to 128, and is
/// refused as an invalid argument otherwise. What passes is a valid deposit.
pub proof fn lemma_deposit_bounds(
    env: CallContext,
    to_chain: Seq<char>,
    recipient: Seq<char>,
    token: Address,
    amount: nat,
)
    requires
        0 < amount < pow2_64(),
        env.attached_value@ == amount,
    ensures
        deposit_refusal(env, to_chain, recipient, amount) == (if 1 <= byte_len(to_chain)
            <= MAX_TO_CHAIN_LEN && 1 <= byte_len(recipient) <= MAX_RECIPIENT_LEN {
            None
        } else {
            Some(Error::InvalidArgument)
        }),
        deposit_refusal(env, to_chain, recipient, amount) is None ==> recorded(
            env,
            to_chain,
            token,
            recipient,
            amount,
        ).valid(),
{
}

} // verus!
