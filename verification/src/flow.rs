//! Credit-based flow control of one stream.
//!
//! A sender reserves credit before it transmits; the peer grants credit as it drains what it
//! received. So a stream never has more unacknowledged bytes in flight than its window, and one
//! slow stream cannot fill the receiver's buffer.

use tokio::sync::{Semaphore, TryAcquireError};
use vstd::prelude::*;

verus! {

/// Credit that a stream direction starts with unless told otherwise, in bytes.
pub const DEFAULT_WINDOW: usize = 262_144;

/// Most credit that a pool can hold.
pub open spec fn max_credit() -> nat {
    usize::MAX as nat / 8
}

/// `tokio::sync::Semaphore`, whose permits are bytes of credit.
#[verifier::external_type_specification]
#[verifier::external_body]
pub struct ExSemaphore(Semaphore);

/// The permits that a semaphore holds.
pub uninterp spec fn permits_of(semaphore: Semaphore) -> nat;

/// Whether a semaphore was closed.
pub uninterp spec fn closed_of(semaphore: Semaphore) -> bool;

/// `Semaphore::MAX_PERMITS` is an eighth of the largest `usize`, rounded down.
#[verifier::external_body]
fn max_permits() -> (most: usize)
    ensures
        most == max_credit(),
{
    Semaphore::MAX_PERMITS
}

/// `Semaphore::new` makes an open semaphore with the given permits. It panics on more than the
/// maximum.
#[verifier::external_body]
fn new_semaphore(permits: usize) -> (semaphore: Semaphore)
    requires
        permits <= max_credit(),
    ensures
        permits_of(semaphore) == permits,
        !closed_of(semaphore),
{
    Semaphore::new(permits)
}

/// `Semaphore::available_permits` tells the permits, which never exceed the maximum.
#[verifier::external_body]
fn available_permits(semaphore: &Semaphore) -> (permits: usize)
    ensures
        permits == permits_of(*semaphore),
        permits <= max_credit(),
{
    semaphore.available_permits()
}

/// `Semaphore::is_closed` tells whether the semaphore was closed.
#[verifier::external_body]
fn is_closed(semaphore: &Semaphore) -> (closed: bool)
    ensures
        closed == closed_of(*semaphore),
{
    semaphore.is_closed()
}

/// `Semaphore::try_acquire_many` takes `n` permits, which are then forgotten, if the semaphore is
/// open and holds as many; else it takes none. It panics on more than the maximum. Exclusive
/// access leaves no one waiting on the semaphore.
#[verifier::external_body]
fn try_acquire_many(semaphore: &mut Semaphore, n: u32) -> (outcome: Reservation)
    requires
        n <= max_credit(),
    ensures
        closed_of(*final(semaphore)) == closed_of(*old(semaphore)),
        outcome == (if closed_of(*old(semaphore)) {
            Reservation::Closed
        } else if permits_of(*old(semaphore)) < n {
            Reservation::Pending
        } else {
            Reservation::Reserved
        }),
        permits_of(*final(semaphore)) == (if outcome == Reservation::Reserved {
            (permits_of(*old(semaphore)) - n) as nat
        } else {
            permits_of(*old(semaphore))
        }),
{
    match semaphore.try_acquire_many(n) {
        Ok(permit) => {
            permit.forget();
            Reservation::Reserved
        },
        Err(TryAcquireError::Closed) => Reservation::Closed,
        Err(TryAcquireError::NoPermits) => Reservation::Pending,
    }
}

/// `Semaphore::forget_permits` takes `n` permits away, or all there are if there are fewer, from a
/// closed semaphore too, and tells how many it took.
#[verifier::external_body]
fn forget_permits(semaphore: &mut Semaphore, n: usize) -> (taken: usize)
    ensures
        taken == (if permits_of(*old(semaphore)) < n {
            permits_of(*old(semaphore))
        } else {
            n as nat
        }),
        permits_of(*final(semaphore)) == permits_of(*old(semaphore)) - taken,
        closed_of(*final(semaphore)) == closed_of(*old(semaphore)),
{
    semaphore.forget_permits(n)
}

/// `Semaphore::add_permits` adds `n` permits, to a closed semaphore too. It panics where the
/// maximum would be exceeded. Exclusive access leaves no one waiting on the semaphore.
#[verifier::external_body]
fn add_permits(semaphore: &mut Semaphore, n: usize)
    requires
        permits_of(*old(semaphore)) + n <= max_credit(),
    ensures
        permits_of(*final(semaphore)) == permits_of(*old(semaphore)) + n,
        closed_of(*final(semaphore)) == closed_of(*old(semaphore)),
{
    semaphore.add_permits(n)
}

/// `Semaphore::close` closes the semaphore for good and keeps its permits.
#[verifier::external_body]
fn close_semaphore(semaphore: &mut Semaphore)
    ensures
        closed_of(*final(semaphore)),
        permits_of(*final(semaphore)) == permits_of(*old(semaphore)),
{
    semaphore.close()
}

/// What came of an attempt to reserve credit.
#[derive(Clone, Copy, Debug, PartialEq, Eq, Structural)]
pub enum Reservation {
    /// The credit was consumed: send.
    Reserved,
    /// There is not enough credit yet: wait for a grant or for the close.
    Pending,
    /// The pool was closed: stop sending.
    Closed,
}

/// The state of a credit pool.
pub struct CreditState {
    /// Bytes that may be reserved.
    pub available: nat,
    /// Whether the pool was closed.
    pub closed: bool,
}

impl CreditState {
    /// What comes of reserving `n` bytes.
    pub open spec fn reservation(self, n: nat) -> Reservation {
        if self.closed {
            Reservation::Closed
        } else if n <= self.available {
            Reservation::Reserved
        } else {
            Reservation::Pending
        }
    }

    /// The state after an attempt to reserve `n` bytes.
    pub open spec fn after_reserve(self, n: nat) -> CreditState {
        if self.reservation(n) == Reservation::Reserved {
            CreditState { available: (self.available - n) as nat, closed: self.closed }
        } else {
            self
        }
    }

    /// The state after a grant of `n` bytes.
    pub open spec fn after_grant(self, n: nat) -> CreditState {
        let sum = self.available + n;
        CreditState {
            available: if sum <= max_credit() {
                sum
            } else {
                max_credit()
            },
            closed: self.closed,
        }
    }

    /// The state after the pool is closed.
    pub open spec fn after_close(self) -> CreditState {
        CreditState { available: self.available, closed: true }
    }
}

/// Send-side flow-control credit of one stream direction.
#[derive(Debug)]
pub struct SendCredit {
    semaphore: Semaphore,
}

impl View for SendCredit {
    type V = CreditState;

    closed spec fn view(&self) -> CreditState {
        CreditState {
            available: permits_of(self.semaphore),
            closed: closed_of(self.semaphore),
        }
    }
}

impl SendCredit {
    /// A fresh pool with the default window.
    pub fn new() -> (credit: Self)
        ensures
            credit@ == (CreditState { available: DEFAULT_WINDOW as nat, closed: false }),
            credit@.available == 262_144,
    {
        SendCredit::with_window(DEFAULT_WINDOW)
    }

    /// A fresh pool with `window` bytes of credit.
    pub fn with_window(window: usize) -> (credit: Self)
        requires
            window <= max_credit(),
        ensures
            credit@ == (CreditState { available: window as nat, closed: false }),
    {
        SendCredit { semaphore: new_semaphore(window) }
    }

    /// Consumes `n` bytes of credit if there are as many. A closed pool turns every sender away,
    /// also one that asks for nothing; an open one never keeps such a sender waiting.
    ///
    /// A sender that finds its reservation pending tries again after the next grant or the close.
    pub fn reserve(&mut self, n: usize) -> (outcome: Reservation)
        ensures
            outcome == old(self)@.reservation(n as nat),
            final(self)@ == old(self)@.after_reserve(n as nat),
    {
        if is_closed(&self.semaphore) {
            return Reservation::Closed;
        }
        if n == 0 {
            return Reservation::Reserved;
        }
        if available_permits(&self.semaphore) < n {
            return Reservation::Pending;
        }
        if n <= u32::MAX as usize {
            try_acquire_many(&mut self.semaphore, n as u32)
        } else {
            forget_permits(&mut self.semaphore, n);
            Reservation::Reserved
        }
    }

    /// Replenishes `n` bytes of credit, which the peer has drained, up to the most that a pool can
    /// hold.
    pub fn grant(&mut self, n: usize)
        ensures
            old(self)@.available <= max_credit(),
            final(self)@ == old(self)@.after_grant(n as nat),
    {
        let room: usize = max_permits() - available_permits(&self.semaphore);
        let added: usize = if n <= room {
            n
        } else {
            room
        };
        add_permits(&mut self.semaphore, added);
    }

    /// Closes the pool for good.
    pub fn close(&mut self)
        ensures
            final(self)@ == old(self)@.after_close(),
    {
        close_semaphore(&mut self.semaphore);
    }
}

impl Default for SendCredit {
    /// A fresh pool with the default window.
    fn default() -> (credit: Self)
        ensures
            credit@ == (CreditState { available: DEFAULT_WINDOW as nat, closed: false }),
            credit@.available == 262_144,
    {
        SendCredit::new()
    }
}

/// One operation on a pool.
pub enum CreditOp {
    Reserve(nat),
    Grant(nat),
    Close,
}

/// The state of a pool that began with `window` bytes, after the given operations.
pub open spec fn state_after(window: nat, ops: Seq<CreditOp>) -> CreditState
    decreases ops.len(),
{
    if ops.len() == 0 {
        CreditState { available: window, closed: false }
    } else {
        let before = state_after(window, ops.drop_last());
        match ops.last() {
            CreditOp::Reserve(n) => before.after_reserve(n),
            CreditOp::Grant(n) => before.after_grant(n),
            CreditOp::Close => before.after_close(),
        }
    }
}

/// The bytes that the given operations let the sender transmit.
pub open spec fn bytes_sent(window: nat, ops: Seq<CreditOp>) -> nat
    decreases ops.len(),
{
    if ops.len() == 0 {
        0
    } else {
        let before = state_after(window, ops.drop_last());
        bytes_sent(window, ops.drop_last()) + match ops.last() {
            CreditOp::Reserve(n) => if before.reservation(n) == Reservation::Reserved {
                n
            } else {
                0
            },
            _ => 0,
        }
    }
}

/// The bytes that the peer has acknowledged by granting them back.
pub open spec fn bytes_granted(ops: Seq<CreditOp>) -> nat
    decreases ops.len(),
{
    if ops.len() == 0 {
        0
    } else {
        bytes_granted(ops.drop_last()) + match ops.last() {
            CreditOp::Grant(n) => n,
            _ => 0,
        }
    }
}

/// However reservations, grants and closes follow one another, the bytes sent and not yet
/// acknowledged never exceed the window. As long as the grants fit the pool, what is left of the
/// credit is exactly the rest of the window.
pub proof fn law_in_flight_stays_within_window(window: nat, ops: Seq<CreditOp>)
    requires
        window <= max_credit(),
    ensures
        bytes_sent(window, ops) - bytes_granted(ops) <= window,
        window + bytes_granted(ops) <= max_credit() ==> state_after(window, ops).available
            == window - (bytes_sent(window, ops) - bytes_granted(ops)),
        state_after(window, ops).available <= max_credit(),
{
    lemma_credit_accounting(window, ops);
}

proof fn lemma_credit_accounting(window: nat, ops: Seq<CreditOp>)
    requires
        window <= max_credit(),
    ensures
        state_after(window, ops).available + bytes_sent(window, ops) <= window + bytes_granted(ops),
        window + bytes_granted(ops) <= max_credit() ==> state_after(window, ops).available
            + bytes_sent(window, ops) == window + bytes_granted(ops),
        state_after(window, ops).available <= max_credit(),
    decreases ops.len(),
{
    if ops.len() > 0 {
        lemma_credit_accounting(window, ops.drop_last());
    }
}

/// A fresh pool allows exactly its window, then makes every sender wait.
pub proof fn law_fresh_pool_allows_exactly_its_window(window: nat, n: nat, more: nat)
    requires
        n > 0,
        more > 0,
    ensures
        ({
            let fresh = CreditState { available: window, closed: false };
            &&& fresh.reservation(n) == Reservation::Reserved <==> n <= window
            &&& fresh.after_reserve(window).reservation(more) == Reservation::Pending
        }),
{
}

/// Granting back what was reserved undoes the reservation, and a grant of nothing changes nothing.
pub proof fn law_grant_undoes_reservation(state: CreditState, n: nat)
    requires
        state.available <= max_credit(),
        state.reservation(n) == Reservation::Reserved,
    ensures
        state.after_reserve(n).after_grant(n) == state,
        state.after_grant(0) == state,
{
}

/// A sender that waits is let through once enough is granted.
pub proof fn law_grant_releases_waiting_sender(state: CreditState, n: nat, granted: nat)
    requires
        state.reservation(n) == Reservation::Pending,
        n <= max_credit(),
        n <= state.available + granted,
    ensures
        state.after_grant(granted).reservation(n) == Reservation::Reserved,
{
}

/// A sender that waits is turned away once the pool is closed.
pub proof fn law_close_turns_waiting_sender_away(state: CreditState, n: nat)
    requires
        state.reservation(n) == Reservation::Pending,
    ensures
        state.after_close().reservation(n) == Reservation::Closed,
{
}

/// A pool that was closed at some point stays closed: it turns every sender away, and lets no byte
/// through from then on.
pub proof fn law_closed_pool_stays_closed(window: nat, before: Seq<CreditOp>, after: Seq<CreditOp>)
    requires
        state_after(window, before).closed,
    ensures
        state_after(window, before + after).closed,
        forall|n: nat| #[trigger]
            state_after(window, before + after).reservation(n) == Reservation::Closed,
        bytes_sent(window, before + after) == bytes_sent(window, before),
    decreases after.len(),
{
    if after.len() == 0 {
        assert(before + after =~= before);
    } else {
        assert((before + after).drop_last() =~= before + after.drop_last());
        law_closed_pool_stays_closed(window, before, after.drop_last());
    }
}

/// An attempt that does not succeed, or that reserves nothing, leaves the pool as it was.
pub proof fn law_failed_reservation_costs_nothing(state: CreditState, n: nat)
    requires
        n == 0 || state.reservation(n) != Reservation::Reserved,
    ensures
        state.after_reserve(n) == state,
{
}

/// A reservation is turned away exactly on a closed pool. On an open pool it succeeds exactly if
/// the credit suffices and waits exactly if it does not, however much credit is left.
pub proof fn law_reservation_follows_from_pool(available: nat, closed: bool, n: nat)
    ensures
        ({
            let outcome = (CreditState { available, closed }).reservation(n);
            &&& outcome == Reservation::Closed <==> closed
            &&& outcome == Reservation::Reserved <==> !closed && n <= available
            &&& outcome == Reservation::Pending <==> !closed && n > available
        }),
{
}

/// A reservation moves exactly the bytes reserved out of the pool, and never opens or closes it.
pub proof fn law_reservation_takes_what_it_reserves(available: nat, closed: bool, n: nat)
    ensures
        ({
            let after = (CreditState { available, closed }).after_reserve(n);
            &&& after.closed == closed
            &&& !closed && n <= available ==> after.available + n == available
            &&& closed || n > available ==> after.available == available
        }),
{
}

/// A grant adds exactly the bytes granted, up to an eighth of the largest `usize`, and never opens
/// or closes the pool. A close changes no credit.
pub proof fn law_grant_adds_what_it_grants(available: nat, closed: bool, n: nat)
    ensures
        ({
            let after = (CreditState { available, closed }).after_grant(n);
            &&& after.closed == closed
            &&& available + n <= usize::MAX as nat / 8 ==> after.available == available + n
            &&& available + n > usize::MAX as nat / 8 ==> after.available == usize::MAX as nat / 8
        }),
        (CreditState { available, closed }).after_close().closed,
        (CreditState { available, closed }).after_close().available == available,
{
}

/// A pool with the default window lets a sender have up to 256 KiB in flight: a reservation waits
/// exactly if it would exceed them together with what was reserved before.
pub proof fn law_default_window_is_256_kib(sent: nat, n: nat)
    requires
        sent <= 256 * 1024,
    ensures
        ({
            let fresh = CreditState { available: DEFAULT_WINDOW as nat, closed: false };
            &&& fresh.reservation(sent) == Reservation::Reserved
            &&& fresh.after_reserve(sent).reservation(n) == Reservation::Pending <==> sent + n > 256
                * 1024
        }),
{
}

/// Two reservations in a row succeed together exactly if one of their sum would, and leave the
/// same pool.
pub proof fn law_reservations_add_up(state: CreditState, a: nat, b: nat)
    ensures
        ({
            &&& state.reservation(a) == Reservation::Reserved
            &&& state.after_reserve(a).reservation(b) == Reservation::Reserved
        }) <==> state.reservation(a + b) == Reservation::Reserved,
        state.reservation(a + b) == Reservation::Reserved ==> state.after_reserve(a).after_reserve(
            b,
        ) == state.after_reserve(a + b),
{
}

} // verus!
