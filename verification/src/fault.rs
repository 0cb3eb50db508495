//! Telling a watch fault from every other stop of the debuggee.

use vstd::prelude::*;
use crate::address::{align, in_page, is_page_aligned, lemma_align_within_page, Address};
use crate::watch::WatchSet;

verus! {

/// The number of the signal that the operating system delivers on a
/// disallowed memory access.
pub const PROTECTION_VIOLATION_SIGNAL: u64 = 11;

/// Why a thread of the debuggee stopped.
#[derive(Clone, Copy, Debug, PartialEq, Eq, Structural)]
pub enum StopReason {
    Invalid,
    NoReason,
    Trace,
    Breakpoint,
    Watchpoint,
    /// The thread received a signal.
    Signal,
    Exception,
    Exec,
    PlanComplete,
    ThreadExiting,
    Instrumentation,
    ProcessorTrace,
    Fork,
    VFork,
    VForkDone,
}

/// The stop state of one thread, as the engine reports it.
#[derive(Clone, Copy, Debug, PartialEq, Eq, Structural)]
pub struct ThreadStop {
    /// Why the thread stopped.
    pub reason: StopReason,
    /// The first datum of the stop reason; for a signal stop, the number of
    /// the signal.
    pub signal: u64,
    /// The address whose access faulted, where the engine has one.
    pub fault_address: Option<Address>,
}

/// Whether the stop is the delivery of the protection-violation signal. This
/// needs neither the faulting address nor the watch set.
pub open spec fn is_protection_violation(reason: StopReason, signal: u64) -> bool {
    reason == StopReason::Signal && signal == PROTECTION_VIOLATION_SIGNAL
}

/// Whether a stop is a watch fault: the thread received the
/// protection-violation signal, the engine has the faulting address, and the
/// page of that address is in `watched`.
pub open spec fn is_watch_fault(stop: ThreadStop, watched: Set<Address>) -> bool {
    &&& is_protection_violation(stop.reason, stop.signal)
    &&& stop.fault_address is Some
    &&& watched.contains(align(stop.fault_address->Some_0))
}

/// The cheap part of the classification, to be made before the faulting
/// address is fetched.
pub fn protection_violation_stop(reason: StopReason, signal: u64) -> (qualifies: bool)
    ensures
        qualifies == is_protection_violation(reason, signal),
{
    match reason {
        StopReason::Signal => signal == PROTECTION_VIOLATION_SIGNAL,
        _ => false,
    }
}

/// Classifies a stop against the watched pages. The stop reason is tested
/// first, then the signal number, and the set is consulted last. Missing data
/// never fails the classification: the stop is then no watch fault.
pub fn classify(stop: &ThreadStop, watched: &WatchSet) -> (watch_fault: bool)
    ensures
        watch_fault == is_watch_fault(*stop, watched@),
{
    if !protection_violation_stop(stop.reason, stop.signal) {
        return false;
    }
    match stop.fault_address {
        Some(address) => watched.contains(address),
        None => false,
    }
}

/// A protection violation anywhere in a watched page is a watch fault.
pub proof fn lemma_fault_in_watched_page(watched: Set<Address>, page: Address, address: Address)
    requires
        watched.contains(page),
        is_page_aligned(page),
        in_page(page, address),
    ensures
        is_watch_fault(
            ThreadStop {
                reason: StopReason::Signal,
                signal: PROTECTION_VIOLATION_SIGNAL,
                fault_address: Some(address),
            },
            watched,
        ),
{
    lemma_align_within_page(page, address);
}

/// A stop whose faulting address lies in a page that is not watched is no
/// watch fault, whatever the stop reason and the signal; nor is a stop without
/// a faulting address.
pub proof fn lemma_unwatched_page_never_faults(stop: ThreadStop, watched: Set<Address>)
    requires
        stop.fault_address matches Some(address) ==> !watched.contains(align(address)),
    ensures
        !is_watch_fault(stop, watched),
{
}

/// A stop for any reason but a signal, or on any signal but the protection
/// violation, is no watch fault, whatever the address and the watch set.
pub proof fn lemma_only_protection_violation_faults(stop: ThreadStop, watched: Set<Address>)
    requires
        stop.reason != StopReason::Signal || stop.signal != PROTECTION_VIOLATION_SIGNAL,
    ensures
        !is_watch_fault(stop, watched),
{
}

} // verus!
