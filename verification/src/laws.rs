//! What holds of a session over several operations.

use vstd::prelude::*;
use crate::address::{
    align, in_page, lemma_align_within_page, lemma_watch_page_aligned, watch_page, Address,
};
use crate::cycle::{begin, protect_succeeded, Directive, Reply, Stage};
use crate::error::{protection_failure_text, CheckpointError};
use crate::fault::{is_watch_fault, StopReason, ThreadStop, PROTECTION_VIOLATION_SIGNAL};
use crate::protect::PROT_READ_ONLY;
use crate::session::{CaptureView, SessionView};
use crate::text::{decimal, hex};

verus! {

/// The stop of a thread on a protection violation at `address`.
pub open spec fn protection_violation_at(address: Address) -> ThreadStop {
    ThreadStop {
        reason: StopReason::Signal,
        signal: PROTECTION_VIOLATION_SIGNAL,
        fault_address: Some(address),
    }
}

/// Once a watch on `address` was added, its page is watched, and a protection
/// violation at any address of that page is a watch fault, which the session
/// takes. The page is the one that contains `address` unless the top byte of
/// `address` holds tag bits, which a watch drops.
pub proof fn lemma_watched_page_takes_faults(
    session: SessionView,
    address: Address,
    reply: Reply,
    fault: Address,
    capture: CaptureView,
)
    requires
        session.add_watch_page(address).1 is Issue,
        session.add_watch_page(address).0.advance(reply).1 matches Directive::Finished(Ok(_)),
        in_page(watch_page(address), fault),
    ensures
        ({
            let watching = session.add_watch_page(address).0.advance(reply).0;
            &&& watching.stage == Stage::Idle
            &&& watching.watched == session.watched.insert(watch_page(address))
            &&& watching.watched.contains(watch_page(address))
            &&& address <= 0x00FF_FFFF_FFFF_FFFF ==> watching.watched.contains(align(address))
            &&& is_watch_fault(protection_violation_at(fault), watching.watched)
            &&& watching.handle_checkpoint_event(protection_violation_at(fault), capture).1 is Some
        }),
{
    lemma_watch_page_aligned(address);
    lemma_align_within_page(watch_page(address), fault);
}

/// A protection change that is asked for while no cycle is under way and
/// whose reply reports no success ends in the failure that names the address
/// and the flags that were tried, and its message is the call with both. The
/// session is then as it was before.
pub proof fn lemma_failed_protection_names_call(
    session: SessionView,
    address: Address,
    flags: u8,
    reply: Reply,
)
    requires
        session.stage == Stage::Idle,
        !protect_succeeded(reply),
    ensures
        session.mprotect_memory(address, flags).0.advance(reply) == (
            session,
            Directive::Finished(Err(CheckpointError::ProtectionFailure { address, flags })),
        ),
        (CheckpointError::ProtectionFailure { address, flags }).message_text()
            == protection_failure_text(address, flags),
        protection_failure_text(address, flags) == "mprotect(0x"@ + hex(address as nat, false)
            + ", "@ + decimal(flags as nat) + ")"@,
{
}

/// A watch whose write-protection fails leaves the session as it was before
/// the watch was asked for: the page is not watched on that account, and
/// nothing is recorded.
pub proof fn lemma_failed_watch_changes_nothing(
    session: SessionView,
    address: Address,
    reply: Reply,
)
    requires
        session.stage == Stage::Idle,
        !protect_succeeded(reply),
    ensures
        session.add_watch_page(address).0.advance(reply) == (
            session,
            Directive::Finished(
                Err(
                    CheckpointError::ProtectionFailure {
                        address: watch_page(address),
                        flags: PROT_READ_ONLY,
                    },
                ),
            ),
        ),
{
}

/// Every operation keeps the watched pages well-formed and takes no page out.
pub proof fn lemma_watched_pages_stay(
    session: SessionView,
    address: Address,
    flags: u8,
    fault_address: Option<Address>,
    stop: ThreadStop,
    capture: CaptureView,
    reply: Reply,
)
    requires
        session.wf(),
    ensures
        session.mprotect_memory(address, flags).0.watched == session.watched,
        session.add_watch_page(address).0.watched == session.watched,
        session.new_checkpoint(fault_address, capture).0.watched == session.watched,
        session.handle_checkpoint_event(stop, capture).0.watched == session.watched,
        session.advance(reply).0.wf(),
        session.watched.subset_of(session.advance(reply).0.watched),
        !(session.stage is Watching) ==> session.advance(reply).0.watched == session.watched,
{
    match session.stage {
        Stage::Watching { address: asked } => {
            lemma_watch_page_aligned(asked);
        },
        _ => {},
    }
}

/// No operation shrinks or reorders the log: what was recorded stays where it
/// is, and one operation appends at most one checkpoint. Only taking a fault
/// appends, and a reply to a command never does.
pub proof fn lemma_log_only_grows(
    session: SessionView,
    address: Address,
    flags: u8,
    fault_address: Option<Address>,
    stop: ThreadStop,
    capture: CaptureView,
    reply: Reply,
)
    ensures
        session.mprotect_memory(address, flags).0.log == session.log,
        session.add_watch_page(address).0.log == session.log,
        session.advance(reply).0.log == session.log,
        session.log.is_prefix_of(session.new_checkpoint(fault_address, capture).0.log),
        session.new_checkpoint(fault_address, capture).0.log.len() <= session.log.len() + 1,
        session.log.is_prefix_of(session.handle_checkpoint_event(stop, capture).0.log),
        session.handle_checkpoint_event(stop, capture).0.log.len() <= session.log.len() + 1,
{
}

/// Replies to the commands of a cycle that resolves a fault change neither
/// the watched pages nor the log.
pub proof fn lemma_replies_keep_state(session: SessionView, replies: Seq<Reply>)
    requires
        !(session.stage is Watching),
    ensures
        session.advance_all(replies).watched == session.watched,
        session.advance_all(replies).log == session.log,
        !(session.advance_all(replies).stage is Watching),
    decreases replies.len(),
{
    if replies.len() > 0 {
        lemma_replies_keep_state(session.advance(replies.first()).0, replies.drop_first());
    }
}

/// A watch fault that is taken while no cycle is under way appends exactly
/// one checkpoint, with the exact faulting address of the stop, and begins
/// the cycle on the page of that address; however the cycle goes on, nothing
/// more is appended.
pub proof fn lemma_resolved_fault_appends_one(
    session: SessionView,
    stop: ThreadStop,
    capture: CaptureView,
    replies: Seq<Reply>,
)
    requires
        session.stage == Stage::Idle,
        is_watch_fault(stop, session.watched),
    ensures
        ({
            let taken = session.handle_checkpoint_event(stop, capture);
            let resolved = taken.0.advance_all(replies);
            &&& taken.1 == Some(begin(align(stop.fault_address->Some_0)).1)
            &&& resolved.log == session.log.push(
                capture.checkpoint_at(stop.fault_address->Some_0),
            )
            &&& resolved.log.len() == session.log.len() + 1
            &&& resolved.log.last().last_access == stop.fault_address
            &&& resolved.watched == session.watched
        }),
{
    lemma_replies_keep_state(session.handle_checkpoint_event(stop, capture).0, replies);
}

/// A stop that is no watch fault leaves the session as it was.
pub proof fn lemma_other_stops_change_nothing(
    session: SessionView,
    stop: ThreadStop,
    capture: CaptureView,
)
    requires
        !is_watch_fault(stop, session.watched),
    ensures
        session.handle_checkpoint_event(stop, capture) == (session, None::<Directive>),
{
}

} // verus!
