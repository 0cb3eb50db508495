//! The steps that need the debugger engine, as a state machine.
//!
//! The machine names one command for the engine at a time and takes the
//! engine's reply to decide the next. It runs three kinds of cycle. Changing
//! the protection of a page is one command. Registering a watch
//! write-protects the page. Resolving a watch fault, once the checkpoint is
//! recorded, makes the page writable, suppresses delivery of the
//! protection-violation signal, has the faulting thread retire exactly one
//! instruction synchronously, protects the page again, restores delivery, and
//! resumes the debuggee. One cycle runs at a time.

use vstd::prelude::*;
use vstd::string::*;
use crate::address::{watch_page, watched_page_of, Address};
use crate::error::CheckpointError;
use crate::fault::PROTECTION_VIOLATION_SIGNAL;
use crate::protect::{
    mprotect_expression, mprotect_expression_text, protection_applied, Evaluation, PROT_READ_ONLY,
    PROT_READ_WRITE_EXECUTE,
};
use crate::text::{hex, push_hex};

verus! {

/// One request to the debugger engine.
#[derive(Clone, Copy, Debug, PartialEq, Eq)]
pub enum Command {
    /// Have the debuggee set the protection of the page at `address` to
    /// `flags`, by evaluating the protection call in the top frame of the
    /// selected thread.
    Protect { address: Address, flags: u8 },
    /// Set whether stops on `signal` are suppressed.
    SuppressSignal { signal: u64, suppress: bool },
    /// Step the faulting thread by one instruction and wait until it has
    /// stopped again, so that no stop notification is sent in between.
    StepInstruction,
    /// Resume the debuggee without notifying anyone of the stop.
    Resume,
}

/// What the engine answered to a command.
#[derive(Clone, Copy, Debug, PartialEq, Eq)]
pub enum Reply {
    /// The expression of a `Protect` command was handed to the engine, with
    /// this outcome.
    Evaluated(Evaluation),
    /// The command was carried out.
    Completed,
    /// The command could not be carried out.
    Failed,
}

/// How a cycle ended well.
#[derive(Clone, Copy, Debug, PartialEq, Eq)]
pub enum Completion {
    /// The page at `address` has the protection `flags`.
    Protected { address: Address, flags: u8 },
    /// The page of a watch on `address` is write-protected and watched.
    Watched { address: Address },
    /// The watch fault is resolved and the debuggee runs again.
    Resumed,
}

/// What the caller is to do next.
#[derive(Clone, Copy, Debug, PartialEq, Eq)]
pub enum Directive {
    /// Carry out the command and hand in the engine's reply.
    Issue(Command),
    /// Nothing is left to do; the cycle ended this way. After an error the
    /// debuggee is left stopped.
    Finished(Result<Completion, CheckpointError>),
}

/// Where a cycle stands. Each stage but `Idle` waits for the reply to the
/// command that was issued on entering it.
#[derive(Clone, Copy, Debug, PartialEq, Eq)]
pub enum Stage {
    /// No cycle is under way.
    Idle,
    /// Waiting for the protection of the page at `address` to be set to
    /// `flags`.
    Protecting { address: Address, flags: u8 },
    /// Waiting for the page of a new watch on `address` to be
    /// write-protected.
    Watching { address: Address },
    /// Waiting for the page to become writable.
    Unprotecting { page: Address },
    /// Waiting for the signal to be suppressed.
    Arming { page: Address },
    /// Waiting for the faulting instruction to retire.
    SteppingSync { page: Address },
    /// Waiting for the page to be protected again.
    Reprotecting { page: Address },
    /// Waiting for delivery of the signal to be restored, on the way to
    /// resuming.
    Disarming { page: Address },
    /// Waiting for delivery of the signal to be restored after a failure; the
    /// cycle then ends with `error`.
    Aborting { error: CheckpointError },
    /// Waiting for the debuggee to run again.
    Resuming,
}

/// Whether the reply reports a protection change that was carried out.
pub open spec fn protect_succeeded(reply: Reply) -> bool {
    reply matches Reply::Evaluated(evaluation) && protection_applied(evaluation)
}

/// The command that arms or disarms suppression of the protection-violation
/// signal.
pub open spec fn suppress(on: bool) -> Directive {
    Directive::Issue(Command::SuppressSignal { signal: PROTECTION_VIOLATION_SIGNAL, suppress: on })
}

/// The message that confirms a new watch: `Added watch on address 0x` and the
/// address as it was given, in capital hex digits.
pub open spec fn watch_added_text(address: Address) -> Seq<char> {
    "Added watch on address 0x"@ + hex(address as nat, true)
}

/// The stage and the command with which the protection of the page at
/// `address` is changed to `flags`.
pub open spec fn begin_protect(address: Address, flags: u8) -> (Stage, Directive) {
    (Stage::Protecting { address, flags }, Directive::Issue(Command::Protect { address, flags }))
}

/// The stage and the command with which a watch on `address` is registered:
/// its page is to be write-protected.
pub open spec fn begin_watch(address: Address) -> (Stage, Directive) {
    (
        Stage::Watching { address },
        Directive::Issue(
            Command::Protect { address: watch_page(address), flags: PROT_READ_ONLY },
        ),
    )
}

/// The stage and the command with which the cycle for a fault in `page`
/// begins.
pub open spec fn begin(page: Address) -> (Stage, Directive) {
    (
        Stage::Unprotecting { page },
        Directive::Issue(Command::Protect { address: page, flags: PROT_READ_WRITE_EXECUTE }),
    )
}

/// The stage that follows `stage` on `reply`, and what is to be done next.
pub open spec fn step(stage: Stage, reply: Reply) -> (Stage, Directive) {
    match stage {
        Stage::Idle => (Stage::Idle, Directive::Finished(Err(CheckpointError::OutOfSequence))),
        Stage::Protecting { address, flags } => if protect_succeeded(reply) {
            (Stage::Idle, Directive::Finished(Ok(Completion::Protected { address, flags })))
        } else {
            (
                Stage::Idle,
                Directive::Finished(Err(CheckpointError::ProtectionFailure { address, flags })),
            )
        },
        Stage::Watching { address } => if protect_succeeded(reply) {
            (Stage::Idle, Directive::Finished(Ok(Completion::Watched { address })))
        } else {
            (
                Stage::Idle,
                Directive::Finished(
                    Err(
                        CheckpointError::ProtectionFailure {
                            address: watch_page(address),
                            flags: PROT_READ_ONLY,
                        },
                    ),
                ),
            )
        },
        Stage::Unprotecting { page } => if protect_succeeded(reply) {
            (Stage::Arming { page }, suppress(true))
        } else {
            (
                Stage::Idle,
                Directive::Finished(
                    Err(
                        CheckpointError::ProtectionFailure {
                            address: page,
                            flags: PROT_READ_WRITE_EXECUTE,
                        },
                    ),
                ),
            )
        },
        Stage::Arming { page } => (
            Stage::SteppingSync { page },
            Directive::Issue(Command::StepInstruction),
        ),
        Stage::SteppingSync { page } => if reply == Reply::Completed {
            (
                Stage::Reprotecting { page },
                Directive::Issue(Command::Protect { address: page, flags: PROT_READ_ONLY }),
            )
        } else {
            (Stage::Aborting { error: CheckpointError::StepFailure }, suppress(false))
        },
        Stage::Reprotecting { page } => if protect_succeeded(reply) {
            (Stage::Disarming { page }, suppress(false))
        } else {
            (
                Stage::Aborting {
                    error: CheckpointError::ProtectionFailure {
                        address: page,
                        flags: PROT_READ_ONLY,
                    },
                },
                suppress(false),
            )
        },
        Stage::Disarming { page } => (Stage::Resuming, Directive::Issue(Command::Resume)),
        Stage::Aborting { error } => (Stage::Idle, Directive::Finished(Err(error))),
        Stage::Resuming => if reply == Reply::Completed {
            (Stage::Idle, Directive::Finished(Ok(Completion::Resumed)))
        } else {
            (Stage::Idle, Directive::Finished(Err(CheckpointError::ResumeFailure)))
        },
    }
}

impl Command {
    /// The expression that the engine is to evaluate for this command, if it
    /// is carried out by evaluating one.
    pub open spec fn expression_text(self) -> Option<Seq<char>> {
        match self {
            Command::Protect { address, flags } => Some(mprotect_expression_text(address, flags)),
            _ => None,
        }
    }

    /// The expression that the engine is to evaluate for this command, if it
    /// is carried out by evaluating one. The evaluation is what the reply
    /// carries.
    pub fn expression(&self) -> (expression: Option<String>)
        ensures
            match (expression, self.expression_text()) {
                (Some(written), Some(text)) => written@ == text,
                (None, None) => true,
                _ => false,
            },
    {
        match self {
            Command::Protect { address, flags } => Some(mprotect_expression(*address, *flags)),
            _ => None,
        }
    }
}

impl Completion {
    /// The message that tells the user of this completion, if there is one.
    pub open spec fn message_text(self) -> Option<Seq<char>> {
        match self {
            Completion::Watched { address } => Some(watch_added_text(address)),
            _ => None,
        }
    }

    /// The message that tells the user of this completion. Only a new watch is
    /// shown to the user.
    pub fn message(&self) -> (message: Option<String>)
        ensures
            match (message, self.message_text()) {
                (Some(written), Some(text)) => written@ == text,
                (None, None) => true,
                _ => false,
            },
    {
        match self {
            Completion::Watched { address } => {
                let mut message = String::from_str("Added watch on address 0x");
                push_hex(&mut message, *address, true);
                Some(message)
            },
            _ => None,
        }
    }
}

impl Reply {
    /// Whether the reply reports a protection change that was carried out.
    pub fn protect_succeeded(&self) -> (applied: bool)
        ensures
            applied == protect_succeeded(*self),
    {
        match self {
            Reply::Evaluated(evaluation) => evaluation.applied(),
            _ => false,
        }
    }

    /// Whether the reply is `Completed`.
    pub fn completed(&self) -> (done: bool)
        ensures
            done == (*self == Reply::Completed),
    {
        match self {
            Reply::Completed => true,
            _ => false,
        }
    }
}

impl Stage {
    /// Whether a cycle is under way.
    pub open spec fn in_flight(self) -> bool {
        self != Stage::Idle
    }

    /// Takes the engine's reply to the command that was issued last and says
    /// which stage follows and what is to be done next.
    pub fn advance(self, reply: Reply) -> (next: (Stage, Directive))
        ensures
            next == step(self, reply),
    {
        let disarm = Directive::Issue(
            Command::SuppressSignal { signal: PROTECTION_VIOLATION_SIGNAL, suppress: false },
        );
        match self {
            Stage::Idle => (Stage::Idle, Directive::Finished(Err(CheckpointError::OutOfSequence))),
            Stage::Protecting { address, flags } => {
                if reply.protect_succeeded() {
                    (Stage::Idle, Directive::Finished(Ok(Completion::Protected { address, flags })))
                } else {
                    let error = CheckpointError::ProtectionFailure { address, flags };
                    (Stage::Idle, Directive::Finished(Err(error)))
                }
            },
            Stage::Watching { address } => {
                if reply.protect_succeeded() {
                    (Stage::Idle, Directive::Finished(Ok(Completion::Watched { address })))
                } else {
                    let error = CheckpointError::ProtectionFailure {
                        address: watched_page_of(address),
                        flags: PROT_READ_ONLY,
                    };
                    (Stage::Idle, Directive::Finished(Err(error)))
                }
            },
            Stage::Unprotecting { page } => {
                if reply.protect_succeeded() {
                    (
                        Stage::Arming { page },
                        Directive::Issue(
                            Command::SuppressSignal {
                                signal: PROTECTION_VIOLATION_SIGNAL,
                                suppress: true,
                            },
                        ),
                    )
                } else {
                    let error = CheckpointError::ProtectionFailure {
                        address: page,
                        flags: PROT_READ_WRITE_EXECUTE,
                    };
                    (Stage::Idle, Directive::Finished(Err(error)))
                }
            },
            Stage::Arming { page } => (
                Stage::SteppingSync { page },
                Directive::Issue(Command::StepInstruction),
            ),
            Stage::SteppingSync { page } => {
                if reply.completed() {
                    (
                        Stage::Reprotecting { page },
                        Directive::Issue(
                            Command::Protect { address: page, flags: PROT_READ_ONLY },
                        ),
                    )
                } else {
                    (Stage::Aborting { error: CheckpointError::StepFailure }, disarm)
                }
            },
            Stage::Reprotecting { page } => {
                if reply.protect_succeeded() {
                    (Stage::Disarming { page }, disarm)
                } else {
                    let error = CheckpointError::ProtectionFailure {
                        address: page,
                        flags: PROT_READ_ONLY,
                    };
                    (Stage::Aborting { error }, disarm)
                }
            },
            Stage::Disarming { page } => (Stage::Resuming, Directive::Issue(Command::Resume)),
            Stage::Aborting { error } => (Stage::Idle, Directive::Finished(Err(error))),
            Stage::Resuming => {
                if reply.completed() {
                    (Stage::Idle, Directive::Finished(Ok(Completion::Resumed)))
                } else {
                    (Stage::Idle, Directive::Finished(Err(CheckpointError::ResumeFailure)))
                }
            },
        }
    }
}

/// The commands that a cycle issues from `stage` on while it is fed `replies`
/// one by one, up to the reply on which it finishes or the last reply.
pub open spec fn commands(stage: Stage, replies: Seq<Reply>) -> Seq<Command>
    decreases replies.len(),
{
    if replies.len() == 0 {
        Seq::empty()
    } else {
        match step(stage, replies.first()) {
            (next, Directive::Issue(command)) => seq![command] + commands(
                next,
                replies.drop_first(),
            ),
            (_, Directive::Finished(_)) => Seq::empty(),
        }
    }
}

/// How a cycle that stands at `stage` ends when it is fed `replies` one by
/// one, if it ends before they run out.
pub open spec fn outcome(stage: Stage, replies: Seq<Reply>) -> Option<
    Result<Completion, CheckpointError>,
>
    decreases replies.len(),
{
    if replies.len() == 0 {
        None
    } else {
        match step(stage, replies.first()) {
            (next, Directive::Issue(_)) => outcome(next, replies.drop_first()),
            (_, Directive::Finished(result)) => Some(result),
        }
    }
}

/// The commands of a cycle on `page` that runs to its end without a failure,
/// after the one that makes the page writable.
pub open spec fn full_cycle(page: Address) -> Seq<Command> {
    seq![
        Command::SuppressSignal { signal: PROTECTION_VIOLATION_SIGNAL, suppress: true },
        Command::StepInstruction,
        Command::Protect { address: page, flags: PROT_READ_ONLY },
        Command::SuppressSignal { signal: PROTECTION_VIOLATION_SIGNAL, suppress: false },
        Command::Resume,
    ]
}

/// Whether suppression of the signal is armed while the cycle waits at
/// `stage`: it was armed and the command that disarms it has not been issued.
pub open spec fn suppressed(stage: Stage) -> bool {
    stage is Arming || stage is SteppingSync || stage is Reprotecting
}

/// One step of the cycle keeps suppression paired: it is armed only when
/// disarmed and disarmed only when armed, only a suppression command changes
/// it, the cycle never ends while it is armed, and the debuggee is resumed
/// only with the page protected again and suppression disarmed.
pub proof fn lemma_step_keeps_suppression_paired(stage: Stage, reply: Reply)
    ensures
        match step(stage, reply) {
            (next, Directive::Issue(Command::SuppressSignal { signal, suppress })) => {
                &&& signal == PROTECTION_VIOLATION_SIGNAL
                &&& suppressed(stage) != suppress
                &&& suppressed(next) == suppress
            },
            (next, Directive::Issue(Command::Resume)) => {
                &&& stage is Disarming
                &&& !suppressed(next)
            },
            (next, Directive::Issue(_)) => suppressed(next) == suppressed(stage),
            (next, Directive::Finished(_)) => !suppressed(stage) && next == Stage::Idle,
        },
        suppressed(step(stage, reply).0) ==> step(stage, reply).1 is Issue,
{
}

/// The commands of a cycle on `page` that failed after the first `done`
/// commands of the full cycle and then disarmed suppression.
pub open spec fn aborted_cycle(page: Address, done: int) -> Seq<Command> {
    full_cycle(page).take(done).push(
        Command::SuppressSignal { signal: PROTECTION_VIOLATION_SIGNAL, suppress: false },
    )
}

/// Every way in which the cycle for a fault in `page` can go, with the
/// commands that it issues after the first. A cycle that succeeds issued the
/// full cycle in order. One that fails to make the page writable issued
/// nothing more. One that fails to step or to protect the page again disarmed
/// suppression and did not resume the debuggee. Only a failure to resume comes
/// after the resume command itself. A cycle that has not ended is on one of
/// these ways.
pub proof fn lemma_cycle_trace(page: Address, replies: Seq<Reply>)
    ensures
        ({
            let issued = commands(begin(page).0, replies);
            let unprotect = CheckpointError::ProtectionFailure {
                address: page,
                flags: PROT_READ_WRITE_EXECUTE,
            };
            let reprotect = CheckpointError::ProtectionFailure {
                address: page,
                flags: PROT_READ_ONLY,
            };
            match outcome(begin(page).0, replies) {
                None => {
                    &&& issued.len() == replies.len()
                    &&& issued.is_prefix_of(full_cycle(page)) || issued == aborted_cycle(page, 2)
                        || issued == aborted_cycle(page, 3)
                },
                Some(Ok(completion)) => completion == Completion::Resumed && issued == full_cycle(
                    page,
                ),
                Some(Err(error)) => {
                    ||| error == unprotect && issued == Seq::<Command>::empty()
                    ||| error == CheckpointError::StepFailure && issued == aborted_cycle(page, 2)
                    ||| error == reprotect && issued == aborted_cycle(page, 3)
                    ||| error == CheckpointError::ResumeFailure && issued == full_cycle(page)
                },
            }
        }),
{
    reveal_with_fuel(commands, 8);
    reveal_with_fuel(outcome, 8);
}

} // verus!
