//! What can go wrong while a page is watched or a watch fault is resolved.

use vstd::prelude::*;
use vstd::string::*;
use crate::address::Address;
use crate::text::{decimal, hex, push_decimal, push_hex};

verus! {

/// A failure of the watchpoint subsystem.
#[derive(Clone, Copy, Debug, PartialEq, Eq, Structural)]
pub enum CheckpointError {
    /// The protection change on the page at `address` to `flags` was not
    /// carried out by the debuggee, or its expression could not be evaluated.
    ProtectionFailure { address: Address, flags: u8 },
    /// The engine had no faulting address for the stopped thread.
    FaultAddressUnavailable,
    /// The single-instruction step did not complete.
    StepFailure,
    /// The debuggee could not be resumed after the cycle.
    ResumeFailure,
    /// A call did not fit the stage that the cycle was in: an operation was
    /// asked for while a cycle was under way, or a reply was handed in while
    /// none was.
    OutOfSequence,
}

/// The protection change that failed, as shown in diagnostics:
/// `mprotect(0x<address in hex>, <flags in decimal>)`.
pub open spec fn protection_failure_text(address: Address, flags: u8) -> Seq<char> {
    "mprotect(0x"@ + hex(address as nat, false) + ", "@ + decimal(flags as nat) + ")"@
}

impl CheckpointError {
    /// The text of this failure's message. A failed protection change is
    /// named by its call, with the address and the flags that were tried.
    pub open spec fn message_text(self) -> Seq<char> {
        match self {
            CheckpointError::ProtectionFailure { address, flags } => protection_failure_text(
                address,
                flags,
            ),
            CheckpointError::FaultAddressUnavailable => "Failed to get fault address"@,
            CheckpointError::StepFailure => "Failed to step instruction"@,
            CheckpointError::ResumeFailure => "Failed to continue execution"@,
            CheckpointError::OutOfSequence => "Checkpoint cycle out of sequence"@,
        }
    }

    /// The text of the console line for a watch that could not be registered
    /// on account of this failure: `Failed to mprotect memory: ` and the
    /// failure's message.
    pub open spec fn failed_watch_text(self) -> Seq<char> {
        "Failed to mprotect memory: "@ + self.message_text()
    }

    /// This failure's message.
    pub fn message(&self) -> (text: String)
        ensures
            text@ == self.message_text(),
    {
        match self {
            CheckpointError::ProtectionFailure { address, flags } => {
                let mut text = String::from_str("mprotect(0x");
                push_hex(&mut text, *address, false);
                text.append(", ");
                push_decimal(&mut text, *flags as u64);
                text.append(")");
                text
            },
            CheckpointError::FaultAddressUnavailable => String::from_str(
                "Failed to get fault address",
            ),
            CheckpointError::StepFailure => String::from_str("Failed to step instruction"),
            CheckpointError::ResumeFailure => String::from_str("Failed to continue execution"),
            CheckpointError::OutOfSequence => String::from_str(
                "Checkpoint cycle out of sequence",
            ),
        }
    }

    /// The console line for a watch that could not be registered on account
    /// of this failure.
    pub fn failed_watch_message(&self) -> (text: String)
        ensures
            text@ == self.failed_watch_text(),
    {
        let mut text = String::from_str("Failed to mprotect memory: ");
        let message = self.message();
        text.append(message.as_str());
        text
    }
}

} // verus!
