//! Checkpoints: what was recorded of the debuggee at each watch fault.

use vstd::prelude::*;
use vstd::string::*;
use crate::address::Address;
use crate::text::{hex, push_hex};

verus! {

/// One frame of a call stack, as the engine describes it.
#[derive(Clone, Debug)]
pub struct Frame {
    /// The load address of the frame's program counter.
    pub pc: Address,
    /// The engine's one-line description of the frame.
    pub description: String,
}

/// The model of a [`Frame`].
pub struct FrameView {
    pub pc: Address,
    pub description: Seq<char>,
}

impl View for Frame {
    type V = FrameView;

    open spec fn view(&self) -> FrameView {
        FrameView { pc: self.pc, description: self.description@ }
    }
}

/// One register with the value it held.
#[derive(Clone, Debug)]
pub struct Register {
    pub name: String,
    pub value: u64,
}

/// The model of a [`Register`].
pub struct RegisterView {
    pub name: Seq<char>,
    pub value: u64,
}

impl View for Register {
    type V = RegisterView;

    open spec fn view(&self) -> RegisterView {
        RegisterView { name: self.name@, value: self.value }
    }
}

/// The execution state at one watch fault, taken before the faulting write
/// went through.
#[derive(Clone, Debug)]
pub struct Checkpoint {
    /// The load address of the instruction that faulted.
    pub pc: Address,
    /// The exact address whose access faulted; checkpoints are looked up by
    /// it.
    pub last_access: Option<Address>,
    /// The call stack, innermost frame first.
    pub frames: Vec<Frame>,
    /// The general-purpose and flag registers.
    pub registers: Vec<Register>,
}

/// The model of a [`Checkpoint`].
pub struct CheckpointView {
    pub pc: Address,
    pub last_access: Option<Address>,
    pub frames: Seq<FrameView>,
    pub registers: Seq<RegisterView>,
}

impl View for Checkpoint {
    type V = CheckpointView;

    open spec fn view(&self) -> CheckpointView {
        CheckpointView {
            pc: self.pc,
            last_access: self.last_access,
            frames: self.frames@.map_values(|frame: Frame| frame@),
            registers: self.registers@.map_values(|register: Register| register@),
        }
    }
}

/// The index of the checkpoint that was appended last among those of `log`
/// whose access was at `address`, if there is one.
pub open spec fn latest_access(log: Seq<CheckpointView>, address: Address) -> Option<int>
    decreases log.len(),
{
    if log.len() == 0 {
        None
    } else if log.last().last_access == Some(address) {
        Some(log.len() - 1)
    } else {
        latest_access(log.drop_last(), address)
    }
}

/// `latest_access` is the greatest index at which the access was at `address`,
/// and there is none exactly if no checkpoint has that access.
pub proof fn lemma_latest_access_is_greatest(log: Seq<CheckpointView>, address: Address)
    ensures
        match latest_access(log, address) {
            Some(index) => {
                &&& 0 <= index < log.len()
                &&& log[index].last_access == Some(address)
                &&& forall|later: int|
                    index < later < log.len() ==> (#[trigger] log[later]).last_access != Some(
                        address,
                    )
            },
            None => forall|index: int|
                0 <= index < log.len() ==> (#[trigger] log[index]).last_access != Some(address),
        },
    decreases log.len(),
{
    if log.len() > 0 && log.last().last_access != Some(address) {
        let shorter = log.drop_last();
        lemma_latest_access_is_greatest(shorter, address);
        assert forall|index: int| 0 <= index < shorter.len() implies shorter[index] == log[index] by {}
    }
}

/// Checkpoints that come after the last one with an access at `address` do not
/// change which one is found.
pub proof fn lemma_latest_access_skips_others(
    log: Seq<CheckpointView>,
    address: Address,
    kept: int,
)
    requires
        0 <= kept <= log.len(),
        forall|index: int|
            kept <= index < log.len() ==> (#[trigger] log[index]).last_access != Some(address),
    ensures
        latest_access(log, address) == latest_access(log.take(kept), address),
    decreases log.len() - kept,
{
    if kept == log.len() {
        assert(log.take(kept) =~= log);
    } else {
        let shorter = log.drop_last();
        lemma_latest_access_skips_others(shorter, address, kept);
        assert(shorter.take(kept) =~= log.take(kept));
    }
}

/// Appending a checkpoint makes it the one found for its own access and
/// leaves every other lookup as it was.
pub proof fn lemma_latest_access_after_push(
    log: Seq<CheckpointView>,
    checkpoint: CheckpointView,
    address: Address,
)
    ensures
        latest_access(log.push(checkpoint), address) == if checkpoint.last_access == Some(
            address,
        ) {
            Some(log.len() as int)
        } else {
            latest_access(log, address)
        },
{
    assert(log.push(checkpoint).drop_last() =~= log);
}

/// The lines that list a call stack, innermost frame first: each frame's
/// description, indented by eight spaces.
pub open spec fn frame_lines(frames: Seq<FrameView>) -> Seq<char>
    decreases frames.len(),
{
    if frames.len() == 0 {
        Seq::empty()
    } else {
        frame_lines(frames.drop_last()) + "        "@ + frames.last().description + "\n"@
    }
}

/// The lines that list registers: `<name> = 0x<value in hex>`, indented by
/// eight spaces.
pub open spec fn register_lines(registers: Seq<RegisterView>) -> Seq<char>
    decreases registers.len(),
{
    if registers.len() == 0 {
        Seq::empty()
    } else {
        register_lines(registers.drop_last()) + "        "@ + registers.last().name + " = 0x"@
            + hex(registers.last().value as nat, false) + "\n"@
    }
}

/// The faulting address as shown in a dump: `0x` and the address in hex, or
/// `none`.
pub open spec fn access_text(last_access: Option<Address>) -> Seq<char> {
    match last_access {
        Some(address) => "0x"@ + hex(address as nat, false),
        None => "none"@,
    }
}

/// The dump of a checkpoint: its program counter, the faulting address, the
/// call stack and the registers.
pub open spec fn checkpoint_text(checkpoint: CheckpointView) -> Seq<char> {
    "Checkpoint {\n    pc: 0x"@ + hex(checkpoint.pc as nat, false) + "\n    last_access: "@
        + access_text(checkpoint.last_access) + "\n    frames:\n"@ + frame_lines(
        checkpoint.frames,
    ) + "    registers:\n"@ + register_lines(checkpoint.registers) + "}"@
}

impl Checkpoint {
    /// Writes the dump of this checkpoint.
    pub fn describe(&self) -> (text: String)
        ensures
            text@ == checkpoint_text(self@),
    {
        let mut text = String::from_str("Checkpoint {\n    pc: 0x");
        push_hex(&mut text, self.pc, false);
        text.append("\n    last_access: ");
        match self.last_access {
            Some(address) => {
                text.append("0x");
                push_hex(&mut text, address, false);
            },
            None => {
                text.append("none");
            },
        }
        text.append("\n    frames:\n");
        let ghost head = text@;
        let mut index: usize = 0;
        while index < self.frames.len()
            invariant
                index <= self.frames.len(),
                text@ == head + frame_lines(self@.frames.take(index as int)),
            decreases self.frames.len() - index,
        {
            let frame = &self.frames[index];
            text.append("        ");
            text.append(frame.description.as_str());
            text.append("\n");
            proof {
                let shown = self@.frames.take(index as int + 1);
                assert(shown.drop_last() =~= self@.frames.take(index as int));
                assert(shown.last() == frame@);
            }
            index = index + 1;
        }
        assert(self@.frames.take(index as int) =~= self@.frames);
        text.append("    registers:\n");
        let ghost head = text@;
        let mut index: usize = 0;
        while index < self.registers.len()
            invariant
                index <= self.registers.len(),
                text@ == head + register_lines(self@.registers.take(index as int)),
            decreases self.registers.len() - index,
        {
            let register = &self.registers[index];
            text.append("        ");
            text.append(register.name.as_str());
            text.append(" = 0x");
            push_hex(&mut text, register.value, false);
            text.append("\n");
            proof {
                let shown = self@.registers.take(index as int + 1);
                assert(shown.drop_last() =~= self@.registers.take(index as int));
                assert(shown.last() == register@);
            }
            index = index + 1;
        }
        assert(self@.registers.take(index as int) =~= self@.registers);
        text.append("}");
        text
    }
}

} // verus!
