//! The watchpoint state of one debug session and the operations on it.
//!
//! The session never talks to the debugger engine. Where an operation needs
//! the engine, the caller performs the engine's part and hands in what came
//! back; the session decides what follows from it.

use vstd::prelude::*;
use crate::address::{align, is_page_aligned, page_of, watch_page, watched_page_of, Address};
use crate::checkpoint::{
    checkpoint_text, latest_access, Checkpoint, CheckpointView, Frame, FrameView, Register,
    RegisterView,
};
use crate::cycle::{
    begin, begin_protect, begin_watch, step, Command, Completion, Directive, Reply, Stage,
};
use crate::error::CheckpointError;
use crate::fault::{classify, is_watch_fault, ThreadStop};
use crate::protect::{PROT_READ_ONLY, PROT_READ_WRITE_EXECUTE};
use crate::store::Checkpoints;

verus! {

/// What is read from the faulting thread when a watch fault is taken.
pub struct Capture {
    /// The load address of the program counter in the top frame.
    pub pc: Address,
    /// The call stack, innermost frame first.
    pub frames: Vec<Frame>,
    /// The registers of the top frame.
    pub registers: Vec<Register>,
}

/// The model of a [`Capture`].
pub struct CaptureView {
    pub pc: Address,
    pub frames: Seq<FrameView>,
    pub registers: Seq<RegisterView>,
}

impl View for Capture {
    type V = CaptureView;

    open spec fn view(&self) -> CaptureView {
        CaptureView {
            pc: self.pc,
            frames: self.frames@.map_values(|frame: Frame| frame@),
            registers: self.registers@.map_values(|register: Register| register@),
        }
    }
}

impl CaptureView {
    /// The checkpoint that records this capture of a fault at `address`.
    pub open spec fn checkpoint_at(self, address: Address) -> CheckpointView {
        CheckpointView {
            pc: self.pc,
            last_access: Some(address),
            frames: self.frames,
            registers: self.registers,
        }
    }
}

/// The model of a [`DebugSession`].
pub struct SessionView {
    /// The watched pages.
    pub watched: Set<Address>,
    /// The checkpoints taken so far, oldest first.
    pub log: Seq<CheckpointView>,
    /// Where the cycle stands.
    pub stage: Stage,
}

impl SessionView {
    /// There are finitely many watched pages, and each is the start of a
    /// page.
    pub open spec fn wf(self) -> bool {
        &&& self.watched.finite()
        &&& forall|page: Address| #[trigger] self.watched.contains(page) ==> is_page_aligned(page)
    }

    /// The session with another stage.
    pub open spec fn at(self, stage: Stage) -> SessionView {
        SessionView { stage, ..self }
    }

    /// A change of the protection of the page at `address` to `protection` is
    /// asked for. With no cycle under way, it is requested.
    pub open spec fn mprotect_memory(self, address: Address, protection: u8) -> (
        SessionView,
        Directive,
    ) {
        if self.stage != Stage::Idle {
            (self, Directive::Finished(Err(CheckpointError::OutOfSequence)))
        } else {
            (self.at(begin_protect(address, protection).0), begin_protect(address, protection).1)
        }
    }

    /// A watch on `address` is asked for. With no cycle under way, the
    /// write-protection of its page is requested; the page is not watched
    /// before that has succeeded.
    pub open spec fn add_watch_page(self, address: Address) -> (SessionView, Directive) {
        if self.stage != Stage::Idle {
            (self, Directive::Finished(Err(CheckpointError::OutOfSequence)))
        } else {
            (self.at(begin_watch(address).0), begin_watch(address).1)
        }
    }

    /// A fault at `fault_address` was captured. Without a faulting address
    /// nothing can be recorded. With one and no cycle under way, the
    /// checkpoint is appended with that exact address, and the cycle begins on
    /// the page of that address.
    pub open spec fn new_checkpoint(self, fault_address: Option<Address>, capture: CaptureView) -> (
        SessionView,
        Directive,
    ) {
        match fault_address {
            None => (self, Directive::Finished(Err(CheckpointError::FaultAddressUnavailable))),
            Some(address) => if self.stage != Stage::Idle {
                (self, Directive::Finished(Err(CheckpointError::OutOfSequence)))
            } else {
                (
                    SessionView {
                        log: self.log.push(capture.checkpoint_at(address)),
                        stage: begin(align(address)).0,
                        ..self
                    },
                    begin(align(address)).1,
                )
            },
        }
    }

    /// A thread stopped. A stop that is no watch fault leaves the session as
    /// it is and yields nothing. A watch fault is taken as by
    /// `new_checkpoint`, at the faulting address of the stop itself.
    pub open spec fn handle_checkpoint_event(self, stop: ThreadStop, capture: CaptureView) -> (
        SessionView,
        Option<Directive>,
    ) {
        if is_watch_fault(stop, self.watched) {
            (
                self.new_checkpoint(stop.fault_address, capture).0,
                Some(self.new_checkpoint(stop.fault_address, capture).1),
            )
        } else {
            (self, None)
        }
    }

    /// The engine replied to the command that was issued last. The stage
    /// moves on as `step` says. The page of a new watch joins the watched
    /// pages when its write-protection has succeeded; nothing else changes
    /// them, and nothing changes the log.
    pub open spec fn advance(self, reply: Reply) -> (SessionView, Directive) {
        (
            SessionView {
                watched: match step(self.stage, reply).1 {
                    Directive::Finished(Ok(Completion::Watched { address })) => self.watched.insert(
                        watch_page(address),
                    ),
                    _ => self.watched,
                },
                log: self.log,
                stage: step(self.stage, reply).0,
            },
            step(self.stage, reply).1,
        )
    }

    /// The session after each of `replies` was handed in, in order.
    pub open spec fn advance_all(self, replies: Seq<Reply>) -> SessionView
        decreases replies.len(),
    {
        if replies.len() == 0 {
            self
        } else {
            self.advance(replies.first()).0.advance_all(replies.drop_first())
        }
    }
}

/// The watched pages, the checkpoints and the stage of the cycle of one debug
/// session.
pub struct DebugSession {
    checkpoints: Checkpoints,
    stage: Stage,
}

impl View for DebugSession {
    type V = SessionView;

    closed spec fn view(&self) -> SessionView {
        SessionView {
            watched: self.checkpoints.watched(),
            log: self.checkpoints.log(),
            stage: self.stage,
        }
    }
}

impl DebugSession {
    /// A session that watches nothing, has recorded nothing and has no cycle
    /// under way.
    pub fn new() -> (session: Self)
        ensures
            session@.wf(),
            session@.watched == Set::<Address>::empty(),
            session@.log == Seq::<CheckpointView>::empty(),
            session@.stage == Stage::Idle,
    {
        DebugSession { checkpoints: Checkpoints::new(), stage: Stage::Idle }
    }

    /// Where the cycle stands.
    pub fn stage(&self) -> (stage: Stage)
        ensures
            stage == self@.stage,
    {
        self.stage
    }

    /// Whether no cycle is under way.
    pub fn is_idle(&self) -> (idle: bool)
        ensures
            idle == (self@.stage == Stage::Idle),
    {
        match self.stage {
            Stage::Idle => true,
            _ => false,
        }
    }

    /// Whether the page that contains `address` is watched.
    pub fn is_watched(&self, address: Address) -> (found: bool)
        ensures
            found == self@.watched.contains(align(address)),
    {
        self.checkpoints.watch_pages().contains(address)
    }

    /// Whether the stop of a thread is a watch fault that this session owns.
    pub fn should_create_checkpoint_event(&self, stopped_thread: &ThreadStop) -> (owned: bool)
        ensures
            owned == is_watch_fault(*stopped_thread, self@.watched),
    {
        classify(stopped_thread, self.checkpoints.watch_pages())
    }

    /// Asks for the protection of the page at `address` to be set to
    /// `protection`: names the command that does it. The reply to that command
    /// decides between success and a failure that names the address and the
    /// flags that were tried. While a cycle is under way nothing is asked for:
    /// a protection change must not run into another.
    pub fn mprotect_memory(&mut self, address: u64, protection: u8) -> (directive: Directive)
        ensures
            (final(self)@, directive) == old(self)@.mprotect_memory(address, protection),
    {
        if !self.is_idle() {
            return Directive::Finished(Err(CheckpointError::OutOfSequence));
        }
        self.stage = Stage::Protecting { address, flags: protection };
        Directive::Issue(Command::Protect { address, flags: protection })
    }

    /// Asks for a watch on the page of `address`: names the command that
    /// write-protects the page. The page is watched once the reply to that
    /// command reports success; after a failure the watched pages are as they
    /// were before. While a cycle is under way nothing is asked for.
    pub fn add_watch_page(&mut self, address: u64) -> (directive: Directive)
        ensures
            (final(self)@, directive) == old(self)@.add_watch_page(address),
    {
        if !self.is_idle() {
            return Directive::Finished(Err(CheckpointError::OutOfSequence));
        }
        let page = watched_page_of(address);
        self.stage = Stage::Watching { address };
        Directive::Issue(Command::Protect { address: page, flags: PROT_READ_ONLY })
    }

    /// Records the checkpoint of a fault at `fault_address` and begins the
    /// cycle that resolves it. The checkpoint is appended before any
    /// protection is changed. Without a faulting address, or while another
    /// cycle is under way, nothing is recorded and nothing begins.
    pub fn new_checkpoint(&mut self, fault_address: Option<Address>, capture: Capture) -> (directive:
        Directive)
        ensures
            (final(self)@, directive) == old(self)@.new_checkpoint(fault_address, capture@),
            fault_address is None ==> directive == Directive::Finished(
                Err(CheckpointError::FaultAddressUnavailable),
            ),
    {
        let address = match fault_address {
            Some(address) => address,
            None => {
                return Directive::Finished(Err(CheckpointError::FaultAddressUnavailable));
            },
        };
        if !self.is_idle() {
            return Directive::Finished(Err(CheckpointError::OutOfSequence));
        }
        let page = page_of(address);
        let checkpoint = Checkpoint {
            pc: capture.pc,
            last_access: Some(address),
            frames: capture.frames,
            registers: capture.registers,
        };
        self.checkpoints.record(checkpoint);
        self.stage = Stage::Unprotecting { page };
        Directive::Issue(Command::Protect { address: page, flags: PROT_READ_WRITE_EXECUTE })
    }

    /// Takes the stop of a thread. If it is a watch fault, the checkpoint is
    /// recorded from `capture` with the faulting address of the stop, and the
    /// cycle begins on the page of that address; if not, the session is left
    /// as it was and the stop belongs to someone else.
    pub fn handle_checkpoint_event(
        &mut self,
        stopped_thread: &ThreadStop,
        capture: Capture,
    ) -> (directive: Option<Directive>)
        ensures
            (final(self)@, directive) == old(self)@.handle_checkpoint_event(
                *stopped_thread,
                capture@,
            ),
            directive is Some <==> is_watch_fault(*stopped_thread, old(self)@.watched),
            directive matches Some(Directive::Issue(command)) ==> {
                &&& stopped_thread.fault_address is Some
                &&& command == Command::Protect {
                    address: align(stopped_thread.fault_address->Some_0),
                    flags: PROT_READ_WRITE_EXECUTE,
                }
                &&& old(self)@.watched.contains(align(stopped_thread.fault_address->Some_0))
                &&& final(self)@.log == old(self)@.log.push(
                    capture@.checkpoint_at(stopped_thread.fault_address->Some_0),
                )
                &&& final(self)@.log.last().last_access == stopped_thread.fault_address
            },
    {
        if !self.should_create_checkpoint_event(stopped_thread) {
            return None;
        }
        Some(self.new_checkpoint(stopped_thread.fault_address, capture))
    }

    /// Takes the engine's reply to the command that was issued last and says
    /// what is to be done next. The checkpoints stay as they are; the watched
    /// pages gain the page of a new watch whose write-protection succeeded.
    pub fn advance(&mut self, reply: Reply) -> (directive: Directive)
        ensures
            (final(self)@, directive) == old(self)@.advance(reply),
            old(self)@.wf() ==> final(self)@.wf(),
    {
        let (next, directive) = self.stage.advance(reply);
        match directive {
            Directive::Finished(Ok(Completion::Watched { address })) => {
                self.checkpoints.watch(address);
            },
            _ => {},
        }
        self.stage = next;
        directive
    }

    /// The most recent checkpoint whose access was at `address`, if there is
    /// one.
    pub fn find_checkpoint_by_last_access(&self, address: Address) -> (found: Option<&Checkpoint>)
        ensures
            match found {
                Some(checkpoint) => {
                    &&& latest_access(self@.log, address) is Some
                    &&& checkpoint@ == self@.log[latest_access(self@.log, address)->Some_0]
                },
                None => latest_access(self@.log, address) is None,
            },
    {
        self.checkpoints.find_checkpoint_by_last_access(address)
    }

    /// The dump of the most recent checkpoint whose access was at `address`,
    /// if there is one.
    pub fn print_checkpoint_by_last_access(&self, address: Address) -> (dump: Option<String>)
        ensures
            match dump {
                Some(text) => {
                    &&& latest_access(self@.log, address) is Some
                    &&& text@ == checkpoint_text(
                        self@.log[latest_access(self@.log, address)->Some_0],
                    )
                },
                None => latest_access(self@.log, address) is None,
            },
    {
        match self.checkpoints.find_checkpoint_by_last_access(address) {
            Some(checkpoint) => Some(checkpoint.describe()),
            None => None,
        }
    }

    /// All checkpoints, oldest first, for reading.
    pub fn get_checkpoints(&self) -> (all: &Vec<Checkpoint>)
        ensures
            all@.map_values(|checkpoint: Checkpoint| checkpoint@) == self@.log,
    {
        self.checkpoints.checkpoints()
    }
}

} // verus!
