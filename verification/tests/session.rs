use softwatch::checkpoint::{Frame, Register};
use softwatch::cycle::{Command, Completion, Directive, Reply, Stage};
use softwatch::error::CheckpointError;
use softwatch::fault::{StopReason, ThreadStop};
use softwatch::protect::Evaluation;
use softwatch::session::{Capture, DebugSession};

const APPLIED: Evaluation = Evaluation { valid: true, value: 0 };
const REFUSED: Evaluation = Evaluation { valid: true, value: -1 };

fn fault_at(address: u64) -> ThreadStop {
    ThreadStop { reason: StopReason::Signal, signal: 11, fault_address: Some(address) }
}

fn capture_at(pc: u64) -> Capture {
    Capture {
        pc,
        frames: vec![Frame { pc, description: format!("frame #0: {:#x}", pc) }],
        registers: vec![Register { name: String::from("pc"), value: pc }],
    }
}

/// Asks for a watch on `address` and answers the protection call with
/// `evaluation`.
fn watch(
    session: &mut DebugSession,
    address: u64,
    evaluation: Evaluation,
) -> Result<Completion, CheckpointError> {
    match session.add_watch_page(address) {
        Directive::Issue(command) => {
            assert!(matches!(command, Command::Protect { flags: 1, .. }));
            match session.advance(Reply::Evaluated(evaluation)) {
                Directive::Finished(result) => result,
                Directive::Issue(_) => panic!("a watch takes one command"),
            }
        }
        Directive::Finished(result) => result,
    }
}

/// Plays the engine: answers every command with success, but for the one
/// command that `fails` names, and notes what it was asked to do.
fn resolve(
    session: &mut DebugSession,
    first: Directive,
    fails: Option<Command>,
) -> (Vec<Command>, Result<Completion, CheckpointError>) {
    let mut issued = Vec::new();
    let mut directive = first;
    loop {
        let command = match directive {
            Directive::Issue(command) => command,
            Directive::Finished(result) => return (issued, result),
        };
        issued.push(command);
        let reply = if fails == Some(command) {
            match command {
                Command::Protect { .. } => Reply::Evaluated(REFUSED),
                _ => Reply::Failed,
            }
        } else {
            match command {
                Command::Protect { .. } => Reply::Evaluated(APPLIED),
                _ => Reply::Completed,
            }
        };
        directive = session.advance(reply);
    }
}

#[test]
fn new_session_is_idle_and_empty() {
    let session = DebugSession::new();
    assert!(session.is_idle());
    assert_eq!(session.stage(), Stage::Idle);
    assert!(session.get_checkpoints().is_empty());
    assert!(!session.is_watched(0x1000));
    assert!(!session.should_create_checkpoint_event(&fault_at(0x1000)));
}

#[test]
fn watch_then_fault_records_one_checkpoint_and_resumes() {
    let mut session = DebugSession::new();
    let request = session.add_watch_page(0x1000);
    let protect = Command::Protect { address: 0x1000, flags: 1 };
    assert_eq!(request, Directive::Issue(protect));
    assert_eq!(protect.expression().unwrap(), "(int)mprotect(4096, 0x1000, 1)");
    assert_eq!(session.stage(), Stage::Watching { address: 0x1000 });
    assert!(!session.is_watched(0x1000));
    let watched = session.advance(Reply::Evaluated(APPLIED));
    assert_eq!(watched, Directive::Finished(Ok(Completion::Watched { address: 0x1000 })));
    assert_eq!(
        Completion::Watched { address: 0x1000 }.message().unwrap(),
        "Added watch on address 0x1000"
    );
    assert!(session.is_idle());
    assert!(session.is_watched(0x1000));

    let stop = fault_at(0x1008);
    assert!(session.should_create_checkpoint_event(&stop));
    let first = session.handle_checkpoint_event(&stop, capture_at(0x401000)).unwrap();
    assert_eq!(session.get_checkpoints().len(), 1);
    assert_eq!(session.get_checkpoints()[0].last_access, Some(0x1008));
    assert_eq!(session.stage(), Stage::Unprotecting { page: 0x1000 });

    let (issued, result) = resolve(&mut session, first, None);
    assert_eq!(result, Ok(Completion::Resumed));
    assert_eq!(
        issued,
        vec![
            Command::Protect { address: 0x1000, flags: 3 },
            Command::SuppressSignal { signal: 11, suppress: true },
            Command::StepInstruction,
            Command::Protect { address: 0x1000, flags: 1 },
            Command::SuppressSignal { signal: 11, suppress: false },
            Command::Resume,
        ]
    );
    assert!(session.is_idle());
    assert_eq!(session.get_checkpoints().len(), 1);
    let checkpoint = &session.get_checkpoints()[0];
    assert_eq!(checkpoint.pc, 0x401000);
    assert_eq!(checkpoint.last_access, Some(0x1008));
    assert_eq!(checkpoint.frames.len(), 1);
    assert_eq!(checkpoint.frames[0].description, "frame #0: 0x401000");
    assert_eq!(checkpoint.registers[0].name, "pc");
    assert!(session.is_watched(0x1008));
}

#[test]
fn two_faults_on_one_page_are_kept_in_order() {
    let mut session = DebugSession::new();
    watch(&mut session, 0x1000, APPLIED).unwrap();
    for (address, pc) in [(0x1008u64, 0x401000u64), (0x100C, 0x401004)] {
        let first = session.handle_checkpoint_event(&fault_at(address), capture_at(pc));
        let (_, result) = resolve(&mut session, first.unwrap(), None);
        assert_eq!(result, Ok(Completion::Resumed));
    }
    let all = session.get_checkpoints();
    assert_eq!(all.len(), 2);
    assert_eq!(all[0].last_access, Some(0x1008));
    assert_eq!(all[1].last_access, Some(0x100C));
    let found = session.find_checkpoint_by_last_access(0x1008).unwrap();
    assert_eq!(found.pc, 0x401000);
    assert_eq!(found.last_access, Some(0x1008));
    assert_eq!(session.find_checkpoint_by_last_access(0x100C).unwrap().pc, 0x401004);
    assert!(session.find_checkpoint_by_last_access(0x1000).is_none());
}

#[test]
fn a_later_fault_at_the_same_address_is_the_one_found() {
    let mut session = DebugSession::new();
    watch(&mut session, 0x1000, APPLIED).unwrap();
    for pc in [0x401000u64, 0x402000, 0x403000] {
        let first = session.handle_checkpoint_event(&fault_at(0x1008), capture_at(pc));
        resolve(&mut session, first.unwrap(), None).1.unwrap();
    }
    assert_eq!(session.get_checkpoints().len(), 3);
    assert_eq!(session.find_checkpoint_by_last_access(0x1008).unwrap().pc, 0x403000);
}

#[test]
fn failed_protection_leaves_the_page_unwatched() {
    let mut session = DebugSession::new();
    for evaluation in [REFUSED, Evaluation { valid: false, value: 0 }] {
        assert_eq!(
            watch(&mut session, 0x1234, evaluation),
            Err(CheckpointError::ProtectionFailure { address: 0x1000, flags: 1 })
        );
        assert!(!session.is_watched(0x1234));
        assert!(!session.should_create_checkpoint_event(&fault_at(0x1234)));
        assert!(session.get_checkpoints().is_empty());
        assert!(session.is_idle());
    }
    let ignored = session.handle_checkpoint_event(&fault_at(0x1234), capture_at(1));
    assert_eq!(ignored, None);
    assert!(session.get_checkpoints().is_empty());
}

#[test]
fn failed_protection_keeps_an_earlier_watch() {
    let mut session = DebugSession::new();
    watch(&mut session, 0x1000, APPLIED).unwrap();
    assert!(watch(&mut session, 0x1800, REFUSED).is_err());
    assert!(session.is_watched(0x1000));
    assert!(watch(&mut session, 0x2000, REFUSED).is_err());
    assert!(session.is_watched(0x1000));
    assert!(!session.is_watched(0x2000));
}

#[test]
fn failed_step_disarms_and_leaves_the_debuggee_stopped() {
    let mut session = DebugSession::new();
    watch(&mut session, 0x1000, APPLIED).unwrap();
    let first = session.handle_checkpoint_event(&fault_at(0x1008), capture_at(7)).unwrap();
    let (issued, result) = resolve(&mut session, first, Some(Command::StepInstruction));
    assert_eq!(result, Err(CheckpointError::StepFailure));
    assert_eq!(
        issued,
        vec![
            Command::Protect { address: 0x1000, flags: 3 },
            Command::SuppressSignal { signal: 11, suppress: true },
            Command::StepInstruction,
            Command::SuppressSignal { signal: 11, suppress: false },
        ]
    );
    assert!(!issued.contains(&Command::Resume));
    assert!(session.is_idle());
    assert_eq!(session.get_checkpoints().len(), 1);
}

#[test]
fn failed_unprotect_ends_the_cycle_with_the_checkpoint_kept() {
    let mut session = DebugSession::new();
    watch(&mut session, 0x1000, APPLIED).unwrap();
    let first = session.handle_checkpoint_event(&fault_at(0x1008), capture_at(7)).unwrap();
    let unprotect = Command::Protect { address: 0x1000, flags: 3 };
    let (issued, result) = resolve(&mut session, first, Some(unprotect));
    assert_eq!(result, Err(CheckpointError::ProtectionFailure { address: 0x1000, flags: 3 }));
    assert_eq!(issued, vec![unprotect]);
    assert_eq!(session.get_checkpoints().len(), 1);
    assert!(session.is_idle());
}

#[test]
fn failed_reprotect_disarms_and_does_not_resume() {
    let mut session = DebugSession::new();
    watch(&mut session, 0x1000, APPLIED).unwrap();
    let first = session.handle_checkpoint_event(&fault_at(0x1008), capture_at(7)).unwrap();
    let reprotect = Command::Protect { address: 0x1000, flags: 1 };
    let (issued, result) = resolve(&mut session, first, Some(reprotect));
    assert_eq!(result, Err(CheckpointError::ProtectionFailure { address: 0x1000, flags: 1 }));
    assert_eq!(issued.len(), 5);
    assert_eq!(issued[4], Command::SuppressSignal { signal: 11, suppress: false });
    assert!(!issued.contains(&Command::Resume));
}

#[test]
fn failed_resume_is_reported() {
    let mut session = DebugSession::new();
    watch(&mut session, 0x1000, APPLIED).unwrap();
    let first = session.handle_checkpoint_event(&fault_at(0x1008), capture_at(7)).unwrap();
    let (issued, result) = resolve(&mut session, first, Some(Command::Resume));
    assert_eq!(result, Err(CheckpointError::ResumeFailure));
    assert_eq!(issued.len(), 6);
    assert!(session.is_idle());
}

#[test]
fn missing_fault_address_records_nothing() {
    let mut session = DebugSession::new();
    watch(&mut session, 0x1000, APPLIED).unwrap();
    let capture = Capture { pc: 7, frames: vec![], registers: vec![] };
    assert_eq!(
        session.new_checkpoint(None, capture),
        Directive::Finished(Err(CheckpointError::FaultAddressUnavailable))
    );
    assert!(session.get_checkpoints().is_empty());
    assert!(session.is_idle());
}

#[test]
fn other_stops_are_left_alone() {
    let mut session = DebugSession::new();
    watch(&mut session, 0x1000, APPLIED).unwrap();
    let stops = [
        ThreadStop { reason: StopReason::Breakpoint, signal: 11, fault_address: Some(0x1008) },
        ThreadStop { reason: StopReason::Signal, signal: 6, fault_address: Some(0x1008) },
        ThreadStop { reason: StopReason::Signal, signal: 11, fault_address: None },
        ThreadStop { reason: StopReason::Signal, signal: 11, fault_address: Some(0x2008) },
    ];
    for stop in stops {
        assert!(!session.should_create_checkpoint_event(&stop));
        assert_eq!(session.handle_checkpoint_event(&stop, capture_at(7)), None);
        assert!(session.is_idle());
        assert!(session.get_checkpoints().is_empty());
    }
}

#[test]
fn nothing_new_begins_while_a_cycle_is_under_way() {
    let mut session = DebugSession::new();
    watch(&mut session, 0x1000, APPLIED).unwrap();
    let first = session.handle_checkpoint_event(&fault_at(0x1008), capture_at(7)).unwrap();
    let stage = session.stage();
    assert_ne!(stage, Stage::Idle);

    let second = session.handle_checkpoint_event(&fault_at(0x100C), capture_at(8));
    assert_eq!(second, Some(Directive::Finished(Err(CheckpointError::OutOfSequence))));
    assert_eq!(
        session.new_checkpoint(Some(0x100C), capture_at(8)),
        Directive::Finished(Err(CheckpointError::OutOfSequence))
    );
    assert_eq!(
        session.new_checkpoint(None, capture_at(8)),
        Directive::Finished(Err(CheckpointError::FaultAddressUnavailable))
    );
    assert_eq!(watch(&mut session, 0x5000, APPLIED), Err(CheckpointError::OutOfSequence));
    assert_eq!(session.stage(), stage);
    assert_eq!(session.get_checkpoints().len(), 1);
    assert!(!session.is_watched(0x5000));

    let (_, result) = resolve(&mut session, first, None);
    assert_eq!(result, Ok(Completion::Resumed));
    assert_eq!(
        watch(&mut session, 0x5000, APPLIED),
        Ok(Completion::Watched { address: 0x5000 })
    );
}

#[test]
fn a_reply_without_a_cycle_changes_nothing() {
    let mut session = DebugSession::new();
    assert_eq!(
        session.advance(Reply::Completed),
        Directive::Finished(Err(CheckpointError::OutOfSequence))
    );
    assert!(session.is_idle());
}

#[test]
fn watch_drops_tag_bits_and_confirms_the_address_as_given() {
    let mut session = DebugSession::new();
    let request = session.add_watch_page(0xAB00_0000_0000_1ABC);
    assert_eq!(
        request,
        Directive::Issue(Command::Protect { address: 0x1000, flags: 1 })
    );
    let completion = match session.advance(Reply::Evaluated(APPLIED)) {
        Directive::Finished(Ok(completion)) => completion,
        other => panic!("{:?}", other),
    };
    assert_eq!(completion.message().unwrap(), "Added watch on address 0xAB00000000001ABC");
    assert!(session.is_watched(0x1ABC));
    assert!(session.is_watched(0x1000));
    assert!(!session.is_watched(0xAB00_0000_0000_1ABC));
    assert!(session.should_create_checkpoint_event(&fault_at(0x1FFF)));
}

#[test]
fn watching_a_page_twice_watches_it_once() {
    let mut session = DebugSession::new();
    watch(&mut session, 0x1008, APPLIED).unwrap();
    watch(&mut session, 0x1F00, APPLIED).unwrap();
    assert!(session.is_watched(0x1000));
    assert!(!session.is_watched(0x2000));
}

#[test]
fn print_gives_the_dump_of_the_most_recent_match() {
    let mut session = DebugSession::new();
    watch(&mut session, 0x1000, APPLIED).unwrap();
    assert_eq!(session.print_checkpoint_by_last_access(0x1008), None);
    for pc in [0x401000u64, 0x402000] {
        let first = session.handle_checkpoint_event(&fault_at(0x1008), capture_at(pc));
        resolve(&mut session, first.unwrap(), None).1.unwrap();
    }
    let dump = session.print_checkpoint_by_last_access(0x1008).unwrap();
    assert_eq!(
        dump,
        "Checkpoint {\n    pc: 0x402000\n    last_access: 0x1008\n    frames:\n        \
         frame #0: 0x402000\n    registers:\n        pc = 0x402000\n}"
    );
    assert_eq!(session.print_checkpoint_by_last_access(0x1009), None);
    assert_eq!(session.get_checkpoints().len(), 2);
}

#[test]
fn a_fault_is_not_taken_while_a_watch_is_being_registered() {
    let mut session = DebugSession::new();
    watch(&mut session, 0x1000, APPLIED).unwrap();
    assert!(matches!(session.add_watch_page(0x3000), Directive::Issue(_)));
    let taken = session.handle_checkpoint_event(&fault_at(0x1008), capture_at(7));
    assert_eq!(taken, Some(Directive::Finished(Err(CheckpointError::OutOfSequence))));
    assert!(session.get_checkpoints().is_empty());
    assert_eq!(session.stage(), Stage::Watching { address: 0x3000 });
    assert_eq!(
        session.advance(Reply::Failed),
        Directive::Finished(Err(CheckpointError::ProtectionFailure { address: 0x3000, flags: 1 }))
    );
    assert!(!session.is_watched(0x3000));
    assert!(session.is_idle());
}

#[test]
fn resolving_a_fault_shows_nothing_to_the_user() {
    assert_eq!(Completion::Resumed.message(), None);
}

#[test]
fn a_protection_change_is_one_command() {
    let mut session = DebugSession::new();
    let protect = Command::Protect { address: 0x7000, flags: 3 };
    assert_eq!(session.mprotect_memory(0x7000, 3), Directive::Issue(protect));
    assert_eq!(protect.expression().unwrap(), "(int)mprotect(28672, 0x1000, 3)");
    assert_eq!(session.stage(), Stage::Protecting { address: 0x7000, flags: 3 });
    assert_eq!(
        session.advance(Reply::Evaluated(APPLIED)),
        Directive::Finished(Ok(Completion::Protected { address: 0x7000, flags: 3 }))
    );
    assert!(session.is_idle());
    assert!(!session.is_watched(0x7000));
    assert!(session.get_checkpoints().is_empty());
}

#[test]
fn a_failed_protection_change_names_address_and_flags() {
    let mut session = DebugSession::new();
    for reply in [
        Reply::Evaluated(REFUSED),
        Reply::Evaluated(Evaluation { valid: true, value: -2 }),
        Reply::Evaluated(Evaluation { valid: false, value: 0 }),
        Reply::Failed,
    ] {
        assert!(matches!(session.mprotect_memory(0x7000, 1), Directive::Issue(_)));
        let error = CheckpointError::ProtectionFailure { address: 0x7000, flags: 1 };
        assert_eq!(session.advance(reply), Directive::Finished(Err(error)));
        assert_eq!(error.message(), "mprotect(0x7000, 1)");
        assert!(session.is_idle());
    }
}

#[test]
fn a_protection_change_does_not_run_into_another() {
    let mut session = DebugSession::new();
    assert!(matches!(session.mprotect_memory(0x7000, 1), Directive::Issue(_)));
    assert_eq!(
        session.mprotect_memory(0x8000, 3),
        Directive::Finished(Err(CheckpointError::OutOfSequence))
    );
    assert_eq!(
        session.add_watch_page(0x8000),
        Directive::Finished(Err(CheckpointError::OutOfSequence))
    );
    assert_eq!(session.stage(), Stage::Protecting { address: 0x7000, flags: 1 });

    watch_after_protect(&mut session);
    let first = session.handle_checkpoint_event(&fault_at(0x1008), capture_at(7)).unwrap();
    assert!(matches!(first, Directive::Issue(_)));
    assert_eq!(
        session.mprotect_memory(0x8000, 3),
        Directive::Finished(Err(CheckpointError::OutOfSequence))
    );
}

fn watch_after_protect(session: &mut DebugSession) {
    assert!(matches!(session.advance(Reply::Evaluated(APPLIED)), Directive::Finished(Ok(_))));
    watch(session, 0x1000, APPLIED).unwrap();
}

#[test]
fn the_checkpoint_and_the_page_are_those_of_the_stop() {
    let mut session = DebugSession::new();
    watch(&mut session, 0x1000, APPLIED).unwrap();
    let capture = Capture { pc: 0x5008, frames: vec![], registers: vec![] };
    let first = session.handle_checkpoint_event(&fault_at(0x1008), capture);
    assert_eq!(first, Some(Directive::Issue(Command::Protect { address: 0x1000, flags: 3 })));
    let checkpoint = &session.get_checkpoints()[0];
    assert_eq!(checkpoint.last_access, Some(0x1008));
    assert_eq!(checkpoint.pc, 0x5008);
    assert_eq!(session.stage(), Stage::Unprotecting { page: 0x1000 });
}

#[test]
fn a_checkpoint_can_be_taken_of_any_address() {
    let mut session = DebugSession::new();
    let first = session.new_checkpoint(Some(0x5008), capture_at(7));
    assert_eq!(first, Directive::Issue(Command::Protect { address: 0x5000, flags: 3 }));
    assert_eq!(session.get_checkpoints().len(), 1);
    assert_eq!(session.get_checkpoints()[0].last_access, Some(0x5008));
}
