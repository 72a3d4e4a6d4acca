use unwinding::panic::{
    exit_status, raise, ExceptionObject, RaiseAdmission, RaiseOutcome, UnwindPhase,
    UNCAUGHT_EXIT_STATUS,
};
use unwinding::unwind::{
    cleanup_phase, personality, search_phase, CleanupOutcome, FrameHandler, Phase,
    PersonalityOutcome, SearchOutcome, StackFrame,
};

const STR_PAYLOAD: u64 = 1;
const INT_PAYLOAD: u64 = 2;

fn plain(cfa: usize) -> StackFrame {
    StackFrame { cfa, handler: FrameHandler::Plain }
}

fn guard(cfa: usize, landing_pad: usize) -> StackFrame {
    StackFrame { cfa, handler: FrameHandler::Cleanup { landing_pad } }
}

fn catch(cfa: usize, tag: Option<u64>, landing_pad: usize) -> StackFrame {
    StackFrame { cfa, handler: FrameHandler::Catch { tag, landing_pad } }
}

/// Runs a raise the way the runtime does: the listed cleanups one after
/// another, each of which may itself raise, then the resume. Returns the
/// observed log.
fn run(frames: &Vec<StackFrame>, tag: u64, raising_cleanup: Option<usize>) -> Vec<String> {
    let mut log = Vec::new();
    let mut exception = ExceptionObject::new(tag);
    match raise(frames, &mut exception) {
        RaiseOutcome::Caught { index, cleanups, .. } => {
            for frame in cleanups {
                log.push(format!("cleanup {}", frame));
                if raising_cleanup == Some(frame) {
                    assert_eq!(exception.nested_raise(), RaiseAdmission::DoubleFault);
                    log.push("abort".to_string());
                    return log;
                }
            }
            exception.resume();
            log.push(format!("caught at {}", index));
        }
        RaiseOutcome::Uncaught => log.push(format!("exit {}", exit_status(None))),
        RaiseOutcome::Fatal => log.push("abort".to_string()),
    }
    log
}

#[test]
fn personality_answers() {
    let c = FrameHandler::Cleanup { landing_pad: 7 };
    assert_eq!(personality(&c, Phase::Search, 1), PersonalityOutcome::ContinueSearch);
    assert_eq!(personality(&c, Phase::Cleanup, 1), PersonalityOutcome::RunCleanup(7));
    let k = FrameHandler::Catch { tag: Some(3), landing_pad: 9 };
    assert_eq!(personality(&k, Phase::Search, 3), PersonalityOutcome::HandlerFound(9));
    assert_eq!(personality(&k, Phase::Search, 4), PersonalityOutcome::ContinueSearch);
    let all = FrameHandler::Catch { tag: None, landing_pad: 9 };
    assert_eq!(personality(&all, Phase::Search, 4), PersonalityOutcome::HandlerFound(9));
    assert_eq!(personality(&FrameHandler::Plain, Phase::Cleanup, 4), PersonalityOutcome::ContinueSearch);
    assert_eq!(personality(&FrameHandler::Malformed, Phase::Search, 4), PersonalityOutcome::Malformed);
}

#[test]
fn logging_guard_runs_before_catch() {
    // foo raises; bar holds a logging guard; the catch wraps the call to bar.
    let frames = vec![plain(0x100), guard(0x200, 0xb0), catch(0x300, None, 0xc0)];
    let log = run(&frames, STR_PAYLOAD, None);
    assert_eq!(log, vec!["cleanup 1".to_string(), "caught at 2".to_string()]);
}

#[test]
fn raising_destructor_aborts_before_second_catch() {
    // The first raise is caught.
    let first = vec![plain(0x100), guard(0x200, 0xb0), catch(0x300, None, 0xc0)];
    assert_eq!(run(&first, STR_PAYLOAD, None).last().unwrap(), "caught at 2");
    // The second raise unwinds through a guard whose destructor raises.
    let second = vec![plain(0x100), guard(0x280, 0xd0), catch(0x400, None, 0xe0)];
    let log = run(&second, STR_PAYLOAD, Some(1));
    assert_eq!(log, vec!["cleanup 1".to_string(), "abort".to_string()]);
    assert!(!log.iter().any(|l| l.starts_with("caught")));
}

#[test]
fn uncaught_raise_runs_no_cleanup() {
    let frames = vec![plain(0x100), guard(0x200, 0xb0), catch(0x300, Some(INT_PAYLOAD), 0xc0)];
    let mut exception = ExceptionObject::new(STR_PAYLOAD);
    assert_eq!(raise(&frames, &mut exception), RaiseOutcome::Uncaught);
    assert_eq!(exception.phase, UnwindPhase::FailedSearch);
    assert_eq!(run(&frames, STR_PAYLOAD, None), vec![format!("exit {}", UNCAUGHT_EXIT_STATUS)]);
}

#[test]
fn raise_during_cleanup_is_a_double_fault() {
    let frames = vec![guard(0x100, 0xa0), catch(0x200, None, 0xc0)];
    let mut exception = ExceptionObject::new(STR_PAYLOAD);
    assert_eq!(exception.nested_raise(), RaiseAdmission::Proceed);
    let outcome = raise(&frames, &mut exception);
    assert_eq!(outcome, RaiseOutcome::Caught { index: 1, landing_pad: 0xc0, cleanups: vec![0] });
    assert_eq!(exception.phase, UnwindPhase::Cleaning);
    assert_eq!(exception.handler_cfa, Some(0x200));
    assert_eq!(exception.nested_raise(), RaiseAdmission::DoubleFault);
    exception.resume();
    assert_eq!(exception.phase, UnwindPhase::Resumed);
    assert_eq!(exception.nested_raise(), RaiseAdmission::Proceed);
}

#[test]
fn mismatched_inner_catch_passes_to_outer() {
    let frames = vec![
        plain(0x100),
        guard(0x180, 0xa0),
        catch(0x200, Some(INT_PAYLOAD), 0xb0),
        guard(0x280, 0xc0),
        catch(0x300, Some(STR_PAYLOAD), 0xd0),
    ];
    assert_eq!(search_phase(&frames, STR_PAYLOAD), SearchOutcome::Found { index: 4, cfa: 0x300 });
    assert_eq!(search_phase(&frames, INT_PAYLOAD), SearchOutcome::Found { index: 2, cfa: 0x200 });
    let mut exception = ExceptionObject::new(STR_PAYLOAD);
    assert_eq!(
        raise(&frames, &mut exception),
        RaiseOutcome::Caught { index: 4, landing_pad: 0xd0, cleanups: vec![1, 3] }
    );
}

#[test]
fn cleanups_run_innermost_first() {
    let frames = vec![
        guard(0x100, 0xa1),
        plain(0x140),
        guard(0x180, 0xa2),
        guard(0x1c0, 0xa3),
        catch(0x200, None, 0xb0),
        guard(0x280, 0xa4),
    ];
    assert_eq!(
        cleanup_phase(&frames, STR_PAYLOAD, 0x200),
        CleanupOutcome::Resume { index: 4, landing_pad: 0xb0, cleanups: vec![0, 2, 3] }
    );
}

#[test]
fn malformed_frames_are_fatal() {
    let early = vec![StackFrame { cfa: 0x100, handler: FrameHandler::Malformed }, catch(0x200, None, 0xb0)];
    assert_eq!(search_phase(&early, STR_PAYLOAD), SearchOutcome::Malformed);
    let mut exception = ExceptionObject::new(STR_PAYLOAD);
    assert_eq!(raise(&early, &mut exception), RaiseOutcome::Fatal);
    assert_eq!(exception.phase, UnwindPhase::Aborted);
    // The handler frame cannot be found again by its address.
    assert_eq!(cleanup_phase(&early, STR_PAYLOAD, 0x999), CleanupOutcome::Fatal);
    assert_eq!(cleanup_phase(&early, STR_PAYLOAD, 0x200), CleanupOutcome::Fatal);
    // A malformed frame above the handler is never reached.
    let late = vec![catch(0x100, None, 0xb0), StackFrame { cfa: 0x200, handler: FrameHandler::Malformed }];
    assert_eq!(search_phase(&late, STR_PAYLOAD), SearchOutcome::Found { index: 0, cfa: 0x100 });
}

#[test]
fn empty_stack_has_no_handler() {
    let frames: Vec<StackFrame> = Vec::new();
    assert_eq!(search_phase(&frames, STR_PAYLOAD), SearchOutcome::NoHandler);
    let mut exception = ExceptionObject::new(STR_PAYLOAD);
    assert_eq!(raise(&frames, &mut exception), RaiseOutcome::Uncaught);
}

#[test]
fn exit_status_of_entry_point() {
    assert_eq!(exit_status(Some(0)), 0);
    assert_eq!(exit_status(Some(3)), 3);
    assert_eq!(exit_status(None), 101);
}
