//! The raise/catch runtime: the state of an in-flight exception, the raise
//! that drives both phases, the double-fault policy and the exit status of a
//! program whose exception nobody caught.

use vstd::prelude::*;
use crate::unwind::{
    cleanup_frames, cleanup_phase, frame_with_cfa, has_cleanup, malformed_before,
    personality_spec, search_from, search_phase, CleanupOutcome, FrameHandler, Phase,
    PersonalityOutcome, SearchOutcome, StackFrame,
};

verus! {

/// Where an exception stands in its unwind.
#[derive(Clone, Copy, PartialEq, Eq, Structural, Debug)]
pub enum UnwindPhase {
    Raised,
    HandlerFound,
    FailedSearch,
    Cleaning,
    Resumed,
    Aborted,
}

/// The engine's bookkeeping for one in-flight exception: the class of its
/// payload, its phase, and the canonical frame address of the handler that
/// the search chose.
#[derive(Clone, Copy, PartialEq, Eq, Structural, Debug)]
pub struct ExceptionObject {
    pub tag: u64,
    pub phase: UnwindPhase,
    pub handler_cfa: Option<usize>,
}

/// Whether a raise made while another exception is in flight may go on.
#[derive(Clone, Copy, PartialEq, Eq, Structural, Debug)]
pub enum RaiseAdmission {
    Proceed,
    /// Cleanup code raised while unwinding for another exception: the process
    /// must terminate at once.
    DoubleFault,
}

/// The result of a raise.
#[derive(Clone, PartialEq, Eq, Debug)]
pub enum RaiseOutcome {
    /// The frame at `index` catches: run the cleanups of the frames at
    /// `cleanups`, innermost first, then resume it at `landing_pad`.
    Caught { index: usize, landing_pad: usize, cleanups: Vec<usize> },
    /// No frame catches; no cleanup runs.
    Uncaught,
    /// Malformed unwind data: the process must abort.
    Fatal,
}

/// The exit status of a program whose exception reached the outermost frame.
pub const UNCAUGHT_EXIT_STATUS: isize = 101;

impl ExceptionObject {
    /// Consistency of the bookkeeping: once a handler is chosen its canonical
    /// frame address is kept.
    pub open spec fn wf(&self) -> bool {
        match self.phase {
            UnwindPhase::HandlerFound | UnwindPhase::Cleaning | UnwindPhase::Resumed => self.handler_cfa is Some,
            UnwindPhase::Raised => self.handler_cfa is None,
            _ => true,
        }
    }

    /// A freshly raised exception with payload class `tag`.
    pub fn new(tag: u64) -> (r: ExceptionObject)
        ensures
            r.wf(),
            r.tag == tag,
            r.phase == UnwindPhase::Raised,
            r.handler_cfa is None,
    {
        ExceptionObject { tag, phase: UnwindPhase::Raised, handler_cfa: None }
    }

    /// The double-fault policy: a raise while this exception's cleanup runs is
    /// refused; at any other time it may proceed.
    pub fn nested_raise(&self) -> (r: RaiseAdmission)
        ensures
            r == RaiseAdmission::DoubleFault <==> self.phase == UnwindPhase::Cleaning,
    {
        match self.phase {
            UnwindPhase::Cleaning => RaiseAdmission::DoubleFault,
            _ => RaiseAdmission::Proceed,
        }
    }

    /// Marks the end of the cleanup phase: the handler frame has been resumed.
    pub fn resume(&mut self)
        requires
            old(self).wf(),
            old(self).phase == UnwindPhase::Cleaning,
        ensures
            final(self).wf(),
            final(self).phase == UnwindPhase::Resumed,
            final(self).tag == old(self).tag,
            final(self).handler_cfa == old(self).handler_cfa,
    {
        self.phase = UnwindPhase::Resumed;
    }
}

/// What a raise of an exception of class `tag` over `frames` gives.
pub open spec fn raise_spec(frames: Seq<StackFrame>, tag: u64, r: RaiseOutcome) -> bool {
    match search_from(frames, tag, 0) {
        SearchOutcome::NoHandler => r is Uncaught,
        SearchOutcome::Malformed => r is Fatal,
        SearchOutcome::Found { index: _, cfa } => match frame_with_cfa(frames, cfa, 0) {
            None => r is Fatal,
            Some(h) => if malformed_before(frames, tag, 0, h) {
                r is Fatal
            } else {
                match personality_spec(frames[h].handler, Phase::Search, tag) {
                    PersonalityOutcome::HandlerFound(pad) => r matches RaiseOutcome::Caught {
                        index,
                        landing_pad,
                        cleanups,
                    } && index == h && landing_pad == pad && cleanups@ == cleanup_frames(
                        frames,
                        tag,
                        0,
                        h,
                    ),
                    _ => r is Fatal,
                }
            },
        },
    }
}

/// The phase an exception reaches after a raise with outcome `r`.
pub open spec fn phase_after(r: RaiseOutcome) -> UnwindPhase {
    match r {
        RaiseOutcome::Caught { .. } => UnwindPhase::Cleaning,
        RaiseOutcome::Uncaught => UnwindPhase::FailedSearch,
        RaiseOutcome::Fatal => UnwindPhase::Aborted,
    }
}

/// Drives the two phases for `exception` over `frames`, innermost first.
/// The search runs no cleanup and, where no frame catches, the raise ends
/// there. Otherwise the cleanup phase finds the chosen frame again by its
/// canonical frame address; the exception is then left in its cleaning phase
/// while the listed cleanups run.
pub fn raise(frames: &Vec<StackFrame>, exception: &mut ExceptionObject) -> (r: RaiseOutcome)
    requires
        old(exception).wf(),
        old(exception).phase == UnwindPhase::Raised,
    ensures
        raise_spec(frames@, old(exception).tag, r),
        final(exception).wf(),
        final(exception).tag == old(exception).tag,
        final(exception).phase == phase_after(r),
        search_from(frames@, old(exception).tag, 0) matches SearchOutcome::Found { cfa, .. }
            ==> final(exception).handler_cfa == Some(cfa),
{
    let tag = exception.tag;
    match search_phase(frames, tag) {
        SearchOutcome::NoHandler => {
            exception.phase = UnwindPhase::FailedSearch;
            RaiseOutcome::Uncaught
        },
        SearchOutcome::Malformed => {
            exception.phase = UnwindPhase::Aborted;
            RaiseOutcome::Fatal
        },
        SearchOutcome::Found { index: _, cfa } => {
            exception.phase = UnwindPhase::HandlerFound;
            exception.handler_cfa = Some(cfa);
            match cleanup_phase(frames, tag, cfa) {
                CleanupOutcome::Resume { index, landing_pad, cleanups } => {
                    exception.phase = UnwindPhase::Cleaning;
                    RaiseOutcome::Caught { index, landing_pad, cleanups }
                },
                CleanupOutcome::Fatal => {
                    exception.phase = UnwindPhase::Aborted;
                    RaiseOutcome::Fatal
                },
            }
        },
    }
}

/// The exit status of a program's entry point: the value its body returned,
/// or the fixed sentinel where an exception reached the outermost frame.
pub fn exit_status(body: Option<isize>) -> (r: isize)
    ensures
        r == match body {
            Some(v) => v,
            None => UNCAUGHT_EXIT_STATUS,
        },
{
    match body {
        Some(v) => v,
        None => UNCAUGHT_EXIT_STATUS,
    }
}

/// Canonical frame addresses grow strictly from the innermost frame outward,
/// as they do on a downward-growing stack.
pub open spec fn cfas_increasing(frames: Seq<StackFrame>) -> bool {
    forall|i: int, j: int| 0 <= i < j < frames.len() ==> frames[i].cfa < frames[j].cfa
}

proof fn lemma_search_found(frames: Seq<StackFrame>, tag: u64, i: int)
    requires
        0 <= i,
        frames.len() <= usize::MAX,
    ensures
        search_from(frames, tag, i) matches SearchOutcome::Found { index, cfa } ==> {
            &&& i <= index < frames.len()
            &&& frames[index as int].cfa == cfa
            &&& personality_spec(frames[index as int].handler, Phase::Search, tag) is HandlerFound
            &&& forall|j: int|
                i <= j < index ==> (#[trigger] frames[j]).handler != FrameHandler::Malformed
        },
    decreases frames.len() - i,
{
    if 0 <= i < frames.len() {
        lemma_search_found(frames, tag, i + 1);
    }
}

proof fn lemma_frame_found_at(frames: Seq<StackFrame>, cfa: usize, i: int, h: int)
    requires
        0 <= i <= h < frames.len(),
        frames[h].cfa == cfa,
        forall|j: int| i <= j < h ==> (#[trigger] frames[j]).cfa != cfa,
    ensures
        frame_with_cfa(frames, cfa, i) == Some(h),
    decreases h - i,
{
    if i < h {
        lemma_frame_found_at(frames, cfa, i + 1, h);
    }
}

proof fn lemma_cleanup_frames_shape(frames: Seq<StackFrame>, tag: u64, i: int, h: int)
    requires
        0 <= i,
        h <= usize::MAX,
    ensures
        forall|k: int|
            0 <= k < cleanup_frames(frames, tag, i, h).len() ==> i <= #[trigger] cleanup_frames(
                frames,
                tag,
                i,
                h,
            )[k] < h && has_cleanup(frames, tag, cleanup_frames(frames, tag, i, h)[k] as int),
        forall|a: int, b: int|
            0 <= a < b < cleanup_frames(frames, tag, i, h).len() ==> cleanup_frames(
                frames,
                tag,
                i,
                h,
            )[a] < cleanup_frames(frames, tag, i, h)[b],
        forall|j: int|
            i <= j < h && has_cleanup(frames, tag, j) ==> cleanup_frames(
                frames,
                tag,
                i,
                h,
            ).contains(j as usize),
    decreases h - i,
{
    if i < h {
        lemma_cleanup_frames_shape(frames, tag, i + 1, h);
        let rest = cleanup_frames(frames, tag, i + 1, h);
        if has_cleanup(frames, tag, i) {
            let all = seq![i as usize].add(rest);
            assert(cleanup_frames(frames, tag, i, h) == all);
            assert forall|k: int| 0 < k < all.len() implies all[k] == rest[k - 1] by {}
            assert forall|j: int| i <= j < h && has_cleanup(frames, tag, j) implies all.contains(
                j as usize,
            ) by {
                if j == i {
                    assert(all[0] == j as usize);
                } else {
                    let k = choose|k: int| 0 <= k < rest.len() && rest[k] == j as usize;
                    assert(all[k + 1] == j as usize);
                }
            }
        }
    }
}

/// When a frame catches the exception, the cleanup of every frame strictly
/// inside it that has one is listed exactly once, innermost first, and no
/// other cleanup is listed.
pub proof fn lemma_caught_cleanups_once_in_order(
    frames: Seq<StackFrame>,
    tag: u64,
    r: RaiseOutcome,
)
    requires
        cfas_increasing(frames),
        frames.len() <= usize::MAX,
        search_from(frames, tag, 0) is Found,
        raise_spec(frames, tag, r),
    ensures
        r matches RaiseOutcome::Caught { index, cleanups, .. } && {
            &&& search_from(frames, tag, 0) == (SearchOutcome::Found {
                index,
                cfa: frames[index as int].cfa,
            })
            &&& forall|a: int, b: int|
                0 <= a < b < cleanups@.len() ==> cleanups@[a] < cleanups@[b]
            &&& forall|k: int|
                0 <= k < cleanups@.len() ==> #[trigger] cleanups@[k] < index && has_cleanup(
                    frames,
                    tag,
                    cleanups@[k] as int,
                )
            &&& forall|j: int|
                0 <= j < index && has_cleanup(frames, tag, j) ==> cleanups@.contains(j as usize)
        },
{
    lemma_search_found(frames, tag, 0);
    let h = search_from(frames, tag, 0)->index as int;
    let cfa = search_from(frames, tag, 0)->cfa;
    lemma_frame_found_at(frames, cfa, 0, h);
    assert(!malformed_before(frames, tag, 0, h)) by {
        assert forall|j: int| 0 <= j < h implies !(#[trigger] personality_spec(
            frames[j].handler,
            Phase::Cleanup,
            tag,
        ) is Malformed) by {
            assert(frames[j].handler != FrameHandler::Malformed);
        }
    }
    lemma_cleanup_frames_shape(frames, tag, 0, h);
}

/// A raise that no frame catches ends after the search: no cleanup is listed,
/// and the program's exit status is the fixed sentinel.
pub proof fn lemma_uncaught_runs_no_cleanup(frames: Seq<StackFrame>, tag: u64, r: RaiseOutcome)
    requires
        search_from(frames, tag, 0) is NoHandler,
        raise_spec(frames, tag, r),
    ensures
        r is Uncaught,
        phase_after(r) == UnwindPhase::FailedSearch,
        UNCAUGHT_EXIT_STATUS != 0,
{
}

/// A catch boundary for another class of payload does not match: the search
/// goes on to the next enclosing frame.
pub proof fn lemma_mismatched_catch_continues(
    frames: Seq<StackFrame>,
    tag: u64,
    i: int,
    other: u64,
    landing_pad: usize,
)
    requires
        0 <= i < frames.len(),
        frames[i].handler == (FrameHandler::Catch { tag: Some(other), landing_pad }),
        other != tag,
    ensures
        personality_spec(frames[i].handler, Phase::Search, tag) is ContinueSearch,
        search_from(frames, tag, i) == search_from(frames, tag, i + 1),
{
}

/// Once a raise has found its handler, the exception stays in its cleaning
/// phase while the cleanups run; a raise from cleanup code in that phase is a
/// double fault, never a second unwind.
pub proof fn lemma_raise_from_cleanup_is_double_fault(
    frames: Seq<StackFrame>,
    before: ExceptionObject,
    after: ExceptionObject,
    r: RaiseOutcome,
)
    requires
        before.phase == UnwindPhase::Raised,
        raise_spec(frames, before.tag, r),
        after.phase == phase_after(r),
        r is Caught,
    ensures
        after.phase == UnwindPhase::Cleaning,
        search_from(frames, before.tag, 0) is Found,
{
}

} // verus!
