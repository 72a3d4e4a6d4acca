//! The two-phase unwind protocol: a search phase that finds the handler
//! frame without running any cleanup, and a cleanup phase that walks the same
//! frames again, runs the cleanup of every frame inside the handler, and
//! resumes at the handler's landing pad.

use vstd::prelude::*;

verus! {

/// The directive given to a frame's personality.
#[derive(Clone, Copy, PartialEq, Eq, Structural, Debug)]
pub enum Phase {
    Search,
    Cleanup,
}

/// What the personality attached to a frame knows of it.
#[derive(Clone, Copy, PartialEq, Eq, Structural, Debug)]
pub enum FrameHandler {
    /// No personality: nothing to do in either phase.
    Plain,
    /// Destructors to run at `landing_pad` while unwinding through the frame.
    Cleanup { landing_pad: usize },
    /// A catch boundary for payloads of class `tag`, or of every class where
    /// `tag` is `None`.
    Catch { tag: Option<u64>, landing_pad: usize },
    /// Language data that cannot be read.
    Malformed,
}

/// A personality's answer.
#[derive(Clone, Copy, PartialEq, Eq, Structural, Debug)]
pub enum PersonalityOutcome {
    /// Not this frame: go on to the caller.
    ContinueSearch,
    /// This frame catches the exception; it resumes at the landing pad.
    HandlerFound(usize),
    /// This frame has cleanup to run at the landing pad.
    RunCleanup(usize),
    /// The frame's data cannot be read: a fatal unwind error.
    Malformed,
}

/// A frame as the walk reports it: its canonical frame address and the
/// personality attached to it. A stack lists them innermost first.
#[derive(Clone, Copy, PartialEq, Eq, Structural, Debug)]
pub struct StackFrame {
    pub cfa: usize,
    pub handler: FrameHandler,
}

/// The result of the search phase.
#[derive(Clone, Copy, PartialEq, Eq, Structural, Debug)]
pub enum SearchOutcome {
    /// The frame at `index`, with canonical frame address `cfa`, catches.
    Found { index: usize, cfa: usize },
    /// No frame catches: the stack ended first.
    NoHandler,
    /// A frame's personality reported malformed data.
    Malformed,
}

/// The result of the cleanup phase.
#[derive(Clone, PartialEq, Eq, Debug)]
pub enum CleanupOutcome {
    /// Run the cleanups of the frames at `cleanups`, innermost first, then
    /// resume the frame at `index` at `landing_pad`.
    Resume { index: usize, landing_pad: usize, cleanups: Vec<usize> },
    /// A personality reported malformed data, or the handler frame was not
    /// found again: a fatal unwind error.
    Fatal,
}

/// The personality's answer for `handler` under `phase` to an exception of
/// class `tag`.
pub open spec fn personality_spec(handler: FrameHandler, phase: Phase, tag: u64) -> PersonalityOutcome {
    match handler {
        FrameHandler::Plain => PersonalityOutcome::ContinueSearch,
        FrameHandler::Cleanup { landing_pad } => match phase {
            Phase::Search => PersonalityOutcome::ContinueSearch,
            Phase::Cleanup => PersonalityOutcome::RunCleanup(landing_pad),
        },
        FrameHandler::Catch { tag: t, landing_pad } => if t is None || t == Some(tag) {
            PersonalityOutcome::HandlerFound(landing_pad)
        } else {
            PersonalityOutcome::ContinueSearch
        },
        FrameHandler::Malformed => PersonalityOutcome::Malformed,
    }
}

/// The personality dispatch: what the frame's personality answers.
pub fn personality(handler: &FrameHandler, phase: Phase, tag: u64) -> (r: PersonalityOutcome)
    ensures
        r == personality_spec(*handler, phase, tag),
{
    match handler {
        FrameHandler::Plain => PersonalityOutcome::ContinueSearch,
        FrameHandler::Cleanup { landing_pad } => match phase {
            Phase::Search => PersonalityOutcome::ContinueSearch,
            Phase::Cleanup => PersonalityOutcome::RunCleanup(*landing_pad),
        },
        FrameHandler::Catch { tag: t, landing_pad } => {
            let matches = match t {
                None => true,
                Some(v) => *v == tag,
            };
            if matches {
                PersonalityOutcome::HandlerFound(*landing_pad)
            } else {
                PersonalityOutcome::ContinueSearch
            }
        },
        FrameHandler::Malformed => PersonalityOutcome::Malformed,
    }
}

/// The search phase from frame `i` outward.
pub open spec fn search_from(frames: Seq<StackFrame>, tag: u64, i: int) -> SearchOutcome
    decreases frames.len() - i,
{
    if i < 0 || i >= frames.len() {
        SearchOutcome::NoHandler
    } else {
        match personality_spec(frames[i].handler, Phase::Search, tag) {
            PersonalityOutcome::HandlerFound(_) => SearchOutcome::Found {
                index: i as usize,
                cfa: frames[i].cfa,
            },
            PersonalityOutcome::Malformed => SearchOutcome::Malformed,
            _ => search_from(frames, tag, i + 1),
        }
    }
}

/// Phase one: asks each frame's personality, innermost first, whether it
/// catches an exception of class `tag`. Runs no cleanup.
pub fn search_phase(frames: &Vec<StackFrame>, tag: u64) -> (r: SearchOutcome)
    ensures
        r == search_from(frames@, tag, 0),
{
    let mut i: usize = 0;
    while i < frames.len()
        invariant
            i <= frames@.len(),
            search_from(frames@, tag, 0) == search_from(frames@, tag, i as int),
        decreases frames@.len() - i,
    {
        match personality(&frames[i].handler, Phase::Search, tag) {
            PersonalityOutcome::HandlerFound(_) => {
                return SearchOutcome::Found { index: i, cfa: frames[i].cfa };
            },
            PersonalityOutcome::Malformed => {
                return SearchOutcome::Malformed;
            },
            _ => {},
        }
        i = i + 1;
    }
    SearchOutcome::NoHandler
}

/// The first frame from `i` outward whose canonical frame address is `cfa`.
pub open spec fn frame_with_cfa(frames: Seq<StackFrame>, cfa: usize, i: int) -> Option<int>
    decreases frames.len() - i,
{
    if i < 0 || i >= frames.len() {
        None
    } else if frames[i].cfa == cfa {
        Some(i)
    } else {
        frame_with_cfa(frames, cfa, i + 1)
    }
}

proof fn lemma_frame_with_cfa_range(frames: Seq<StackFrame>, cfa: usize, i: int)
    requires
        0 <= i,
    ensures
        frame_with_cfa(frames, cfa, i) matches Some(h) ==> i <= h < frames.len()
            && frames[h].cfa == cfa,
    decreases frames.len() - i,
{
    if i < frames.len() && frames[i].cfa != cfa {
        lemma_frame_with_cfa_range(frames, cfa, i + 1);
    }
}

/// Whether a frame in `[i, h)` answers the cleanup directive with malformed
/// data.
pub open spec fn malformed_before(frames: Seq<StackFrame>, tag: u64, i: int, h: int) -> bool {
    exists|j: int|
        i <= j < h && #[trigger] personality_spec(frames[j].handler, Phase::Cleanup, tag)
            is Malformed
}

/// Whether the frame at `j` has cleanup to run.
pub open spec fn has_cleanup(frames: Seq<StackFrame>, tag: u64, j: int) -> bool {
    personality_spec(frames[j].handler, Phase::Cleanup, tag) is RunCleanup
}

/// The frames in `[i, h)` that have cleanup to run, innermost first.
pub open spec fn cleanup_frames(frames: Seq<StackFrame>, tag: u64, i: int, h: int) -> Seq<usize>
    decreases h - i,
{
    if i >= h {
        Seq::empty()
    } else if has_cleanup(frames, tag, i) {
        seq![i as usize].add(cleanup_frames(frames, tag, i + 1, h))
    } else {
        cleanup_frames(frames, tag, i + 1, h)
    }
}

/// The cleanup phase for an exception of class `tag` whose search chose the
/// frame with canonical frame address `target`.
pub open spec fn cleanup_spec(
    frames: Seq<StackFrame>,
    tag: u64,
    target: usize,
    r: CleanupOutcome,
) -> bool {
    match frame_with_cfa(frames, target, 0) {
        None => r is Fatal,
        Some(h) => if malformed_before(frames, tag, 0, h) {
            r is Fatal
        } else {
            match personality_spec(frames[h].handler, Phase::Search, tag) {
                PersonalityOutcome::HandlerFound(pad) => r matches CleanupOutcome::Resume {
                    index,
                    landing_pad,
                    cleanups,
                } && index == h && landing_pad == pad && cleanups@ == cleanup_frames(
                    frames,
                    tag,
                    0,
                    h,
                ),
                _ => r is Fatal,
            }
        },
    }
}

proof fn lemma_cleanup_frames_extend(frames: Seq<StackFrame>, tag: u64, i: int, h: int)
    requires
        0 <= i <= h,
    ensures
        cleanup_frames(frames, tag, i, h + 1) == cleanup_frames(frames, tag, i, h).add(
            if has_cleanup(frames, tag, h) {
                seq![h as usize]
            } else {
                Seq::empty()
            },
        ),
    decreases h - i,
{
    if i < h {
        lemma_cleanup_frames_extend(frames, tag, i + 1, h);
        if has_cleanup(frames, tag, i) {
            assert(seq![i as usize].add(cleanup_frames(frames, tag, i + 1, h)).add(
                if has_cleanup(frames, tag, h) {
                    seq![h as usize]
                } else {
                    Seq::empty()
                },
            ) =~= seq![i as usize].add(
                cleanup_frames(frames, tag, i + 1, h).add(
                    if has_cleanup(frames, tag, h) {
                        seq![h as usize]
                    } else {
                        Seq::empty()
                    },
                ),
            ));
        }
    } else {
        assert(cleanup_frames(frames, tag, h + 1, h + 1) =~= Seq::<usize>::empty());
        if has_cleanup(frames, tag, h) {
            assert(seq![h as usize].add(Seq::<usize>::empty()) =~= seq![h as usize]);
        }
        assert(Seq::<usize>::empty().add(
            if has_cleanup(frames, tag, h) {
                seq![h as usize]
            } else {
                Seq::empty()
            },
        ) =~= if has_cleanup(frames, tag, h) {
            seq![h as usize]
        } else {
            Seq::<usize>::empty()
        });
    }
}

/// Phase two: walks the frames again from the innermost, trusting nothing of
/// the search but the handler's canonical frame address `target`. Every frame
/// inside the handler is asked for its cleanup; the handler frame gives the
/// landing pad to resume at.
pub fn cleanup_phase(frames: &Vec<StackFrame>, tag: u64, target: usize) -> (r: CleanupOutcome)
    ensures
        cleanup_spec(frames@, tag, target, r),
{
    let mut cleanups: Vec<usize> = Vec::new();
    let mut i: usize = 0;
    while i < frames.len()
        invariant
            i <= frames@.len(),
            frame_with_cfa(frames@, target, 0) == frame_with_cfa(frames@, target, i as int),
            !malformed_before(frames@, tag, 0, i as int),
            cleanups@ == cleanup_frames(frames@, tag, 0, i as int),
        decreases frames@.len() - i,
    {
        if frames[i].cfa == target {
            return match personality(&frames[i].handler, Phase::Search, tag) {
                PersonalityOutcome::HandlerFound(pad) => CleanupOutcome::Resume {
                    index: i,
                    landing_pad: pad,
                    cleanups,
                },
                _ => CleanupOutcome::Fatal,
            };
        }
        match personality(&frames[i].handler, Phase::Cleanup, tag) {
            PersonalityOutcome::RunCleanup(_) => {
                proof {
                    lemma_cleanup_frames_extend(frames@, tag, 0, i as int);
                }
                cleanups.push(i);
            },
            PersonalityOutcome::Malformed => {
                proof {
                    lemma_frame_with_cfa_range(frames@, target, i + 1);
                }
                assert(malformed_before(frames@, tag, 0, i + 1));
                return CleanupOutcome::Fatal;
            },
            _ => {
                proof {
                    lemma_cleanup_frames_extend(frames@, tag, 0, i as int);
                    assert(cleanups@.add(Seq::empty()) =~= cleanups@);
                }
            },
        }
        assert(!malformed_before(frames@, tag, 0, i + 1));
        i = i + 1;
    }
    CleanupOutcome::Fatal
}

} // verus!
