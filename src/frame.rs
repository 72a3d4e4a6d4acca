//! One step of the frame walk: given the call-frame rules that the CFI
//! evaluator reports for the current program counter, compute the context of
//! the calling frame.

use vstd::prelude::*;
use gimli::Register;
use crate::arch::{Arch, Context, RA_NUMBER, SP_NUMBER};

verus! {

/// How to find the canonical frame address from the current context.
pub enum CfaRule {
    /// The value of `register` plus `offset`.
    RegisterAndOffset { register: Register, offset: isize },
    /// A form that this engine does not evaluate (a DWARF expression).
    Unsupported,
}

/// Where the caller's value of one register is found.
pub enum RegisterRule {
    /// The register has no recoverable value; it keeps the current one.
    Undefined,
    /// The callee did not change the register.
    SameValue,
    /// Saved in memory at the canonical frame address plus the offset.
    Offset(isize),
    /// The value is the canonical frame address plus the offset.
    ValOffset(isize),
    /// Held in another register of the current context.
    InRegister(Register),
    /// A known constant.
    Constant(usize),
    /// A form that this engine does not evaluate (a DWARF expression).
    Unsupported,
}

/// The rules for one frame: the canonical frame address, and a rule for each
/// register that an outer frame may need.
pub struct FrameRules {
    pub cfa: CfaRule,
    pub registers: Vec<(Register, RegisterRule)>,
}

/// Why the CFI evaluator has no rules for a program counter.
#[derive(Clone, Copy, PartialEq, Eq, Structural, Debug)]
pub enum LookupFailure {
    /// No unwind information: the bottom of the call stack.
    EndOfStack,
    /// Unwind information that cannot be read.
    Malformed,
}

/// A window of stack memory: word `i` of `words` lies at `base + 8 * i`.
pub struct StackMemory {
    pub base: usize,
    pub words: Vec<usize>,
}

/// A frame of the walk: its context and its canonical frame address.
pub struct Frame {
    pub context: Context,
    pub cfa: usize,
}

/// The outcome of asking for the frame that follows the current one.
pub enum FrameStep {
    /// The caller's frame.
    Next(Frame),
    /// The current frame is the outermost one.
    EndOfStack,
    /// The rules could not be read or applied: a fatal unwind error.
    Malformed,
}

/// `base + off`, where it is an address.
pub open spec fn offset_address(base: usize, off: isize) -> Option<usize> {
    if base + off < 0 || base + off > usize::MAX {
        None
    } else {
        Some((base + off) as usize)
    }
}

impl StackMemory {
    /// The word stored at `addr`, where the window holds an aligned word there.
    pub open spec fn word_at(&self, addr: int) -> Option<usize> {
        let d = addr - self.base;
        if 0 <= d && d % 8 == 0 && d / 8 < self.words@.len() {
            Some(self.words@[d / 8])
        } else {
            None
        }
    }

    /// Reads the word at `addr`.
    pub fn read(&self, addr: usize) -> (r: Option<usize>)
        ensures
            r == self.word_at(addr as int),
    {
        if addr < self.base {
            return None;
        }
        let d: usize = addr - self.base;
        if d % 8 != 0 {
            return None;
        }
        let i: usize = d / 8;
        if i < self.words.len() {
            Some(self.words[i])
        } else {
            None
        }
    }
}

/// The canonical frame address that `rule` gives for `ctx`.
pub open spec fn cfa_value(ctx: Context, rule: CfaRule) -> Option<usize> {
    match rule {
        CfaRule::RegisterAndOffset { register, offset } => if Arch::is_mapped(register.0) {
            offset_address(ctx.slot(register.0), offset)
        } else {
            None
        },
        CfaRule::Unsupported => None,
    }
}

/// The caller's value of a register under `rule`, where `reg` is that register.
pub open spec fn rule_value(
    ctx: Context,
    cfa: usize,
    mem: StackMemory,
    reg: u16,
    rule: RegisterRule,
) -> Option<usize> {
    match rule {
        RegisterRule::Undefined | RegisterRule::SameValue => if Arch::is_mapped(reg) {
            Some(ctx.slot(reg))
        } else {
            None
        },
        RegisterRule::Offset(k) => match offset_address(cfa, k) {
            Some(a) => mem.word_at(a as int),
            None => None,
        },
        RegisterRule::ValOffset(k) => offset_address(cfa, k),
        RegisterRule::InRegister(r) => if Arch::is_mapped(r.0) {
            Some(ctx.slot(r.0))
        } else {
            None
        },
        RegisterRule::Constant(v) => Some(v),
        RegisterRule::Unsupported => None,
    }
}

/// The caller's slots after the rules in `rules`, applied in order on top of
/// `acc`; every value is read from the current context `ctx`.
pub open spec fn apply_rules(
    ctx: Context,
    cfa: usize,
    mem: StackMemory,
    rules: Seq<(Register, RegisterRule)>,
    acc: Map<u16, usize>,
) -> Option<Map<u16, usize>>
    decreases rules.len(),
{
    if rules.len() == 0 {
        Some(acc)
    } else {
        let reg = rules[0].0.0;
        match rule_value(ctx, cfa, mem, reg, rules[0].1) {
            Some(v) => if Arch::is_mapped(reg) {
                apply_rules(ctx, cfa, mem, rules.drop_first(), acc.insert(reg, v))
            } else {
                None
            },
            None => None,
        }
    }
}

/// The caller's slots: the stack pointer becomes the canonical frame address,
/// the return address starts at zero, and then each register rule applies.
pub open spec fn caller_slots(ctx: Context, rules: FrameRules, mem: StackMemory) -> Option<
    Map<u16, usize>,
> {
    match cfa_value(ctx, rules.cfa) {
        Some(cfa) => apply_rules(
            ctx,
            cfa,
            mem,
            rules.registers@,
            ctx.slots().insert(SP_NUMBER, cfa).insert(RA_NUMBER, 0),
        ),
        None => None,
    }
}

/// Computes the canonical frame address of `ctx` under `rule`.
pub fn compute_cfa(ctx: &Context, rule: &CfaRule) -> (r: Option<usize>)
    ensures
        r == cfa_value(*ctx, *rule),
{
    match rule {
        CfaRule::RegisterAndOffset { register, offset } => {
            if Arch::has_slot(*register) {
                ctx.get(*register).checked_add_signed(*offset)
            } else {
                None
            }
        },
        CfaRule::Unsupported => None,
    }
}

/// The caller's value of register `reg` under `rule`.
fn recover_register(
    ctx: &Context,
    cfa: usize,
    mem: &StackMemory,
    reg: Register,
    rule: &RegisterRule,
) -> (r: Option<usize>)
    ensures
        r == rule_value(*ctx, cfa, *mem, reg.0, *rule),
{
    match rule {
        RegisterRule::Undefined | RegisterRule::SameValue => {
            if Arch::has_slot(reg) {
                Some(ctx.get(reg))
            } else {
                None
            }
        },
        RegisterRule::Offset(k) => match cfa.checked_add_signed(*k) {
            Some(a) => mem.read(a),
            None => None,
        },
        RegisterRule::ValOffset(k) => cfa.checked_add_signed(*k),
        RegisterRule::InRegister(r) => {
            if Arch::has_slot(*r) {
                Some(ctx.get(*r))
            } else {
                None
            }
        },
        RegisterRule::Constant(v) => Some(*v),
        RegisterRule::Unsupported => None,
    }
}

/// Computes the caller's context from the current one and the rules that
/// the CFI evaluator reported for it. `None` where the rules cannot be
/// applied: an unsupported form, an unmapped register, an address out of
/// range or a saved slot outside the stack window.
pub fn unwind_step(ctx: &Context, rules: &FrameRules, mem: &StackMemory) -> (r: Option<Frame>)
    ensures
        match r {
            Some(f) => {
                &&& cfa_value(*ctx, rules.cfa) == Some(f.cfa)
                &&& caller_slots(*ctx, *rules, *mem) == Some(f.context.slots())
            },
            None => caller_slots(*ctx, *rules, *mem) is None,
        },
{
    let cfa = match compute_cfa(ctx, &rules.cfa) {
        Some(c) => c,
        None => return None,
    };
    let mut next = ctx.duplicate();
    next.set(Arch::sp(), cfa);
    next.set(Arch::ra(), 0);
    let ghost all = rules.registers@;
    let ghost target = caller_slots(*ctx, *rules, *mem);
    proof {
        assert(all.subrange(0, all.len() as int) =~= all);
    }
    let mut i: usize = 0;
    while i < rules.registers.len()
        invariant
            i <= all.len(),
            all == rules.registers@,
            target == caller_slots(*ctx, *rules, *mem),
            cfa_value(*ctx, rules.cfa) == Some(cfa),
            target == apply_rules(*ctx, cfa, *mem, all.subrange(i as int, all.len() as int), next.slots()),
        decreases all.len() - i,
    {
        let reg = rules.registers[i].0;
        let v = recover_register(ctx, cfa, mem, reg, &rules.registers[i].1);
        proof {
            let rest = all.subrange(i as int, all.len() as int);
            assert(rest[0] == all[i as int]);
            assert(rest.drop_first() =~= all.subrange(i + 1, all.len() as int));
        }
        match v {
            Some(v) => {
                if Arch::has_slot(reg) {
                    next.set(reg, v);
                } else {
                    assert(target is None);
                    return None;
                }
            },
            None => {
                assert(target is None);
                return None;
            },
        }
        i = i + 1;
    }
    proof {
        assert(all.subrange(i as int, all.len() as int) =~= Seq::<(Register, RegisterRule)>::empty());
    }
    Some(Frame { context: next, cfa })
}

/// Advances the frame walk by one frame, given what the CFI evaluator
/// reported for the current program counter: no information ends the walk,
/// unreadable information is fatal.
pub fn next_frame(
    ctx: &Context,
    lookup: &Result<FrameRules, LookupFailure>,
    mem: &StackMemory,
) -> (r: FrameStep)
    ensures
        match *lookup {
            Err(LookupFailure::EndOfStack) => r is EndOfStack,
            Err(LookupFailure::Malformed) => r is Malformed,
            Ok(rules) => match r {
                FrameStep::Next(f) => caller_slots(*ctx, rules, *mem) == Some(f.context.slots())
                    && cfa_value(*ctx, rules.cfa) == Some(f.cfa),
                FrameStep::Malformed => caller_slots(*ctx, rules, *mem) is None,
                FrameStep::EndOfStack => false,
            },
        },
{
    match lookup {
        Err(LookupFailure::EndOfStack) => FrameStep::EndOfStack,
        Err(LookupFailure::Malformed) => FrameStep::Malformed,
        Ok(rules) => match unwind_step(ctx, rules, mem) {
            Some(f) => FrameStep::Next(f),
            None => FrameStep::Malformed,
        },
    }
}

/// A forward-only walk over the frames of a stack, innermost first. The walk
/// asks for the rules of the current frame's program counter, steps to the
/// caller, and once it has ended (at the bottom of the stack or on malformed
/// rules) it stays ended.
pub struct FrameWalker {
    pub current: Context,
    pub done: bool,
}

impl FrameWalker {
    /// A walk that starts at `start`.
    pub fn new(start: Context) -> (r: FrameWalker)
        ensures
            r.current == start,
            !r.done,
    {
        FrameWalker { current: start, done: false }
    }

    /// The program counter whose rules the next step needs: the current
    /// frame's return address.
    pub fn pc(&self) -> (r: usize)
        ensures
            r == self.current.ra,
    {
        self.current.ra
    }

    /// Steps to the caller's frame with what the CFI evaluator reported for
    /// the current program counter. The caller's context becomes the current
    /// one; at the end of the stack or on malformed rules the walk ends and
    /// keeps its last context.
    pub fn advance(
        &mut self,
        lookup: &Result<FrameRules, LookupFailure>,
        mem: &StackMemory,
    ) -> (r: FrameStep)
        requires
            !old(self).done,
        ensures
            match *lookup {
                Err(LookupFailure::EndOfStack) => r is EndOfStack,
                Err(LookupFailure::Malformed) => r is Malformed,
                Ok(rules) => match r {
                    FrameStep::Next(f) => caller_slots(old(self).current, rules, *mem) == Some(
                        f.context.slots(),
                    ) && cfa_value(old(self).current, rules.cfa) == Some(f.cfa),
                    FrameStep::Malformed => caller_slots(old(self).current, rules, *mem) is None,
                    FrameStep::EndOfStack => false,
                },
            },
            match r {
                FrameStep::Next(f) => !final(self).done && final(self).current.slots()
                    == f.context.slots() && final(self).current.ra == f.context.ra,
                _ => final(self).done && final(self).current == old(self).current,
            },
    {
        let step = next_frame(&self.current, lookup, mem);
        match step {
            FrameStep::Next(f) => {
                self.current = f.context.duplicate();
                FrameStep::Next(f)
            },
            FrameStep::EndOfStack => {
                self.done = true;
                FrameStep::EndOfStack
            },
            FrameStep::Malformed => {
                self.done = true;
                FrameStep::Malformed
            },
        }
    }
}

/// DWARF number of the register that holds the exception at a landing pad
/// (`rax`).
pub const EXCEPTION_REGISTER: u16 = 0;

/// DWARF number of the register that holds the handler selector at a
/// landing pad (`rdx`).
pub const SELECTOR_REGISTER: u16 = 1;

/// The context in which the handler frame resumes: the frame's own context,
/// with the return address replaced by the landing pad, the exception handle
/// in `rax` and the selector in `rdx`. Every other register, the stack pointer
/// and the control words included, keeps the frame's value; those two
/// caller-saved registers are the only ones a landing pad may rely on beyond
/// the callee-saved set.
pub fn landing_context(frame: &Context, landing_pad: usize, exception: usize, selector: usize) -> (r:
    Context)
    ensures
        r.slots() == frame.slots().insert(RA_NUMBER, landing_pad).insert(
            EXCEPTION_REGISTER,
            exception,
        ).insert(SELECTOR_REGISTER, selector),
{
    let mut r = frame.duplicate();
    r.set(Arch::ra(), landing_pad);
    r.set(Register(EXCEPTION_REGISTER), exception);
    r.set(Register(SELECTOR_REGISTER), selector);
    r
}

} // verus!
