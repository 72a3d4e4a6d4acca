//! The x86-64 execution context and the map from DWARF register numbers to
//! its slots.

use vstd::prelude::*;
use gimli::Register;

verus! {

/// gimli's DWARF register number, a plain `u16` in a public field.
#[verifier::external_type_specification]
pub struct ExRegister(Register);

/// A snapshot of the machine state of one thread at a call point: the sixteen
/// general-purpose registers in DWARF order, the return address, and the two
/// control words that a resume must bring back.
#[derive(Clone, Default)]
pub struct Context {
    pub registers: [usize; 16],
    pub ra: usize,
    pub mcxsr: usize,
    pub fcw: usize,
}

/// The register numbers that the unwinder needs to know by name.
pub struct Arch;

/// DWARF number of the stack pointer (`rsp`).
pub const SP_NUMBER: u16 = 7;

/// DWARF number of the return-address column.
pub const RA_NUMBER: u16 = 16;

/// DWARF number of the SSE control/status register.
pub const MXCSR_NUMBER: u16 = 64;

/// DWARF number of the x87 control word.
pub const FCW_NUMBER: u16 = 65;

impl Arch {
    /// The stack-pointer register.
    pub fn sp() -> (r: Register)
        ensures
            r.0 == SP_NUMBER,
    {
        Register(SP_NUMBER)
    }

    /// The return-address register.
    pub fn ra() -> (r: Register)
        ensures
            r.0 == RA_NUMBER,
    {
        Register(RA_NUMBER)
    }

    /// The register numbers that have a slot in a `Context`.
    pub open spec fn is_mapped(n: u16) -> bool {
        n <= RA_NUMBER || n == MXCSR_NUMBER || n == FCW_NUMBER
    }

    /// Whether `reg` has a slot in a `Context`.
    pub fn has_slot(reg: Register) -> (r: bool)
        ensures
            r == Arch::is_mapped(reg.0),
    {
        reg.0 <= RA_NUMBER || reg.0 == MXCSR_NUMBER || reg.0 == FCW_NUMBER
    }
}

/// The DWARF name that gimli gives to an x86-64 register number.
pub uninterp spec fn x86_64_register_name(n: u16) -> Option<Seq<char>>;

/// Relies on gimli's `X86_64::register_name`: the name of a register number,
/// or `None` for a number it does not know; every general-purpose register and
/// the return-address column have one.
#[verifier::external_body]
fn register_name(reg: Register) -> (r: Option<&'static str>)
    ensures
        match r {
            Some(s) => x86_64_register_name(reg.0) == Some(s@),
            None => x86_64_register_name(reg.0) is None,
        },
        reg.0 <= RA_NUMBER ==> r is Some,
{
    gimli::X86_64::register_name(reg)
}

impl Context {
    /// The value held in the slot of register number `n`.
    pub open spec fn slot(&self, n: u16) -> usize
        recommends
            Arch::is_mapped(n),
    {
        if n < 16 {
            self.registers@[n as int]
        } else if n == RA_NUMBER {
            self.ra
        } else if n == MXCSR_NUMBER {
            self.mcxsr
        } else {
            self.fcw
        }
    }

    /// The context as a map from each mapped register number to its value.
    pub open spec fn slots(&self) -> Map<u16, usize> {
        Map::new(|n: u16| Arch::is_mapped(n), |n: u16| self.slot(n))
    }

    /// Two contexts that agree on every mapped slot.
    pub open spec fn same_slots(&self, other: &Context) -> bool {
        forall|n: u16| Arch::is_mapped(n) ==> #[trigger] self.slot(n) == other.slot(n)
    }

    /// A context with every slot zero.
    pub fn zeroed() -> (r: Context)
        ensures
            forall|n: u16| Arch::is_mapped(n) ==> #[trigger] r.slot(n) == 0,
    {
        Context { registers: [0usize; 16], ra: 0, mcxsr: 0, fcw: 0 }
    }

    /// A copy of this context, slot for slot.
    pub fn duplicate(&self) -> (r: Context)
        ensures
            r.registers@ == self.registers@,
            r.ra == self.ra,
            r.mcxsr == self.mcxsr,
            r.fcw == self.fcw,
            r.same_slots(self),
            r.slots() == self.slots(),
    {
        let r = Context { registers: self.registers, ra: self.ra, mcxsr: self.mcxsr, fcw: self.fcw };
        assert(r.slots() =~= self.slots());
        r
    }

    /// The slots as (name, value) pairs, for display: the sixteen
    /// general-purpose registers under their DWARF names, in DWARF order, then
    /// `ra`, `mcxsr` and `fcw`.
    pub fn named_slots(&self) -> (r: Vec<(&'static str, usize)>)
        ensures
            r@.len() == 19,
            forall|i: int|
                0 <= i < 16 ==> Some(#[trigger] r@[i].0@) == x86_64_register_name(i as u16)
                    && r@[i].1 == self.registers@[i],
            r@[16].0@ == seq!['r', 'a'] && r@[16].1 == self.ra,
            r@[17].0@ == seq!['m', 'c', 'x', 's', 'r'] && r@[17].1 == self.mcxsr,
            r@[18].0@ == seq!['f', 'c', 'w'] && r@[18].1 == self.fcw,
    {
        let mut r: Vec<(&'static str, usize)> = Vec::new();
        let mut i: u16 = 0;
        while i < 16
            invariant
                i <= 16,
                r@.len() == i,
                forall|k: int|
                    0 <= k < i ==> Some(#[trigger] r@[k].0@) == x86_64_register_name(k as u16)
                        && r@[k].1 == self.registers@[k],
            decreases 16 - i,
        {
            let name = register_name(Register(i));
            match name {
                Some(n) => r.push((n, self.registers[i as usize])),
                None => {},
            }
            i = i + 1;
        }
        r.push(("ra", self.ra));
        r.push(("mcxsr", self.mcxsr));
        r.push(("fcw", self.fcw));
        proof {
            reveal_strlit("ra");
            reveal_strlit("mcxsr");
            reveal_strlit("fcw");
        }
        r
    }

    /// Reads the slot of `reg`. An unmapped register is a programming error.
    pub fn get(&self, reg: Register) -> (v: usize)
        requires
            Arch::is_mapped(reg.0),
        ensures
            v == self.slot(reg.0),
    {
        if reg.0 < 16 {
            self.registers[reg.0 as usize]
        } else if reg.0 == RA_NUMBER {
            self.ra
        } else if reg.0 == MXCSR_NUMBER {
            self.mcxsr
        } else {
            self.fcw
        }
    }

    /// Writes `value` into the slot of `reg` and leaves every other slot as it
    /// was. An unmapped register is a programming error.
    pub fn set(&mut self, reg: Register, value: usize)
        requires
            Arch::is_mapped(reg.0),
        ensures
            final(self).slots() == old(self).slots().insert(reg.0, value),
            final(self).slot(reg.0) == value,
            forall|n: u16|
                Arch::is_mapped(n) && n != reg.0 ==> #[trigger] final(self).slot(n) == old(
                    self,
                ).slot(n),
    {
        if reg.0 < 16 {
            self.registers[reg.0 as usize] = value;
        } else if reg.0 == RA_NUMBER {
            self.ra = value;
        } else if reg.0 == MXCSR_NUMBER {
            self.mcxsr = value;
        } else {
            self.fcw = value;
        }
        assert(self.slots() =~= old(self).slots().insert(reg.0, value));
    }
}

} // verus!
