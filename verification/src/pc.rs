//! The program counter.

use vstd::prelude::*;
use crate::cpu::Addr;
use crate::cpu::AddrView;
use crate::operation::Operand;

verus! {

/// What a program counter is: the address of the operation currently
/// executed, the address of the next operation, and the operation itself.
pub ghost struct PcView<Op> {
    /// The address of the operation currently executed.
    pub current: AddrView,
    /// The address of the next operation in the program.
    pub next: AddrView,
    /// The operation currently executed.
    pub op: Op,
}

impl<Op: Operand> PcView<Op> {
    /// The number of operand words of an operation of this type.
    pub open spec fn spec_words() -> nat {
        Op::spec_layout().spec_words()
    }

    /// The program counter stands on an instruction of its tape that holds
    /// exactly the operand words of its operation, and its next address is that
    /// of the instruction that follows.
    pub open spec fn wf(self) -> bool {
        let image = self.current.image;
        let index = self.current.index as int;
        &&& self.current.wf()
        &&& self.next.wf()
        &&& self.next.image == image
        &&& self.next.index == index + 1 + Self::spec_words()
        &&& image.is_record(index, Self::spec_words())
        &&& Op::spec_decode(image.operand(index, Self::spec_words())) == Some(self.op)
    }

    /// The program counter that `addr` gives for an operation of this type:
    /// there is one exactly where the instruction at `addr` has the operand
    /// words of this type, another instruction follows it, and the operand
    /// words stand for an operation.
    pub open spec fn at(addr: AddrView) -> Option<PcView<Op>> {
        let image = addr.image;
        let index = addr.index as int;
        if image.is_record(index, Self::spec_words()) {
            match Op::spec_decode(image.operand(index, Self::spec_words())) {
                Some(op) => Some(
                    PcView {
                        current: addr,
                        next: AddrView {
                            image,
                            index: (index + 1 + Self::spec_words()) as usize,
                        },
                        op,
                    },
                ),
                None => None,
            }
        } else {
            None
        }
    }
}

/// The program counter.
///
/// This represents the current position of the CPU in the program and
/// lets the user access the contents of the operation currently executed.
pub struct Pc<'tape, Op: Operand> {
    current: Addr<'tape>,
    next: Addr<'tape>,
    op: Op,
}

impl<'tape, Op: Operand> Clone for Pc<'tape, Op> {
    fn clone(&self) -> (pc: Self)
        ensures
            pc == *self,
    {
        *self
    }
}

impl<'tape, Op: Operand> Copy for Pc<'tape, Op> {
}

impl<'tape, Op: Operand> core::ops::Deref for Pc<'tape, Op> {
    type Target = Op;

    /// Returns the operation currently executed.
    fn deref(&self) -> (op: &Op)
        ensures
            *op == self@.op,
    {
        &self.op
    }
}

impl<'tape, Op: Operand> View for Pc<'tape, Op> {
    type V = PcView<Op>;

    closed spec fn view(&self) -> PcView<Op> {
        PcView { current: self.current@, next: self.next@, op: self.op }
    }
}

impl<'tape, Op: Operand> Pc<'tape, Op> {
    #[verifier::type_invariant]
    spec fn inv(self) -> bool {
        self@.wf()
    }

    /// Returns the physical address of the operation currently executed.
    pub fn current(self) -> (addr: Addr<'tape>)
        ensures
            addr@ == self@.current,
            addr@.wf(),
    {
        proof {
            use_type_invariant(&self);
        }
        self.current
    }

    /// Returns the physical address of the next operation in the program.
    ///
    /// That is the word behind the operand words of the operation currently
    /// executed, where another instruction starts.
    pub fn next(self) -> (addr: Addr<'tape>)
        ensures
            addr@ == self@.next,
            addr@.wf(),
            addr@.image == self@.current.image,
            addr@.index == self@.current.index + 1 + PcView::<Op>::spec_words(),
    {
        proof {
            use_type_invariant(&self);
        }
        self.next
    }

    /// Creates a new program counter out of a physical address.
    ///
    /// This is only useful for CPU (remember, virtual ones) designers.
    pub fn from_addr(addr: Addr<'tape>) -> (pc: Option<Self>)
        ensures
            match pc {
                Some(pc) => PcView::<Op>::at(addr@) == Some(pc@) && pc@.wf(),
                None => PcView::<Op>::at(addr@) is None,
            },
    {
        let image = addr.tape();
        let index = addr.position();
        let words = Op::layout().words();
        if !image.holds_record(index, words) {
            return None;
        }
        match Op::decode(image.slice(index, words)) {
            Some(op) => {
                let next = Addr::new(image, index + 1 + words);
                Some(Pc { current: addr, next, op })
            },
            None => None,
        }
    }
}

} // verus!
