//! What an operation has to offer to be written to a tape and executed.

use vstd::prelude::*;
use crate::cpu::DestinationView;
use crate::cpu::spec_destination;
use crate::debug_info::Dump;
use crate::pc::Pc;
use crate::pc::PcView;
use crate::runner::Destination;
use crate::runner::Runner;
use crate::runner::RunnerView;
use crate::word::Layout;

verus! {

/// How an operation is laid out on the tape.
///
/// On the tape an operation is the words that `encode` gives, which follow the
/// word of the dispatch token. Its layout says how many bytes that takes and
/// what alignment the operation asks for; only an operation whose layout fits
/// into whole words can be emitted.
///
/// An implementation says what its functions compute by giving the three
/// specifications a body of its own. One that leaves them as they are says
/// nothing: each then stands for a value of which nothing is known.
pub trait Operand: Copy + Sized {
    /// The size and alignment of the operation.
    open spec fn spec_layout() -> Layout {
        arbitrary()
    }

    /// The words that stand for the operation on the tape.
    open spec fn spec_encode(self) -> Seq<usize> {
        arbitrary()
    }

    /// The operation that `words` stand for, if they stand for one.
    open spec fn spec_decode(words: Seq<usize>) -> Option<Self> {
        arbitrary()
    }

    /// Returns the size and alignment of the operation.
    fn layout() -> (layout: Layout)
        ensures
            layout == Self::spec_layout(),
    ;

    /// Returns the words that stand for the operation on the tape.
    ///
    /// An operation that fits is encoded in as many words as its layout says.
    fn encode(&self) -> (words: Vec<usize>)
        ensures
            words@ == self.spec_encode(),
            Self::spec_layout().spec_fits() ==> words@.len() == Self::spec_layout().spec_words(),
    ;

    /// Returns the operation that `words` stand for, if they stand for one.
    fn decode(words: &[usize]) -> (op: Option<Self>)
        ensures
            op == Self::spec_decode(words@),
    ;
}

/// Marks the operation type that a program defines for itself, as opposed to
/// the built-in operations. The built-in CPUs run the built-in operations and
/// one such type, which may be an enum of several operations. A host with
/// several operation types of its own writes a CPU of its own, which gives each
/// of them a token and tells them apart by it.
pub trait Custom: Operand {
}

/// How to execute an operation, the main piece of code for end users.
///
/// What executing does is a function of the program counter, the runner and
/// the RAM, which an implementation states as `spec_execute`.
pub trait Execute<Ram>: Operand + Dump {
    /// Where the operation sends the CPU and what it makes of the RAM.
    open spec fn spec_execute(pc: PcView<Self>, runner: RunnerView, ram: Ram) -> (
        DestinationView,
        Ram,
    ) {
        arbitrary()
    }

    /// Executes the operation.
    ///
    /// Operations are free to mutate the RAM provided when the program was
    /// run.
    ///
    /// Use the runner to resolve tape offsets stored in the operation, and the
    /// program counter to continue execution to the next operation.
    fn execute<'tape>(pc: Pc<'tape, Self>, runner: Runner<'tape>, ram: &mut Ram) -> (dest:
        Destination<'tape>)
        ensures
            (spec_destination(dest), *final(ram)) == Self::spec_execute(pc@, runner@, *old(ram)),
    ;
}

} // verus!
