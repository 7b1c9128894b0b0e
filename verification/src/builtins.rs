//! Built-in operations.

use vstd::prelude::*;
use crate::cpu::DestinationView;
use crate::cpu::Fault;
use crate::cpu::Halt;
use crate::debug_info::Dump;
use crate::debug_info::Dumper;
use crate::operation::Execute;
use crate::operation::Operand;
use crate::pc::Pc;
use crate::pc::PcView;
use crate::runner::Destination;
use crate::runner::Runner;
use crate::runner::RunnerView;
use crate::word::Layout;

verus! {

/// The classic "nop" operation, which does nothing and just continues with
/// the next operation on tape.
#[derive(Clone, Copy, Debug)]
pub struct Nop;

impl Operand for Nop {
    open spec fn spec_layout() -> Layout {
        Layout { size: 0, align: 1 }
    }

    open spec fn spec_encode(self) -> Seq<usize> {
        Seq::empty()
    }

    open spec fn spec_decode(words: Seq<usize>) -> Option<Self> {
        Some(Nop)
    }

    fn layout() -> (layout: Layout) {
        Layout { size: 0, align: 1 }
    }

    fn encode(&self) -> (words: Vec<usize>) {
        proof {
            crate::word::lemma_word_bytes();
        }
        Vec::new()
    }

    fn decode(words: &[usize]) -> (op: Option<Self>) {
        Some(Nop)
    }
}

impl Dump for Nop {
    open spec fn spec_dump(&self, dumper: Dumper) -> Seq<char> {
        "Nop"@
    }

    fn dump(&self, dumper: Dumper) -> (text: String) {
        "Nop".to_owned()
    }
}

impl<Ram> Execute<Ram> for Nop {
    open spec fn spec_execute(pc: PcView<Self>, runner: RunnerView, ram: Ram) -> (
        DestinationView,
        Ram,
    ) {
        (Ok(pc.next), ram)
    }

    fn execute<'tape>(pc: Pc<'tape, Self>, runner: Runner<'tape>, ram: &mut Ram) -> (dest:
        Destination<'tape>) {
        Ok(pc.next())
    }
}

/// The unreachable operation, which always ends the run with a fault.
#[derive(Clone, Copy, Debug)]
pub struct Unreachable;

impl Operand for Unreachable {
    open spec fn spec_layout() -> Layout {
        Layout { size: 0, align: 1 }
    }

    open spec fn spec_encode(self) -> Seq<usize> {
        Seq::empty()
    }

    open spec fn spec_decode(words: Seq<usize>) -> Option<Self> {
        Some(Unreachable)
    }

    fn layout() -> (layout: Layout) {
        Layout { size: 0, align: 1 }
    }

    fn encode(&self) -> (words: Vec<usize>) {
        proof {
            crate::word::lemma_word_bytes();
        }
        Vec::new()
    }

    fn decode(words: &[usize]) -> (op: Option<Self>) {
        Some(Unreachable)
    }
}

impl Dump for Unreachable {
    open spec fn spec_dump(&self, dumper: Dumper) -> Seq<char> {
        "Unreachable"@
    }

    fn dump(&self, dumper: Dumper) -> (text: String) {
        "Unreachable".to_owned()
    }
}

impl<Ram> Execute<Ram> for Unreachable {
    open spec fn spec_execute(pc: PcView<Self>, runner: RunnerView, ram: Ram) -> (
        DestinationView,
        Ram,
    ) {
        (Err(Halt::spec_faulty(Fault::Unreachable)), ram)
    }

    fn execute<'tape>(pc: Pc<'tape, Self>, runner: Runner<'tape>, ram: &mut Ram) -> (dest:
        Destination<'tape>) {
        Err(Halt::faulty(Fault::Unreachable))
    }
}

} // verus!
