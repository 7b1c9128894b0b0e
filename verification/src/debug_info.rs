//! Infrastructure to dump programs for debugging purposes.

use vstd::prelude::*;
use vstd::string::StringExecFns;
use crate::offset::Offset;
use crate::text::decimal;
use crate::text::pointer;
use crate::text::spec_decimal;
use crate::text::spec_pointer;

verus! {

/// Trait for values that can be dumped.
///
/// This is like the `Debug` trait, except it takes a dumper to resolve
/// offsets when dumping a program, and gives the text back.
pub trait Dump {
    /// The text that dumping the value gives.
    open spec fn spec_dump(&self, dumper: Dumper) -> Seq<char> {
        arbitrary()
    }

    /// Dumps a value.
    ///
    /// Use the given dumper to resolve offsets stored in values.
    fn dump(&self, dumper: Dumper) -> (text: String)
        ensures
            text@ == self.spec_dump(dumper),
    ;
}

/// A dumper.
#[derive(Clone, Copy, Debug)]
pub struct Dumper {
    /// The address of the first word of the tape.
    pub base: usize,
}

impl Dumper {
    /// The address of the byte that lies `bytes` bytes behind the first word
    /// of the tape, as far as addresses go: behind the last one comes the first.
    pub open spec fn spec_address(self, bytes: usize) -> usize {
        self.base.wrapping_add(bytes)
    }

    /// Returns the dumper of a tape whose first word has the address `base`.
    pub fn new(base: usize) -> (dumper: Self)
        ensures
            dumper == (Dumper { base }),
    {
        Dumper { base }
    }

    /// Returns the address of the first word of the tape.
    pub fn base(&self) -> (base: usize)
        ensures
            base == self.base,
    {
        self.base
    }

    /// Returns the address of the byte that lies `bytes` bytes behind the
    /// first word of the tape.
    pub fn address(&self, bytes: usize) -> (address: usize)
        ensures
            address == self.spec_address(bytes),
    {
        self.base.wrapping_add(bytes)
    }

    /// Takes a dumpable value and returns a bridge that gives its text
    /// without being handed a dumper again.
    pub fn debug<'a, T: Dump>(self, value: &'a T) -> (bridge: DumpDebugBridge<'a, T>)
        ensures
            bridge.spec_text() == value.spec_dump(self),
    {
        DumpDebugBridge(value, self)
    }
}

/// A bridge to get the text of dumpable values where no dumper is at hand.
pub struct DumpDebugBridge<'a, T>(&'a T, Dumper);

impl<'a, T: Dump> DumpDebugBridge<'a, T> {
    /// The text of the value.
    pub closed spec fn spec_text(&self) -> Seq<char> {
        self.0.spec_dump(self.1)
    }

    /// Returns the text of the value.
    pub fn text(&self) -> (text: String)
        ensures
            text@ == self.spec_text(),
    {
        self.0.dump(self.1)
    }
}

/// The text of an offset: its position in bytes, and in a comment the address
/// that the position has on the tape.
pub open spec fn spec_offset_text(offset: Offset, dumper: Dumper) -> Seq<char> {
    "[base + "@ + spec_decimal(offset.value as nat) + "] /* "@ + spec_pointer(
        dumper.spec_address(offset.value) as nat,
    ) + " */"@
}

impl Dump for Offset {
    open spec fn spec_dump(&self, dumper: Dumper) -> Seq<char> {
        spec_offset_text(*self, dumper)
    }

    fn dump(&self, dumper: Dumper) -> (text: String) {
        let value = self.value;
        let mut text = String::new();
        text.append("[base + ");
        text.append(decimal(value).as_str());
        text.append("] /* ");
        text.append(pointer(dumper.address(value)).as_str());
        text.append(" */");
        assert(text@ =~= spec_offset_text(*self, dumper));
        text
    }
}

/// The text of the instruction at byte `at` of the tape whose operation is
/// `op`: the address of the instruction, a colon, and the text of the
/// operation.
pub open spec fn spec_instruction_text<Op: Dump>(op: Op, at: usize, dumper: Dumper) -> Seq<char> {
    spec_pointer(dumper.spec_address(at) as nat) + ": "@ + op.spec_dump(dumper)
}

/// Returns the text of the instruction at byte `at` of the tape whose
/// operation is `op`.
pub fn instruction_text<Op: Dump>(op: &Op, at: usize, dumper: Dumper) -> (text: String)
    ensures
        text@ == spec_instruction_text(*op, at, dumper),
{
    let mut text = pointer(dumper.address(at));
    text.append(": ");
    text.append(op.dump(dumper).as_str());
    assert(text@ =~= spec_instruction_text(*op, at, dumper));
    text
}

/// The word offsets of the instructions of a tape, in the order in which
/// they were emitted.
#[derive(Debug)]
pub struct DebugInfo {
    instructions: Vec<usize>,
}

impl View for DebugInfo {
    type V = Seq<usize>;

    closed spec fn view(&self) -> Seq<usize> {
        self.instructions@
    }
}

impl DebugInfo {
    /// Returns the record of a tape without instructions.
    pub fn new() -> (info: Self)
        ensures
            info@ == Seq::<usize>::empty(),
    {
        DebugInfo { instructions: Vec::new() }
    }

    /// Records that an instruction starts at word `offset`.
    pub fn push(&mut self, offset: usize)
        ensures
            final(self)@ == old(self)@.push(offset),
    {
        self.instructions.push(offset);
    }

    /// Returns the number of instructions.
    pub fn len(&self) -> (n: usize)
        ensures
            n == self@.len(),
    {
        self.instructions.len()
    }

    /// Returns the word offset of instruction `i`.
    pub fn get(&self, i: usize) -> (offset: Option<usize>)
        ensures
            offset == (if i < self@.len() {
                Some(self@[i as int])
            } else {
                None
            }),
    {
        if i < self.instructions.len() {
            Some(self.instructions[i])
        } else {
            None
        }
    }
}

} // verus!
