//! Building programs.

use vstd::prelude::*;
use core::marker::PhantomData;
use crate::cpu::Dispatch;
use crate::cpu::DispatchToken;
use crate::cpu::GetDispatchToken;
use crate::debug_info::DebugInfo;
use crate::offset::Offset;
use crate::operation::Execute;
use crate::tape::AsClearedWriter;
use crate::tape::UnexpectedEndError;
use crate::word::lemma_word_bytes;
use crate::word::max_words;
use crate::word::word_bytes;
use crate::word::word_size;

verus! {

/// What a builder has come to: the CPU and the session it builds for, the
/// words written so far with their marks, the word offsets of the instructions
/// emitted so far, and the number of words that the tape can hold.
pub ghost struct Written<Cpu> {
    /// The CPU that the program is built for.
    pub cpu: Cpu,
    /// The words written so far.
    pub words: Seq<usize>,
    /// For each word written so far, whether an instruction starts there.
    pub marks: Seq<bool>,
    /// The word offsets of the instructions emitted so far, in order.
    pub starts: Seq<usize>,
    /// The number of the session.
    pub session: usize,
    /// The number of words that the tape can hold at most.
    pub limit: nat,
}

impl<Cpu> Written<Cpu> {
    /// What emitting `op` gives: where there is room for the instruction, the
    /// dispatch token that the CPU gives for the operation and then its operand
    /// words are added to the words, the marks of the instruction to the marks,
    /// and the word offset of the instruction to the offsets; where there is
    /// none, an error, and nothing changes.
    pub open spec fn spec_emit<Op, Ram>(self, op: Op) -> (
        Result<(), UnexpectedEndError>,
        Written<Cpu>,
    ) where Cpu: GetDispatchToken<Op, Ram>, Op: Execute<Ram> {
        if self.words.len() + 1 + Op::spec_layout().spec_words() <= room(self.limit) {
            (
                Ok(()),
                Written {
                    cpu: self.cpu,
                    words: self.words + instruction_words(
                        GetDispatchToken::<Op, Ram>::spec_dispatch_token(self.cpu),
                        op.spec_encode(),
                    ),
                    marks: self.marks + instruction_marks(Op::spec_layout().spec_words()),
                    starts: self.starts.push(self.words.len() as usize),
                    session: self.session,
                    limit: self.limit,
                },
            )
        } else {
            (Err(UnexpectedEndError), self)
        }
    }

    /// The current offset: the size in bytes of the words written so far, in
    /// the session of the builder.
    pub open spec fn spec_offset(self) -> Offset {
        Offset { value: (self.words.len() * word_bytes()) as usize, session: self.session }
    }
}

/// The code of a program: what is written to the tape when the program is
/// built.
pub trait Build<Cpu, Ram> where Cpu: Dispatch<Ram> {
    /// The error that building can fail with.
    type Error: From<UnexpectedEndError>;

    /// What building makes of a builder, and whether it succeeds.
    open spec fn spec_build(&self, before: Written<Cpu>) -> (Result<(), Self::Error>, Written<Cpu>) {
        arbitrary()
    }

    /// Emits the operations of the program, in order, through `builder`.
    ///
    /// Whatever is emitted is added behind what the tape already holds.
    fn build<Tape: AsClearedWriter>(&self, builder: &mut Builder<Cpu, Tape, Ram>) -> (r: Result<
        (),
        Self::Error,
    >)
        requires
            old(builder).wf(),
        ensures
            (r, final(builder)@) == self.spec_build(old(builder)@),
            final(builder).wf(),
            final(builder).cpu() == old(builder).cpu(),
            final(builder).session() == old(builder).session(),
            final(builder).limit() == old(builder).limit(),
            old(builder).words().is_prefix_of(final(builder).words()),
            old(builder).marks().is_prefix_of(final(builder).marks()),
    ;
}

/// The number of words that a tape which can hold `limit` words may grow to:
/// what the storage can hold, as far as its size in bytes still fits in a
/// word.
pub open spec fn room(limit: nat) -> nat {
    if limit <= max_words() {
        limit
    } else {
        max_words()
    }
}

/// The words that an instruction takes on the tape: the word of its dispatch
/// token, then its operand words.
pub open spec fn instruction_words(token: DispatchToken, operand: Seq<usize>) -> Seq<usize> {
    seq![token.0] + operand
}

/// The marks of an instruction with `n` operand words: its first word starts
/// an instruction, the others do not.
pub open spec fn instruction_marks(n: nat) -> Seq<bool> {
    seq![true] + Seq::new(n, |i: int| false)
}

/// Fills the words taken for an instruction: the word of `token`, then the
/// operand words.
fn write_instruction(slice: &mut [usize], token: DispatchToken, operand: &Vec<usize>)
    requires
        old(slice)@.len() == operand@.len() + 1,
    ensures
        final(slice)@ == instruction_words(token, operand@),
{
    let n = operand.len();
    slice[0] = usize::from(token);
    let mut i: usize = 0;
    while i < n
        invariant
            i <= n,
            n == operand@.len(),
            slice@.len() == n + 1,
            slice@[0] == token.0,
            forall|k: int| 0 <= k < i ==> slice@[k + 1] == operand@[k],
        decreases n - i,
    {
        slice[i + 1] = operand[i];
        i += 1;
    }
    assert(slice@ =~= instruction_words(token, operand@));
}

/// Returns the marks of an instruction with `n` operand words.
fn marks_of(n: usize) -> (marks: Vec<bool>)
    requires
        n < usize::MAX,
    ensures
        marks@ == instruction_marks(n as nat),
{
    let mut marks: Vec<bool> = Vec::new();
    marks.push(true);
    let mut j: usize = 0;
    while j < n
        invariant
            j <= n,
            marks@ == instruction_marks(j as nat),
        decreases n - j,
    {
        marks.push(false);
        j += 1;
        assert(marks@ =~= instruction_marks(j as nat));
    }
    marks
}

/// A program builder. Passed to the code of a program when it is built.
pub struct Builder<Cpu, Tape, Ram> {
    cpu: Cpu,
    tape: Tape,
    marks: Vec<bool>,
    debug_info: DebugInfo,
    session: usize,
    marker: PhantomData<Ram>,
}

impl<Cpu, Tape, Ram> Builder<Cpu, Tape, Ram> where Cpu: Dispatch<Ram>, Tape: AsClearedWriter {
    /// The CPU that the program is built for.
    pub closed spec fn cpu(&self) -> Cpu {
        self.cpu
    }

    /// The words written to the tape so far.
    pub closed spec fn words(&self) -> Seq<usize> {
        self.tape.words()
    }

    /// For each word written so far, whether an instruction starts there.
    pub closed spec fn marks(&self) -> Seq<bool> {
        self.marks@
    }

    /// The word offsets of the instructions emitted so far.
    pub closed spec fn starts(&self) -> Seq<usize> {
        self.debug_info@
    }

    /// The number of the session.
    pub closed spec fn session(&self) -> usize {
        self.session
    }

    /// The number of words that the tape can hold at most.
    pub closed spec fn limit(&self) -> nat {
        self.tape.limit()
    }

    /// What the builder has come to.
    pub open spec fn view(&self) -> Written<Cpu> {
        Written {
            cpu: self.cpu(),
            words: self.words(),
            marks: self.marks(),
            starts: self.starts(),
            session: self.session(),
            limit: self.limit(),
        }
    }

    /// Every word has its mark, an instruction starts at the first word and
    /// at every offset on record, and the size of the tape in bytes fits in a
    /// word.
    pub open spec fn wf(&self) -> bool {
        &&& self.marks().len() == self.words().len()
        &&& self.words().len() <= max_words()
        &&& self.words().len() > 0 ==> self.marks()[0]
        &&& forall|k: int|
            0 <= k < self.starts().len() ==> (#[trigger] self.starts()[k]) < self.marks().len()
                && self.marks()[self.starts()[k] as int]
    }

    /// The number of words that the tape may grow to.
    pub open spec fn room(&self) -> nat {
        room(self.limit())
    }

    /// Emits an operation, which must be supported by the builder's CPU.
    ///
    /// The instruction is written behind what the tape holds: the dispatch
    /// token that the CPU gives for the operation, then the operand words of the
    /// operation. The call fails, and leaves the tape as it was, exactly when
    /// there is no room for the instruction.
    ///
    /// An operation whose layout does not fit into whole words cannot be
    /// emitted.
    pub fn emit<Op>(&mut self, op: Op) -> (r: Result<(), UnexpectedEndError>) where
        Cpu: GetDispatchToken<Op, Ram>,
        Op: Execute<Ram>,

        requires
            old(self).wf(),
            Op::spec_layout().spec_fits(),
        ensures
            (r, final(self)@) == old(self)@.spec_emit::<Op, Ram>(op),
            final(self).wf(),
    {
        let token = <Cpu as GetDispatchToken<Op, Ram>>::get_dispatch_token(self.cpu);
        let operand = op.encode();
        proof {
            lemma_word_bytes();
        }
        let n = operand.len();
        let len = self.tape.word_offset();
        let most = usize::MAX / word_size();
        if n >= most || len > most - 1 - n {
            return Err(UnexpectedEndError);
        }
        match self.tape.take(n + 1) {
            Err(e) => Err(e),
            Ok(slice) => {
                write_instruction(slice, token, &operand);
                let mut marks = marks_of(n);
                self.marks.append(&mut marks);
                self.debug_info.push(len);
                Ok(())
            },
        }
    }

    /// Returns the current offset in the tape.
    ///
    /// The current offset is the distance, in bytes, between the beginning of
    /// the tape and the end of the operation that was last written.
    pub fn offset(&self) -> (offset: Offset)
        requires
            self.wf(),
        ensures
            offset == self@.spec_offset(),
            offset.value == self.words().len() * word_bytes(),
            offset.session == self.session(),
    {
        proof {
            lemma_word_bytes();
            assert(self.words().len() * word_bytes() <= usize::MAX) by (nonlinear_arith)
                requires
                    self.words().len() <= usize::MAX as nat / word_bytes(),
                    word_bytes() > 0,
            ;
        }
        Offset { value: self.tape.word_offset() * word_size(), session: self.session }
    }

    /// Returns a builder that writes to `tape`, cleared, in session `session`.
    pub fn new(cpu: Cpu, tape: Tape, session: usize) -> (builder: Self)
        ensures
            builder.wf(),
            builder.cpu() == cpu,
            builder.session() == session,
            builder.limit() == tape.limit(),
            builder.words() == Seq::<usize>::empty(),
            builder.marks() == Seq::<bool>::empty(),
            builder.starts() == Seq::<usize>::empty(),
    {
        let mut tape = tape;
        let _ = tape.as_cleared_writer();
        Builder {
            cpu,
            tape,
            marks: Vec::new(),
            debug_info: DebugInfo::new(),
            session,
            marker: PhantomData,
        }
    }

    /// Gives up the builder for its CPU, the tape it wrote, the marks of the
    /// tape, the record of its instructions and the number of the session.
    pub fn into_parts(self) -> (parts: (Cpu, Tape, Vec<bool>, DebugInfo, usize))
        ensures
            parts.0 == self.cpu(),
            parts.1.words() == self.words(),
            parts.1.limit() == self.limit(),
            parts.2@ == self.marks(),
            parts.3@ == self.starts(),
            parts.4 == self.session(),
    {
        (self.cpu, self.tape, self.marks, self.debug_info, self.session)
    }
}

} // verus!
