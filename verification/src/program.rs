//! Programs and how to run them.

use vstd::prelude::*;
use vstd::std_specs::convert::FromSpec;
use core::marker::PhantomData;
use crate::builder::Build;
use crate::builder::Builder;
use crate::builder::Written;
use crate::builder::room;
use crate::builtins::Unreachable;
use crate::cpu::Addr;
use crate::cpu::AddrView;
use crate::cpu::Dispatch;
use crate::cpu::Fault;
use crate::cpu::GetDispatchToken;
use crate::debug_info::DebugInfo;
use crate::debug_info::Dumper;
use crate::image::Image;
use crate::image::ImageView;
use crate::runner::Runner;
use crate::runner::RunnerView;
use crate::tape::AsClearedWriter;
use crate::tape::UnexpectedEndError;
use crate::word::max_words;

verus! {

/// A compiled program.
pub struct Program<Cpu, Tape, Code, Ram> where
    Cpu: Dispatch<Ram>,
    Tape: AsClearedWriter,
    Code: Build<Cpu, Ram>,
 {
    cpu: Cpu,
    tape: Tape,
    marks: Vec<bool>,
    debug_info: DebugInfo,
    code: Code,
    session: usize,
    marker: PhantomData<Ram>,
}

impl<Cpu, Tape, Code, Ram> Program<Cpu, Tape, Code, Ram> where
    Cpu: Dispatch<Ram>,
    Tape: AsClearedWriter,
    Code: Build<Cpu, Ram>,
 {
    /// The CPU that runs the program.
    pub closed spec fn spec_cpu(&self) -> Cpu {
        self.cpu
    }

    /// The words of the tape.
    pub closed spec fn words(&self) -> Seq<usize> {
        self.tape.words()
    }

    /// For each word of the tape, whether an instruction starts there.
    pub closed spec fn marks(&self) -> Seq<bool> {
        self.marks@
    }

    /// The word offsets of the instructions of the tape, in order.
    pub closed spec fn starts(&self) -> Seq<usize> {
        self.debug_info@
    }

    /// The code that the program was built from.
    pub closed spec fn spec_code(&self) -> Code {
        self.code
    }

    /// The number of the session that built the tape.
    pub closed spec fn session(&self) -> usize {
        self.session
    }

    /// Every word has its mark, an instruction starts at the first word and
    /// at every offset on record, and the size of the tape in bytes fits in a
    /// word.
    pub open spec fn wf(&self) -> bool {
        &&& self.marks().len() == self.words().len()
        &&& 0 < self.words().len() <= max_words()
        &&& self.marks()[0]
        &&& forall|k: int|
            0 <= k < self.starts().len() ==> self.image().is_start(
                (#[trigger] self.starts()[k]) as int,
            )
    }

    #[verifier::type_invariant]
    spec fn inv(&self) -> bool {
        self.wf()
    }

    /// The last instruction of the tape is the unreachable operation.
    pub open spec fn sealed(&self) -> bool {
        &&& self.words().len() > 0
        &&& self.marks().len() == self.words().len()
        &&& self.marks().last()
        &&& self.words().last() == GetDispatchToken::<Unreachable, Ram>::spec_dispatch_token(
            self.spec_cpu(),
        ).0
    }

    /// The tape as a run sees it.
    pub open spec fn image(&self) -> ImageView {
        ImageView { words: self.words(), marks: self.marks(), session: self.session() }
    }

    /// A run of the program with the RAM `ram` that may take `budget` steps:
    /// how it comes out and what it makes of the RAM. The run starts at the
    /// first instruction of the tape.
    pub open spec fn spec_run(&self, ram: Ram, budget: u64) -> (Result<(), Fault>, Ram) {
        self.spec_cpu().spec_dispatch(
            AddrView { image: self.image(), index: 0 },
            RunnerView { image: self.image(), budget },
            ram,
        )
    }

    /// Returns a new program built from the given code, in session `session`.
    ///
    /// The tape is cleared, the code emits its operations, and the unreachable
    /// operation is put behind them. Where the code fails, its error is handed
    /// on; else building fails exactly when the tape has no room for the
    /// unreachable operation.
    pub fn new(cpu: Cpu, tape: Tape, code: Code, session: usize) -> (r: Result<
        Program<Cpu, Tape, Code, Ram>,
        Code::Error,
    >)
        ensures
            ({
                let (built, after) = code.spec_build(
                    Written {
                        cpu,
                        words: Seq::empty(),
                        marks: Seq::empty(),
                        starts: Seq::empty(),
                        session,
                        limit: tape.limit(),
                    },
                );
                &&& built matches Err(e) ==> r matches Err(f) && f == e
                &&& built is Ok ==> (r is Ok <==> after.words.len() + 1 <= room(after.limit))
                &&& built is Ok ==> (r matches Err(f) ==> (<Code::Error as FromSpec<
                    UnexpectedEndError,
                >>::obeys_from_spec() ==> f == <Code::Error as FromSpec<
                    UnexpectedEndError,
                >>::from_spec(UnexpectedEndError)))
                &&& r matches Ok(program) ==> {
                    &&& program.words() == after.words.push(
                        GetDispatchToken::<Unreachable, Ram>::spec_dispatch_token(cpu).0,
                    )
                    &&& program.marks() == after.marks.push(true)
                    &&& program.starts() == after.starts.push(after.words.len() as usize)
                }
            }),
            r matches Ok(program) ==> {
                &&& program.wf()
                &&& program.sealed()
                &&& program.spec_cpu() == cpu
                &&& program.spec_code() == code
                &&& program.session() == session
            },
    {
        let mut builder = Builder::new(cpu, tape, session);
        let built = code.build(&mut builder);
        Self::seal(builder, code, built)
    }

    /// Finishes a program whose code has been built, with the result `built`,
    /// through `builder`.
    ///
    /// Where the code failed, its error is handed on. Else the unreachable
    /// operation is put behind what the code emitted; that fails exactly when
    /// the tape has no room for one more word.
    pub fn seal(builder: Builder<Cpu, Tape, Ram>, code: Code, built: Result<(), Code::Error>) -> (r:
        Result<Program<Cpu, Tape, Code, Ram>, Code::Error>)
        requires
            builder.wf(),
        ensures
            built matches Err(e) ==> r matches Err(f) && f == e,
            built is Ok ==> (r is Ok <==> builder.words().len() + 1 <= builder.room()),
            built is Ok ==> (r matches Err(f) ==> (<Code::Error as FromSpec<
                UnexpectedEndError,
            >>::obeys_from_spec() ==> f == <Code::Error as FromSpec<UnexpectedEndError>>::from_spec(
                UnexpectedEndError,
            ))),
            r matches Ok(program) ==> {
                &&& program.wf()
                &&& program.sealed()
                &&& program.spec_cpu() == builder.cpu()
                &&& program.spec_code() == code
                &&& program.session() == builder.session()
                &&& program.words() == builder.words().push(
                    GetDispatchToken::<Unreachable, Ram>::spec_dispatch_token(builder.cpu()).0,
                )
                &&& program.marks() == builder.marks().push(true)
                &&& program.starts() == builder.starts().push(builder.words().len() as usize)
            },
    {
        match built {
            Err(e) => Err(e),
            Ok(()) => {
                let mut builder = builder;
                proof {
                    crate::word::lemma_word_bytes();
                }
                match builder.emit(Unreachable) {
                    Err(e) => Err(Code::Error::from(e)),
                    Ok(()) => {
                        let (cpu, tape, marks, debug_info, session) = builder.into_parts();
                        Ok(
                            Program {
                                cpu,
                                tape,
                                marks,
                                debug_info,
                                code,
                                session,
                                marker: PhantomData,
                            },
                        )
                    },
                }
            },
        }
    }

    /// Runs the program with some RAM, for as long as it takes.
    ///
    /// The run ends when an operation halts the program, and with a fault
    /// when control reaches the unreachable operation, when an operation
    /// hands on a fault, or after `u64::MAX` steps.
    pub fn run(&self, ram: &mut Ram) -> (r: Result<(), Fault>)
        ensures
            (r, *final(ram)) == self.spec_run(*old(ram), u64::MAX),
    {
        self.run_within(ram, u64::MAX)
    }

    /// Runs the program with some RAM, for `budget` steps at most.
    pub fn run_within(&self, ram: &mut Ram, budget: u64) -> (r: Result<(), Fault>)
        ensures
            (r, *final(ram)) == self.spec_run(*old(ram), budget),
    {
        proof {
            use_type_invariant(self);
        }
        match Image::new(self.tape.as_words(), self.marks.as_slice(), self.session) {
            Some(image) => {
                let runner = Runner::new(image, budget);
                let addr = Addr::new(image, 0);
                self.cpu.dispatch(addr, runner, ram)
            },
            None => Err(Fault::Undecodable),
        }
    }

    /// Dumps the instructions of the tape, in order, for a tape whose first
    /// word has the address `base`: one text for each instruction, as the CPU
    /// gives it.
    pub fn dump(&self, base: usize) -> (lines: Vec<String>)
        ensures
            lines@.len() == self.starts().len(),
            forall|k: int|
                0 <= k < lines@.len() ==> (#[trigger] lines@[k])@ == self.spec_cpu().spec_describe(
                    AddrView { image: self.image(), index: self.starts()[k] },
                    Dumper { base },
                ),
    {
        proof {
            use_type_invariant(self);
        }
        let dumper = Dumper::new(base);
        let mut lines: Vec<String> = Vec::new();
        match Image::new(self.tape.as_words(), self.marks.as_slice(), self.session) {
            Some(image) => {
                let n = self.debug_info.len();
                let mut i: usize = 0;
                while i < n
                    invariant
                        i <= n,
                        n == self.starts().len(),
                        self.wf(),
                        image@ == self.image(),
                        dumper == (Dumper { base }),
                        lines@.len() == i,
                        forall|k: int|
                            0 <= k < i ==> (#[trigger] lines@[k])@ == self.spec_cpu().spec_describe(
                                AddrView { image: self.image(), index: self.starts()[k] },
                                Dumper { base },
                            ),
                    decreases n - i,
                {
                    match self.debug_info.get(i) {
                        Some(index) => {
                            let addr = Addr::new(image, index);
                            lines.push(self.cpu.describe(addr, dumper));
                        },
                        None => {},
                    }
                    i += 1;
                }
            },
            None => {},
        }
        lines
    }

    /// Returns the CPU that runs the program.
    pub fn cpu(&self) -> (cpu: Cpu)
        ensures
            cpu == self.spec_cpu(),
    {
        self.cpu
    }

    /// Gets a reference to the tape of the program.
    pub fn tape(&self) -> (tape: &Tape)
        ensures
            tape.words() == self.words(),
    {
        &self.tape
    }

    /// Gets a reference to the code used by the program.
    pub fn code(&self) -> (code: &Code)
        ensures
            *code == self.spec_code(),
    {
        &self.code
    }
}

} // verus!
