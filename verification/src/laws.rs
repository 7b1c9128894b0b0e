//! What holds of every run of the built-in CPUs.

use vstd::prelude::*;
use crate::builder::Build;
use crate::builder::Written;
use crate::cpu::AddrView;
use crate::cpu::DirectThreadedCall;
use crate::cpu::DirectThreadedLoop;
use crate::cpu::Dispatch;
use crate::cpu::DispatchToken;
use crate::cpu::Fault;
use crate::cpu::GetDispatchToken;
use crate::cpu::Halt;
use crate::cpu::UNREACHABLE_TOKEN;
use crate::cpu::spec_run;
use crate::cpu::spec_step;
use crate::image::ImageView;
use crate::operation::Custom;
use crate::operation::Execute;
use crate::operation::Operand;
use crate::pc::PcView;
use crate::program::Program;
use crate::runner::RunnerView;
use crate::tape::AsClearedWriter;

verus! {

/// Whether a run from `addr` ends by itself within `fuel` steps: one of its
/// first `fuel` operations halts the program or ends the run with a fault.
pub open spec fn spec_ends<Op, Ram>(addr: AddrView, runner: RunnerView, ram: Ram, fuel: nat) -> bool where
    Op: Execute<Ram> + Custom,

    decreases fuel,
{
    if fuel == 0 {
        false
    } else {
        let (dest, ram) = spec_step::<Op, Ram>(addr, runner, ram);
        match dest {
            Ok(next) => spec_ends::<Op, Ram>(next, runner, ram, (fuel - 1) as nat),
            Err(_) => true,
        }
    }
}

/// Whether every operation of `image` that continues does so at an address
/// of `image` behind its own: the program has no way to loop.
pub open spec fn spec_forward<Op, Ram>(image: ImageView, runner: RunnerView) -> bool where
    Op: Execute<Ram> + Custom,
 {
    forall|addr: AddrView, ram: Ram|
        addr.wf() && addr.image == image ==> match (#[trigger] spec_step::<Op, Ram>(
            addr,
            runner,
            ram,
        )).0 {
            Ok(next) => next.wf() && next.image == image && next.index > addr.index,
            Err(_) => true,
        }
}

/// A run that ends by itself within `fuel` steps comes out the same however
/// many more steps it is allowed.
pub proof fn lemma_fuel<Op, Ram>(addr: AddrView, runner: RunnerView, ram: Ram, fuel: nat, more: nat) where
    Op: Execute<Ram> + Custom,

    requires
        spec_ends::<Op, Ram>(addr, runner, ram, fuel),
    ensures
        spec_ends::<Op, Ram>(addr, runner, ram, fuel + more),
        spec_run::<Op, Ram>(addr, runner, ram, fuel + more) == spec_run::<Op, Ram>(
            addr,
            runner,
            ram,
            fuel,
        ),
    decreases fuel,
{
    let (dest, after) = spec_step::<Op, Ram>(addr, runner, ram);
    match dest {
        Ok(next) => {
            lemma_fuel::<Op, Ram>(next, runner, after, (fuel - 1) as nat, more);
            assert((fuel + more - 1) as nat == (fuel - 1) as nat + more);
        },
        Err(_) => {},
    }
}

/// A run of a program that has no way to loop ends by itself: from an
/// address it takes no more steps than there are words from the address to the
/// end of the tape.
pub proof fn lemma_forward_ends<Op, Ram>(addr: AddrView, runner: RunnerView, ram: Ram) where
    Op: Execute<Ram> + Custom,

    requires
        addr.wf(),
        spec_forward::<Op, Ram>(addr.image, runner),
    ensures
        spec_ends::<Op, Ram>(addr, runner, ram, (addr.image.words.len() - addr.index) as nat),
    decreases addr.image.words.len() - addr.index,
{
    let (dest, after) = spec_step::<Op, Ram>(addr, runner, ram);
    match dest {
        Ok(next) => {
            lemma_forward_ends::<Op, Ram>(next, runner, after);
            let rest = (addr.image.words.len() - addr.index - 1) as nat;
            let less = (next.image.words.len() - next.index) as nat;
            lemma_fuel::<Op, Ram>(next, runner, after, less, (rest - less) as nat);
            assert(less + (rest - less) as nat == rest);
        },
        Err(_) => {},
    }
}

/// The two built-in CPUs make the same of every program: looping and calling
/// are two ways to take the same steps.
pub proof fn lemma_strategies_agree<Op, Ram>(addr: AddrView, runner: RunnerView, ram: Ram) where
    Op: Execute<Ram> + Custom,

    ensures
        DirectThreadedLoop::<Op>::new_spec().spec_dispatch(addr, runner, ram)
            == DirectThreadedCall::<Op>::new_spec().spec_dispatch(addr, runner, ram),
{
}

/// Running a program twice with the same RAM and the same number of steps
/// comes out the same both times and makes the same of the RAM.
pub proof fn lemma_run_again<Cpu, Tape, Code, Ram>(
    program: Program<Cpu, Tape, Code, Ram>,
    first: Ram,
    second: Ram,
    budget: u64,
) where Cpu: Dispatch<Ram>, Tape: AsClearedWriter, Code: Build<Cpu, Ram>
    requires
        first == second,
    ensures
        program.spec_run(first, budget) == program.spec_run(second, budget),
{
}

/// Control that reaches the unreachable operation ends the run with a
/// fault, and leaves the RAM as it is.
pub proof fn lemma_unreachable<Op, Ram>(addr: AddrView, runner: RunnerView, ram: Ram, fuel: nat) where
    Op: Execute<Ram> + Custom,

    requires
        addr.spec_token() == DispatchToken(UNREACHABLE_TOKEN),
        fuel > 0,
    ensures
        spec_step::<Op, Ram>(addr, runner, ram) == (
            Err::<AddrView, Halt>(Halt::spec_faulty(Fault::Unreachable)),
            ram,
        ),
        spec_run::<Op, Ram>(addr, runner, ram, fuel) == (Err::<(), Fault>(Fault::Unreachable), ram),
{
    Halt::spec_normal().lemma_fault(Fault::Unreachable);
}

/// The last instruction of a program built for the looping CPU is the
/// unreachable operation: a run that gets there ends with a fault.
pub proof fn lemma_sealed<Op, Tape, Code, Ram>(
    program: Program<DirectThreadedLoop<Op>, Tape, Code, Ram>,
    runner: RunnerView,
    ram: Ram,
) where Op: Execute<Ram> + Custom, Tape: AsClearedWriter, Code: Build<DirectThreadedLoop<Op>, Ram>
    requires
        program.wf(),
        program.sealed(),
    ensures
        (AddrView { image: program.image(), index: (program.words().len() - 1) as usize }).wf(),
        spec_step::<Op, Ram>(
            AddrView { image: program.image(), index: (program.words().len() - 1) as usize },
            runner,
            ram,
        ) == (Err::<AddrView, Halt>(Halt::spec_faulty(Fault::Unreachable)), ram),
{
    let last = AddrView { image: program.image(), index: (program.words().len() - 1) as usize };
    lemma_unreachable::<Op, Ram>(last, runner, ram, 1);
}

/// A program that has no way to loop ends by itself, whatever the RAM: a run
/// takes no more steps than the tape has words.
pub proof fn lemma_program_ends<Op, Tape, Code, Ram>(
    program: Program<DirectThreadedLoop<Op>, Tape, Code, Ram>,
    ram: Ram,
    budget: u64,
) where Op: Execute<Ram> + Custom, Tape: AsClearedWriter, Code: Build<DirectThreadedLoop<Op>, Ram>
    requires
        program.wf(),
        spec_forward::<Op, Ram>(program.image(), RunnerView { image: program.image(), budget }),
        budget >= program.words().len(),
    ensures
        spec_ends::<Op, Ram>(
            AddrView { image: program.image(), index: 0 },
            RunnerView { image: program.image(), budget },
            ram,
            program.words().len(),
        ),
        program.spec_run(ram, budget) == spec_run::<Op, Ram>(
            AddrView { image: program.image(), index: 0 },
            RunnerView { image: program.image(), budget },
            ram,
            program.words().len(),
        ),
{
    let start = AddrView { image: program.image(), index: 0 };
    let runner = RunnerView { image: program.image(), budget };
    lemma_forward_ends::<Op, Ram>(start, runner, ram);
    lemma_fuel::<Op, Ram>(
        start,
        runner,
        ram,
        program.words().len(),
        (budget - program.words().len()) as nat,
    );
}

/// The last instruction of a program built for the calling CPU is the
/// unreachable operation: a run that gets there ends with a fault.
pub proof fn lemma_sealed_call<Op, Tape, Code, Ram>(
    program: Program<DirectThreadedCall<Op>, Tape, Code, Ram>,
    runner: RunnerView,
    ram: Ram,
) where Op: Execute<Ram> + Custom, Tape: AsClearedWriter, Code: Build<DirectThreadedCall<Op>, Ram>
    requires
        program.wf(),
        program.sealed(),
    ensures
        (AddrView { image: program.image(), index: (program.words().len() - 1) as usize }).wf(),
        spec_step::<Op, Ram>(
            AddrView { image: program.image(), index: (program.words().len() - 1) as usize },
            runner,
            ram,
        ) == (Err::<AddrView, Halt>(Halt::spec_faulty(Fault::Unreachable)), ram),
{
    let last = AddrView { image: program.image(), index: (program.words().len() - 1) as usize };
    lemma_unreachable::<Op, Ram>(last, runner, ram, 1);
}

/// A program that has no way to loop ends by itself on the calling CPU too.
pub proof fn lemma_program_ends_call<Op, Tape, Code, Ram>(
    program: Program<DirectThreadedCall<Op>, Tape, Code, Ram>,
    ram: Ram,
    budget: u64,
) where Op: Execute<Ram> + Custom, Tape: AsClearedWriter, Code: Build<DirectThreadedCall<Op>, Ram>
    requires
        program.wf(),
        spec_forward::<Op, Ram>(program.image(), RunnerView { image: program.image(), budget }),
        budget >= program.words().len(),
    ensures
        spec_ends::<Op, Ram>(
            AddrView { image: program.image(), index: 0 },
            RunnerView { image: program.image(), budget },
            ram,
            program.words().len(),
        ),
        program.spec_run(ram, budget) == spec_run::<Op, Ram>(
            AddrView { image: program.image(), index: 0 },
            RunnerView { image: program.image(), budget },
            ram,
            program.words().len(),
        ),
{
    let start = AddrView { image: program.image(), index: 0 };
    let runner = RunnerView { image: program.image(), budget };
    lemma_forward_ends::<Op, Ram>(start, runner, ram);
    lemma_fuel::<Op, Ram>(
        start,
        runner,
        ram,
        program.words().len(),
        (budget - program.words().len()) as nat,
    );
}

/// The instruction that was written is the instruction that is read.
///
/// Where the words from `at` on are an instruction of `image` with the
/// operand words of `op`, another instruction follows it, and `op` is an
/// operation that decoding gives back, the program counter at `at` holds `op`
/// and its next address is that of the instruction that follows.
pub proof fn lemma_written_is_read<Op: Operand>(image: ImageView, at: usize, op: Op)
    requires
        image.wf(),
        image.is_record(at as int, Op::spec_layout().spec_words()),
        image.operand(at as int, Op::spec_layout().spec_words()) == op.spec_encode(),
        Op::spec_decode(op.spec_encode()) == Some(op),
    ensures
        PcView::<Op>::at(AddrView { image, index: at }) == Some(
            PcView {
                current: AddrView { image, index: at },
                next: AddrView { image, index: (at + 1 + Op::spec_layout().spec_words()) as usize },
                op,
            },
        ),
        PcView::<Op>::at(AddrView { image, index: at }).unwrap().wf(),
{
    crate::word::lemma_word_bytes();
}

/// An offset leads to the instruction that is emitted next.
///
/// Where an offset is taken from a builder that has come to `before`, and
/// `image` is a tape of the same session that begins with the words and marks
/// of `before` and goes on with an instruction, resolving the offset gives the
/// address of that instruction.
pub proof fn lemma_offset_resolves<Cpu>(before: Written<Cpu>, image: ImageView, budget: u64)
    requires
        image.wf(),
        image.session == before.session,
        image.is_start(before.words.len() as int),
    ensures
        (RunnerView { image, budget }).spec_resolve_offset(before.spec_offset()) == Ok::<
            AddrView,
            Halt,
        >(AddrView { image, index: before.words.len() as usize }),
{
    let n = before.words.len();
    crate::word::lemma_word_bytes();
    crate::word::lemma_whole_words(n);
    assert(n * crate::word::word_bytes() <= usize::MAX) by (nonlinear_arith)
        requires
            n <= usize::MAX as nat / crate::word::word_bytes(),
            crate::word::word_bytes() > 0,
    ;
}

/// An offset that is taken before an instruction is emitted is the label of
/// that instruction.
///
/// Where an offset is taken from a builder that has come to `before`, the
/// operation `op` is emitted next, and `image` is a tape of the same session
/// that begins with what the builder has come to then, resolving the offset
/// gives the address at which the instruction of `op` starts.
pub proof fn lemma_label<Cpu, Op, Ram>(before: Written<Cpu>, op: Op, image: ImageView, budget: u64) where
    Cpu: GetDispatchToken<Op, Ram>,
    Op: Execute<Ram>,

    requires
        before.marks.len() == before.words.len(),
        before.spec_emit::<Op, Ram>(op).0 is Ok,
        image.wf(),
        image.session == before.session,
        before.spec_emit::<Op, Ram>(op).1.words.is_prefix_of(image.words),
        before.spec_emit::<Op, Ram>(op).1.marks.is_prefix_of(image.marks),
    ensures
        (RunnerView { image, budget }).spec_resolve_offset(before.spec_offset()) == Ok::<
            AddrView,
            Halt,
        >(AddrView { image, index: before.words.len() as usize }),
        (AddrView { image, index: before.words.len() as usize }).wf(),
        (AddrView { image, index: before.words.len() as usize }).spec_token()
            == GetDispatchToken::<Op, Ram>::spec_dispatch_token(before.cpu),
{
    let after = before.spec_emit::<Op, Ram>(op).1;
    let n = before.words.len() as int;
    assert(after.marks[n]);
    assert(after.words[n] == GetDispatchToken::<Op, Ram>::spec_dispatch_token(before.cpu).0);
    assert(image.marks[n] == after.marks[n]);
    assert(image.words[n] == after.words[n]);
    lemma_offset_resolves(before, image, budget);
}

/// No instruction starts among the operand words of another.
pub proof fn lemma_operands_apart(image: ImageView, at: int, n: nat, other: int)
    requires
        image.is_record(at, n),
        image.is_start(other),
    ensures
        other <= at || at + 1 + n <= other,
{
}

} // verus!
