use naam::builder::{Build, Builder};
use naam::builtins::{Nop, Unreachable};
use naam::cpu::{Dispatch, DirectThreadedCall, DirectThreadedLoop, Fault, GetDispatchToken};
use naam::debug_info::{Dump, Dumper};
use naam::tape::{AsClearedWriter, UnexpectedEndError, Writer};
use naam::word::{word_size, Layout};
use naam::{Custom, Destination, Execute, Offset, Operand, Pc, Program, Runner};

/// The operations of the programs below. Each takes three operand words: a
/// tag and two words for what the operation holds.
#[derive(Clone, Copy, Debug, PartialEq)]
enum Op {
    PrintLn(usize),
    JumpNTimes(Offset),
    Jump(Offset),
    Return(usize),
    Raw(usize),
}

#[derive(Clone, Debug, PartialEq)]
struct Ram {
    rval: usize,
    counter: usize,
    out: Vec<String>,
    trace: Vec<usize>,
}

const MESSAGES: [&str; 2] = ["A", "Hello, world!"];

impl Operand for Op {
    fn layout() -> Layout {
        Layout { size: 3 * word_size(), align: word_size() }
    }

    fn encode(&self) -> Vec<usize> {
        match *self {
            Op::PrintLn(message) => vec![0, message, 0],
            Op::JumpNTimes(offset) => vec![1, offset.value, offset.session],
            Op::Jump(offset) => vec![2, offset.value, offset.session],
            Op::Return(value) => vec![3, value, 0],
            Op::Raw(tag) => vec![tag, 0, 0],
        }
    }

    fn decode(words: &[usize]) -> Option<Self> {
        match words {
            [0, message, _] => Some(Op::PrintLn(*message)),
            [1, value, session] => Some(Op::JumpNTimes(Offset { value: *value, session: *session })),
            [2, value, session] => Some(Op::Jump(Offset { value: *value, session: *session })),
            [3, value, _] => Some(Op::Return(*value)),
            _ => None,
        }
    }
}

impl Custom for Op {}

impl Dump for Op {
    fn dump(&self, dumper: Dumper) -> String {
        match self {
            Op::PrintLn(message) => format!("PrintLn({:?})", MESSAGES[*message]),
            Op::JumpNTimes(offset) => format!("JumpNTimes({})", dumper.debug(offset).text()),
            Op::Jump(offset) => format!("Jump({})", dumper.debug(offset).text()),
            Op::Return(value) => format!("Return({})", value),
            Op::Raw(tag) => format!("Raw({})", tag),
        }
    }
}

impl Execute<Ram> for Op {
    fn execute<'tape>(pc: Pc<'tape, Self>, runner: Runner<'tape>, ram: &mut Ram) -> Destination<'tape> {
        ram.trace.push(pc.current().position());
        match *pc {
            Op::PrintLn(message) => {
                ram.out.push(MESSAGES[message].to_string());
                Ok(pc.next())
            }
            Op::JumpNTimes(offset) => {
                if ram.counter > 0 {
                    ram.counter -= 1;
                    runner.resolve_offset(offset)
                } else {
                    Ok(pc.next())
                }
            }
            Op::Jump(offset) => runner.resolve_offset(offset),
            Op::Return(value) => {
                ram.rval = value;
                Err(runner.halt())
            }
            Op::Raw(_) => Ok(pc.next()),
        }
    }
}

/// What a program is made of: an operation, a nop, or a jump to the start of
/// the step with the given number.
#[derive(Clone, Copy, Debug, PartialEq)]
enum Step {
    Op(Op),
    Nop,
    Unreachable,
    JumpTo(usize),
    JumpNTimesTo(usize),
}

fn words_of(step: &Step) -> usize {
    match step {
        Step::Nop | Step::Unreachable => 1,
        _ => 4,
    }
}

#[derive(Clone, Debug, PartialEq)]
struct Steps(Vec<Step>);

impl Steps {
    fn word_of(&self, step: usize) -> usize {
        self.0[..step].iter().map(words_of).sum()
    }
}

impl<Cpu> Build<Cpu, Ram> for Steps
where
    Cpu: Dispatch<Ram> + GetDispatchToken<Op, Ram> + GetDispatchToken<Nop, Ram>,
{
    type Error = UnexpectedEndError;

    fn build<Tape: AsClearedWriter>(
        &self,
        builder: &mut Builder<Cpu, Tape, Ram>,
    ) -> Result<(), Self::Error> {
        let session = builder.offset().session;
        for step in &self.0 {
            match *step {
                Step::Op(op) => builder.emit(op)?,
                Step::Nop => builder.emit(Nop)?,
                Step::Unreachable => builder.emit(Unreachable)?,
                Step::JumpTo(to) => {
                    let target = Offset { value: self.word_of(to) * word_size(), session };
                    builder.emit(Op::Jump(target))?
                }
                Step::JumpNTimesTo(to) => {
                    let target = Offset { value: self.word_of(to) * word_size(), session };
                    builder.emit(Op::JumpNTimes(target))?
                }
            }
        }
        Ok(())
    }
}

/// Says a message, jumps back while the counter is above zero, and returns a
/// value. The label is taken before the instruction that the jump leads back
/// to is written.
struct SayItNTimes(usize, usize);

impl<Cpu> Build<Cpu, Ram> for SayItNTimes
where
    Cpu: Dispatch<Ram> + GetDispatchToken<Op, Ram> + GetDispatchToken<Nop, Ram>,
{
    type Error = UnexpectedEndError;

    fn build<Tape: AsClearedWriter>(
        &self,
        builder: &mut Builder<Cpu, Tape, Ram>,
    ) -> Result<(), Self::Error> {
        let start = builder.offset();
        builder.emit(Op::PrintLn(self.0))?;
        builder.emit(Op::JumpNTimes(start))?;
        builder.emit(Op::Return(self.1))
    }
}

/// A tape that holds a given number of words and no more.
#[derive(Debug, PartialEq)]
struct Bounded {
    words: Vec<usize>,
    limit: usize,
}

impl Writer for Bounded {
    fn word_offset(&self) -> usize {
        self.words.len()
    }

    fn take(&mut self, n: usize) -> Result<&mut [usize], UnexpectedEndError> {
        let len = self.words.len();
        if n > self.limit - len {
            return Err(UnexpectedEndError);
        }
        self.words.resize(len + n, 0);
        Ok(&mut self.words[len..])
    }
}

impl AsClearedWriter for Bounded {
    fn as_words(&self) -> &[usize] {
        &self.words
    }

    fn as_cleared_writer(&mut self) -> &mut Self {
        self.words.clear();
        self
    }
}

fn fresh(counter: usize) -> Ram {
    Ram { rval: 0, counter, out: Vec::new(), trace: Vec::new() }
}

type Looping = DirectThreadedLoop<Op>;
type Calling = DirectThreadedCall<Op>;

#[test]
fn say_it_four_times_with_the_loop() {
    let program = Program::new(Looping::new(), Vec::new(), SayItNTimes(0, 7), 1).unwrap();
    let mut ram = fresh(3);
    assert_eq!(program.run(&mut ram), Ok(()));
    assert_eq!(ram.out, vec!["A", "A", "A", "A"]);
    assert_eq!(ram.rval, 7);
    assert_eq!(ram.counter, 0);
}

#[test]
fn say_it_four_times_with_calls() {
    let program = Program::new(Calling::new(), Vec::new(), SayItNTimes(0, 7), 1).unwrap();
    let mut ram = fresh(3);
    assert_eq!(program.run(&mut ram), Ok(()));
    assert_eq!(ram.out, vec!["A", "A", "A", "A"]);
    assert_eq!(ram.rval, 7);
    assert_eq!(ram.counter, 0);
}

#[test]
fn say_it_thrice() {
    let program = Program::new(Looping::new(), Vec::new(), SayItNTimes(1, 42), 0).unwrap();
    let mut ram = fresh(2);
    assert_eq!(program.run(&mut ram), Ok(()));
    assert_eq!(ram.out, vec!["Hello, world!", "Hello, world!", "Hello, world!"]);
    assert_eq!(ram.rval, 42);
}

#[test]
fn nop_jump_halt_leaves_the_value() {
    let code = Steps(vec![Step::Nop, Step::JumpTo(2), Step::Op(Op::Return(42))]);
    for value in [0, 1, 42, usize::MAX] {
        let code = Steps(vec![Step::Nop, Step::JumpTo(2), Step::Op(Op::Return(value))]);
        let program = Program::new(Looping::new(), Vec::new(), code, 9).unwrap();
        let mut ram = fresh(0);
        assert_eq!(program.run(&mut ram), Ok(()));
        assert_eq!(ram.rval, value);
        assert!(ram.out.is_empty());
        assert_eq!(ram.trace, vec![1, 5]);
    }
    let program = Program::new(Calling::new(), Vec::new(), code, 9).unwrap();
    let mut ram = fresh(0);
    assert_eq!(program.run(&mut ram), Ok(()));
    assert_eq!(ram.rval, 42);
}

#[test]
fn forward_jump_skips_what_lies_between() {
    let code = Steps(vec![
        Step::JumpTo(3),
        Step::Op(Op::PrintLn(0)),
        Step::Op(Op::Return(1)),
        Step::Op(Op::PrintLn(1)),
        Step::Op(Op::Return(2)),
    ]);
    let program = Program::new(Looping::new(), Vec::new(), code, 3).unwrap();
    let mut ram = fresh(0);
    assert_eq!(program.run(&mut ram), Ok(()));
    assert_eq!(ram.out, vec!["Hello, world!"]);
    assert_eq!(ram.rval, 2);
    assert_eq!(ram.trace, vec![0, 12, 16]);
}

#[test]
fn a_program_without_a_halt_runs_into_the_sentinel() {
    let code = Steps(vec![Step::Nop, Step::Op(Op::PrintLn(0)), Step::Nop]);
    let program = Program::new(Looping::new(), Vec::new(), code.clone(), 0).unwrap();
    let mut ram = fresh(0);
    assert_eq!(program.run(&mut ram), Err(Fault::Unreachable));
    assert_eq!(ram.out, vec!["A"]);
    let program = Program::new(Calling::new(), Vec::new(), code, 0).unwrap();
    let mut ram = fresh(0);
    assert_eq!(program.run(&mut ram), Err(Fault::Unreachable));
    assert_eq!(ram.out, vec!["A"]);
}

#[test]
fn the_empty_program_is_the_sentinel_alone() {
    let program = Program::new(Looping::new(), Vec::new(), Steps(Vec::new()), 0).unwrap();
    let mut ram = fresh(5);
    assert_eq!(program.run(&mut ram), Err(Fault::Unreachable));
    assert_eq!(ram, fresh(5));
    assert_eq!(program.dump(0), vec!["0x0: Unreachable"]);
}

#[test]
fn an_unreachable_in_the_middle_ends_the_run() {
    let code = Steps(vec![Step::Op(Op::PrintLn(0)), Step::Unreachable, Step::Op(Op::Return(1))]);
    let program = Program::new(Looping::new(), Vec::new(), code, 0).unwrap();
    let mut ram = fresh(0);
    assert_eq!(program.run(&mut ram), Err(Fault::Unreachable));
    assert_eq!(ram.rval, 0);
    assert_eq!(ram.out, vec!["A"]);
}

#[test]
fn a_straight_program_takes_one_step_for_each_instruction() {
    let code = Steps(vec![Step::Nop, Step::Nop, Step::Op(Op::PrintLn(0)), Step::Op(Op::Return(3))]);
    let program = Program::new(Looping::new(), Vec::new(), code, 0).unwrap();
    let mut short = fresh(0);
    assert_eq!(program.run_within(&mut short, 3), Err(Fault::OutOfFuel));
    assert_eq!(short.rval, 0);
    let mut exact = fresh(0);
    assert_eq!(program.run_within(&mut exact, 4), Ok(()));
    let mut ample = fresh(0);
    assert_eq!(program.run_within(&mut ample, 4000), Ok(()));
    assert_eq!(exact, ample);
    let mut unbounded = fresh(0);
    assert_eq!(program.run(&mut unbounded), Ok(()));
    assert_eq!(exact, unbounded);
}

#[test]
fn a_loop_without_an_end_uses_up_its_steps() {
    let code = Steps(vec![Step::Op(Op::PrintLn(0)), Step::JumpTo(0)]);
    for budget in [0u64, 1, 2, 7] {
        let program = Program::new(Looping::new(), Vec::new(), code.clone(), 0).unwrap();
        let mut ram = fresh(0);
        assert_eq!(program.run_within(&mut ram, budget), Err(Fault::OutOfFuel));
        assert_eq!(ram.out.len() as u64, (budget + 1) / 2);
        let program = Program::new(Calling::new(), Vec::new(), code.clone(), 0).unwrap();
        let mut other = fresh(0);
        assert_eq!(program.run_within(&mut other, budget), Err(Fault::OutOfFuel));
        assert_eq!(ram, other);
    }
}

#[test]
fn running_twice_gives_the_same() {
    let program = Program::new(Looping::new(), Vec::new(), SayItNTimes(0, 7), 1).unwrap();
    let mut first = fresh(3);
    let mut second = fresh(3);
    assert_eq!(program.run(&mut first), program.run(&mut second));
    assert_eq!(first, second);
    // The RAM that a run leaves behind is the RAM of the next one.
    assert_eq!(program.run(&mut first), Ok(()));
    assert_eq!(first.out, vec!["A", "A", "A", "A", "A"]);
}

#[test]
fn the_two_cpus_agree() {
    let code = Steps(vec![
        Step::Nop,
        Step::Op(Op::PrintLn(1)),
        Step::JumpNTimesTo(1),
        Step::Nop,
        Step::Op(Op::Return(11)),
    ]);
    for counter in 0..5 {
        let looping = Program::new(Looping::new(), Vec::new(), code.clone(), 4).unwrap();
        let calling = Program::new(Calling::new(), Vec::new(), code.clone(), 4).unwrap();
        let mut first = fresh(counter);
        let mut second = fresh(counter);
        assert_eq!(looping.run(&mut first), Ok(()));
        assert_eq!(calling.run(&mut second), Ok(()));
        assert_eq!(first, second);
        assert_eq!(first.out.len(), counter + 1);
        assert_eq!(first.rval, 11);
    }
}

#[test]
fn every_address_is_the_start_of_the_instruction_that_was_emitted() {
    // Instructions of one word and of four words, mixed.
    let steps = vec![
        Step::Nop,
        Step::Op(Op::PrintLn(0)),
        Step::Nop,
        Step::Nop,
        Step::Op(Op::Raw(0)),
        Step::JumpTo(7),
        Step::Op(Op::Return(1)),
        Step::Op(Op::PrintLn(1)),
        Step::Nop,
        Step::Op(Op::Return(2)),
    ];
    let code = Steps(steps);
    let program = Program::new(Looping::new(), Vec::new(), code.clone(), 0).unwrap();
    let mut ram = fresh(0);
    assert_eq!(program.run(&mut ram), Ok(()));
    // Each operation that ran saw the word at which its step was emitted.
    let expected: Vec<usize> = [1usize, 4, 5, 7, 9].iter().map(|&step| code.word_of(step)).collect();
    assert_eq!(ram.trace, expected);
    assert_eq!(ram.out, vec!["A", "A", "Hello, world!"]);
    assert_eq!(ram.rval, 2);
}

#[test]
fn an_offset_of_another_session_is_rejected() {
    struct Foreign;
    impl<Cpu> Build<Cpu, Ram> for Foreign
    where
        Cpu: Dispatch<Ram> + GetDispatchToken<Op, Ram>,
    {
        type Error = UnexpectedEndError;
        fn build<Tape: AsClearedWriter>(
            &self,
            builder: &mut Builder<Cpu, Tape, Ram>,
        ) -> Result<(), Self::Error> {
            let Offset { value, session } = builder.offset();
            builder.emit(Op::Jump(Offset { value, session: session + 1 }))?;
            builder.emit(Op::Return(1))
        }
    }
    let program = Program::new(Looping::new(), Vec::new(), Foreign, 5).unwrap();
    let mut ram = fresh(0);
    assert_eq!(program.run(&mut ram), Err(Fault::ForeignOffset));
    assert_eq!(ram.rval, 0);
    let program = Program::new(Calling::new(), Vec::new(), Foreign, 5).unwrap();
    assert_eq!(program.run(&mut ram), Err(Fault::ForeignOffset));
}

#[test]
fn an_offset_taken_from_another_program_is_rejected() {
    struct Keep(std::cell::Cell<Option<Offset>>);
    impl<Cpu> Build<Cpu, Ram> for Keep
    where
        Cpu: Dispatch<Ram> + GetDispatchToken<Op, Ram>,
    {
        type Error = UnexpectedEndError;
        fn build<Tape: AsClearedWriter>(
            &self,
            builder: &mut Builder<Cpu, Tape, Ram>,
        ) -> Result<(), Self::Error> {
            let here = builder.offset();
            let target = self.0.get().unwrap_or(here);
            self.0.set(Some(here));
            builder.emit(Op::JumpNTimes(target))?;
            builder.emit(Op::Return(1))
        }
    }
    let first = Program::new(Looping::new(), Vec::new(), Keep(std::cell::Cell::new(None)), 1).unwrap();
    let taken = first.code().0.get();
    let second = Program::new(Looping::new(), Vec::new(), Keep(std::cell::Cell::new(taken)), 2).unwrap();
    let mut ram = fresh(1);
    assert_eq!(first.run(&mut ram), Ok(()));
    let mut ram = fresh(1);
    assert_eq!(second.run(&mut ram), Err(Fault::ForeignOffset));
}

#[test]
fn an_offset_that_leads_nowhere_is_rejected() {
    struct Bad(usize);
    impl<Cpu> Build<Cpu, Ram> for Bad
    where
        Cpu: Dispatch<Ram> + GetDispatchToken<Op, Ram>,
    {
        type Error = UnexpectedEndError;
        fn build<Tape: AsClearedWriter>(
            &self,
            builder: &mut Builder<Cpu, Tape, Ram>,
        ) -> Result<(), Self::Error> {
            let session = builder.offset().session;
            builder.emit(Op::Jump(Offset { value: self.0, session }))?;
            builder.emit(Op::Return(1))
        }
    }
    let word = word_size();
    // Into the operand words, between two words, behind the tape, far away.
    for value in [word, 2 * word, 3 * word, 1, word - 1, 4 * word + 1, 9 * word, 10 * word, usize::MAX] {
        let program = Program::new(Looping::new(), Vec::new(), Bad(value), 0).unwrap();
        let mut ram = fresh(0);
        assert_eq!(program.run(&mut ram), Err(Fault::InvalidOffset), "offset {}", value);
    }
    // To the start of an instruction: to itself, to the next, to the sentinel.
    let program = Program::new(Looping::new(), Vec::new(), Bad(0), 0).unwrap();
    let mut ram = fresh(0);
    assert_eq!(program.run_within(&mut ram, 10), Err(Fault::OutOfFuel));
    let program = Program::new(Looping::new(), Vec::new(), Bad(4 * word), 0).unwrap();
    assert_eq!(program.run(&mut ram), Ok(()));
    let program = Program::new(Looping::new(), Vec::new(), Bad(8 * word), 0).unwrap();
    assert_eq!(program.run(&mut ram), Err(Fault::Unreachable));
}

#[test]
fn words_that_are_no_operation_end_the_run() {
    let code = Steps(vec![Step::Op(Op::PrintLn(0)), Step::Op(Op::Raw(9)), Step::Op(Op::Return(1))]);
    let program = Program::new(Looping::new(), Vec::new(), code, 0).unwrap();
    let mut ram = fresh(0);
    assert_eq!(program.run(&mut ram), Err(Fault::Undecodable));
    assert_eq!(ram.out, vec!["A"]);
    assert_eq!(ram.rval, 0);
}

#[test]
fn building_fails_when_the_tape_is_full() {
    let code = || Steps(vec![Step::Nop, Step::Op(Op::Return(1))]);
    // Six words are needed: one, four, and one for the sentinel.
    for limit in 0..6 {
        let tape = Bounded { words: Vec::new(), limit };
        let built = Program::new(Looping::new(), tape, code(), 0);
        assert!(matches!(built, Err(UnexpectedEndError)), "limit {}", limit);
    }
    for limit in [6, 7, 100] {
        let tape = Bounded { words: Vec::new(), limit };
        let program = Program::new(Looping::new(), tape, code(), 0).unwrap();
        let mut ram = fresh(0);
        assert_eq!(program.run(&mut ram), Ok(()));
        assert_eq!(ram.rval, 1);
    }
}

#[test]
fn building_clears_the_tape_first() {
    let tape = vec![77usize; 33];
    let program = Program::new(Looping::new(), tape, Steps(vec![Step::Op(Op::Return(8))]), 0).unwrap();
    let mut ram = fresh(0);
    assert_eq!(program.run(&mut ram), Ok(()));
    assert_eq!(ram.rval, 8);
    assert_eq!(program.dump(0).len(), 2);
}

#[test]
fn the_code_stays_with_the_program() {
    let code = Steps(vec![Step::Nop, Step::Op(Op::Return(1))]);
    let program = Program::new(Looping::new(), Vec::new(), code.clone(), 0).unwrap();
    assert_eq!(program.code(), &code);
}

#[test]
fn dump_lists_every_instruction() {
    let program = Program::new(Looping::new(), Vec::new(), SayItNTimes(0, 7), 1).unwrap();
    let word = word_size();
    assert_eq!(
        program.dump(0x1000),
        vec![
            "0x1000: PrintLn(\"A\")".to_string(),
            format!("0x{:x}: JumpNTimes([base + 0] /* 0x1000 */)", 0x1000 + 4 * word),
            format!("0x{:x}: Return(7)", 0x1000 + 8 * word),
            format!("0x{:x}: Unreachable", 0x1000 + 12 * word),
        ]
    );
    let code = Steps(vec![Step::Nop, Step::Op(Op::Raw(9)), Step::JumpTo(1)]);
    let program = Program::new(Calling::new(), Vec::new(), code, 1).unwrap();
    assert_eq!(
        program.dump(0),
        vec![
            "0x0: Nop".to_string(),
            format!("0x{:x}: ?", word),
            format!("0x{:x}: Jump([base + {}] /* 0x{:x} */)", 5 * word, word, word),
            format!("0x{:x}: Unreachable", 9 * word),
        ]
    );
}

/// An error of the code's own, which a full tape turns into `Tape`.
#[derive(Debug, PartialEq)]
enum Refusal {
    Tape,
    Odd(usize),
}

impl From<UnexpectedEndError> for Refusal {
    fn from(_: UnexpectedEndError) -> Self {
        Refusal::Tape
    }
}

/// Emits as many nops as it is told, and refuses odd numbers.
struct Nops(usize);

impl<Cpu> Build<Cpu, Ram> for Nops
where
    Cpu: Dispatch<Ram> + GetDispatchToken<Nop, Ram>,
{
    type Error = Refusal;

    fn build<Tape: AsClearedWriter>(
        &self,
        builder: &mut Builder<Cpu, Tape, Ram>,
    ) -> Result<(), Self::Error> {
        if self.0 % 2 == 1 {
            return Err(Refusal::Odd(self.0));
        }
        for _ in 0..self.0 {
            builder.emit(Nop)?;
        }
        Ok(())
    }
}

#[test]
fn the_error_of_the_code_is_handed_on() {
    let tape = || Bounded { words: Vec::new(), limit: 4 };
    assert!(matches!(Program::new(Looping::new(), tape(), Nops(3), 0), Err(Refusal::Odd(3))));
    assert!(matches!(Program::new(Looping::new(), tape(), Nops(6), 0), Err(Refusal::Tape)));
    // The nops fit and the sentinel does not.
    assert!(matches!(Program::new(Looping::new(), tape(), Nops(4), 0), Err(Refusal::Tape)));
    let program = Program::new(Looping::new(), tape(), Nops(2), 0).unwrap();
    let mut ram = fresh(0);
    assert_eq!(program.run(&mut ram), Err(Fault::Unreachable));
    assert_eq!(program.tape().words.len(), 3);
    assert_eq!(program.tape().limit, 4);
}

#[test]
fn sealing_puts_the_sentinel_behind_what_was_built() {
    let mut builder: Builder<Looping, Vec<usize>, Ram> = Builder::new(Looping::new(), Vec::new(), 3);
    builder.emit(Op::Return(5)).unwrap();
    let built: Result<(), UnexpectedEndError> = Ok(());
    let program = Program::seal(builder, Steps(Vec::new()), built).unwrap();
    assert_eq!(program.tape(), &vec![2, 3, 5, 0, 0]);
    let mut ram = fresh(0);
    assert_eq!(program.run(&mut ram), Ok(()));
    assert_eq!(ram.rval, 5);
    // A code that failed is not sealed.
    let builder: Builder<Looping, Vec<usize>, Ram> = Builder::new(Looping::new(), Vec::new(), 3);
    assert!(matches!(Program::seal(builder, Nops(1), Err(Refusal::Odd(1))), Err(Refusal::Odd(1))));
}

/// A small generator of numbers that look random and are the same each time.
struct Numbers(u64);

impl Numbers {
    fn next(&mut self, below: usize) -> usize {
        self.0 = self.0.wrapping_mul(6364136223846793005).wrapping_add(1442695040888963407);
        ((self.0 >> 33) as usize) % below
    }
}

#[test]
fn mixed_sequences_are_read_as_they_were_written() {
    let mut numbers = Numbers(2024);
    for round in 0..200 {
        // Instructions of one word and of four words in any order, with jumps
        // forward over some of them.
        let length = 1 + numbers.next(30);
        let mut steps = Vec::new();
        for at in 0..length {
            steps.push(match numbers.next(5) {
                0 => Step::Nop,
                1 => Step::Op(Op::PrintLn(numbers.next(2))),
                2 => Step::Op(Op::Raw(0)),
                3 => Step::JumpTo(at + 1 + numbers.next(length - at)),
                _ => Step::Nop,
            });
        }
        steps.push(Step::Op(Op::Return(round)));
        let code = Steps(steps.clone());

        // What the run has to visit: follow the steps by hand.
        let mut expected = Vec::new();
        let mut said = 0;
        let mut at = 0;
        loop {
            match steps[at] {
                Step::Nop => at += 1,
                Step::Op(Op::Return(_)) => {
                    expected.push(code.word_of(at));
                    break;
                }
                Step::Op(op) => {
                    expected.push(code.word_of(at));
                    // On the tape the raw words of tag zero are a message.
                    if matches!(op, Op::PrintLn(_) | Op::Raw(0)) {
                        said += 1;
                    }
                    at += 1;
                }
                Step::JumpTo(to) => {
                    expected.push(code.word_of(at));
                    at = to;
                }
                _ => unreachable!(),
            }
        }

        let looping = Program::new(Looping::new(), Vec::new(), code.clone(), round).unwrap();
        let mut ram = fresh(0);
        assert_eq!(looping.run(&mut ram), Ok(()), "round {}", round);
        assert_eq!(ram.trace, expected, "round {}", round);
        assert_eq!(ram.out.len(), said);
        assert_eq!(ram.rval, round);
        assert_eq!(looping.dump(0).len(), steps.len() + 1);

        let calling = Program::new(Calling::new(), Vec::new(), code, round).unwrap();
        let mut other = fresh(0);
        assert_eq!(calling.run(&mut other), Ok(()));
        assert_eq!(ram, other);
    }
}
