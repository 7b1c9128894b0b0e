//! CPU-related traits and a couple of built-in CPUs.

use vstd::prelude::*;
use vstd::std_specs::convert::FromSpecImpl;
use vstd::string::StringExecFns;
use core::marker::PhantomData;
use crate::builtins::Nop;
use crate::builtins::Unreachable;
use crate::debug_info::Dumper;
use crate::debug_info::instruction_text;
use crate::debug_info::spec_instruction_text;
use crate::image::Image;
use crate::image::ImageView;
use crate::operation::Custom;
use crate::operation::Execute;
use crate::pc::Pc;
use crate::pc::PcView;
use crate::runner::Destination;
use crate::runner::Runner;
use crate::runner::RunnerView;
use crate::text::pointer;
use crate::text::spec_pointer;
use crate::word::lemma_word_bytes;
use crate::word::word_bytes;
use crate::word::word_size;

verus! {

/// An opaque dispatch token.
///
/// Opaque dispatch tokens can be converted to and from `usize` values through
/// the `From` trait.
#[derive(Clone, Copy, Debug, PartialEq, Eq, Structural)]
pub struct DispatchToken(pub usize);

impl From<usize> for DispatchToken {
    fn from(value: usize) -> (token: Self) {
        DispatchToken(value)
    }
}

impl FromSpecImpl<usize> for DispatchToken {
    open spec fn obeys_from_spec() -> bool {
        true
    }

    open spec fn from_spec(value: usize) -> Self {
        DispatchToken(value)
    }
}

impl From<DispatchToken> for usize {
    fn from(token: DispatchToken) -> (value: Self) {
        token.0
    }
}

impl FromSpecImpl<DispatchToken> for usize {
    open spec fn obeys_from_spec() -> bool {
        true
    }

    open spec fn from_spec(token: DispatchToken) -> Self {
        token.0
    }
}

/// Why a run ended without an operation halting it.
#[derive(Clone, Copy, Debug, PartialEq, Eq, Structural)]
pub enum Fault {
    /// Control reached the unreachable operation.
    Unreachable,
    /// The words at an address are no instruction that the CPU knows.
    Undecodable,
    /// An offset was resolved against a tape of another session.
    ForeignOffset,
    /// An offset does not lead to the start of an instruction.
    InvalidOffset,
    /// The run took as many steps as it was allowed.
    OutOfFuel,
}

/// Token to signal that the program should halt.
///
/// This is returned by `Runner::halt`.
#[derive(Clone, Copy, Debug)]
pub struct Halt {
    fault: Option<Fault>,
}

impl Halt {
    /// The fault that the signal carries, if it carries one.
    pub closed spec fn fault(self) -> Option<Fault> {
        self.fault
    }

    /// The signal of an operation that halts the program.
    pub closed spec fn spec_normal() -> Halt {
        Halt { fault: None }
    }

    /// The signal that ends the run with `fault`.
    pub closed spec fn spec_faulty(fault: Fault) -> Halt {
        Halt { fault: Some(fault) }
    }

    /// How a run that this signal ends comes out.
    pub open spec fn spec_outcome(self) -> Result<(), Fault> {
        match self.fault() {
            None => Ok(()),
            Some(fault) => Err(fault),
        }
    }

    /// A signal is what it carries.
    pub proof fn lemma_fault(self, fault: Fault)
        ensures
            Self::spec_normal().fault() == None::<Fault>,
            Self::spec_faulty(fault).fault() == Some(fault),
            self.fault() == None::<Fault> ==> self == Self::spec_normal(),
            self.fault() == Some(fault) ==> self == Self::spec_faulty(fault),
    {
    }

    /// Returns the signal of an operation that halts the program.
    pub(crate) fn normal() -> (halt: Halt)
        ensures
            halt == Self::spec_normal(),
    {
        Halt { fault: None }
    }

    /// Returns the signal that ends the run with `fault`.
    pub(crate) fn faulty(fault: Fault) -> (halt: Halt)
        ensures
            halt == Self::spec_faulty(fault),
    {
        Halt { fault: Some(fault) }
    }

    /// Returns how a run that this signal ends comes out.
    pub fn outcome(self) -> (r: Result<(), Fault>)
        ensures
            r == self.spec_outcome(),
    {
        match self.fault {
            None => Ok(()),
            Some(fault) => Err(fault),
        }
    }
}

/// What an address is: a tape and the word of it that the address points at.
pub ghost struct AddrView {
    /// The tape that the address points into.
    pub image: ImageView,
    /// The word of the tape that the address points at.
    pub index: usize,
}

impl AddrView {
    /// The address points at the start of an instruction of its tape.
    pub open spec fn wf(self) -> bool {
        self.image.wf() && self.image.is_start(self.index as int)
    }

    /// The dispatch token at this address.
    pub open spec fn spec_token(self) -> DispatchToken {
        DispatchToken(self.image.words[self.index as int])
    }
}

/// An address into the tape.
///
/// Addresses are guaranteed to point at the start of an operation and are
/// thus always safe to dispatch to.
#[derive(Clone, Copy, Debug)]
pub struct Addr<'tape> {
    image: Image<'tape>,
    index: usize,
}

impl<'tape> View for Addr<'tape> {
    type V = AddrView;

    closed spec fn view(&self) -> AddrView {
        AddrView { image: self.image@, index: self.index }
    }
}

impl<'tape> Addr<'tape> {
    #[verifier::type_invariant]
    spec fn inv(self) -> bool {
        self@.wf()
    }

    /// Returns the address of word `index` of `image`, where an instruction
    /// starts.
    pub(crate) fn new(image: Image<'tape>, index: usize) -> (addr: Self)
        requires
            image@.is_start(index as int),
        ensures
            addr@ == (AddrView { image: image@, index }),
            addr@.wf(),
    {
        proof {
            use_type_invariant(&image);
        }
        Addr { image, index }
    }

    /// Returns the tape that the address points into.
    pub fn tape(self) -> (image: Image<'tape>)
        ensures
            image@ == self@.image,
            self@.wf(),
    {
        proof {
            use_type_invariant(&self);
        }
        self.image
    }

    /// Returns the word of the tape that the address points at.
    pub fn position(self) -> (index: usize)
        ensures
            index == self@.index,
            self@.wf(),
    {
        proof {
            use_type_invariant(&self);
        }
        self.index
    }

    /// Returns the dispatch token at this address.
    pub fn token(self) -> (token: DispatchToken)
        ensures
            token == self@.spec_token(),
    {
        proof {
            use_type_invariant(&self);
        }
        DispatchToken(self.image.word(self.index))
    }
}

/// What a destination is: the address to go on at, or the signal that ends
/// the run.
pub type DestinationView = Result<AddrView, Halt>;

/// What the destination `dest` is.
pub open spec fn spec_destination<'tape>(dest: Destination<'tape>) -> DestinationView {
    match dest {
        Ok(addr) => Ok(addr@),
        Err(halt) => Err(halt),
    }
}

/// The main trait for CPUs.
///
/// A CPU dispatches operations based on which destination they return.
/// They are all equipped with an `Unreachable` implementation to emit
/// an operation that is guaranteed to end the run, for safety reasons.
///
/// It is the CPU's responsibility to ensure the proper progression of the
/// program through the opaque `DispatchToken` values reachable from the
/// destinations returned by each operation.
pub trait Dispatch<Ram>: Copy + GetDispatchToken<Unreachable, Ram> {
    /// How a run from `addr` comes out and what it makes of the RAM.
    open spec fn spec_dispatch(self, addr: AddrView, runner: RunnerView, ram: Ram) -> (
        Result<(), Fault>,
        Ram,
    ) {
        arbitrary()
    }

    /// Dispatches the operation at the given address, and those that follow,
    /// until one of them halts, a fault ends the run, or the steps that the
    /// runner allows are used up.
    fn dispatch<'tape>(self, addr: Addr<'tape>, runner: Runner<'tape>, ram: &mut Ram) -> (r: Result<
        (),
        Fault,
    >)
        ensures
            (r, *final(ram)) == self.spec_dispatch(addr@, runner@, *old(ram)),
    ;

    /// The text of the instruction at `addr`.
    open spec fn spec_describe(self, addr: AddrView, dumper: Dumper) -> Seq<char> {
        arbitrary()
    }

    /// Dumps the instruction at the given address.
    fn describe<'tape>(self, addr: Addr<'tape>, dumper: Dumper) -> (text: String)
        ensures
            text@ == self.spec_describe(addr@, dumper),
    ;
}

/// CPUs should implement this trait for each operation they support.
pub trait GetDispatchToken<Op, Ram>: Copy where Op: Execute<Ram> {
    /// The dispatch token for this operation.
    open spec fn spec_dispatch_token(self) -> DispatchToken {
        arbitrary()
    }

    /// Returns the dispatch token for this operation.
    ///
    /// This dispatch token can be accessed from the address passed to
    /// `Dispatch::dispatch`.
    fn get_dispatch_token(self) -> (token: DispatchToken)
        ensures
            token == self.spec_dispatch_token(),
    ;
}

/// The word of the token that the built-in CPUs give the unreachable
/// operation.
pub const UNREACHABLE_TOKEN: usize = 0;

/// The word of the token that the built-in CPUs give the nop operation.
pub const NOP_TOKEN: usize = 1;

/// The word of the token that the built-in CPUs give the operations that the
/// program defines.
pub const CUSTOM_TOKEN: usize = 2;

/// One step of the built-in CPUs: what the instruction at `addr` does.
///
/// The token at the address says which operation stands there. The
/// unreachable operation ends the run with a fault, whether or not anything
/// follows it. Any other operation is decoded from its operand words and
/// executed; words that are no instruction end the run with a fault.
pub open spec fn spec_step<Op, Ram>(addr: AddrView, runner: RunnerView, ram: Ram) -> (
    DestinationView,
    Ram,
) where Op: Execute<Ram> + Custom {
    let word = addr.spec_token().0;
    if word == UNREACHABLE_TOKEN {
        (Err(Halt::spec_faulty(Fault::Unreachable)), ram)
    } else if word == NOP_TOKEN {
        match PcView::<Nop>::at(addr) {
            Some(pc) => <Nop as Execute<Ram>>::spec_execute(pc, runner, ram),
            None => (Err(Halt::spec_faulty(Fault::Undecodable)), ram),
        }
    } else if word == CUSTOM_TOKEN {
        match PcView::<Op>::at(addr) {
            Some(pc) => Op::spec_execute(pc, runner, ram),
            None => (Err(Halt::spec_faulty(Fault::Undecodable)), ram),
        }
    } else {
        (Err(Halt::spec_faulty(Fault::Undecodable)), ram)
    }
}

/// A run of the built-in CPUs from `addr` that may take `fuel` steps: how it
/// comes out and what it makes of the RAM.
pub open spec fn spec_run<Op, Ram>(addr: AddrView, runner: RunnerView, ram: Ram, fuel: nat) -> (
    Result<(), Fault>,
    Ram,
) where Op: Execute<Ram> + Custom
    decreases fuel,
{
    if fuel == 0 {
        (Err(Fault::OutOfFuel), ram)
    } else {
        let (dest, ram) = spec_step::<Op, Ram>(addr, runner, ram);
        match dest {
            Ok(next) => spec_run::<Op, Ram>(next, runner, ram, (fuel - 1) as nat),
            Err(halt) => (halt.spec_outcome(), ram),
        }
    }
}

/// The text that the built-in CPUs give for the instruction at `addr`: the
/// address of the instruction, a colon, and the text of the operation that the
/// token and the operand words stand for, or a question mark where they stand
/// for none.
pub open spec fn spec_describe_step<Op, Ram>(addr: AddrView, dumper: Dumper) -> Seq<char> where
    Op: Execute<Ram> + Custom,
 {
    let word = addr.spec_token().0;
    let at = (addr.index * word_bytes()) as usize;
    if word == UNREACHABLE_TOKEN {
        spec_instruction_text(Unreachable, at, dumper)
    } else if word == NOP_TOKEN {
        spec_instruction_text(Nop, at, dumper)
    } else if word == CUSTOM_TOKEN && PcView::<Op>::at(addr) is Some {
        spec_instruction_text(PcView::<Op>::at(addr).unwrap().op, at, dumper)
    } else {
        spec_pointer(dumper.spec_address(at) as nat) + ": ?"@
    }
}

/// Dumps the instruction at `addr`, as the built-in CPUs do.
pub fn describe_step<'tape, Op, Ram>(addr: Addr<'tape>, dumper: Dumper) -> (text: String) where
    Op: Execute<Ram> + Custom,

    ensures
        text@ == spec_describe_step::<Op, Ram>(addr@, dumper),
{
    let token = addr.token();
    let word: usize = token.0;
    let index = addr.position();
    proof {
        lemma_word_bytes();
        assert(index * word_bytes() <= usize::MAX) by (nonlinear_arith)
            requires
                index <= usize::MAX as nat / word_bytes(),
                word_bytes() > 0,
        ;
    }
    let at = index * word_size();
    if word == UNREACHABLE_TOKEN {
        return instruction_text(&Unreachable, at, dumper);
    }
    if word == NOP_TOKEN {
        return instruction_text(&Nop, at, dumper);
    }
    if word == CUSTOM_TOKEN {
        match Pc::<Op>::from_addr(addr) {
            Some(pc) => {
                return instruction_text(&*pc, at, dumper);
            },
            None => {},
        }
    }
    let mut text = pointer(dumper.address(at));
    text.append(": ?");
    text
}

/// Executes the instruction at `addr`, as the built-in CPUs do.
pub fn step<'tape, Op, Ram>(addr: Addr<'tape>, runner: Runner<'tape>, ram: &mut Ram) -> (dest:
    Destination<'tape>) where Op: Execute<Ram> + Custom
    ensures
        (spec_destination(dest), *final(ram)) == spec_step::<Op, Ram>(addr@, runner@, *old(ram)),
{
    let token = addr.token();
    let word: usize = token.0;
    if word == UNREACHABLE_TOKEN {
        Err(Halt::faulty(Fault::Unreachable))
    } else if word == NOP_TOKEN {
        match Pc::<Nop>::from_addr(addr) {
            Some(pc) => <Nop as Execute<Ram>>::execute(pc, runner, ram),
            None => Err(Halt::faulty(Fault::Undecodable)),
        }
    } else if word == CUSTOM_TOKEN {
        match Pc::<Op>::from_addr(addr) {
            Some(pc) => Op::execute(pc, runner, ram),
            None => Err(Halt::faulty(Fault::Undecodable)),
        }
    } else {
        Err(Halt::faulty(Fault::Undecodable))
    }
}

/// A CPU that dispatches operations looping and calling operations directly.
///
/// This CPU supports the built-in operations and the operations of type `Op`.
/// It dispatches operations in a loop, so each operation returns to the
/// calling loop, and the stack stays as it is however long the program runs.
#[derive(Debug)]
pub struct DirectThreadedLoop<Op> {
    marker: PhantomData<Op>,
}

impl<Op> DirectThreadedLoop<Op> {
    /// The CPU.
    pub closed spec fn new_spec() -> Self {
        DirectThreadedLoop { marker: PhantomData }
    }

    /// Returns the CPU.
    pub fn new() -> (cpu: Self)
        ensures
            cpu == Self::new_spec(),
    {
        DirectThreadedLoop { marker: PhantomData }
    }
}

impl<Op> Clone for DirectThreadedLoop<Op> {
    fn clone(&self) -> (cpu: Self) {
        DirectThreadedLoop { marker: PhantomData }
    }
}

impl<Op> Copy for DirectThreadedLoop<Op> {
}

impl<Op, Ram> GetDispatchToken<Unreachable, Ram> for DirectThreadedLoop<Op> {
    open spec fn spec_dispatch_token(self) -> DispatchToken {
        DispatchToken(UNREACHABLE_TOKEN)
    }

    fn get_dispatch_token(self) -> (token: DispatchToken) {
        DispatchToken(UNREACHABLE_TOKEN)
    }
}

impl<Op, Ram> GetDispatchToken<Nop, Ram> for DirectThreadedLoop<Op> {
    open spec fn spec_dispatch_token(self) -> DispatchToken {
        DispatchToken(NOP_TOKEN)
    }

    fn get_dispatch_token(self) -> (token: DispatchToken) {
        DispatchToken(NOP_TOKEN)
    }
}

impl<Op, Ram> GetDispatchToken<Op, Ram> for DirectThreadedLoop<Op> where Op: Execute<Ram> + Custom {
    open spec fn spec_dispatch_token(self) -> DispatchToken {
        DispatchToken(CUSTOM_TOKEN)
    }

    fn get_dispatch_token(self) -> (token: DispatchToken) {
        DispatchToken(CUSTOM_TOKEN)
    }
}

impl<Op, Ram> Dispatch<Ram> for DirectThreadedLoop<Op> where Op: Execute<Ram> + Custom {
    open spec fn spec_dispatch(self, addr: AddrView, runner: RunnerView, ram: Ram) -> (
        Result<(), Fault>,
        Ram,
    ) {
        spec_run::<Op, Ram>(addr, runner, ram, runner.budget as nat)
    }

    fn dispatch<'tape>(self, addr: Addr<'tape>, runner: Runner<'tape>, ram: &mut Ram) -> (r: Result<
        (),
        Fault,
    >) {
        let mut here = addr;
        let mut left: u64 = runner.steps();
        loop
            invariant
                spec_run::<Op, Ram>(here@, runner@, *ram, left as nat) == spec_run::<Op, Ram>(
                    addr@,
                    runner@,
                    *old(ram),
                    runner@.budget as nat,
                ),
            decreases left,
        {
            if left == 0 {
                return Err(Fault::OutOfFuel);
            }
            match step::<Op, Ram>(here, runner, ram) {
                Ok(next) => {
                    here = next;
                    left = left - 1;
                },
                Err(halt) => {
                    return halt.outcome();
                },
            }
        }
    }

    open spec fn spec_describe(self, addr: AddrView, dumper: Dumper) -> Seq<char> {
        spec_describe_step::<Op, Ram>(addr, dumper)
    }

    fn describe<'tape>(self, addr: Addr<'tape>, dumper: Dumper) -> (text: String) {
        describe_step::<Op, Ram>(addr, dumper)
    }
}

/// A CPU that dispatches operations the way a direct-threaded emulator does.
///
/// This CPU supports the built-in operations and the operations of type `Op`.
/// The step that executes an operation goes on to dispatch the next one by
/// itself instead of returning to a loop.
///
/// **Your stack may overflow if you use this.** This relies on the compiler
/// always doing a tail-call from one operation to the next one, and nothing
/// guarantees that it will.
#[derive(Debug)]
pub struct DirectThreadedCall<Op> {
    marker: PhantomData<Op>,
}

impl<Op> DirectThreadedCall<Op> {
    /// The CPU.
    pub closed spec fn new_spec() -> Self {
        DirectThreadedCall { marker: PhantomData }
    }

    /// Returns the CPU.
    pub fn new() -> (cpu: Self)
        ensures
            cpu == Self::new_spec(),
    {
        DirectThreadedCall { marker: PhantomData }
    }

    /// Executes the operation at `addr` and goes on from there, for `left`
    /// steps at most.
    fn call<'tape, Ram>(addr: Addr<'tape>, runner: Runner<'tape>, ram: &mut Ram, left: u64) -> (r:
        Result<(), Fault>) where Op: Execute<Ram> + Custom
        ensures
            (r, *final(ram)) == spec_run::<Op, Ram>(addr@, runner@, *old(ram), left as nat),
        decreases left,
    {
        if left == 0 {
            return Err(Fault::OutOfFuel);
        }
        match step::<Op, Ram>(addr, runner, ram) {
            Ok(next) => Self::call(next, runner, ram, left - 1),
            Err(halt) => halt.outcome(),
        }
    }
}

impl<Op> Clone for DirectThreadedCall<Op> {
    fn clone(&self) -> (cpu: Self) {
        DirectThreadedCall { marker: PhantomData }
    }
}

impl<Op> Copy for DirectThreadedCall<Op> {
}

impl<Op, Ram> GetDispatchToken<Unreachable, Ram> for DirectThreadedCall<Op> {
    open spec fn spec_dispatch_token(self) -> DispatchToken {
        DispatchToken(UNREACHABLE_TOKEN)
    }

    fn get_dispatch_token(self) -> (token: DispatchToken) {
        DispatchToken(UNREACHABLE_TOKEN)
    }
}

impl<Op, Ram> GetDispatchToken<Nop, Ram> for DirectThreadedCall<Op> {
    open spec fn spec_dispatch_token(self) -> DispatchToken {
        DispatchToken(NOP_TOKEN)
    }

    fn get_dispatch_token(self) -> (token: DispatchToken) {
        DispatchToken(NOP_TOKEN)
    }
}

impl<Op, Ram> GetDispatchToken<Op, Ram> for DirectThreadedCall<Op> where Op: Execute<Ram> + Custom {
    open spec fn spec_dispatch_token(self) -> DispatchToken {
        DispatchToken(CUSTOM_TOKEN)
    }

    fn get_dispatch_token(self) -> (token: DispatchToken) {
        DispatchToken(CUSTOM_TOKEN)
    }
}

impl<Op, Ram> Dispatch<Ram> for DirectThreadedCall<Op> where Op: Execute<Ram> + Custom {
    open spec fn spec_dispatch(self, addr: AddrView, runner: RunnerView, ram: Ram) -> (
        Result<(), Fault>,
        Ram,
    ) {
        spec_run::<Op, Ram>(addr, runner, ram, runner.budget as nat)
    }

    fn dispatch<'tape>(self, addr: Addr<'tape>, runner: Runner<'tape>, ram: &mut Ram) -> (r: Result<
        (),
        Fault,
    >) {
        Self::call(addr, runner, ram, runner.steps())
    }

    open spec fn spec_describe(self, addr: AddrView, dumper: Dumper) -> Seq<char> {
        spec_describe_step::<Op, Ram>(addr, dumper)
    }

    fn describe<'tape>(self, addr: Addr<'tape>, dumper: Dumper) -> (text: String) {
        describe_step::<Op, Ram>(addr, dumper)
    }
}

} // verus!
