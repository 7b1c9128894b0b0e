//! The capability that a running operation resolves offsets with.

use vstd::prelude::*;
use crate::cpu::Addr;
use crate::cpu::AddrView;
use crate::cpu::DestinationView;
use crate::cpu::Fault;
use crate::cpu::Halt;
use crate::cpu::spec_destination;
use crate::image::Image;
use crate::image::ImageView;
use crate::offset::Offset;
use crate::word::word_bytes;
use crate::word::word_size;

verus! {

/// A destination for the next step the CPU should take.
///
/// This type alias only exists so that simple programs need only one import
/// instead of two.
pub type Destination<'tape> = Result<Addr<'tape>, Halt>;

/// What a runner is: the tape that it is bound to, and the number of steps
/// that the run may take.
pub ghost struct RunnerView {
    /// The tape that the runner is bound to.
    pub image: ImageView,
    /// The number of steps that the run may take.
    pub budget: u64,
}

impl RunnerView {
    /// What resolving `offset` gives: the address of the word that the offset
    /// leads to, where the offset was taken in the session of this runner's
    /// tape and leads to the start of an operation of it, and else the signal
    /// that ends the run with the fault that says what is wrong with the offset.
    pub open spec fn spec_resolve_offset(self, offset: Offset) -> DestinationView {
        if offset.session != self.image.session {
            Err(Halt::spec_faulty(Fault::ForeignOffset))
        } else if offset.value as nat % word_bytes() != 0 || !self.image.is_start(
            (offset.value as nat / word_bytes()) as int,
        ) {
            Err(Halt::spec_faulty(Fault::InvalidOffset))
        } else {
            Ok(
                AddrView {
                    image: self.image,
                    index: (offset.value as nat / word_bytes()) as usize,
                },
            )
        }
    }
}

/// The runner, which allows resolving tape offsets during execution.
#[derive(Clone, Copy, Debug)]
pub struct Runner<'tape> {
    image: Image<'tape>,
    budget: u64,
}

impl<'tape> View for Runner<'tape> {
    type V = RunnerView;

    closed spec fn view(&self) -> RunnerView {
        RunnerView { image: self.image@, budget: self.budget }
    }
}

impl<'tape> Runner<'tape> {
    /// Resolves a tape offset to a physical address.
    ///
    /// An offset of another session, and one that does not lead to the start of
    /// an operation, is rejected with the signal that ends the run with the
    /// fault.
    pub fn resolve_offset(self, offset: Offset) -> (dest: Destination<'tape>)
        ensures
            spec_destination(dest) == self@.spec_resolve_offset(offset),
            dest matches Ok(addr) ==> addr@.wf(),
    {
        let value = offset.value;
        if offset.session != self.image.id() {
            return Err(Halt::faulty(Fault::ForeignOffset));
        }
        let word = word_size();
        if value % word != 0 {
            return Err(Halt::faulty(Fault::InvalidOffset));
        }
        let index = value / word;
        if !self.image.starts_at(index) {
            return Err(Halt::faulty(Fault::InvalidOffset));
        }
        Ok(Addr::new(self.image, index))
    }

    /// Returns the error token to return from the program altogether.
    pub fn halt(self) -> (halt: Halt)
        ensures
            halt == Halt::spec_normal(),
    {
        Halt::normal()
    }

    /// Returns the runner of a run of `image` that may take `budget` steps.
    pub fn new(image: Image<'tape>, budget: u64) -> (runner: Self)
        ensures
            runner@ == (RunnerView { image: image@, budget }),
    {
        Runner { image, budget }
    }

    /// Returns the number of steps that the run may take.
    pub fn steps(self) -> (budget: u64)
        ensures
            budget == self@.budget,
    {
        self.budget
    }
}

} // verus!
