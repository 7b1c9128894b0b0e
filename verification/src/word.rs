//! The machine word and the footprint of an instruction on the tape.

use vstd::prelude::*;
use vstd::layout::layout_of_primitives;
use vstd::layout::size_of;

verus! {

/// The number of bytes in one machine word.
pub open spec fn word_bytes() -> nat {
    size_of::<usize>()
}

/// The largest number of words whose size in bytes still fits in a word.
pub open spec fn max_words() -> nat {
    usize::MAX as nat / word_bytes()
}

/// A machine word holds four or eight bytes.
pub proof fn lemma_word_bytes()
    ensures
        word_bytes() == 4 || word_bytes() == 8,
        word_bytes() * 8 == usize::BITS,
{
    broadcast use layout_of_primitives;
}

/// A whole number of words, taken in bytes, is as many words again, with
/// nothing left over.
pub proof fn lemma_whole_words(n: nat)
    ensures
        (n * word_bytes()) / word_bytes() == n,
        (n * word_bytes()) % word_bytes() == 0,
{
    lemma_word_bytes();
    vstd::arithmetic::div_mod::lemma_div_multiples_vanish(n as int, word_bytes() as int);
    vstd::arithmetic::div_mod::lemma_mod_multiples_basic(n as int, word_bytes() as int);
    assert(n * word_bytes() == word_bytes() * n) by (nonlinear_arith);
}

/// Returns the number of bytes in one machine word.
pub fn word_size() -> (n: usize)
    ensures
        n == word_bytes(),
        n == 4 || n == 8,
{
    proof {
        lemma_word_bytes();
    }
    core::mem::size_of::<usize>()
}

/// The size and the alignment, in bytes, that a type asks of the tape.
#[derive(Clone, Copy, Debug)]
pub struct Layout {
    /// The size in bytes.
    pub size: usize,
    /// The alignment in bytes.
    pub align: usize,
}

impl Layout {
    /// The size of an instruction whose operand has this layout: one word for
    /// the dispatch token, directly followed by the operand.
    pub open spec fn spec_record_size(self) -> nat {
        word_bytes() + self.size as nat
    }

    /// The alignment of an instruction whose operand has this layout: that of
    /// a word or that of the operand, whichever is greater.
    pub open spec fn spec_record_align(self) -> nat {
        if self.align > word_bytes() {
            self.align as nat
        } else {
            word_bytes()
        }
    }

    /// Whether an instruction with this operand can live on a tape of words:
    /// its size is a whole number of words, and its alignment is that of a
    /// word.
    pub open spec fn spec_fits(self) -> bool {
        &&& self.spec_record_size() % word_bytes() == 0
        &&& self.spec_record_align() == word_bytes()
    }

    /// The number of words that the operand alone takes.
    pub open spec fn spec_words(self) -> nat {
        self.size as nat / word_bytes()
    }

    /// An operand fits exactly when its size is a whole number of words and
    /// its alignment does not exceed a word's.
    pub proof fn lemma_fits(self)
        ensures
            self.spec_fits() <==> (self.size as nat % word_bytes() == 0 && self.align <= word_bytes()),
            self.spec_fits() ==> self.spec_words() * word_bytes() == self.size,
    {
        lemma_word_bytes();
    }

    /// Tells whether an instruction with this operand can live on a tape.
    pub fn fits(&self) -> (b: bool)
        ensures
            b == self.spec_fits(),
    {
        proof {
            self.lemma_fits();
        }
        let word = word_size();
        self.size % word == 0 && self.align <= word
    }

    /// Returns the number of words that the operand alone takes.
    pub fn words(&self) -> (n: usize)
        ensures
            n == self.spec_words(),
    {
        self.size / word_size()
    }
}

} // verus!
