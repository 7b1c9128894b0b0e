//! Tapes to which programs are written.
//!
//! `Vec<usize>` is both a `Writer` and an `AsClearedWriter`. It holds as many
//! words as a vector can: those whose size in bytes does not exceed
//! `isize::MAX`.

use vstd::prelude::*;
use crate::word::lemma_word_bytes;
use crate::word::word_bytes;
use crate::word::word_size;

verus! {

/// An error that signals that the end of the tape was unexpectedly reached.
#[derive(Clone, Copy, Debug, PartialEq, Eq, Structural)]
pub struct UnexpectedEndError;

/// Types that can be written into, a word at a time.
pub trait Writer {
    /// The words written so far.
    open spec fn words(&self) -> Seq<usize> {
        arbitrary()
    }

    /// The number of words that the storage can hold at most.
    open spec fn limit(&self) -> nat {
        arbitrary()
    }

    /// Returns the current position of the writer, in words.
    fn word_offset(&self) -> (n: usize)
        ensures
            n == self.words().len(),
    ;

    /// Takes `n` words from the writer, starting at the current position.
    ///
    /// The words are handed out for the caller to fill. The call fails, and
    /// leaves the writer as it was, exactly when the storage cannot hold `n`
    /// more words.
    fn take(&mut self, n: usize) -> (r: Result<&mut [usize], UnexpectedEndError>)
        ensures
            final(self).limit() == old(self).limit(),
            r is Ok <==> old(self).words().len() + n <= old(self).limit(),
            match r {
                Ok(slice) => {
                    &&& slice@.len() == n
                    &&& final(self).words() == old(self).words() + final(slice)@
                },
                Err(_) => final(self).words() == old(self).words(),
            },
    ;
}

/// Types from which a cleared writer can be obtained: a tape.
pub trait AsClearedWriter: Writer + Sized {
    /// Returns the words of the tape.
    fn as_words(&self) -> (s: &[usize])
        ensures
            s@ == self.words(),
    ;

    /// Returns a cleared writer from this value.
    fn as_cleared_writer(&mut self) -> (w: &mut Self)
        ensures
            w.words() == Seq::<usize>::empty(),
            w.limit() == old(self).limit(),
            *final(self) == *final(w),
    ;
}

impl Writer for Vec<usize> {
    open spec fn words(&self) -> Seq<usize> {
        self@
    }

    open spec fn limit(&self) -> nat {
        isize::MAX as nat / word_bytes()
    }

    fn word_offset(&self) -> (n: usize) {
        self.len()
    }

    fn take(&mut self, n: usize) -> (r: Result<&mut [usize], UnexpectedEndError>) {
        proof {
            lemma_word_bytes();
        }
        let len = self.len();
        let limit = (isize::MAX as usize) / word_size();
        if len > limit || n > limit - len {
            return Err(UnexpectedEndError);
        }
        self.resize(len + n, 0);
        let (_, tail) = self.as_mut_slice().split_at_mut(len);
        Ok(tail)
    }
}

impl AsClearedWriter for Vec<usize> {
    fn as_words(&self) -> (s: &[usize]) {
        self.as_slice()
    }

    fn as_cleared_writer(&mut self) -> (w: &mut Self) {
        self.clear();
        self
    }
}

} // verus!
