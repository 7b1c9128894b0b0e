//! The read-only picture of a compiled tape that a run works on.

use vstd::prelude::*;
use crate::word::lemma_word_bytes;
use crate::word::max_words;
use crate::word::word_size;

verus! {

/// What an image is: the words of a tape, for each word whether an
/// instruction starts there, and the number of the session that built the
/// tape.
pub ghost struct ImageView {
    /// The words of the tape.
    pub words: Seq<usize>,
    /// For each word of the tape, whether an instruction starts there.
    pub marks: Seq<bool>,
    /// The number of the session that built the tape.
    pub session: usize,
}

impl ImageView {
    /// Every word has its mark, and the tape's size in bytes fits in a word.
    pub open spec fn wf(self) -> bool {
        &&& self.marks.len() == self.words.len()
        &&& self.words.len() <= max_words()
    }

    /// Whether an instruction starts at word `i`.
    pub open spec fn is_start(self, i: int) -> bool {
        0 <= i < self.words.len() && self.marks[i]
    }

    /// Whether the words from `i` on hold an instruction with exactly `n`
    /// operand words that another instruction follows.
    pub open spec fn is_record(self, i: int, n: nat) -> bool {
        &&& self.is_start(i)
        &&& self.is_start(i + 1 + n)
        &&& forall|j: int| i < j < i + 1 + n ==> !#[trigger] self.marks[j]
    }

    /// The operand words of the instruction that starts at `i` and has `n` of
    /// them.
    pub open spec fn operand(self, i: int, n: nat) -> Seq<usize> {
        self.words.subrange(i + 1, i + 1 + n)
    }
}

/// A compiled tape as execution sees it: its words, one mark for each word
/// that tells whether an instruction starts there, and the number of the
/// session that built it.
#[derive(Clone, Copy, Debug)]
pub struct Image<'tape> {
    words: &'tape [usize],
    marks: &'tape [bool],
    session: usize,
}

impl<'tape> View for Image<'tape> {
    type V = ImageView;

    closed spec fn view(&self) -> ImageView {
        ImageView { words: self.words@, marks: self.marks@, session: self.session }
    }
}

impl<'tape> Image<'tape> {
    #[verifier::type_invariant]
    pub(crate) open spec fn inv(self) -> bool {
        self@.wf()
    }

    /// Puts an image together from the words of a tape, its marks and its
    /// session. There is one exactly where every word has its mark and the
    /// size of the tape in bytes fits in a word.
    pub fn new(words: &'tape [usize], marks: &'tape [bool], session: usize) -> (image: Option<Self>)
        ensures
            image is Some <==> marks@.len() == words@.len() && words@.len() <= max_words(),
            image matches Some(image) ==> image@ == (ImageView {
                words: words@,
                marks: marks@,
                session,
            }),
    {
        proof {
            lemma_word_bytes();
        }
        if marks.len() == words.len() && words.len() <= usize::MAX / word_size() {
            Some(Image { words, marks, session })
        } else {
            None
        }
    }

    /// Returns the number of words on the tape.
    pub fn len(self) -> (n: usize)
        ensures
            n == self@.words.len(),
            self@.wf(),
    {
        proof {
            use_type_invariant(&self);
        }
        self.words.len()
    }

    /// Returns the number of the session that built the tape.
    pub fn id(self) -> (id: usize)
        ensures
            id == self@.session,
    {
        self.session
    }

    /// Returns the word at `i`.
    pub(crate) fn word(self, i: usize) -> (w: usize)
        requires
            i < self@.words.len(),
        ensures
            w == self@.words[i as int],
    {
        self.words[i]
    }

    /// Tells whether an instruction starts at word `i`.
    pub fn starts_at(self, i: usize) -> (b: bool)
        ensures
            b == self@.is_start(i as int),
    {
        proof {
            use_type_invariant(&self);
        }
        i < self.marks.len() && self.marks[i]
    }

    /// Returns the `n` words that follow word `i`.
    pub(crate) fn slice(self, i: usize, n: usize) -> (s: &'tape [usize])
        requires
            i + 1 + n <= self@.words.len(),
        ensures
            s@ == self@.operand(i as int, n as nat),
    {
        proof {
            use_type_invariant(&self);
            lemma_word_bytes();
        }
        let (_, tail) = self.words.split_at(i + 1);
        let (head, _) = tail.split_at(n);
        assert(head@ =~= self@.operand(i as int, n as nat));
        head
    }

    /// Tells whether the words from `i` on hold an instruction with exactly
    /// `n` operand words that another instruction follows.
    pub fn holds_record(self, i: usize, n: usize) -> (b: bool)
        ensures
            b == self@.is_record(i as int, n as nat),
    {
        proof {
            use_type_invariant(&self);
        }
        let len = self.marks.len();
        if i >= len || !self.marks[i] {
            return false;
        }
        if n >= len - 1 - i {
            return false;
        }
        let end = i + 1 + n;
        if !self.marks[end] {
            return false;
        }
        let mut j = i + 1;
        while j < end
            invariant
                i < j <= end,
                end == i + 1 + n,
                end < self.marks@.len(),
                forall|k: int| i < k < j ==> !#[trigger] self.marks@[k],
            ensures
                j == end,
            decreases end - j,
        {
            if self.marks[j] {
                return false;
            }
            j += 1;
        }
        true
    }
}

} // verus!
