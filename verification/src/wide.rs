//! Wide ports: values of more than 64 bits, held in 32-bit words.

use vstd::prelude::*;

use crate::types;

verus! {

/// The bits of one word.
pub const WORD_BITS: usize = 32;

/// The bytes of one word.
pub const WORD_BYTES: usize = 4;

/// The least number of words that holds `width` bits.
pub open spec fn word_count(width: nat) -> nat {
    (width + 31) / 32
}

/// Computes the length of the [`types::WData`] array that Verilator generates for a wide port of
/// bit width `width`.
///
/// See also: [`compute_approx_width_from_wdata_word_count`]
pub fn compute_wdata_word_count_from_width_not_msb(width: usize) -> (count: usize)
    ensures
        count == word_count(width as nat),
{
    if width % WORD_BITS == 0 {
        width / WORD_BITS
    } else {
        width / WORD_BITS + 1
    }
}

/// Computes the width upper bound for a wide port whose [`types::WData`] array has `word_count`
/// elements.
///
/// See also: [`compute_wdata_word_count_from_width_not_msb`]
pub fn compute_approx_width_from_wdata_word_count(word_count: usize) -> (width: usize)
    requires
        word_count * 32 <= usize::MAX,
    ensures
        width == word_count * 32,
{
    word_count * WORD_BITS
}

/// The word count is the least that covers the width: its words hold the width, and one word fewer
/// would not.
pub proof fn law_word_count_is_least(width: nat, count: nat)
    ensures
        word_count(width) <= count <==> width <= count * 32,
{
}

/// Going from a word count to its width bound and back changes nothing, and going from a width to
/// its word count and back loses no bit and adds fewer than one word of them.
pub proof fn law_word_count_round_trip(width: nat, count: nat)
    ensures
        word_count(count * 32) == count,
        width <= word_count(width) * 32 < width + 32,
{
}

/// `WORDS` is [`compute_wdata_word_count_from_width_not_msb`]`(HIGH + 1 - LOW)`, where `HIGH` is the
/// most significant bit index and `LOW` is the least.
#[derive(PartialEq, Eq, Hash, Clone, Debug)]
pub struct WideIn<const WORDS: usize> {
    inner: [types::WData; WORDS],
}

impl<const WORDS: usize> View for WideIn<WORDS> {
    type V = Seq<types::WData>;

    closed spec fn view(&self) -> Seq<types::WData> {
        self.inner@
    }
}

impl<const WORDS: usize> WideIn<WORDS> {
    /// A value made of these words, the least significant first.
    pub fn new(value: [types::WData; WORDS]) -> (wide: Self)
        ensures
            wide@ == value@,
    {
        Self { inner: value }
    }

    /// The words.
    pub fn value(&self) -> (words: &[types::WData; WORDS])
        ensures
            words@ == self@,
    {
        &self.inner
    }

    /// The words as the slice whose address the model reads; it is borrowed from `self`.
    pub fn as_ptr(&self) -> (words: &[types::WData])
        ensures
            words@ == self@,
    {
        self.inner.as_slice()
    }
}

impl<const WORDS: usize> Default for WideIn<WORDS> {
    fn default() -> (wide: Self)
        ensures
            wide@ == Seq::new(WORDS as nat, |i: int| 0u32),
    {
        let wide = Self { inner: [0; WORDS] };
        assert(wide@ =~= Seq::new(WORDS as nat, |i: int| 0u32));
        wide
    }
}

/// See [`WideIn`].
#[derive(PartialEq, Eq, Hash, Clone, Debug)]
pub struct WideOut<const WORDS: usize> {
    inner: [types::WData; WORDS],
}

impl<const WORDS: usize> View for WideOut<WORDS> {
    type V = Seq<types::WData>;

    open spec fn view(&self) -> Seq<types::WData> {
        self.words()@
    }
}

impl<const WORDS: usize> WideOut<WORDS> {
    /// The words as an array.
    pub closed spec fn words(self) -> [types::WData; WORDS] {
        self.inner
    }

    /// The words.
    pub fn value(&self) -> (words: &[types::WData; WORDS])
        ensures
            words@ == self@,
    {
        &self.inner
    }

    /// Copies the first `WORDS` words of what the model exposes.
    pub fn from_ptr(raw: &[types::WData]) -> (wide: Self)
        requires
            raw@.len() >= WORDS,
        ensures
            wide@ == raw@.take(WORDS as int),
    {
        let mut inner: [types::WData; WORDS] = [0; WORDS];
        let mut i: usize = 0;
        while i < WORDS
            invariant
                i <= WORDS <= raw@.len(),
                forall|j: int| 0 <= j < i ==> inner@[j] == raw@[j],
            decreases WORDS - i,
        {
            inner[i] = raw[i];
            i = i + 1;
        }
        assert(inner@ =~= raw@.take(WORDS as int));
        Self { inner }
    }
}

impl<const WORDS: usize> Default for WideOut<WORDS> {
    fn default() -> (wide: Self)
        ensures
            wide@ == Seq::new(WORDS as nat, |i: int| 0u32),
    {
        let wide = Self { inner: [0; WORDS] };
        assert(wide@ =~= Seq::new(WORDS as nat, |i: int| 0u32));
        wide
    }
}

impl<const WORDS: usize> From<WideOut<WORDS>> for [types::WData; WORDS] {
    fn from(val: WideOut<WORDS>) -> (words: Self) {
        val.inner
    }
}

impl<const WORDS: usize> vstd::std_specs::convert::FromSpecImpl<WideOut<WORDS>> for [types::WData;
    WORDS] {
    open spec fn obeys_from_spec() -> bool {
        true
    }

    open spec fn from_spec(val: WideOut<WORDS>) -> Self {
        val.words()
    }
}

} // verus!
