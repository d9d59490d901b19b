use crate::data::GpuMappedMemory;
use crate::error::{CopyTarget, KernelError};
use vstd::prelude::*;

verus! {

/// A 5 by 5 matrix of 32-bit floating-point elements in row-major order, each held as its
/// bit pattern.
#[derive(Clone, Copy, Debug, PartialEq, Eq)]
pub struct Matrix5x5 {
    pub data: [u32; 25],
}

impl Matrix5x5 {
    /// The element in `row` and `column`, both counted from 0, if there is one.
    pub fn get(&self, row: usize, column: usize) -> (element: Option<u32>)
        ensures
            element == if row < 5 && column < 5 {
                Some(self.data@[row * 5 + column])
            } else {
                None
            },
    {
        if row < 5 && column < 5 {
            Some(self.data[row * 5 + column])
        } else {
            None
        }
    }
}

impl GpuMappedMemory for Matrix5x5 {
    open spec fn words(&self) -> Seq<u32> {
        self.data@
    }

    open spec fn byte_size(&self) -> u64 {
        100
    }

    /// Exactly 25 words are taken in; any other number is refused and changes nothing.
    open spec fn taken(&self, words: Seq<u32>) -> (Result<(), KernelError>, Seq<u32>) {
        if words.len() == 25 {
            (Ok(()), words)
        } else {
            (
                Err(KernelError::SizeMismatch { target: CopyTarget::Payload, declared: 100 }),
                self.data@,
            )
        }
    }

    fn write(&self) -> (words: Vec<u32>) {
        let mut words: Vec<u32> = Vec::new();
        let mut i: usize = 0;
        while i < 25
            invariant
                i <= 25,
                words@ == self.data@.subrange(0, i as int),
            decreases 25 - i,
        {
            words.push(self.data[i]);
            assert(words@ =~= self.data@.subrange(0, i + 1));
            i = i + 1;
        }
        assert(self.data@.subrange(0, 25) =~= self.data@);
        words
    }

    fn read(&mut self, words: &Vec<u32>) -> (status: Result<(), KernelError>)
        ensures
            words.len() != 25 ==> *final(self) == *old(self),
    {
        if words.len() != 25 {
            return Err(KernelError::SizeMismatch { target: CopyTarget::Payload, declared: 100 });
        }
        let mut i: usize = 0;
        while i < 25
            invariant
                i <= 25,
                words.len() == 25,
                forall|j: int| 0 <= j < i ==> self.data@[j] == words@[j],
            decreases 25 - i,
        {
            self.data[i] = words[i];
            i = i + 1;
        }
        assert(self.data@ =~= words@);
        Ok(())
    }

    fn buffer_size(&self) -> (bytes: u64) {
        assert(self.byte_size() == 100);
        100
    }
}

/// A matrix that takes its own words back holds what it held: the round trip of a payload
/// through a transform that changes nothing is bit-identical.
pub proof fn lemma_matrix5x5_round_trip(matrix: Matrix5x5)
    ensures
        matrix.taken(matrix.words()) == (Ok::<(), KernelError>(()), matrix.words()),
{
}

} // verus!
