use crate::data::GpuMappedMemory;
use crate::error::{CopyTarget, KernelError};
use vstd::arithmetic::div_mod::lemma_fundamental_div_mod;
use vstd::prelude::*;

verus! {

/// `length` elements can be laid out in `rows` rows of equal length, with both extents
/// within 32 bits and the whole within the byte sizes a buffer can have.
pub open spec fn shape_fits(rows: usize, length: nat) -> bool {
    &&& rows > 0
    &&& length % (rows as nat) == 0
    &&& rows <= u32::MAX
    &&& length / (rows as nat) <= u32::MAX
    &&& 4 * length <= u64::MAX
}

/// Computes `shape_fits`.
pub fn shape_ok(rows: usize, length: usize) -> (fits: bool)
    ensures
        fits == shape_fits(rows, length as nat),
{
    rows > 0 && length % rows == 0 && rows <= 0xffff_ffff && length / rows <= 0xffff_ffff
        && length as u64 <= 0x3fff_ffff_ffff_ffff
}

/// A matrix of 32-bit floating-point elements in row-major order, each held as its bit
/// pattern, with any number of rows and columns.
#[derive(Debug, PartialEq, Eq)]
pub struct MatrixNxM {
    rows: usize,
    data: Vec<u32>,
}

impl MatrixNxM {
    #[verifier::type_invariant]
    spec fn well_formed(self) -> bool {
        shape_fits(self.rows, self.data@.len())
    }

    /// The number of rows.
    pub closed spec fn spec_rows(&self) -> usize {
        self.rows
    }

    /// The elements, row after row.
    pub closed spec fn spec_data(&self) -> Seq<u32> {
        self.data@
    }

    /// The number of columns.
    pub open spec fn spec_columns(&self) -> nat {
        self.spec_data().len() / (self.spec_rows() as nat)
    }

    /// The matrix of `rows` rows that holds `data`.
    pub fn new(rows: usize, data: Vec<u32>) -> (matrix: MatrixNxM)
        requires
            shape_fits(rows, data@.len()),
        ensures
            matrix.spec_rows() == rows,
            matrix.spec_data() == data@,
    {
        MatrixNxM { rows, data }
    }

    pub fn rows(&self) -> (rows: usize)
        ensures
            rows == self.spec_rows(),
            shape_fits(rows, self.spec_data().len()),
    {
        proof {
            use_type_invariant(self);
        }
        self.rows
    }

    pub fn columns(&self) -> (columns: usize)
        ensures
            columns == self.spec_columns(),
            shape_fits(self.spec_rows(), self.spec_data().len()),
    {
        proof {
            use_type_invariant(self);
        }
        self.data.len() / self.rows
    }

    /// The element in `row` and `column`, both counted from 0, if there is one.
    pub fn get(&self, row: usize, column: usize) -> (element: Option<u32>)
        ensures
            element == if row < self.spec_rows() && column < self.spec_columns() {
                Some(self.spec_data()[row * self.spec_columns() + column])
            } else {
                None
            },
    {
        proof {
            use_type_invariant(self);
        }
        let columns = self.data.len() / self.rows;
        if row < self.rows && column < columns {
            proof {
                lemma_fundamental_div_mod(self.data@.len() as int, self.rows as int);
                assert(row * columns + column < self.rows * columns) by (nonlinear_arith)
                    requires
                        row < self.rows,
                        column < columns,
                ;
            }
            Some(self.data[row * columns + column])
        } else {
            None
        }
    }

    pub fn data(&self) -> (data: &Vec<u32>)
        ensures
            data@ == self.spec_data(),
            shape_fits(self.spec_rows(), data@.len()),
    {
        proof {
            use_type_invariant(self);
        }
        &self.data
    }
}

impl GpuMappedMemory for MatrixNxM {
    open spec fn words(&self) -> Seq<u32> {
        self.spec_data()
    }

    open spec fn byte_size(&self) -> u64 {
        (4 * self.spec_data().len()) as u64
    }

    /// As many words as the matrix holds are taken in; any other number is refused and
    /// changes nothing.
    open spec fn taken(&self, words: Seq<u32>) -> (Result<(), KernelError>, Seq<u32>) {
        if words.len() == self.spec_data().len() {
            (Ok(()), words)
        } else {
            (
                Err(
                    KernelError::SizeMismatch { target: CopyTarget::Payload, declared: self.byte_size() },
                ),
                self.spec_data(),
            )
        }
    }

    fn write(&self) -> (words: Vec<u32>) {
        self.data.clone()
    }

    fn read(&mut self, words: &Vec<u32>) -> (status: Result<(), KernelError>)
        ensures
            final(self).spec_rows() == old(self).spec_rows(),
    {
        proof {
            use_type_invariant(&*self);
        }
        if words.len() != self.data.len() {
            return Err(
                KernelError::SizeMismatch {
                    target: CopyTarget::Payload,
                    declared: 4 * (self.data.len() as u64),
                },
            );
        }
        self.data = words.clone();
        Ok(())
    }

    fn buffer_size(&self) -> (bytes: u64) {
        proof {
            use_type_invariant(self);
        }
        assert(self.byte_size() == 4 * self.spec_data().len());
        4 * (self.data.len() as u64)
    }
}

/// A matrix that takes its own words back holds what it held: the round trip of a payload
/// through a transform that changes nothing is bit-identical.
pub proof fn lemma_matrix_round_trip(matrix: MatrixNxM)
    ensures
        matrix.taken(matrix.words()) == (Ok::<(), KernelError>(()), matrix.words()),
{
}

} // verus!
