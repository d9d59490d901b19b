use crate::data::GpuMappedMemory;
use crate::demo::matrix_nx_m::MatrixNxM;
use crate::error::KernelError;
use crate::transfer::payload_views;
use crate::shader::{
    stored, ComputeShader, KernelView, LayoutDescription, LayoutDescriptorIndex, PushConstants,
    ShaderSource,
};
use vstd::arithmetic::div_mod::{lemma_div_by_multiple, lemma_mod_multiples_basic};
use vstd::prelude::*;

verus! {

/// The GLSL source of the matrix product kernel. One invocation computes one element of
/// the result; the extents come in as push constants.
pub const MATRIX_MULTIPLICATION: &'static str = "#version 450\n\
layout(local_size_x = 1, local_size_y = 1, local_size_z = 1) in;\n\
layout(std430, set = 0, binding = 0) readonly buffer MatrixA { float a[]; };\n\
layout(std430, set = 0, binding = 1) readonly buffer MatrixB { float b[]; };\n\
layout(std430, set = 0, binding = 2) writeonly buffer MatrixC { float c[]; };\n\
layout(push_constant) uniform Sizes { uint acbr; uint ar; uint bc; } sizes;\n\
void main() {\n\
    uint row = gl_GlobalInvocationID.x;\n\
    uint col = gl_GlobalInvocationID.y;\n\
    if (row >= sizes.ar || col >= sizes.bc) { return; }\n\
    float sum = float(0);\n\
    for (uint k = 0u; k < sizes.acbr; k++) {\n\
        sum += a[row * sizes.acbr + k] * b[k * sizes.bc + col];\n\
    }\n\
    c[row * sizes.bc + col] = sum;\n\
}\n";

/// The name the compiler reports the kernel under.
pub const MATRIX_MULTIPLICATION_FILE: &'static str = "matrix_multiplication.comp";

/// The entry point of the kernel.
pub const MATRIX_MULTIPLICATION_ENTRY: &'static str = "main";

/// Computes what both matrix kernels are compiled from.
pub fn matrix_multiplication_source() -> (source: ShaderSource)
    ensures
        source.source@ == MATRIX_MULTIPLICATION@,
        source.file_name@ == MATRIX_MULTIPLICATION_FILE@,
        source.entry_point@ == MATRIX_MULTIPLICATION_ENTRY@,
{
    ShaderSource {
        source: MATRIX_MULTIPLICATION.to_owned(),
        file_name: MATRIX_MULTIPLICATION_FILE.to_owned(),
        entry_point: MATRIX_MULTIPLICATION_ENTRY.to_owned(),
    }
}

/// The extents of a matrix product, as the kernel reads them: the columns of the left
/// operand (which are the rows of the right one), the rows of the left operand, and the
/// columns of the right one.
#[derive(Clone, Copy, Debug, PartialEq, Eq, Structural)]
pub struct MatrixPairSizes {
    pub acbr: u32,
    pub ar: u32,
    pub bc: u32,
}

impl PushConstants for MatrixPairSizes {
    open spec fn words(&self) -> Seq<u32> {
        seq![self.acbr, self.ar, self.bc]
    }

    fn to_words(&self) -> (words: Vec<u32>) {
        let mut words: Vec<u32> = Vec::new();
        words.push(self.acbr);
        words.push(self.ar);
        words.push(self.bc);
        assert(words@ =~= self.words());
        words
    }
}

/// The product of two matrices of any fitting extents.
#[derive(Debug, PartialEq, Eq)]
pub struct MatrixNxMShader {
    pub a: MatrixNxM,
    pub b: MatrixNxM,
    pub result: MatrixNxM,
}

impl MatrixNxMShader {
    /// The kernel that multiplies `a` by `b`, with a result of zeros of `a`'s rows and
    /// `b`'s columns. Operands whose inner extents differ are refused; no device is
    /// involved yet.
    pub fn new(a: MatrixNxM, b: MatrixNxM) -> (made: Result<MatrixNxMShader, KernelError>)
        requires
            a.spec_columns() == b.spec_rows() ==> a.spec_rows() * b.spec_columns() <= usize::MAX,
            a.spec_columns() == b.spec_rows() ==> 4 * (a.spec_rows() * b.spec_columns())
                <= u64::MAX,
        ensures
            made is Err <==> a.spec_columns() != b.spec_rows(),
            made matches Err(error) ==> error == (KernelError::ShapeMismatch {
                left_columns: a.spec_columns() as usize,
                right_rows: b.spec_rows(),
            }),
            made matches Ok(kernel) ==> kernel.a == a && kernel.b == b
                && kernel.result.spec_rows() == a.spec_rows() && kernel.result.spec_data()
                == Seq::new((a.spec_rows() * b.spec_columns()) as nat, |i: int| 0u32),
    {
        let a_rows = a.rows();
        let a_columns = a.columns();
        let b_rows = b.rows();
        let b_columns = b.columns();
        if a_columns != b_rows {
            return Err(KernelError::ShapeMismatch { left_columns: a_columns, right_rows: b_rows });
        }
        let length = a_rows * b_columns;
        let data = vec![0u32; length];
        proof {
            lemma_mod_multiples_basic(b_columns as int, a_rows as int);
            lemma_div_by_multiple(b_columns as int, a_rows as int);
            assert(b_columns * a_rows == a_rows * b_columns) by (nonlinear_arith);
            assert(data@ =~= Seq::new((a.spec_rows() * b.spec_columns()) as nat, |i: int| 0u32));
        }
        Ok(MatrixNxMShader { a, b, result: MatrixNxM::new(a_rows, data) })
    }

    /// The source text of the kernel.
    pub fn source() -> (text: String)
        ensures
            text@ == MATRIX_MULTIPLICATION@,
    {
        MATRIX_MULTIPLICATION.to_owned()
    }
}

impl ComputeShader<MatrixPairSizes> for MatrixNxMShader {
    open spec fn view(&self) -> KernelView {
        KernelView {
            layout: seq![
                LayoutDescription {
                    binding: 0,
                    buffer_size: (4 * self.a.spec_data().len()) as u64,
                    index: LayoutDescriptorIndex::WriteIndex(0),
                },
                LayoutDescription {
                    binding: 1,
                    buffer_size: (4 * self.b.spec_data().len()) as u64,
                    index: LayoutDescriptorIndex::WriteIndex(1),
                },
                LayoutDescription {
                    binding: 2,
                    buffer_size: (4 * self.result.spec_data().len()) as u64,
                    index: LayoutDescriptorIndex::ReadIndex(0),
                },
            ],
            writables: seq![self.a.spec_data(), self.b.spec_data()],
            readables: seq![self.result.spec_data()],
            push_constants: Some(
                seq![
                    self.a.spec_columns() as u32,
                    self.a.spec_rows() as u32,
                    self.b.spec_columns() as u32,
                ],
            ),
            group_vec: (self.a.spec_rows() as u32, self.b.spec_columns() as u32, 1),
        }
    }

    open spec fn received(kernel: KernelView, slot: usize, words: Seq<u32>) -> (
        Result<(), KernelError>,
        KernelView,
    ) {
        stored(kernel, slot, words)
    }

    /// A read leaves both operands as they are and the result with its rows.
    open spec fn kept(before: Self, after: Self) -> bool {
        &&& after.a == before.a
        &&& after.b == before.b
        &&& after.result.spec_rows() == before.result.spec_rows()
    }

    proof fn lemma_kept_same(kernel: Self) {
    }

    proof fn lemma_kept_chain(first: Self, second: Self, third: Self) {
    }

    fn get_shader_source() -> (source: ShaderSource)
        ensures
            source.source@ == MATRIX_MULTIPLICATION@,
            source.file_name@ == MATRIX_MULTIPLICATION_FILE@,
            source.entry_point@ == MATRIX_MULTIPLICATION_ENTRY@,
    {
        matrix_multiplication_source()
    }

    fn get_layout_descriptors(&self) -> (descriptors: Vec<LayoutDescription>) {
        let mut descriptors: Vec<LayoutDescription> = Vec::new();
        descriptors.push(
            LayoutDescription {
                binding: 0,
                buffer_size: self.a.buffer_size(),
                index: LayoutDescriptorIndex::WriteIndex(0),
            },
        );
        descriptors.push(
            LayoutDescription {
                binding: 1,
                buffer_size: self.b.buffer_size(),
                index: LayoutDescriptorIndex::WriteIndex(1),
            },
        );
        descriptors.push(
            LayoutDescription {
                binding: 2,
                buffer_size: self.result.buffer_size(),
                index: LayoutDescriptorIndex::ReadIndex(0),
            },
        );
        assert(descriptors@ =~= self@.layout);
        descriptors
    }

    fn get_writables(&self) -> (payloads: Vec<Vec<u32>>) {
        let mut payloads: Vec<Vec<u32>> = Vec::new();
        payloads.push(self.a.write());
        payloads.push(self.b.write());
        assert(payload_views(payloads@) =~= self@.writables);
        payloads
    }

    fn get_readables(&self) -> (payloads: Vec<Vec<u32>>) {
        let mut payloads: Vec<Vec<u32>> = Vec::new();
        payloads.push(self.result.write());
        assert(payload_views(payloads@) =~= self@.readables);
        payloads
    }

    fn read_slot(&mut self, slot: usize, words: &Vec<u32>) -> (status: Result<(), KernelError>)
        ensures
            final(self).a == old(self).a,
            final(self).b == old(self).b,
            final(self).result.spec_rows() == old(self).result.spec_rows(),
    {
        if slot != 0 {
            return Err(KernelError::BindingMismatch);
        }
        let status = self.result.read(words);
        proof {
            assert(self@.layout =~= old(self)@.layout);
            assert(self@.writables =~= old(self)@.writables);
            if status is Ok {
                assert(self@.readables =~= old(self)@.readables.update(0, words@));
            } else {
                assert(self@.readables =~= old(self)@.readables);
            }
        }
        status
    }

    fn get_group_vec(&self) -> (groups: (u32, u32, u32)) {
        (self.a.rows() as u32, self.b.columns() as u32, 1)
    }

    fn get_push_constants(&self) -> (block: Option<MatrixPairSizes>) {
        let block = MatrixPairSizes {
            acbr: self.a.columns() as u32,
            ar: self.a.rows() as u32,
            bc: self.b.columns() as u32,
        };
        assert(block.words() =~= self@.push_constants->0);
        Some(block)
    }
}

} // verus!
