use crate::data::GpuMappedMemory;
use crate::demo::matrix5x5::Matrix5x5;
use crate::demo::multiply_nx_m_shader::{
    matrix_multiplication_source, MatrixPairSizes,
    MATRIX_MULTIPLICATION, MATRIX_MULTIPLICATION_ENTRY, MATRIX_MULTIPLICATION_FILE,
};
use crate::error::KernelError;
use crate::shader::{
    stored, ComputeShader, KernelView, LayoutDescription, LayoutDescriptorIndex, PushConstants,
    ShaderSource,
};
use crate::transfer::payload_views;
use vstd::prelude::*;

verus! {

/// The product of two 5 by 5 matrices.
#[derive(Debug, PartialEq, Eq)]
pub struct Matrix5x5MultiplicationShader {
    pub a: Matrix5x5,
    pub b: Matrix5x5,
    pub result: Matrix5x5,
}

impl Matrix5x5MultiplicationShader {
    /// The kernel that multiplies `a` by `b`, with a result of zeros.
    pub fn new(a: Matrix5x5, b: Matrix5x5) -> (kernel: Matrix5x5MultiplicationShader)
        ensures
            kernel.a == a,
            kernel.b == b,
            kernel.result.data@ == Seq::new(25, |i: int| 0u32),
    {
        let result = Matrix5x5 { data: [0u32; 25] };
        assert(result.data@ =~= Seq::new(25, |i: int| 0u32));
        Matrix5x5MultiplicationShader { a, b, result }
    }

    /// The source text of the kernel.
    pub fn source() -> (text: String)
        ensures
            text@ == MATRIX_MULTIPLICATION@,
    {
        MATRIX_MULTIPLICATION.to_owned()
    }
}

impl ComputeShader<MatrixPairSizes> for Matrix5x5MultiplicationShader {
    open spec fn view(&self) -> KernelView {
        KernelView {
            layout: seq![
                LayoutDescription {
                    binding: 0,
                    buffer_size: 100,
                    index: LayoutDescriptorIndex::WriteIndex(0),
                },
                LayoutDescription {
                    binding: 1,
                    buffer_size: 100,
                    index: LayoutDescriptorIndex::WriteIndex(1),
                },
                LayoutDescription {
                    binding: 2,
                    buffer_size: 100,
                    index: LayoutDescriptorIndex::ReadIndex(0),
                },
            ],
            writables: seq![self.a.data@, self.b.data@],
            readables: seq![self.result.data@],
            push_constants: Some(seq![5u32, 5u32, 5u32]),
            group_vec: (5, 5, 1),
        }
    }

    open spec fn received(kernel: KernelView, slot: usize, words: Seq<u32>) -> (
        Result<(), KernelError>,
        KernelView,
    ) {
        stored(kernel, slot, words)
    }

    /// A read leaves both operands as they are.
    open spec fn kept(before: Self, after: Self) -> bool {
        &&& after.a == before.a
        &&& after.b == before.b
    }

    proof fn lemma_kept_same(kernel: Self) {
    }

    proof fn lemma_kept_chain(first: Self, second: Self, third: Self) {
    }

    fn get_shader_source() -> (source: ShaderSource)
        ensures
            source.source@ == MATRIX_MULTIPLICATION@,
            source.file_name@ == MATRIX_MULTIPLICATION_FILE@,
            source.entry_point@ == MATRIX_MULTIPLICATION_ENTRY@,
    {
        matrix_multiplication_source()
    }

    fn get_layout_descriptors(&self) -> (descriptors: Vec<LayoutDescription>) {
        let mut descriptors: Vec<LayoutDescription> = Vec::new();
        descriptors.push(
            LayoutDescription {
                binding: 0,
                buffer_size: self.a.buffer_size(),
                index: LayoutDescriptorIndex::WriteIndex(0),
            },
        );
        descriptors.push(
            LayoutDescription {
                binding: 1,
                buffer_size: self.b.buffer_size(),
                index: LayoutDescriptorIndex::WriteIndex(1),
            },
        );
        descriptors.push(
            LayoutDescription {
                binding: 2,
                buffer_size: self.result.buffer_size(),
                index: LayoutDescriptorIndex::ReadIndex(0),
            },
        );
        assert(descriptors@ =~= self@.layout);
        descriptors
    }

    fn get_writables(&self) -> (payloads: Vec<Vec<u32>>) {
        let mut payloads: Vec<Vec<u32>> = Vec::new();
        payloads.push(self.a.write());
        payloads.push(self.b.write());
        assert(payload_views(payloads@) =~= self@.writables);
        payloads
    }

    fn get_readables(&self) -> (payloads: Vec<Vec<u32>>) {
        let mut payloads: Vec<Vec<u32>> = Vec::new();
        payloads.push(self.result.write());
        assert(payload_views(payloads@) =~= self@.readables);
        payloads
    }

    fn read_slot(&mut self, slot: usize, words: &Vec<u32>) -> (status: Result<(), KernelError>)
        ensures
            final(self).a == old(self).a,
            final(self).b == old(self).b,
    {
        if slot != 0 {
            return Err(KernelError::BindingMismatch);
        }
        let status = self.result.read(words);
        proof {
            assert(self@.writables =~= old(self)@.writables);
            if status is Ok {
                assert(self@.readables =~= old(self)@.readables.update(0, words@));
            } else {
                assert(self@.readables =~= old(self)@.readables);
            }
        }
        status
    }

    fn get_group_vec(&self) -> (groups: (u32, u32, u32)) {
        (5, 5, 1)
    }

    fn get_push_constants(&self) -> (block: Option<MatrixPairSizes>) {
        let block = MatrixPairSizes { acbr: 5, ar: 5, bc: 5 };
        assert(block.words() =~= self@.push_constants->0);
        Some(block)
    }
}

} // verus!
