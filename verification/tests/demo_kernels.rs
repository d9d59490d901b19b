use vk_compute::demo::matrix5x5::Matrix5x5;
use vk_compute::demo::matrix_nx_m::{shape_ok, MatrixNxM};
use vk_compute::demo::multiply5x5_shader::Matrix5x5MultiplicationShader;
use vk_compute::demo::multiply_nx_m_shader::{
    matrix_multiplication_source, MatrixNxMShader, MatrixPairSizes, MATRIX_MULTIPLICATION,
};
use vk_compute::error::KernelError;
use vk_compute::layout::validate_layout;
use vk_compute::shader::{
    ComputeShader, LayoutDescription, LayoutDescriptorIndex, PushConstants,
};

fn words(values: &[f32]) -> Vec<u32> {
    values.iter().map(|value| value.to_bits()).collect()
}

#[test]
fn operands_whose_inner_extents_differ_are_a_shape_error() {
    let a = MatrixNxM::new(3, words(&[1.0, 1.0, 2.0, 2.0, 3.0, 3.0]));
    let b = MatrixNxM::new(3, words(&[1.0, 1.0, 1.0, 2.0, 2.0, 2.0]));
    assert_eq!(
        MatrixNxMShader::new(a, b).err(),
        Some(KernelError::ShapeMismatch { left_columns: 2, right_rows: 3 })
    );
    let a = MatrixNxM::new(1, vec![0; 4]);
    let b = MatrixNxM::new(1, vec![0; 4]);
    assert_eq!(
        MatrixNxMShader::new(a, b).err(),
        Some(KernelError::ShapeMismatch { left_columns: 4, right_rows: 1 })
    );
}

#[test]
fn product_kernel_starts_with_a_result_of_zeros() {
    let a = MatrixNxM::new(3, words(&[1.0, 1.0, 2.0, 2.0, 3.0, 3.0]));
    let b = MatrixNxM::new(2, words(&[1.0, 1.0, 1.0, 2.0, 2.0, 2.0]));
    let kernel = MatrixNxMShader::new(a, b).expect("3x2 times 2x3 fits");
    assert_eq!(kernel.result.rows(), 3);
    assert_eq!(kernel.result.columns(), 3);
    assert_eq!(kernel.result.data(), &vec![0u32; 9]);
    assert_eq!(kernel.a.data(), &words(&[1.0, 1.0, 2.0, 2.0, 3.0, 3.0]));
    assert_eq!(kernel.b.rows(), 2);
}

#[test]
fn product_of_a_column_and_a_row_is_as_large_as_both() {
    let a = MatrixNxM::new(4, vec![1; 4]);
    let b = MatrixNxM::new(1, vec![1; 5]);
    let kernel = MatrixNxMShader::new(a, b).expect("4x1 times 1x5 fits");
    assert_eq!(kernel.result.rows(), 4);
    assert_eq!(kernel.result.columns(), 5);
    assert_eq!(kernel.result.data().len(), 20);
}

#[test]
fn variable_kernel_declares_three_bindings_with_the_sizes_of_its_payloads() {
    let a = MatrixNxM::new(3, vec![0; 6]);
    let b = MatrixNxM::new(2, vec![0; 8]);
    let kernel = MatrixNxMShader::new(a, b).expect("3x2 times 2x4 fits");
    let layout = kernel.get_layout_descriptors();
    assert_eq!(
        layout,
        vec![
            LayoutDescription { binding: 0, buffer_size: 24, index: LayoutDescriptorIndex::WriteIndex(0) },
            LayoutDescription { binding: 1, buffer_size: 32, index: LayoutDescriptorIndex::WriteIndex(1) },
            LayoutDescription { binding: 2, buffer_size: 48, index: LayoutDescriptorIndex::ReadIndex(0) },
        ]
    );
    assert_eq!(kernel.get_writables(), vec![vec![0; 6], vec![0; 8]]);
    assert_eq!(kernel.get_readables(), vec![vec![0; 12]]);
    assert!(validate_layout(&layout, 2, 1).is_ok());
    assert_eq!(kernel.get_write_buffers(), Ok(vec![layout[0], layout[1]]));
    assert_eq!(kernel.get_read_buffers(), Ok(vec![layout[2]]));
}

#[test]
fn variable_kernel_pushes_its_extents() {
    let a = MatrixNxM::new(3, vec![0; 6]);
    let b = MatrixNxM::new(2, vec![0; 8]);
    let kernel = MatrixNxMShader::new(a, b).expect("3x2 times 2x4 fits");
    assert_eq!(kernel.get_push_constants(), Some(MatrixPairSizes { acbr: 2, ar: 3, bc: 4 }));
    assert_eq!(kernel.get_group_vec(), (3, 4, 1));
}

#[test]
fn fixed_kernel_declares_three_bindings_of_a_hundred_bytes() {
    let kernel = Matrix5x5MultiplicationShader::new(
        Matrix5x5 { data: [1; 25] },
        Matrix5x5 { data: [2; 25] },
    );
    assert_eq!(kernel.result.data, [0; 25]);
    assert_eq!(
        kernel.get_layout_descriptors(),
        vec![
            LayoutDescription { binding: 0, buffer_size: 100, index: LayoutDescriptorIndex::WriteIndex(0) },
            LayoutDescription { binding: 1, buffer_size: 100, index: LayoutDescriptorIndex::WriteIndex(1) },
            LayoutDescription { binding: 2, buffer_size: 100, index: LayoutDescriptorIndex::ReadIndex(0) },
        ]
    );
    assert_eq!(kernel.get_writables(), vec![vec![1; 25], vec![2; 25]]);
    assert_eq!(kernel.get_readables(), vec![vec![0; 25]]);
    assert_eq!(kernel.get_push_constants(), Some(MatrixPairSizes { acbr: 5, ar: 5, bc: 5 }));
    assert_eq!(kernel.get_group_vec(), (5, 5, 1));
}

#[test]
fn extents_are_pushed_as_three_words_in_order() {
    let sizes = MatrixPairSizes { acbr: 7, ar: 8, bc: 9 };
    assert_eq!(sizes.to_words(), vec![7, 8, 9]);
}

#[test]
fn both_kernels_are_compiled_from_the_same_source() {
    let source = matrix_multiplication_source();
    assert_eq!(source.source, MATRIX_MULTIPLICATION);
    assert_eq!(source.file_name, "matrix_multiplication.comp");
    assert_eq!(source.entry_point, "main");
    assert_eq!(MatrixNxMShader::source(), MATRIX_MULTIPLICATION);
    assert_eq!(Matrix5x5MultiplicationShader::source(), MATRIX_MULTIPLICATION);
    assert_eq!(MatrixNxMShader::get_shader_source(), source);
    assert_eq!(Matrix5x5MultiplicationShader::get_shader_source(), source);
    assert!(source.source.contains("void main()"));
    assert!(source.source.contains("binding = 2"));
}

#[test]
fn shape_check_accepts_whole_rows_only() {
    assert!(shape_ok(3, 6));
    assert!(shape_ok(1, 0));
    assert!(shape_ok(7, 0));
    assert!(!shape_ok(0, 0));
    assert!(!shape_ok(0, 6));
    assert!(!shape_ok(4, 6));
    if usize::BITS == 64 {
        assert!(shape_ok(0xffff_ffff, 0));
        assert!(!shape_ok(0x1_0000_0000, 0));
        assert!(!shape_ok(1, 0x1_0000_0000));
        assert!(shape_ok(2, 0x1_0000_0000));
    }
}

#[test]
fn matrix_elements_are_found_by_row_and_column() {
    let matrix = MatrixNxM::new(2, vec![10, 11, 12, 20, 21, 22]);
    assert_eq!(matrix.rows(), 2);
    assert_eq!(matrix.columns(), 3);
    assert_eq!(matrix.get(0, 0), Some(10));
    assert_eq!(matrix.get(0, 2), Some(12));
    assert_eq!(matrix.get(1, 0), Some(20));
    assert_eq!(matrix.get(1, 2), Some(22));
    assert_eq!(matrix.get(2, 0), None);
    assert_eq!(matrix.get(0, 3), None);

    let mut data = [0u32; 25];
    for (i, word) in data.iter_mut().enumerate() {
        *word = i as u32;
    }
    let fixed = Matrix5x5 { data };
    assert_eq!(fixed.get(0, 0), Some(0));
    assert_eq!(fixed.get(1, 2), Some(7));
    assert_eq!(fixed.get(4, 4), Some(24));
    assert_eq!(fixed.get(5, 0), None);
    assert_eq!(fixed.get(0, 5), None);
}

#[test]
fn empty_matrix_has_rows_and_no_columns() {
    let matrix = MatrixNxM::new(4, Vec::new());
    assert_eq!(matrix.rows(), 4);
    assert_eq!(matrix.columns(), 0);
    assert_eq!(matrix.get(0, 0), None);
}

#[test]
fn operands_that_do_not_fit_are_refused_whatever_their_extents() {
    // 4294967295 rows of no columns against one row: the shapes do not fit, and no
    // result needs to be sized
    if usize::BITS == 64 {
        let a = MatrixNxM::new(0xffff_ffff, Vec::new());
        let b = MatrixNxM::new(1, vec![0; 64]);
        assert_eq!(
            MatrixNxMShader::new(a, b).err(),
            Some(KernelError::ShapeMismatch { left_columns: 0, right_rows: 1 })
        );
    }
    let a = MatrixNxM::new(2, vec![0; 6]);
    let b = MatrixNxM::new(2, vec![0; 6]);
    assert_eq!(
        MatrixNxMShader::new(a, b).err(),
        Some(KernelError::ShapeMismatch { left_columns: 3, right_rows: 2 })
    );
}
