pub mod matrix5x5;
pub mod matrix_nx_m;
pub mod multiply5x5_shader;
pub mod multiply_nx_m_shader;
