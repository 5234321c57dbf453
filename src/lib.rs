//! Small numeric routines behind a GUI host: a greeting, integer powers,
//! Fibonacci numbers, sorting and dense matrix multiplication.

pub mod greeting;
pub mod power;
pub mod fibonacci;
pub mod sorting;
pub mod matrix;

pub use crate::greeting::greet;
pub use crate::power::calculate_power;
pub use crate::fibonacci::calculate_fibonacci;
pub use crate::fibonacci::MAX_FIB_INDEX;
pub use crate::sorting::random_values;
pub use crate::sorting::sort_large_array;
pub use crate::sorting::sort_values;
pub use crate::matrix::constant_matrix;
pub use crate::matrix::matrix_multiplication;
pub use crate::matrix::multiply_matrices;
pub use crate::matrix::multiply_row;
