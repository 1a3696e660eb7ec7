//! A small convolutional digit classifier: the integer and byte side of its
//! pipeline, with contracts checked by Verus. Tensor arithmetic runs in the
//! application around this library.

pub mod architecture;
pub mod backend;
pub mod batch;
pub mod predict;
pub mod training;
