//! Objective image-quality metrics over exact pixel data.
//!
//! Two decoded images are held as [`tensor::PixelTensor`] values: dense
//! (row, column, channel) grids of 8-bit samples. The metric engine in
//! [`metric`] evaluates mean-squared-error and peak-signal-to-noise-ratio
//! over two same-shaped tensors, returning the score in an exact symbolic
//! form ([`metric::Score`]) that a caller turns into a floating-point
//! number only at the output boundary. [`pair`] holds the join step of the
//! concurrent dual-image load: the two output slots are combined into an
//! ordered (source, compare) pair, or the first missing slot is reported.

pub mod metric;
pub mod pair;
pub mod tensor;
