use vstd::prelude::*;

verus! {

/// Number of channels per pixel: red, green and blue.
pub const CHANNELS: usize = 3;

/// The mathematical model of a [`PixelTensor`]: its two outer dimensions
/// and the flat sequence of samples, channel fastest-varying.
pub ghost struct TensorModel {
    pub height: nat,
    pub width: nat,
    pub samples: Seq<u8>,
}

/// One decoded image: an immutable, dense three-axis
/// (row, column, channel) grid of samples, with exactly three channels
/// and the channel axis fastest-varying within a pixel.
///
/// Samples are kept as the 8-bit channel values of the decoded image.
/// The decoded source widens each 8-bit value losslessly (255 stays 255,
/// not 1.0), so the 8-bit values themselves are the exact sample values
/// and every sample lies in [0, 255] by construction.
pub struct PixelTensor {
    height: usize,
    width: usize,
    samples: Vec<u8>,
}

impl View for PixelTensor {
    type V = TensorModel;

    closed spec fn view(&self) -> TensorModel {
        TensorModel {
            height: self.height as nat,
            width: self.width as nat,
            samples: self.samples@,
        }
    }
}

/// Position of sample (row, col, channel) in the flat sample sequence of
/// a tensor with the given width: channel varies fastest, then column.
pub open spec fn linear_index(row: int, col: int, channel: int, width: int) -> int {
    (row * width + col) * 3 + channel
}

impl PixelTensor {
    /// Well-formedness: the flat sample sequence holds exactly one sample
    /// per (row, column, channel) coordinate.
    pub open spec fn wf(&self) -> bool {
        self@.samples.len() == self@.height * self@.width * 3
    }

    /// Two tensors have identical (height, width, channel) dimensions;
    /// the channel count is fixed, so only the outer two can differ.
    pub open spec fn same_shape(&self, other: &PixelTensor) -> bool {
        self@.height == other@.height && self@.width == other@.width
    }

    /// Builds a tensor from its dimensions and the flat sample data, or
    /// returns `None` when the data length does not match the dimensions.
    pub fn new(height: usize, width: usize, samples: Vec<u8>) -> (r: Option<PixelTensor>)
        ensures
            r is Some <==> samples@.len() == height * width * 3,
            r matches Some(t) ==> t@.height == height && t@.width == width
                && t@.samples == samples@ && t.wf(),
    {
        let n = samples.len();
        proof {
            assert(height * width <= u64::MAX * u64::MAX) by (nonlinear_arith)
                requires
                    height <= u64::MAX,
                    width <= u64::MAX;
        }
        let pixels: u128 = (height as u128) * (width as u128);
        if pixels > (usize::MAX as u128) {
            proof {
                assert(height * width <= height * width * 3) by (nonlinear_arith)
                    requires
                        0 <= height * width;
            }
            return None;
        }
        let expected: u128 = pixels * 3;
        if (n as u128) == expected {
            Some(PixelTensor { height, width, samples })
        } else {
            None
        }
    }

    /// Number of rows.
    pub fn height(&self) -> (h: usize)
        ensures
            h == self@.height,
    {
        self.height
    }

    /// Number of columns.
    pub fn width(&self) -> (w: usize)
        ensures
            w == self@.width,
    {
        self.width
    }

    /// Number of channels per pixel; fixed at three.
    pub fn channels(&self) -> (c: usize)
        ensures
            c == 3,
    {
        CHANNELS
    }

    /// Total number of samples over all rows, columns and channels.
    pub fn sample_count(&self) -> (n: usize)
        ensures
            n == self@.samples.len(),
    {
        self.samples.len()
    }

    /// The sample at position `i` of the flat sample sequence.
    pub fn sample_at(&self, i: usize) -> (s: u8)
        requires
            i < self@.samples.len(),
        ensures
            s == self@.samples[i as int],
    {
        self.samples[i]
    }

    /// The sample at coordinate (row, col, channel).
    pub fn sample(&self, row: usize, col: usize, channel: usize) -> (s: u8)
        requires
            self.wf(),
            row < self@.height,
            col < self@.width,
            channel < 3,
        ensures
            s == self@.samples[linear_index(row as int, col as int, channel as int, self@.width as int)],
    {
        let n = self.samples.len();
        proof {
            assert(row * self@.width + col < self@.height * self@.width) by (nonlinear_arith)
                requires
                    row < self@.height,
                    col < self@.width;
            assert((row * self@.width + col) * 3 + channel < self@.height * self@.width * 3) by (nonlinear_arith)
                requires
                    row * self@.width + col < self@.height * self@.width,
                    channel < 3;
            assert(self@.height * self@.width <= self@.height * self@.width * 3) by (nonlinear_arith)
                requires
                    0 <= self@.height * self@.width;
        }
        let idx = (row * self.width + col) * CHANNELS + channel;
        self.samples[idx]
    }
}

} // verus!
