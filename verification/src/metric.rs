use vstd::prelude::*;

use crate::tensor::{PixelTensor, TensorModel};
use vstd::string::StrSliceExecFns;

verus! {

/// Square of the largest 8-bit sample value: 255 * 255. This is the
/// `peak^2` term of peak-signal-to-noise-ratio.
pub const PEAK_SQ: u128 = 65025;

/// Squared difference of two 8-bit samples, as an exact integer.
pub open spec fn sq_diff(x: u8, y: u8) -> int {
    (x - y) * (x - y)
}

/// Sum of squared differences over the first `n` positions of two sample
/// sequences.
pub open spec fn sse_prefix(a: Seq<u8>, b: Seq<u8>, n: int) -> int
    decreases n,
{
    if n <= 0 {
        0
    } else {
        sse_prefix(a, b, n - 1) + sq_diff(a[n - 1], b[n - 1])
    }
}

/// Sum of squared differences over two sample sequences of equal length:
/// the exact numerator of mean-squared-error.
pub open spec fn sse_seq(a: Seq<u8>, b: Seq<u8>) -> int {
    sse_prefix(a, b, a.len() as int)
}

/// A squared 8-bit difference lies in [0, 65025].
proof fn lemma_sq_diff_bounds(x: u8, y: u8)
    ensures
        0 <= sq_diff(x, y) <= 65025,
{
    assert(0 <= (x - y) * (x - y) <= 65025) by (nonlinear_arith)
        requires
            -255 <= x - y <= 255;
}

/// A sum of `n` squared differences lies in [0, 65025 * n].
proof fn lemma_sse_prefix_bounds(a: Seq<u8>, b: Seq<u8>, n: int)
    requires
        0 <= n,
    ensures
        0 <= sse_prefix(a, b, n) <= 65025 * n,
    decreases n,
{
    if n > 0 {
        lemma_sse_prefix_bounds(a, b, n - 1);
        lemma_sq_diff_bounds(a[n - 1], b[n - 1]);
    }
}

/// The error between any sample sequence and itself is zero: every
/// squared difference in the sum vanishes. Together with the contracts
/// of [`mse`] and [`psnr`], both metrics score a pair of identical
/// tensors as zero.
pub proof fn lemma_sse_self_zero(a: Seq<u8>)
    ensures
        sse_seq(a, a) == 0,
{
    lemma_sse_prefix_self_zero(a, a.len() as int);
}

proof fn lemma_sse_prefix_self_zero(a: Seq<u8>, n: int)
    ensures
        sse_prefix(a, a, n) == 0,
    decreases n,
{
    if n > 0 {
        lemma_sse_prefix_self_zero(a, n - 1);
    }
}

/// The squared-error sum is symmetric in its two inputs, so
/// mean-squared-error is as well: by the contract of [`mse`], swapping
/// the two tensors swaps nothing in the result.
pub proof fn lemma_sse_symmetric(a: Seq<u8>, b: Seq<u8>)
    requires
        a.len() == b.len(),
    ensures
        sse_seq(a, b) == sse_seq(b, a),
{
    lemma_sse_prefix_symmetric(a, b, a.len() as int);
}

proof fn lemma_sse_prefix_symmetric(a: Seq<u8>, b: Seq<u8>, n: int)
    ensures
        sse_prefix(a, b, n) == sse_prefix(b, a, n),
    decreases n,
{
    if n > 0 {
        lemma_sse_prefix_symmetric(a, b, n - 1);
        assert((a[n - 1] - b[n - 1]) * (a[n - 1] - b[n - 1])
            == (b[n - 1] - a[n - 1]) * (b[n - 1] - a[n - 1])) by (nonlinear_arith);
    }
}

/// The squared-error sum is never negative, so mean-squared-error is
/// never negative either.
pub proof fn lemma_sse_nonneg(a: Seq<u8>, b: Seq<u8>)
    ensures
        sse_seq(a, b) >= 0,
{
    if a.len() > 0 {
        lemma_sse_prefix_bounds(a, b, a.len() as int);
    }
}

/// Law: a tensor compared with itself has zero error. Mean-squared-error
/// is the zero rational and peak-signal-to-noise-ratio scores zero by the
/// engine's zero-error convention (not the conventional infinity); with
/// no samples, both metrics report the empty-tensor failure instead.
pub proof fn lemma_identical_tensors_score_zero(a: TensorModel)
    ensures
        a.samples.len() > 0 ==> mse_result(a, a) == (Ok::<Score, IqaError>(
            Score::Ratio { num: 0, den: a.samples.len() as u128 },
        )),
        a.samples.len() > 0 ==> psnr_result(a, a) == (Ok::<Score, IqaError>(
            Score::Ratio { num: 0, den: 1 },
        )),
        a.samples.len() == 0 ==> mse_result(a, a) == (Err::<Score, IqaError>(IqaError::EmptyTensor))
            && psnr_result(a, a) == (Err::<Score, IqaError>(IqaError::EmptyTensor)),
{
    lemma_sse_self_zero(a.samples);
}

/// Law: mean-squared-error is symmetric in its two tensors — swapping
/// source and compare leaves the result unchanged.
pub proof fn lemma_mse_result_symmetric(a: TensorModel, b: TensorModel)
    requires
        a.samples.len() == b.samples.len(),
    ensures
        mse_result(a, b) == mse_result(b, a),
{
    lemma_sse_symmetric(a.samples, b.samples);
}

/// The metrics this engine recognizes by name. Mean-structural-similarity
/// and quality-with-no-reference are reserved names with no algorithm
/// behind them yet.
#[derive(Clone, Copy, Debug, PartialEq, Eq, Structural)]
pub enum Metric {
    Mse,
    Psnr,
    MsSsim,
    Qnr,
}

/// Why a metric evaluation produced no scalar. Every variant is fatal:
/// the pipeline reports it and produces no partial result.
#[derive(Clone, Copy, Debug, PartialEq, Eq, Structural)]
pub enum IqaError {
    /// The requested metric name is outside the recognized set.
    UnsupportedMetric,
    /// The requested metric is a recognized, reserved name with no
    /// algorithm implemented yet.
    NotImplemented,
    /// The tensors hold no samples, so there is nothing to average.
    EmptyTensor,
    /// The source image's output slot was never filled.
    MissingSource,
    /// The compare image's output slot was never filled.
    MissingCompare,
}

impl IqaError {
    /// A short description of the failure, for the final report.
    pub fn message(&self) -> (m: &'static str)
        ensures
            *self == IqaError::UnsupportedMetric ==> m@ == "unsupported metric"@,
            *self == IqaError::NotImplemented ==> m@ == "metric is not implemented yet"@,
            *self == IqaError::EmptyTensor ==> m@ == "cannot average over an empty tensor"@,
            *self == IqaError::MissingSource ==> m@ == "source image was not loaded"@,
            *self == IqaError::MissingCompare ==> m@ == "compare image was not loaded"@,
    {
        match self {
            IqaError::UnsupportedMetric => "unsupported metric",
            IqaError::NotImplemented => "metric is not implemented yet",
            IqaError::EmptyTensor => "cannot average over an empty tensor",
            IqaError::MissingSource => "source image was not loaded",
            IqaError::MissingCompare => "compare image was not loaded",
        }
    }
}

/// A metric scalar in exact symbolic form. The engine never rounds: the
/// caller turns a `Score` into a floating-point number only at the
/// output boundary.
#[derive(Clone, Copy, Debug, PartialEq, Eq, Structural)]
pub enum Score {
    /// The exact rational `num / den`, with `den > 0`.
    Ratio { num: u128, den: u128 },
    /// The value `10 * log10(num / den)`, with `num > 0` and `den > 0`.
    DecibelRatio { num: u128, den: u128 },
}

/// The mean-squared-error result owed for two same-shaped tensor models:
/// the exact rational `sse / count` when there are samples to average,
/// and the empty-tensor failure otherwise.
pub open spec fn mse_result(a: TensorModel, b: TensorModel) -> Result<Score, IqaError> {
    if a.samples.len() == 0 {
        Err(IqaError::EmptyTensor)
    } else {
        Ok(
            Score::Ratio {
                num: sse_seq(a.samples, b.samples) as u128,
                den: a.samples.len() as u128,
            },
        )
    }
}

/// The peak-signal-to-noise-ratio result owed for two same-shaped tensor
/// models. With `m` the mean-squared-error `sse / count`:
/// zero error scores exactly zero (a deliberate convention kept for
/// compatibility; the conventional definition would be infinite), and
/// otherwise the score is `10 * log10(65025 / m)`, carried exactly as
/// `DecibelRatio { 65025 * count, sse }` since
/// `65025 / m == (65025 * count) / sse`.
pub open spec fn psnr_result(a: TensorModel, b: TensorModel) -> Result<Score, IqaError> {
    if a.samples.len() == 0 {
        Err(IqaError::EmptyTensor)
    } else if sse_seq(a.samples, b.samples) == 0 {
        Ok(Score::Ratio { num: 0, den: 1 })
    } else {
        Ok(
            Score::DecibelRatio {
                num: (65025 * a.samples.len()) as u128,
                den: sse_seq(a.samples, b.samples) as u128,
            },
        )
    }
}

/// The exact squared-error sum over two same-shaped tensors, with the
/// sample count: the shared core of both implemented metrics.
fn sse_count(source: &PixelTensor, compare: &PixelTensor) -> (r: (u128, usize))
    requires
        source.wf(),
        compare.wf(),
        source.same_shape(compare),
    ensures
        r.0 == sse_seq(source@.samples, compare@.samples),
        r.1 == source@.samples.len(),
{
    let n = source.sample_count();
    proof {
        assert(compare@.samples.len() == n);
    }
    let mut acc: u128 = 0;
    let mut i: usize = 0;
    while i < n
        invariant
            i <= n,
            n == source@.samples.len(),
            n == compare@.samples.len(),
            acc == sse_prefix(source@.samples, compare@.samples, i as int),
            acc <= 65025 * i,
        decreases n - i,
    {
        let s = source.sample_at(i);
        let c = compare.sample_at(i);
        let d: i32 = s as i32 - c as i32;
        proof {
            lemma_sq_diff_bounds(s, c);
            assert(d * d == sq_diff(s, c)) by (nonlinear_arith)
                requires
                    d == s - c;
        }
        let sq: i32 = d * d;
        acc = acc + (sq as u128);
        i = i + 1;
    }
    (acc, n)
}

/// Mean-squared-error: the arithmetic mean of the squared per-sample
/// differences, all rows, columns and channels pooled together. The
/// result is the exact rational `Score::Ratio { sse, count }`; averaging
/// zero samples is the fatal empty-tensor failure.
pub fn mse(source: &PixelTensor, compare: &PixelTensor) -> (r: Result<Score, IqaError>)
    requires
        source.wf(),
        compare.wf(),
        source.same_shape(compare),
    ensures
        r == mse_result(source@, compare@),
{
    let (sse, n) = sse_count(source, compare);
    if n == 0 {
        Err(IqaError::EmptyTensor)
    } else {
        Ok(Score::Ratio { num: sse, den: n as u128 })
    }
}

/// Peak-signal-to-noise-ratio over mean-squared-error `m`: exactly zero
/// when `m == 0` (the compatibility convention), and otherwise the exact
/// form of `10 * log10(65025 / m)`, with 65025 the square of the peak
/// 8-bit sample value 255.
pub fn psnr(source: &PixelTensor, compare: &PixelTensor) -> (r: Result<Score, IqaError>)
    requires
        source.wf(),
        compare.wf(),
        source.same_shape(compare),
    ensures
        r == psnr_result(source@, compare@),
{
    let (sse, n) = sse_count(source, compare);
    if n == 0 {
        Err(IqaError::EmptyTensor)
    } else if sse == 0 {
        Ok(Score::Ratio { num: 0, den: 1 })
    } else {
        Ok(Score::DecibelRatio { num: PEAK_SQ * (n as u128), den: sse })
    }
}

/// Character-for-character string equality, proved against the string
/// views: the result is true exactly when the two views are one sequence.
pub fn str_eq(a: &str, b: &str) -> (r: bool)
    ensures
        r == (a@ == b@),
{
    let alen = a.unicode_len();
    let blen = b.unicode_len();
    if alen != blen {
        return false;
    }
    let mut i: usize = 0;
    while i < alen
        invariant
            i <= alen,
            alen == a@.len(),
            alen == b@.len(),
            forall|j: int| 0 <= j < i ==> a@[j] == b@[j],
        decreases alen - i,
    {
        if a.get_char(i) != b.get_char(i) {
            return false;
        }
        i = i + 1;
    }
    proof {
        assert(a@ =~= b@);
    }
    true
}

/// The metric each name selects: an exact match against the fixed set
/// {mse, psnr, ms-ssim, qnr}, every other name rejected.
pub open spec fn metric_for(name: Seq<char>) -> Option<Metric> {
    if name == "mse"@ {
        Some(Metric::Mse)
    } else if name == "psnr"@ {
        Some(Metric::Psnr)
    } else if name == "ms-ssim"@ {
        Some(Metric::MsSsim)
    } else if name == "qnr"@ {
        Some(Metric::Qnr)
    } else {
        None
    }
}

/// Resolves a metric name by exact string match, as [`metric_for`]
/// prescribes; any name outside the recognized set yields `None`.
pub fn parse_metric(name: &str) -> (r: Option<Metric>)
    ensures
        r == metric_for(name@),
{
    if str_eq(name, "mse") {
        Some(Metric::Mse)
    } else if str_eq(name, "psnr") {
        Some(Metric::Psnr)
    } else if str_eq(name, "ms-ssim") {
        Some(Metric::MsSsim)
    } else if str_eq(name, "qnr") {
        Some(Metric::Qnr)
    } else {
        None
    }
}

/// The result owed for each metric of the registry: the two implemented
/// metrics compute their score, the two reserved names report that they
/// are not implemented yet.
pub open spec fn metric_result(m: Metric, a: TensorModel, b: TensorModel) -> Result<
    Score,
    IqaError,
> {
    match m {
        Metric::Mse => mse_result(a, b),
        Metric::Psnr => psnr_result(a, b),
        Metric::MsSsim => Err(IqaError::NotImplemented),
        Metric::Qnr => Err(IqaError::NotImplemented),
    }
}

/// Evaluates one metric of the registry over two same-shaped tensors.
pub fn evaluate_metric(m: Metric, source: &PixelTensor, compare: &PixelTensor) -> (r: Result<
    Score,
    IqaError,
>)
    requires
        source.wf(),
        compare.wf(),
        source.same_shape(compare),
    ensures
        r == metric_result(m, source@, compare@),
{
    match m {
        Metric::Mse => mse(source, compare),
        Metric::Psnr => psnr(source, compare),
        Metric::MsSsim => Err(IqaError::NotImplemented),
        Metric::Qnr => Err(IqaError::NotImplemented),
    }
}

/// The result owed for a metric selected by name: the named metric's
/// result, or the unsupported-metric failure for a name outside the
/// recognized set.
pub open spec fn evaluate_result(name: Seq<char>, a: TensorModel, b: TensorModel) -> Result<
    Score,
    IqaError,
> {
    match metric_for(name) {
        Some(m) => metric_result(m, a, b),
        None => Err(IqaError::UnsupportedMetric),
    }
}

/// The full engine entry: selects the metric by name and evaluates it
/// over two same-shaped tensors, or fails fatally on an unrecognized
/// name with no partial result.
pub fn evaluate(name: &str, source: &PixelTensor, compare: &PixelTensor) -> (r: Result<
    Score,
    IqaError,
>)
    requires
        source.wf(),
        compare.wf(),
        source.same_shape(compare),
    ensures
        r == evaluate_result(name@, source@, compare@),
{
    match parse_metric(name) {
        Some(m) => evaluate_metric(m, source, compare),
        None => Err(IqaError::UnsupportedMetric),
    }
}

} // verus!
