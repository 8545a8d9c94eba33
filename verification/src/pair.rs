use vstd::prelude::*;

use crate::metric::IqaError;
use crate::tensor::PixelTensor;

verus! {

/// The pair owed by the join: both slots filled gives the two tensors in
/// (source, compare) order — the order of the slots, never the order in
/// which the workers finished — and an unfilled slot is the fatal load
/// failure of that image, the source slot checked first.
pub open spec fn join_result(source: Option<PixelTensor>, compare: Option<PixelTensor>) -> Result<
    (PixelTensor, PixelTensor),
    IqaError,
> {
    match (source, compare) {
        (Some(s), Some(c)) => Ok((s, c)),
        (None, _) => Err(IqaError::MissingSource),
        (Some(_), None) => Err(IqaError::MissingCompare),
    }
}

/// The join step of the concurrent dual-image load.
///
/// The two images are decoded on independent worker tasks, each writing
/// into a private output slot; after both tasks have completed, the
/// caller hands the two slots here. As [`join_result`] states, the
/// result pair is always in (source, compare) order, and a missing slot
/// is reported as that image's load failure before any metric can be
/// attempted.
pub fn join_loaded_pair(source: Option<PixelTensor>, compare: Option<PixelTensor>) -> (r: Result<
    (PixelTensor, PixelTensor),
    IqaError,
>)
    ensures
        r == join_result(source, compare),
{
    match (source, compare) {
        (Some(s), Some(c)) => Ok((s, c)),
        (None, _) => Err(IqaError::MissingSource),
        (Some(_), None) => Err(IqaError::MissingCompare),
    }
}

} // verus!
