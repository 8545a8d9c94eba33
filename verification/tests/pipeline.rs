use iqa_metrics::metric::IqaError;
use iqa_metrics::pair::join_loaded_pair;
use iqa_metrics::tensor::PixelTensor;

fn tensor(height: usize, width: usize, samples: Vec<u8>) -> PixelTensor {
    PixelTensor::new(height, width, samples).expect("sample data must match the dimensions")
}

#[test]
fn join_keeps_source_compare_order() {
    // Two distinguishable tensors: whichever worker would have finished
    // first, the pair must come back in (source, compare) slot order.
    let source = tensor(1, 1, vec![1, 2, 3]);
    let compare = tensor(1, 1, vec![4, 5, 6]);
    let (s, c) = join_loaded_pair(Some(source), Some(compare)).unwrap();
    assert_eq!(s.sample_at(0), 1);
    assert_eq!(s.sample_at(2), 3);
    assert_eq!(c.sample_at(0), 4);
    assert_eq!(c.sample_at(2), 6);
}

#[test]
fn missing_source_fails_before_any_metric() {
    let compare = tensor(1, 1, vec![4, 5, 6]);
    let r = join_loaded_pair(None, Some(compare));
    assert!(matches!(r, Err(IqaError::MissingSource)));
}

#[test]
fn missing_compare_fails_before_any_metric() {
    let source = tensor(1, 1, vec![1, 2, 3]);
    let r = join_loaded_pair(Some(source), None);
    assert!(matches!(r, Err(IqaError::MissingCompare)));
}

#[test]
fn missing_source_is_reported_first() {
    let r = join_loaded_pair(None, None);
    assert!(matches!(r, Err(IqaError::MissingSource)));
}

#[test]
fn tensor_construction_checks_the_sample_count() {
    assert!(PixelTensor::new(2, 2, vec![0; 12]).is_some());
    assert!(PixelTensor::new(2, 2, vec![0; 11]).is_none());
    assert!(PixelTensor::new(2, 2, vec![0; 13]).is_none());
    assert!(PixelTensor::new(1, 1, vec![]).is_none());
    assert!(PixelTensor::new(0, 7, vec![]).is_some());
}

#[test]
fn tensor_reports_its_dimensions() {
    let t = tensor(2, 3, vec![0; 18]);
    assert_eq!(t.height(), 2);
    assert_eq!(t.width(), 3);
    assert_eq!(t.channels(), 3);
    assert_eq!(t.sample_count(), 18);
}

#[test]
fn samples_are_laid_out_channel_fastest() {
    // One row, two columns: pixel (0,0) is rgb(1,2,3), pixel (0,1) is
    // rgb(4,5,6).
    let t = tensor(1, 2, vec![1, 2, 3, 4, 5, 6]);
    assert_eq!(t.sample(0, 0, 0), 1);
    assert_eq!(t.sample(0, 0, 1), 2);
    assert_eq!(t.sample(0, 0, 2), 3);
    assert_eq!(t.sample(0, 1, 0), 4);
    assert_eq!(t.sample(0, 1, 1), 5);
    assert_eq!(t.sample(0, 1, 2), 6);
}
