use retain::magnitude::magnitude_key;
use retain::retain::{retain_bins, retain_top_n_magnitudes, RetainAlgorithm};

#[test]
fn keeps_the_largest_bins() {
    let mut algorithm = RetainAlgorithm::new();
    let mut keep = Vec::new();
    algorithm.calculate(&vec![5, 1, 9, 3], 2, false, &mut keep);
    assert_eq!(keep, vec![true, false, true, false]);
}

#[test]
fn complement_removes_the_largest_bins() {
    let mut algorithm = RetainAlgorithm::new();
    let mut keep = Vec::new();
    algorithm.calculate(&vec![5, 1, 9, 3], 2, true, &mut keep);
    assert_eq!(keep, vec![false, true, false, true]);
}

#[test]
fn order_zero_keeps_nothing() {
    assert_eq!(retain_top_n_magnitudes(&vec![4, 2, 7], 0, false), vec![false, false, false]);
}

#[test]
fn order_zero_with_complement_keeps_everything() {
    assert_eq!(retain_top_n_magnitudes(&vec![4, 2, 7], 0, true), vec![true, true, true]);
}

#[test]
fn order_past_the_length_keeps_everything() {
    assert_eq!(retain_top_n_magnitudes(&vec![4, 2, 7], 3, false), vec![true, true, true]);
    assert_eq!(retain_top_n_magnitudes(&vec![4, 2, 7], 100, false), vec![true, true, true]);
}

#[test]
fn order_past_the_length_with_complement_keeps_nothing() {
    assert_eq!(retain_top_n_magnitudes(&vec![4, 2, 7], 3, true), vec![false, false, false]);
}

#[test]
fn empty_spectrum() {
    assert_eq!(retain_top_n_magnitudes(&vec![], 5, false), Vec::<bool>::new());
    assert_eq!(retain_top_n_magnitudes(&vec![], 0, true), Vec::<bool>::new());
}

#[test]
fn ties_keep_the_requested_count() {
    let keep = retain_top_n_magnitudes(&vec![3, 3, 3, 1], 2, false);
    assert_eq!(keep.iter().filter(|k| **k).count(), 2);
    assert!(!keep[3]);
}

#[test]
fn buffers_are_reused_across_calls() {
    let mut algorithm = RetainAlgorithm::new();
    let mut keep = Vec::with_capacity(8);
    algorithm.calculate(&vec![1, 2, 3, 4, 5], 1, false, &mut keep);
    assert_eq!(keep, vec![false, false, false, false, true]);
    algorithm.calculate(&vec![9, 2, 3], 2, false, &mut keep);
    assert_eq!(keep, vec![true, false, true]);
    algorithm.calculate(&vec![9, 2, 3], 2, true, &mut keep);
    assert_eq!(keep, vec![false, true, false]);
    algorithm.calculate(&vec![9, 2, 3], 0, false, &mut keep);
    assert_eq!(keep, vec![false, false, false]);
    assert!(keep.capacity() >= 8);
}

#[test]
fn complement_inverts_with_distinct_magnitudes() {
    let magnitudes: Vec<u32> = (0..50u32).map(|i| (i * 37) % 101).collect();
    for n in 0..55 {
        let keep = retain_top_n_magnitudes(&magnitudes, n, false);
        let keep_c = retain_top_n_magnitudes(&magnitudes, n, true);
        for i in 0..magnitudes.len() {
            assert_eq!(keep_c[i], !keep[i]);
        }
        assert_eq!(keep.iter().filter(|k| **k).count(), n.min(magnitudes.len()));
    }
}

#[test]
fn magnitude_keys_follow_float_order() {
    let values = [f32::NEG_INFINITY, -2.5, -0.0, 0.0, 1e-30, 0.5, 1.0, 3.0e9, f32::INFINITY];
    for w in values.windows(2) {
        assert!(magnitude_key(w[0].to_bits()) < magnitude_key(w[1].to_bits()));
        assert_eq!(w[0].total_cmp(&w[1]), magnitude_key(w[0].to_bits()).cmp(&magnitude_key(w[1].to_bits())));
    }
    assert_eq!(magnitude_key(0.0f32.to_bits()), 0x8000_0000);
    assert_eq!(magnitude_key((-0.0f32).to_bits()), 0x7FFF_FFFF);
}

#[test]
fn selection_by_float_magnitudes() {
    let norms = [0.25f32, 4.0, 1.5, 0.0, 2.0];
    let keys: Vec<u32> = norms.iter().map(|m| magnitude_key(m.to_bits())).collect();
    assert_eq!(retain_top_n_magnitudes(&keys, 2, false), vec![false, true, false, false, true]);
}

#[test]
fn unkept_bins_are_zeroed() {
    let mut spectrum = vec![1.5f32, -2.0, 3.25, 4.0];
    retain_bins(&mut spectrum, &vec![true, false, false, true], 0.0);
    assert_eq!(spectrum, vec![1.5, 0.0, 0.0, 4.0]);
}

#[test]
fn selection_then_zeroing() {
    let mut spectrum = vec![10i64, -1, 7, 2, -30];
    let keys: Vec<u32> = spectrum.iter().map(|v| v.unsigned_abs() as u32).collect();
    let mut algorithm = RetainAlgorithm::new();
    let mut keep = Vec::new();
    algorithm.calculate(&keys, 2, false, &mut keep);
    retain_bins(&mut spectrum, &keep, 0);
    assert_eq!(spectrum, vec![10, 0, 0, 0, -30]);
    let mut spectrum = vec![10i64, -1, 7, 2, -30];
    algorithm.calculate(&keys, 2, true, &mut keep);
    retain_bins(&mut spectrum, &keep, 0);
    assert_eq!(spectrum, vec![0, -1, 7, 2, 0]);
}

#[test]
fn spectrum_keeps_its_largest_bins() {
    let mut algorithm = RetainAlgorithm::new();
    let mut keep = Vec::new();
    let keys = vec![4u32, 9, 1, 7];
    let mut spectrum = vec![40i32, -90, 10, 70];
    algorithm.retain_spectrum(&keys, &mut spectrum, &mut keep, 2, false, 0);
    assert_eq!(spectrum, vec![0, -90, 0, 70]);
    assert_eq!(keep, vec![false, true, false, true]);
    let mut spectrum = vec![40i32, -90, 10, 70];
    algorithm.retain_spectrum(&keys, &mut spectrum, &mut keep, 2, true, 0);
    assert_eq!(spectrum, vec![40, 0, 10, 0]);
}
