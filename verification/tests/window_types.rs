use retain::window_size::WindowSize;
use retain::window_type::WindowType;

#[test]
fn window_size_from_standard_values() {
    assert_eq!(WindowSize::from(128), WindowSize::Size128);
    assert_eq!(WindowSize::from(1024), WindowSize::Size1024);
    assert_eq!(WindowSize::from(32768), WindowSize::Size32768);
}

#[test]
fn window_size_from_custom_value() {
    assert_eq!(WindowSize::from(1000), WindowSize::Custom(1000));
    assert_eq!(WindowSize::from(0), WindowSize::Custom(0));
}

#[test]
fn window_size_value_round_trip() {
    for n in [0usize, 1, 128, 300, 4096, 32768, 65536] {
        assert_eq!(WindowSize::from(n).value(), n);
    }
    assert_eq!(WindowSize::Custom(128).value(), 128);
}

#[test]
fn window_size_labels() {
    assert_eq!(WindowSize::Size128.as_str(), "128");
    assert_eq!(WindowSize::Size4096.as_str(), "4096");
    assert_eq!(WindowSize::Size32768.as_str(), "32768");
    assert_eq!(WindowSize::Custom(1000).as_str(), "");
}

#[test]
fn window_size_choices() {
    let sizes = WindowSize::into_iter();
    let values: Vec<usize> = sizes.iter().map(|s| s.value()).collect();
    assert_eq!(values, vec![128, 256, 512, 1024, 2048, 4096, 8192, 16384, 32768]);
    for size in sizes {
        assert_eq!(WindowSize::from(size.value()), size);
    }
}

#[test]
fn window_type_bytes_round_trip() {
    for (i, t) in WindowType::iter().into_iter().enumerate() {
        assert_eq!(t.as_byte() as usize, i);
        assert_eq!(WindowType::from_byte(t.as_byte()), t);
    }
    assert_eq!(WindowType::from_byte(0), WindowType::Rectangular);
    assert_eq!(WindowType::from_byte(4), WindowType::Sine4);
}

#[test]
fn window_type_labels() {
    let labels: Vec<&str> = WindowType::iter().iter().map(|t| t.as_str()).collect();
    assert_eq!(labels, vec!["Rectangular", "Hann", "Hamming", "Blackman-Harris", "Sin^4"]);
}

#[test]
fn window_type_overlap() {
    assert_eq!(WindowType::Rectangular.overlap_divisor(), 1);
    assert_eq!(WindowType::Hann.overlap_divisor(), 2);
    assert_eq!(WindowType::Hamming.overlap_divisor(), 2);
    assert_eq!(WindowType::BlackmanHarris.overlap_divisor(), 4);
    assert_eq!(WindowType::Sine4.overlap_divisor(), 4);
}
