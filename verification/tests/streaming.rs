use retain::window_function::{RectangularWindow, WindowFunction};
use retain::window_size::WindowSize;
use retain::window_type::WindowType;
use retain::windowed_fft::WindowedStream;
use std::collections::VecDeque;

#[test]
fn rectangular_window_needs_whole_windows() {
    let mut w = RectangularWindow::new(&WindowSize::Size256);
    assert_eq!(w.needed(), 256);
    w.resize(&WindowSize::Custom(100));
    assert_eq!(w.needed(), 100);
}

#[test]
fn hann_window_first_frame_then_hops() {
    let mut w: WindowFunction<i32> = WindowType::Hann.new_function(&WindowSize::Custom(8), 0);
    assert_eq!(w.needed(), 8);
    assert_eq!(w.hop(), 4);
    let mut data: VecDeque<i32> = (1..=8).collect();
    w.apply(&mut data);
    assert_eq!(data, (1..=8).collect::<VecDeque<i32>>());
    assert_eq!(w.needed(), 4);
    let mut data: VecDeque<i32> = (9..=12).collect();
    w.apply(&mut data);
    // the frame starts with the last half of the frame before
    assert_eq!(data, (5..=12).collect::<VecDeque<i32>>());
    assert_eq!(w.needed(), 4);
}

#[test]
fn blackman_harris_frames_advance_by_a_quarter() {
    let mut w: WindowFunction<i32> = WindowType::BlackmanHarris.new_function(&WindowSize::Custom(8), 0);
    let mut data: VecDeque<i32> = (1..=8).collect();
    w.apply(&mut data);
    assert_eq!(w.needed(), 2);
    let mut data: VecDeque<i32> = VecDeque::from(vec![9, 10]);
    w.apply(&mut data);
    assert_eq!(data, (3..=10).collect::<VecDeque<i32>>());
}

#[test]
fn rectangular_frames_do_not_overlap() {
    let mut w: WindowFunction<i32> = WindowType::Rectangular.new_function(&WindowSize::Custom(4), 0);
    let mut data: VecDeque<i32> = (1..=4).collect();
    w.apply(&mut data);
    assert_eq!(data, (1..=4).collect::<VecDeque<i32>>());
    assert_eq!(w.needed(), 4);
    assert_eq!(w.kept_len(), 0);
}

#[test]
fn overlap_buffer_moves_on_by_a_hop() {
    let mut stream: WindowedStream<i32> = WindowedStream::new(WindowSize::Custom(8), 0);
    for i in 0..8 {
        stream.set_overlap_value(i, (i + 1) as i32);
    }
    stream.advance_overlap();
    let after: Vec<i32> = (0..8).map(|i| stream.overlap_value(i)).collect();
    assert_eq!(after, vec![5, 6, 7, 8, 0, 0, 0, 0]);

    let mut stream: WindowedStream<i32> = WindowedStream::new(WindowSize::Custom(8), 0);
    stream.window_function(&WindowType::Sine4);
    for i in 0..8 {
        stream.set_overlap_value(i, (i + 1) as i32);
    }
    stream.advance_overlap();
    let after: Vec<i32> = (0..8).map(|i| stream.overlap_value(i)).collect();
    assert_eq!(after, vec![3, 4, 5, 6, 7, 8, 0, 0]);
}

#[test]
fn stream_reports_ready_frames() {
    let mut stream: WindowedStream<i32> = WindowedStream::new(WindowSize::Custom(4), 0);
    assert_eq!(stream.window_type(), WindowType::Hann);
    assert!(!stream.push_back_input(1));
    assert!(!stream.push_back_input(2));
    assert!(!stream.push_back_input(3));
    assert!(stream.push_back_input(4));
    assert!(stream.frame_fits());
    let mut frame = Vec::new();
    stream.forward_frame(&mut frame);
    assert_eq!(frame, vec![1, 2, 3, 4]);
    stream.clear_input();
    assert!(!stream.push_back_input(5));
    assert!(stream.push_back_input(6));
    stream.forward_frame(&mut frame);
    assert_eq!(frame, vec![3, 4, 5, 6]);
}

#[test]
fn stream_hands_out_silence_until_output() {
    let mut stream: WindowedStream<i32> = WindowedStream::new(WindowSize::Custom(4), -1);
    assert_eq!(stream.pop_front_output(), -1);
    stream.store_output(&vec![7, 8, 9, 10]);
    assert_eq!(stream.pop_front_output(), 7);
    assert_eq!(stream.pop_front_output(), 8);
    stream.store_output(&vec![1, 2]);
    assert_eq!(stream.pop_front_output(), 1);
    assert_eq!(stream.pop_front_output(), 2);
    assert_eq!(stream.pop_front_output(), -1);
}

#[test]
fn stream_resize_starts_over() {
    let mut stream: WindowedStream<i32> = WindowedStream::new(WindowSize::Size1024, 0);
    stream.window_function(&WindowType::Rectangular);
    stream.push_back_input(3);
    stream.store_output(&vec![1, 2, 3]);
    assert!(!stream.window_size(WindowSize::Size1024));
    assert_eq!(stream.pop_front_output(), 1);
    assert!(stream.window_size(WindowSize::Size2048));
    assert_eq!(stream.window_len(), 2048);
    assert_eq!(stream.window_type(), WindowType::Rectangular);
    assert_eq!(stream.pop_front_output(), 0);
    // a non-canonical size of the same length still counts as a change
    assert!(stream.window_size(WindowSize::Custom(2048)));
    assert_eq!(stream.window_len(), 2048);
}

#[test]
fn switching_window_type_needs_a_whole_window_again() {
    let mut stream: WindowedStream<i32> = WindowedStream::new(WindowSize::Custom(4), 0);
    for i in 1..=4 {
        stream.push_back_input(i);
    }
    let mut frame = Vec::new();
    stream.forward_frame(&mut frame);
    stream.clear_input();
    assert!(!stream.push_back_input(5));
    stream.window_function(&WindowType::Hamming);
    assert_eq!(stream.window_type(), WindowType::Hamming);
    assert!(!stream.push_back_input(6));
    assert!(!stream.push_back_input(7));
    assert!(stream.push_back_input(8));
    stream.forward_frame(&mut frame);
    assert_eq!(frame, vec![5, 6, 7, 8]);
}

#[test]
fn hann_run_of_four_frames() {
    // a fresh Hann window needs a whole window, then half a window per frame
    let mut w: WindowFunction<i32> = WindowType::Hann.new_function(&WindowSize::Size4096, 0);
    let mut next: i32 = 0;
    let mut needs = Vec::new();
    for _ in 0..4 {
        let n = w.needed();
        needs.push(n);
        let mut data: VecDeque<i32> = (next..next + n as i32).collect();
        next += n as i32;
        w.apply(&mut data);
        assert_eq!(data.len(), 4096);
        assert_eq!(*data.back().unwrap(), next - 1);
    }
    assert_eq!(needs, vec![4096, 2048, 2048, 2048]);
    assert_eq!(w.needed(), 2048);
    assert_eq!(w.kept_len(), 2048);
}

#[test]
fn sine4_run_of_frames_needs_quarters() {
    let mut w: WindowFunction<i32> = WindowType::Sine4.new_function(&WindowSize::Size1024, 0);
    let mut needs = Vec::new();
    for _ in 0..3 {
        let n = w.needed();
        needs.push(n);
        let mut data: VecDeque<i32> = (0..n as i32).collect();
        w.apply(&mut data);
        assert_eq!(data.len(), 1024);
    }
    assert_eq!(needs, vec![1024, 256, 256]);
}
