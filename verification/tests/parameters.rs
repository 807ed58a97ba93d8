use retain::messages::{msg_channels, GuiToAudioMsg, PendingUpdates};
use retain::params::{
    decimal_text, display_text_of, param_info, param_kind, param_value_of, switch_text, ParamKind, PluginState,
    read_back, RetainParams, StoredParams, PARAM_COMPLEMENT_ID,
    PARAM_ORDER_ID, PARAM_WINDOW_SIZE_ID, PARAM_WINDOW_TYPE_ID,
};
use retain::settings::SettingsTracker;
use retain::window_size::WindowSize;
use retain::window_type::WindowType;

#[test]
fn defaults() {
    let params = RetainParams::new();
    assert_eq!(params.get_order(), 1);
    assert_eq!(params.get_window_size(), WindowSize::Size4096);
    assert_eq!(params.get_window_type(), WindowType::Hann);
    assert!(!params.get_complement());
    let state = PluginState::default();
    assert_eq!(state, PluginState { order: 1, window_size: 4096, window_type: 1, complement: false });
}

#[test]
fn order_is_clamped() {
    let params = RetainParams::new();
    params.set_order(100);
    assert_eq!(params.get_order(), 100);
    params.set_order(40000);
    assert_eq!(params.get_order(), 32768);
    params.set_order(0);
    assert_eq!(params.get_order(), 0);
}

#[test]
fn setters_and_getters() {
    let params = RetainParams::new();
    params.set_window_size(WindowSize::Custom(512));
    assert_eq!(params.get_window_size(), WindowSize::Size512);
    params.set_window_type(WindowType::Sine4);
    assert_eq!(params.get_window_type(), WindowType::Sine4);
    params.set_complement(true);
    assert!(params.get_complement());
}

#[test]
fn param_ids() {
    assert_eq!(param_kind(PARAM_ORDER_ID), Some(ParamKind::Order));
    assert_eq!(param_kind(PARAM_WINDOW_SIZE_ID), Some(ParamKind::WindowSize));
    assert_eq!(param_kind(PARAM_WINDOW_TYPE_ID), Some(ParamKind::WindowType));
    assert_eq!(param_kind(PARAM_COMPLEMENT_ID), Some(ParamKind::Complement));
    assert_eq!(param_kind(0), None);
    assert_eq!(param_kind(5), None);
}

#[test]
fn param_values_and_texts() {
    let params = RetainParams::new();
    params.set_order(1234);
    params.set_window_type(WindowType::BlackmanHarris);
    params.set_complement(true);
    assert_eq!(params.param_value(PARAM_ORDER_ID), Some(1234));
    assert_eq!(params.param_value(PARAM_WINDOW_SIZE_ID), Some(4096));
    assert_eq!(params.param_value(PARAM_WINDOW_TYPE_ID), Some(3));
    assert_eq!(params.param_value(PARAM_COMPLEMENT_ID), Some(1));
    assert_eq!(params.param_value(9), None);
    assert_eq!(params.display_text(PARAM_ORDER_ID), Some("1234".to_string()));
    assert_eq!(params.display_text(PARAM_WINDOW_SIZE_ID), Some("4096".to_string()));
    assert_eq!(params.display_text(PARAM_WINDOW_TYPE_ID), Some("Blackman-Harris".to_string()));
    assert_eq!(params.display_text(PARAM_COMPLEMENT_ID), Some("true".to_string()));
    assert_eq!(params.display_text(9), None);
}

#[test]
fn numerals() {
    for n in [0usize, 7, 10, 99, 100, 32768, usize::MAX] {
        assert_eq!(decimal_text(n), n.to_string());
    }
    assert_eq!(switch_text(false), "false");
    assert_eq!(switch_text(true), "true");
}

#[test]
fn state_save_and_load() {
    let params = RetainParams::new();
    params.set_order(17);
    params.set_window_size(WindowSize::Size256);
    params.set_window_type(WindowType::Rectangular);
    params.set_complement(true);
    let state = PluginState::copied(&params);
    assert_eq!(state, PluginState { order: 17, window_size: 256, window_type: 0, complement: true });

    let other = RetainParams::new();
    other.load_state(&state);
    assert_eq!(PluginState::copied(&other), state);
    assert_eq!(state.get_window_size(), WindowSize::Size256);
    assert_eq!(state.get_window_type(), WindowType::Rectangular);
    assert_eq!(state.get_order(), 17);
    assert!(state.get_complement());
}

#[test]
fn loading_clamps_the_order() {
    let params = RetainParams::new();
    params.load_state(&PluginState { order: 99999, window_size: 300, window_type: 2, complement: false });
    let saved = PluginState::copied(&params);
    assert_eq!(saved, PluginState { order: 32768, window_size: 300, window_type: 2, complement: false });
}

#[test]
fn messages_are_deduplicated() {
    let (mut gui, mut audio) = msg_channels();
    assert_eq!(audio.receive_updates(), PendingUpdates { window_size: false, window_type: false });
    gui.send(GuiToAudioMsg::WindowSizeUpdate).unwrap();
    gui.send(GuiToAudioMsg::WindowSizeUpdate).unwrap();
    assert_eq!(audio.receive_updates(), PendingUpdates { window_size: true, window_type: false });
    gui.send(GuiToAudioMsg::WindowTypeUpdate).unwrap();
    gui.send(GuiToAudioMsg::WindowSizeUpdate).unwrap();
    assert_eq!(audio.receive_updates(), PendingUpdates { window_size: true, window_type: true });
    assert_eq!(audio.receive_updates(), PendingUpdates { window_size: false, window_type: false });
}

#[test]
fn channel_refuses_when_full() {
    let (mut gui, _audio) = msg_channels();
    for _ in 0..128 {
        assert!(gui.send(GuiToAudioMsg::WindowTypeUpdate).is_ok());
    }
    assert!(gui.send(GuiToAudioMsg::WindowTypeUpdate).is_err());
}

#[test]
fn channel_room() {
    let (mut gui, mut audio) = msg_channels();
    assert_eq!(gui.capacity(), 128);
    assert_eq!(audio.capacity(), 128);
    gui.send(GuiToAudioMsg::WindowSizeUpdate).unwrap();
    audio.receive_updates();
    assert_eq!(gui.capacity(), 128);
    assert_eq!(audio.capacity(), 128);
}

#[test]
fn pending_updates_note() {
    let u = PendingUpdates::none();
    assert_eq!(u.note(GuiToAudioMsg::WindowTypeUpdate), PendingUpdates { window_size: false, window_type: true });
}

#[test]
fn settings_tracker_reports_changes_once() {
    let mut tracker = SettingsTracker::new();
    let first = tracker.update(WindowSize::Size1024, WindowType::Hann);
    assert_eq!(first.window_size, Some(WindowSize::Size1024));
    assert_eq!(first.window_type, Some(WindowType::Hann));
    let same = tracker.update(WindowSize::Size1024, WindowType::Hann);
    assert_eq!(same.window_size, None);
    assert_eq!(same.window_type, None);
    let changed = tracker.update(WindowSize::Size1024, WindowType::Sine4);
    assert_eq!(changed.window_size, None);
    assert_eq!(changed.window_type, Some(WindowType::Sine4));
}

#[test]
fn value_of_each_parameter() {
    let v = |kind| param_value_of(kind, 77, WindowSize::Size512, WindowType::Sine4, false);
    assert_eq!(v(ParamKind::Order), 77);
    assert_eq!(v(ParamKind::WindowSize), 512);
    assert_eq!(v(ParamKind::WindowType), 4);
    assert_eq!(v(ParamKind::Complement), 0);
    assert_eq!(param_value_of(ParamKind::Complement, 0, WindowSize::Size128, WindowType::Hann, true), 1);
}

#[test]
fn text_of_each_parameter() {
    let t = |kind| display_text_of(kind, 305, WindowSize::Size16384, WindowType::Hamming, true);
    assert_eq!(t(ParamKind::Order), "305");
    assert_eq!(t(ParamKind::WindowSize), "16384");
    assert_eq!(t(ParamKind::WindowType), "Hamming");
    assert_eq!(t(ParamKind::Complement), "true");
    assert_eq!(display_text_of(ParamKind::Complement, 0, WindowSize::Size128, WindowType::Hann, false), "false");
}

#[test]
fn state_from_values() {
    let state = PluginState::from_values(12, WindowSize::Size2048, WindowType::Rectangular, true);
    assert_eq!(state.order, 12);
    assert_eq!(state.window_size, 2048);
    assert_eq!(state.window_type, 0);
    assert!(state.complement);
    assert_eq!(state.get_window_size(), WindowSize::Size2048);
    assert_eq!(state.get_window_type(), WindowType::Rectangular);
}

#[test]
fn values_stored_and_read_back() {
    let state = PluginState { order: 99999, window_size: 300, window_type: 2, complement: false };
    let stored = state.stored();
    assert_eq!(stored, StoredParams { order: 32768, window_size: 300, window_type: 2, complement: false });
    assert_eq!(read_back(stored), PluginState { order: 32768, window_size: 300, window_type: 2, complement: false });
    // a byte that names no window type reads as the default, Hann
    let odd = StoredParams { order: 5, window_size: 4096, window_type: 9, complement: true };
    assert_eq!(read_back(odd), PluginState { order: 5, window_size: 4096, window_type: 1, complement: true });
    let params = RetainParams::new();
    params.load_state(&PluginState { order: 40, window_size: 1024, window_type: 4, complement: true });
    assert_eq!(params.stored(), StoredParams { order: 40, window_size: 1024, window_type: 4, complement: true });
}

#[test]
fn parameter_table() {
    let order = param_info(0).unwrap();
    assert_eq!((order.id, order.name, order.min, order.max, order.default), (1, "Order", 0, 32768, 1));
    assert!(order.automatable && order.stepped && !order.read_only);
    let size = param_info(1).unwrap();
    assert_eq!((size.id, size.name, size.min, size.max, size.default), (2, "Window Size", 256, 32768, 4096));
    assert!(size.read_only && !size.automatable);
    let window = param_info(2).unwrap();
    assert_eq!((window.id, window.name, window.min, window.max, window.default), (3, "Window Function", 0, 4, 1));
    let complement = param_info(3).unwrap();
    assert_eq!((complement.id, complement.name, complement.min, complement.max, complement.default), (4, "Complement", 0, 1, 0));
    assert!(complement.automatable && !complement.stepped);
    assert_eq!(param_info(4), None);
    assert_eq!(param_info(u32::MAX), None);
}

#[test]
fn receiving_empties_the_channel() {
    let (mut gui, mut audio) = msg_channels();
    for _ in 0..128 {
        gui.send(GuiToAudioMsg::WindowSizeUpdate).unwrap();
    }
    assert!(gui.send(GuiToAudioMsg::WindowTypeUpdate).is_err());
    assert_eq!(audio.receive_updates(), PendingUpdates { window_size: true, window_type: false });
    assert_eq!(audio.receive_updates(), PendingUpdates { window_size: false, window_type: false });
    gui.send(GuiToAudioMsg::WindowTypeUpdate).unwrap();
    assert_eq!(audio.receive_updates(), PendingUpdates { window_size: false, window_type: true });
}

#[test]
fn stored_order_reads_within_range() {
    let params = RetainParams::new();
    params.set_order(1_000_000);
    assert_eq!(params.get_order(), 32768);
    assert_eq!(PluginState::copied(&params).order, 32768);
    assert_eq!(read_back(StoredParams { order: 99999, window_size: 512, window_type: 0, complement: false }).order, 32768);
}
