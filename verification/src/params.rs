use std::sync::atomic::{AtomicBool, AtomicU8, AtomicUsize, Ordering};
use vstd::prelude::*;
use vstd::string::StringExecFns;

use crate::window_size::{WindowSize, window_size_of};
use crate::window_type::{DEFAULT_WINDOW_TYPE, WindowType, window_type_of_byte};

verus! {

/// The number of bins kept until another order is chosen.
pub const DEFAULT_ORDER: usize = 1;

/// The window size used until another is chosen.
pub const DEFAULT_WINDOW_SIZE: WindowSize = WindowSize::Size4096;

/// Whether the complement is taken until chosen otherwise.
pub const DEFAULT_COMPLEMENT: bool = false;

/// The largest order that can be set.
pub const MAX_ORDER: usize = 32768;

/// The identifiers under which the host knows the parameters.
pub const PARAM_ORDER_ID: u32 = 1;
pub const PARAM_WINDOW_SIZE_ID: u32 = 2;
pub const PARAM_WINDOW_TYPE_ID: u32 = 3;
pub const PARAM_COMPLEMENT_ID: u32 = 4;

/// The parameters of the effect.
#[derive(Debug, Clone, Copy, PartialEq, Eq, Structural)]
pub enum ParamKind {
    Order,
    WindowSize,
    WindowType,
    Complement,
}

/// The parameter the host knows under `id`, if any.
pub open spec fn spec_param_kind(id: u32) -> Option<ParamKind> {
    if id == PARAM_ORDER_ID {
        Some(ParamKind::Order)
    } else if id == PARAM_WINDOW_SIZE_ID {
        Some(ParamKind::WindowSize)
    } else if id == PARAM_WINDOW_TYPE_ID {
        Some(ParamKind::WindowType)
    } else if id == PARAM_COMPLEMENT_ID {
        Some(ParamKind::Complement)
    } else {
        None
    }
}

/// The parameter the host knows under `id`, if any.
pub fn param_kind(id: u32) -> (kind: Option<ParamKind>)
    ensures
        kind == spec_param_kind(id),
{
    if id == PARAM_ORDER_ID {
        Some(ParamKind::Order)
    } else if id == PARAM_WINDOW_SIZE_ID {
        Some(ParamKind::WindowSize)
    } else if id == PARAM_WINDOW_TYPE_ID {
        Some(ParamKind::WindowType)
    } else if id == PARAM_COMPLEMENT_ID {
        Some(ParamKind::Complement)
    } else {
        None
    }
}

/// The number of parameters offered to the host.
pub const PARAM_COUNT: u32 = 4;

/// How a parameter is offered to the host: its id and name, whether the
/// host may automate it, whether it takes whole steps, whether it is shown
/// but not set by the host, and its range and default as whole numbers.
#[derive(Debug, Clone, Copy, PartialEq, Eq)]
pub struct ParamSpec {
    pub id: u32,
    pub name: &'static str,
    pub automatable: bool,
    pub stepped: bool,
    pub read_only: bool,
    pub min: usize,
    pub max: usize,
    pub default: usize,
}

/// `spec` is how the parameter at `index` is offered: the order (automated,
/// stepped, from 0 to `MAX_ORDER`), the window size and the window type
/// (shown only, from 256 to 32768 samples and from byte 0 to byte 4), and
/// the complement switch (automated, 0 or 1), each with its default.
pub open spec fn is_param_spec(index: u32, spec: ParamSpec) -> bool {
    if index == 0 {
        &&& spec.id == PARAM_ORDER_ID
        &&& spec.name@ == "Order"@
        &&& spec.automatable && spec.stepped && !spec.read_only
        &&& spec.min == 0 && spec.max == MAX_ORDER && spec.default == DEFAULT_ORDER
    } else if index == 1 {
        &&& spec.id == PARAM_WINDOW_SIZE_ID
        &&& spec.name@ == "Window Size"@
        &&& !spec.automatable && !spec.stepped && spec.read_only
        &&& spec.min == 256 && spec.max == 32768 && spec.default == DEFAULT_WINDOW_SIZE.spec_value()
    } else if index == 2 {
        &&& spec.id == PARAM_WINDOW_TYPE_ID
        &&& spec.name@ == "Window Function"@
        &&& !spec.automatable && !spec.stepped && spec.read_only
        &&& spec.min == 0 && spec.max == 4 && spec.default == DEFAULT_WINDOW_TYPE.spec_byte()
    } else if index == 3 {
        &&& spec.id == PARAM_COMPLEMENT_ID
        &&& spec.name@ == "Complement"@
        &&& spec.automatable && !spec.stepped && !spec.read_only
        &&& spec.min == 0 && spec.max == 1 && spec.default == (if DEFAULT_COMPLEMENT {
            1int
        } else {
            0int
        })
    } else {
        false
    }
}

/// How the parameter at `index` is offered to the host (see
/// `is_param_spec`); `None` past the last one. Each parameter's id is its
/// index plus one, and its default lies within its range.
pub fn param_info(index: u32) -> (info: Option<ParamSpec>)
    ensures
        info is Some <==> index < PARAM_COUNT,
        info matches Some(spec) ==> {
            &&& is_param_spec(index, spec)
            &&& spec.id == index + 1
            &&& spec_param_kind(spec.id) is Some
            &&& spec.min <= spec.default <= spec.max
        },
{
    proof {
        reveal_strlit("Order");
        reveal_strlit("Window Size");
        reveal_strlit("Window Function");
        reveal_strlit("Complement");
    }
    if index == 0 {
        Some(
            ParamSpec {
                id: PARAM_ORDER_ID,
                name: "Order",
                automatable: true,
                stepped: true,
                read_only: false,
                min: 0,
                max: MAX_ORDER,
                default: DEFAULT_ORDER,
            },
        )
    } else if index == 1 {
        Some(
            ParamSpec {
                id: PARAM_WINDOW_SIZE_ID,
                name: "Window Size",
                automatable: false,
                stepped: false,
                read_only: true,
                min: 256,
                max: 32768,
                default: DEFAULT_WINDOW_SIZE.value(),
            },
        )
    } else if index == 2 {
        Some(
            ParamSpec {
                id: PARAM_WINDOW_TYPE_ID,
                name: "Window Function",
                automatable: false,
                stepped: false,
                read_only: true,
                min: 0,
                max: 4,
                default: bits_to_usize(DEFAULT_WINDOW_TYPE.as_byte()),
            },
        )
    } else if index == 3 {
        Some(
            ParamSpec {
                id: PARAM_COMPLEMENT_ID,
                name: "Complement",
                automatable: true,
                stepped: false,
                read_only: false,
                min: 0,
                max: 1,
                default: if DEFAULT_COMPLEMENT {
                    1
                } else {
                    0
                },
            },
        )
    } else {
        None
    }
}

/// The order that is stored when `value` is set: at most `MAX_ORDER`.
pub open spec fn clamp_order(value: usize) -> usize {
    if value > MAX_ORDER {
        MAX_ORDER
    } else {
        value
    }
}

/// The order stored when `value` is set (see `clamp_order`).
pub fn clamped_order(value: usize) -> (order: usize)
    ensures
        order == clamp_order(value),
{
    if value > MAX_ORDER {
        MAX_ORDER
    } else {
        value
    }
}

/// The window type read from a stored byte: the window type of that byte.
/// Only bytes of window types are ever stored; any other byte reads as the
/// default window type.
pub open spec fn window_type_read(bits: u8) -> WindowType {
    if bits < 5 {
        window_type_of_byte(bits)
    } else {
        DEFAULT_WINDOW_TYPE
    }
}

/// A byte as a whole number.
fn bits_to_usize(bits: u8) -> (n: usize)
    ensures
        n == bits,
{
    bits as usize
}

/// The window type read from a stored byte (see `window_type_read`).
pub fn stored_window_type(bits: u8) -> (window_type: WindowType)
    ensures
        window_type == window_type_read(bits),
{
    if bits < 5 {
        WindowType::from_byte(bits)
    } else {
        DEFAULT_WINDOW_TYPE
    }
}

/// The decimal digit `d` as a character.
pub open spec fn digit_char(d: nat) -> char
    recommends
        d < 10,
{
    if d == 0 {
        '0'
    } else if d == 1 {
        '1'
    } else if d == 2 {
        '2'
    } else if d == 3 {
        '3'
    } else if d == 4 {
        '4'
    } else if d == 5 {
        '5'
    } else if d == 6 {
        '6'
    } else if d == 7 {
        '7'
    } else if d == 8 {
        '8'
    } else {
        '9'
    }
}

/// The decimal numeral of `n`, without leading zeros.
pub open spec fn decimal(n: nat) -> Seq<char>
    decreases n,
{
    if n < 10 {
        seq![digit_char(n)]
    } else {
        decimal(n / 10).push(digit_char(n % 10))
    }
}

/// The text of a switch: `true` or `false`.
pub open spec fn switch_label(on: bool) -> Seq<char> {
    if on {
        "true"@
    } else {
        "false"@
    }
}

/// The decimal digit `d` as a one-character string.
fn digit_str(d: usize) -> (text: &'static str)
    requires
        d < 10,
    ensures
        text@ == seq![digit_char(d as nat)],
{
    proof {
        reveal_strlit("0");
        reveal_strlit("1");
        reveal_strlit("2");
        reveal_strlit("3");
        reveal_strlit("4");
        reveal_strlit("5");
        reveal_strlit("6");
        reveal_strlit("7");
        reveal_strlit("8");
        reveal_strlit("9");
    }
    match d {
        0 => "0",
        1 => "1",
        2 => "2",
        3 => "3",
        4 => "4",
        5 => "5",
        6 => "6",
        7 => "7",
        8 => "8",
        _ => "9",
    }
}

/// Appends the decimal numeral of `n` to `text`.
fn append_decimal(text: &mut String, n: usize)
    ensures
        final(text)@ == old(text)@ + decimal(n as nat),
    decreases n,
{
    if n >= 10 {
        append_decimal(text, n / 10);
    }
    text.append(digit_str(n % 10));
    assert(decimal(n as nat) =~= if n < 10 {
        seq![digit_char(n as nat)]
    } else {
        decimal((n / 10) as nat).push(digit_char((n % 10) as nat))
    });
}

/// The decimal numeral of `n`, as `usize`'s `to_string` writes it.
pub fn decimal_text(n: usize) -> (text: String)
    ensures
        text@ == decimal(n as nat),
{
    let mut text = String::new();
    append_decimal(&mut text, n);
    assert(Seq::<char>::empty() + decimal(n as nat) =~= decimal(n as nat));
    text
}

/// The text of a switch, as `bool`'s `to_string` writes it.
pub fn switch_text(on: bool) -> (text: String)
    ensures
        text@ == switch_label(on),
{
    proof {
        reveal_strlit("true");
        reveal_strlit("false");
    }
    if on {
        String::from_str("true")
    } else {
        String::from_str("false")
    }
}

/// The parameter state shared between the threads of the plugin: the user
/// interface and the host set it, the audio thread reads it.
///
/// Each value is held in an atomic, so what a read returns depends on what
/// other threads stored before it.
pub struct RetainParams {
    order: AtomicUsize,
    window_size: AtomicUsize,
    window_type: AtomicU8,
    complement: AtomicBool,
}

impl RetainParams {
    /// The parameters at their defaults.
    pub fn new() -> Self {
        RetainParams {
            order: AtomicUsize::new(DEFAULT_ORDER),
            window_size: AtomicUsize::new(DEFAULT_WINDOW_SIZE.value()),
            window_type: AtomicU8::new(DEFAULT_WINDOW_TYPE.as_byte()),
            complement: AtomicBool::new(DEFAULT_COMPLEMENT),
        }
    }

    /// The number of bins to keep, read as at most `MAX_ORDER` (only such
    /// orders are ever stored).
    pub fn get_order(&self) -> (order: usize)
        ensures
            order <= MAX_ORDER,
    {
        clamped_order(self.order.load(Ordering::SeqCst))
    }

    /// Sets the number of bins to keep, at most `MAX_ORDER`.
    pub fn set_order(&self, value: usize) {
        self.order.store(clamped_order(value), Ordering::SeqCst);
    }

    /// The window size, as `WindowSize::from` names the stored number of
    /// samples.
    pub fn get_window_size(&self) -> (size: WindowSize)
        ensures
            size == window_size_of(size.spec_value()),
    {
        let n = self.window_size.load(Ordering::SeqCst);
        WindowSize::from(n)
    }

    /// Sets the window size; its number of samples is stored.
    pub fn set_window_size(&self, value: WindowSize) {
        self.window_size.store(value.value(), Ordering::SeqCst);
    }

    /// The window type, read from the stored byte (see `window_type_read`).
    pub fn get_window_type(&self) -> WindowType {
        let bits = self.window_type.load(Ordering::SeqCst);
        stored_window_type(bits)
    }

    /// Sets the window type; its byte is stored.
    pub fn set_window_type(&self, window_type: WindowType) {
        self.window_type.store(window_type.as_byte(), Ordering::SeqCst);
    }

    /// Whether the complement of the largest bins is kept.
    pub fn get_complement(&self) -> bool {
        self.complement.load(Ordering::SeqCst)
    }

    /// Sets whether the complement of the largest bins is kept.
    pub fn set_complement(&self, value: bool) {
        self.complement.store(value, Ordering::SeqCst);
    }

    /// The value of the parameter known under `id`, as a whole number (see
    /// `param_value_of`), from the parameters as they are read. `None` for
    /// an unknown id.
    pub fn param_value(&self, id: u32) -> (value: Option<usize>)
        ensures
            value is Some <==> spec_param_kind(id) is Some,
            spec_param_kind(id) == Some(ParamKind::WindowType) ==> value.unwrap() < 5,
            spec_param_kind(id) == Some(ParamKind::Complement) ==> value.unwrap() <= 1,
    {
        match param_kind(id) {
            Some(kind) => Some(
                param_value_of(
                    kind,
                    self.get_order(),
                    self.get_window_size(),
                    self.get_window_type(),
                    self.get_complement(),
                ),
            ),
            None => None,
        }
    }

    /// The text shown for the parameter known under `id` (see
    /// `display_text_of`), from the parameters as they are read. `None` for
    /// an unknown id.
    pub fn display_text(&self, id: u32) -> (text: Option<String>)
        ensures
            text is Some <==> spec_param_kind(id) is Some,
    {
        match param_kind(id) {
            Some(kind) => Some(
                display_text_of(
                    kind,
                    self.get_order(),
                    self.get_window_size(),
                    self.get_window_type(),
                    self.get_complement(),
                ),
            ),
            None => None,
        }
    }
}

/// The value of a parameter as a whole number: the order, the number of
/// samples of the window, the byte of the window type, or 1 and 0 for the
/// complement switch.
pub open spec fn spec_param_value_of(
    kind: ParamKind,
    order: usize,
    size: WindowSize,
    window_type: WindowType,
    complement: bool,
) -> usize {
    match kind {
        ParamKind::Order => order,
        ParamKind::WindowSize => size.spec_value(),
        ParamKind::WindowType => window_type.spec_byte() as usize,
        ParamKind::Complement => if complement {
            1
        } else {
            0
        },
    }
}

/// The value of the parameter `kind`, given the values of all parameters
/// (see `spec_param_value_of`).
pub fn param_value_of(
    kind: ParamKind,
    order: usize,
    size: WindowSize,
    window_type: WindowType,
    complement: bool,
) -> (value: usize)
    ensures
        value == spec_param_value_of(kind, order, size, window_type, complement),
{
    match kind {
        ParamKind::Order => order,
        ParamKind::WindowSize => size.value(),
        ParamKind::WindowType => bits_to_usize(window_type.as_byte()),
        ParamKind::Complement => if complement {
            1
        } else {
            0
        },
    }
}

/// The text shown for a parameter: the decimal order, the label of the
/// window size or type, or `true` / `false` for the complement switch.
pub open spec fn spec_display_text_of(
    kind: ParamKind,
    order: usize,
    size: WindowSize,
    window_type: WindowType,
    complement: bool,
) -> Seq<char> {
    match kind {
        ParamKind::Order => decimal(order as nat),
        ParamKind::WindowSize => size.spec_label(),
        ParamKind::WindowType => window_type.spec_label(),
        ParamKind::Complement => switch_label(complement),
    }
}

/// The text shown for the parameter `kind`, given the values of all
/// parameters (see `spec_display_text_of`).
pub fn display_text_of(
    kind: ParamKind,
    order: usize,
    size: WindowSize,
    window_type: WindowType,
    complement: bool,
) -> (text: String)
    ensures
        text@ == spec_display_text_of(kind, order, size, window_type, complement),
{
    match kind {
        ParamKind::Order => decimal_text(order),
        ParamKind::WindowSize => String::from_str(size.as_str()),
        ParamKind::WindowType => String::from_str(window_type.as_str()),
        ParamKind::Complement => switch_text(complement),
    }
}

/// The parameter values as the plugin saves them and loads them back.
#[derive(Debug, Clone, Copy, PartialEq, Eq)]
pub struct PluginState {
    pub order: usize,
    pub window_size: usize,
    pub window_type: u8,
    pub complement: bool,
}

impl Default for PluginState {
    /// The state of parameters at their defaults.
    fn default() -> (state: Self)
        ensures
            state == (PluginState {
                order: DEFAULT_ORDER,
                window_size: DEFAULT_WINDOW_SIZE.spec_value(),
                window_type: DEFAULT_WINDOW_TYPE.spec_byte(),
                complement: DEFAULT_COMPLEMENT,
            }),
    {
        PluginState {
            order: DEFAULT_ORDER,
            window_size: DEFAULT_WINDOW_SIZE.value(),
            window_type: DEFAULT_WINDOW_TYPE.as_byte(),
            complement: DEFAULT_COMPLEMENT,
        }
    }
}

/// The state saved for the given parameter values.
pub open spec fn spec_from_values(
    order: usize,
    size: WindowSize,
    window_type: WindowType,
    complement: bool,
) -> PluginState {
    PluginState {
        order,
        window_size: size.spec_value(),
        window_type: window_type.spec_byte(),
        complement,
    }
}

/// The values that the atomics of the parameters hold: the order, the
/// number of samples of the window size, the byte of the window type and the
/// complement switch.
#[derive(Debug, Clone, Copy, PartialEq, Eq)]
pub struct StoredParams {
    pub order: usize,
    pub window_size: usize,
    pub window_type: u8,
    pub complement: bool,
}

/// The values that loading `state` stores: the order at most `MAX_ORDER`,
/// the samples of the window size and the byte of the window type that
/// `state` names.
pub open spec fn spec_stored_for(state: PluginState) -> StoredParams {
    StoredParams {
        order: clamp_order(state.order),
        window_size: window_size_of(state.window_size).spec_value(),
        window_type: window_type_of_byte(state.window_type).spec_byte(),
        complement: state.complement,
    }
}

/// The state that saving makes of the stored values: the order, the window
/// size that `WindowSize::from` names, the window type read from the byte
/// (see `window_type_read`) and the switch.
pub open spec fn spec_read_back(stored: StoredParams) -> PluginState {
    spec_from_values(
        clamp_order(stored.order),
        window_size_of(stored.window_size),
        window_type_read(stored.window_type),
        stored.complement,
    )
}

/// The state saved for the stored values `stored` (see `spec_read_back`).
pub fn read_back(stored: StoredParams) -> (state: PluginState)
    ensures
        state == spec_read_back(stored),
{
    PluginState::from_values(
        clamped_order(stored.order),
        WindowSize::from(stored.window_size),
        stored_window_type(stored.window_type),
        stored.complement,
    )
}

impl PluginState {
    /// The state held by `params` at the time of the call: `read_back` of
    /// the values its atomics hold. What each read returns depends on the
    /// other threads; whatever it is, the order saved is at most
    /// `MAX_ORDER`, the byte saved names a window type and the size saved is
    /// that of a `WindowSize` as `from` names it, so that every saved state
    /// meets the conditions of `lemma_state_round_trip`.
    pub fn copied(params: &RetainParams) -> (state: Self)
        ensures
            state.order <= MAX_ORDER,
            state.window_type < 5,
            window_size_of(state.window_size).spec_value() == state.window_size,
    {
        read_back(params.stored())
    }

    /// The values that loading this state stores (see `spec_stored_for`);
    /// the saved byte must be that of a window type.
    pub fn stored(&self) -> (stored: StoredParams)
        requires
            self.window_type < 5,
        ensures
            stored == spec_stored_for(*self),
    {
        StoredParams {
            order: clamped_order(self.get_order()),
            window_size: self.get_window_size().value(),
            window_type: self.get_window_type().as_byte(),
            complement: self.get_complement(),
        }
    }

    /// The state saved for the given parameter values: the order, the
    /// number of samples of the window size, the byte of the window type
    /// and the complement switch.
    pub fn from_values(order: usize, size: WindowSize, window_type: WindowType, complement: bool) -> (state:
        Self)
        ensures
            state == spec_from_values(order, size, window_type, complement),
    {
        PluginState {
            order,
            window_size: size.value(),
            window_type: window_type.as_byte(),
            complement,
        }
    }

    /// The saved number of bins to keep.
    pub fn get_order(&self) -> (order: usize)
        ensures
            order == self.order,
    {
        self.order
    }

    /// The saved window size, as `WindowSize::from` names it.
    pub fn get_window_size(&self) -> (size: WindowSize)
        ensures
            size == window_size_of(self.window_size),
    {
        WindowSize::from(self.window_size)
    }

    /// The saved window type; the saved byte must be that of a window type.
    pub fn get_window_type(&self) -> (window_type: WindowType)
        requires
            self.window_type < 5,
        ensures
            window_type == window_type_of_byte(self.window_type),
    {
        WindowType::from_byte(self.window_type)
    }

    /// Whether the complement is kept, as saved.
    pub fn get_complement(&self) -> (complement: bool)
        ensures
            complement == self.complement,
    {
        self.complement
    }
}

impl RetainParams {
    /// Sets every parameter to its value in `state`: the atomics are given
    /// `state.stored()`. The saved byte must be that of a window type.
    pub fn load_state(&self, state: &PluginState)
        requires
            state.window_type < 5,
    {
        self.store(state.stored());
    }

    /// Stores each of the values `stored` in its atomic.
    fn store(&self, stored: StoredParams) {
        self.order.store(stored.order, Ordering::SeqCst);
        self.window_size.store(stored.window_size, Ordering::SeqCst);
        self.window_type.store(stored.window_type, Ordering::SeqCst);
        self.complement.store(stored.complement, Ordering::SeqCst);
    }

    /// The values the atomics hold, each read once.
    pub fn stored(&self) -> StoredParams {
        StoredParams {
            order: self.order.load(Ordering::SeqCst),
            window_size: self.window_size.load(Ordering::SeqCst),
            window_type: self.window_type.load(Ordering::SeqCst),
            complement: self.complement.load(Ordering::SeqCst),
        }
    }
}

/// Loading a state stores `state.stored()` (`spec_stored_for`) and saving
/// makes `read_back` (`spec_read_back`) of the values the atomics hold: read
/// back, the values loading stores give the state loaded again, as long as
/// its order is within range and its byte names a window type, which holds
/// of every state that `PluginState::copied` saves. That the atomics hand
/// back what was stored in them is std's, and is not stated here: this
/// proves the conversions on either side of them.
pub proof fn lemma_state_round_trip(state: PluginState)
    requires
        state.window_type < 5,
        state.order <= MAX_ORDER,
    ensures
        spec_read_back(spec_stored_for(state)) == state,
{
    crate::window_size::lemma_value_of_from(state.window_size);
}

} // verus!
