use vstd::prelude::*;

verus! {

/// The window function used to taper each analysis frame.
#[derive(Debug, Clone, Copy, PartialEq, Eq, Structural)]
pub enum WindowType {
    Rectangular,
    Hann,
    Hamming,
    BlackmanHarris,
    Sine4,
}

/// The window type used until another is chosen.
pub const DEFAULT_WINDOW_TYPE: WindowType = WindowType::Hann;

/// The window type stored under `bits`, for the five valid bytes.
pub open spec fn window_type_of_byte(bits: u8) -> WindowType
    recommends
        bits < 5,
{
    if bits == 0 {
        WindowType::Rectangular
    } else if bits == 1 {
        WindowType::Hann
    } else if bits == 2 {
        WindowType::Hamming
    } else if bits == 3 {
        WindowType::BlackmanHarris
    } else {
        WindowType::Sine4
    }
}

/// All window types, in the order of their bytes.
pub open spec fn all_window_types() -> Seq<WindowType> {
    seq![
        WindowType::Rectangular,
        WindowType::Hann,
        WindowType::Hamming,
        WindowType::BlackmanHarris,
        WindowType::Sine4,
    ]
}

impl WindowType {
    /// The byte under which this window type is stored.
    pub open spec fn spec_byte(self) -> u8 {
        match self {
            WindowType::Rectangular => 0,
            WindowType::Hann => 1,
            WindowType::Hamming => 2,
            WindowType::BlackmanHarris => 3,
            WindowType::Sine4 => 4,
        }
    }

    /// The name shown for this window type.
    pub open spec fn spec_label(self) -> Seq<char> {
        match self {
            WindowType::Rectangular => "Rectangular"@,
            WindowType::Hann => "Hann"@,
            WindowType::Hamming => "Hamming"@,
            WindowType::BlackmanHarris => "Blackman-Harris"@,
            WindowType::Sine4 => "Sin^4"@,
        }
    }

    /// How many parts of a window make one hop of the stream: the frames
    /// of an overlapping window overlap by all but one of these parts.
    /// The rectangular window does not overlap its frames.
    pub open spec fn spec_overlap_divisor(self) -> usize {
        match self {
            WindowType::Rectangular => 1,
            WindowType::Hann => 2,
            WindowType::Hamming => 2,
            WindowType::BlackmanHarris => 4,
            WindowType::Sine4 => 4,
        }
    }

    /// The name shown for this window type.
    pub fn as_str(&self) -> (label: &'static str)
        ensures
            label@ == self.spec_label(),
    {
        proof {
            reveal_strlit("Rectangular");
            reveal_strlit("Hann");
            reveal_strlit("Hamming");
            reveal_strlit("Blackman-Harris");
            reveal_strlit("Sin^4");
        }
        match self {
            WindowType::Rectangular => "Rectangular",
            WindowType::Hann => "Hann",
            WindowType::Hamming => "Hamming",
            WindowType::BlackmanHarris => "Blackman-Harris",
            WindowType::Sine4 => "Sin^4",
        }
    }

    /// All window types, in the order of their bytes.
    pub fn iter() -> (types: Vec<WindowType>)
        ensures
            types@ == all_window_types(),
    {
        vec![
            WindowType::Rectangular,
            WindowType::Hann,
            WindowType::Hamming,
            WindowType::BlackmanHarris,
            WindowType::Sine4,
        ]
    }

    /// The window type stored under `bits`; only the bytes 0 to 4 name one.
    pub fn from_byte(bits: u8) -> (window_type: WindowType)
        requires
            bits < 5,
        ensures
            window_type == window_type_of_byte(bits),
            window_type.spec_byte() == bits,
    {
        match bits {
            0 => WindowType::Rectangular,
            1 => WindowType::Hann,
            2 => WindowType::Hamming,
            3 => WindowType::BlackmanHarris,
            _ => WindowType::Sine4,
        }
    }

    /// The byte under which this window type is stored.
    pub fn as_byte(&self) -> (bits: u8)
        ensures
            bits == self.spec_byte(),
            bits < 5,
    {
        match self {
            WindowType::Rectangular => 0,
            WindowType::Hann => 1,
            WindowType::Hamming => 2,
            WindowType::BlackmanHarris => 3,
            WindowType::Sine4 => 4,
        }
    }

    /// How many parts of a window make one hop of the stream (see
    /// `spec_overlap_divisor`).
    pub fn overlap_divisor(&self) -> (d: usize)
        ensures
            d == self.spec_overlap_divisor(),
            1 <= d <= 4,
    {
        match self {
            WindowType::Rectangular => 1,
            WindowType::Hann => 2,
            WindowType::Hamming => 2,
            WindowType::BlackmanHarris => 4,
            WindowType::Sine4 => 4,
        }
    }
}

/// Storing a window type as its byte and reading it back gives the same
/// window type.
pub proof fn lemma_byte_round_trip(window_type: WindowType)
    ensures
        window_type_of_byte(window_type.spec_byte()) == window_type,
{
}

/// Every valid byte is the byte of the window type it names.
pub proof fn lemma_byte_round_trip_from_byte(bits: u8)
    requires
        bits < 5,
    ensures
        window_type_of_byte(bits).spec_byte() == bits,
{
}

/// The list of window types holds each window type exactly once, at the
/// position given by its byte.
pub proof fn lemma_all_types_listed_by_byte(window_type: WindowType)
    ensures
        all_window_types()[window_type.spec_byte() as int] == window_type,
        all_window_types().len() == 5,
        all_window_types().no_duplicates(),
{
    assert(all_window_types().no_duplicates()) by {
        assert forall|i: int, j: int|
            0 <= i < 5 && 0 <= j < 5 && i != j implies all_window_types()[i]
            != all_window_types()[j] by {}
    }
}

} // verus!
