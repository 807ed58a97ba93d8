use vstd::prelude::*;

verus! {

/// The number of samples in one analysis window.
///
/// The named variants are the sizes offered to the user; `Custom` holds any
/// other size.
#[derive(Debug, Clone, Copy, PartialEq, Eq, Structural)]
pub enum WindowSize {
    Size128,
    Size256,
    Size512,
    Size1024,
    Size2048,
    Size4096,
    Size8192,
    Size16384,
    Size32768,
    Custom(usize),
}

/// The sizes that have a variant of their own, in increasing order.
pub open spec fn standard_sizes() -> Seq<usize> {
    seq![128usize, 256, 512, 1024, 2048, 4096, 8192, 16384, 32768]
}

/// Whether `n` is one of the sizes that have a variant of their own.
pub open spec fn is_standard_size(n: usize) -> bool {
    standard_sizes().contains(n)
}

/// The window size that stands for `n` samples.
pub open spec fn window_size_of(n: usize) -> WindowSize {
    if n == 128 {
        WindowSize::Size128
    } else if n == 256 {
        WindowSize::Size256
    } else if n == 512 {
        WindowSize::Size512
    } else if n == 1024 {
        WindowSize::Size1024
    } else if n == 2048 {
        WindowSize::Size2048
    } else if n == 4096 {
        WindowSize::Size4096
    } else if n == 8192 {
        WindowSize::Size8192
    } else if n == 16384 {
        WindowSize::Size16384
    } else if n == 32768 {
        WindowSize::Size32768
    } else {
        WindowSize::Custom(n)
    }
}

impl WindowSize {
    /// The number of samples of this window size.
    pub open spec fn spec_value(self) -> usize {
        match self {
            WindowSize::Size128 => 128,
            WindowSize::Size256 => 256,
            WindowSize::Size512 => 512,
            WindowSize::Size1024 => 1024,
            WindowSize::Size2048 => 2048,
            WindowSize::Size4096 => 4096,
            WindowSize::Size8192 => 8192,
            WindowSize::Size16384 => 16384,
            WindowSize::Size32768 => 32768,
            WindowSize::Custom(x) => x,
        }
    }

    /// A window size is canonical when a `Custom` never holds a size that
    /// has a variant of its own; `from` only ever builds canonical sizes.
    pub open spec fn is_canonical(self) -> bool {
        match self {
            WindowSize::Custom(x) => !is_standard_size(x),
            _ => true,
        }
    }

    /// The label shown for this window size.
    pub open spec fn spec_label(self) -> Seq<char> {
        match self {
            WindowSize::Size128 => "128"@,
            WindowSize::Size256 => "256"@,
            WindowSize::Size512 => "512"@,
            WindowSize::Size1024 => "1024"@,
            WindowSize::Size2048 => "2048"@,
            WindowSize::Size4096 => "4096"@,
            WindowSize::Size8192 => "8192"@,
            WindowSize::Size16384 => "16384"@,
            WindowSize::Size32768 => "32768"@,
            WindowSize::Custom(_) => ""@,
        }
    }

    /// The label shown for this window size: its number of samples for the
    /// named sizes, the empty string for a custom one.
    pub fn as_str(&self) -> (label: &'static str)
        ensures
            label@ == self.spec_label(),
    {
        proof {
            reveal_strlit("128");
            reveal_strlit("256");
            reveal_strlit("512");
            reveal_strlit("1024");
            reveal_strlit("2048");
            reveal_strlit("4096");
            reveal_strlit("8192");
            reveal_strlit("16384");
            reveal_strlit("32768");
            reveal_strlit("");
        }
        match self {
            WindowSize::Size128 => "128",
            WindowSize::Size256 => "256",
            WindowSize::Size512 => "512",
            WindowSize::Size1024 => "1024",
            WindowSize::Size2048 => "2048",
            WindowSize::Size4096 => "4096",
            WindowSize::Size8192 => "8192",
            WindowSize::Size16384 => "16384",
            WindowSize::Size32768 => "32768",
            WindowSize::Custom(_) => "",
        }
    }

    /// The number of samples of this window size.
    pub fn value(&self) -> (n: usize)
        ensures
            n == self.spec_value(),
    {
        match self {
            WindowSize::Size128 => 128,
            WindowSize::Size256 => 256,
            WindowSize::Size512 => 512,
            WindowSize::Size1024 => 1024,
            WindowSize::Size2048 => 2048,
            WindowSize::Size4096 => 4096,
            WindowSize::Size8192 => 8192,
            WindowSize::Size16384 => 16384,
            WindowSize::Size32768 => 32768,
            WindowSize::Custom(x) => *x,
        }
    }

    /// The sizes offered to the user, smallest first.
    pub fn into_iter() -> (sizes: Vec<WindowSize>)
        ensures
            sizes@.len() == 9,
            forall|i: int| 0 <= i < 9 ==> (#[trigger] sizes@[i]) == window_size_of(standard_sizes()[i]),
    {
        vec![
            WindowSize::Size128,
            WindowSize::Size256,
            WindowSize::Size512,
            WindowSize::Size1024,
            WindowSize::Size2048,
            WindowSize::Size4096,
            WindowSize::Size8192,
            WindowSize::Size16384,
            WindowSize::Size32768,
        ]
    }
}

impl From<usize> for WindowSize {
    fn from(item: usize) -> (size: WindowSize) {
        match item {
            128 => WindowSize::Size128,
            256 => WindowSize::Size256,
            512 => WindowSize::Size512,
            1024 => WindowSize::Size1024,
            2048 => WindowSize::Size2048,
            4096 => WindowSize::Size4096,
            8192 => WindowSize::Size8192,
            16384 => WindowSize::Size16384,
            32768 => WindowSize::Size32768,
            _ => WindowSize::Custom(item),
        }
    }
}

impl vstd::std_specs::convert::FromSpecImpl<usize> for WindowSize {
    open spec fn obeys_from_spec() -> bool {
        true
    }

    open spec fn from_spec(item: usize) -> WindowSize {
        window_size_of(item)
    }
}

/// The sizes with a variant of their own are those listed by
/// `standard_sizes`, in that order.
proof fn lemma_standard_sizes()
    ensures
        standard_sizes().len() == 9,
        standard_sizes()[0] == 128,
        standard_sizes()[1] == 256,
        standard_sizes()[2] == 512,
        standard_sizes()[3] == 1024,
        standard_sizes()[4] == 2048,
        standard_sizes()[5] == 4096,
        standard_sizes()[6] == 8192,
        standard_sizes()[7] == 16384,
        standard_sizes()[8] == 32768,
{
}

/// The window size that stands for `n` samples has `n` samples.
pub proof fn lemma_value_of_from(n: usize)
    ensures
        window_size_of(n).spec_value() == n,
        window_size_of(n).is_canonical(),
{
    lemma_standard_sizes();
}

/// A canonical window size is what `from` makes of its number of samples.
pub proof fn lemma_from_of_value(size: WindowSize)
    requires
        size.is_canonical(),
    ensures
        window_size_of(size.spec_value()) == size,
{
    if let WindowSize::Custom(x) = size {
        if x == 128 || x == 256 || x == 512 || x == 1024 || x == 2048 || x == 4096 || x == 8192
            || x == 16384 || x == 32768 {
            lemma_standard_sizes();
            assert(is_standard_size(x));
        }
    }
}

} // verus!
