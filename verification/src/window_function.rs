use std::collections::VecDeque;
use vstd::prelude::*;

use crate::window_size::WindowSize;
use crate::window_type::WindowType;

verus! {

/// What a frame keeps for the next one: all of it past the first `hop`
/// samples.
pub open spec fn kept_for_next<T>(frame: Seq<T>, hop: nat) -> Seq<T> {
    if frame.len() > hop {
        frame.subrange(hop as int, frame.len() as int)
    } else {
        Seq::empty()
    }
}

/// The number of samples by which consecutive frames of a window of
/// `window_size` samples of type `window_type` advance.
pub open spec fn hop_of(window_type: WindowType, window_size: usize) -> usize {
    window_size / window_type.spec_overlap_divisor()
}

/// The first sample of an overlap-add buffer that is cleared for the next
/// frame, once the buffer has moved on by a hop.
pub open spec fn cleared_from(window_type: WindowType, window_size: usize) -> usize {
    ((window_type.spec_overlap_divisor() - 1) * hop_of(window_type, window_size)) as usize
}

/// The overlap-add buffer after it moves on by one hop: what was a hop
/// ahead moves to the front, and from `cleared_from` on it holds `zero`.
pub open spec fn advanced_overlap<T>(
    overlap: Seq<T>,
    window_type: WindowType,
    window_size: usize,
    zero: T,
) -> Seq<T> {
    Seq::new(
        overlap.len(),
        |i: int|
            if i < cleared_from(window_type, window_size) {
                overlap[i + hop_of(window_type, window_size)]
            } else {
                zero
            },
    )
}

/// `new` is `old` moved on by `hop` places: its first `kept` samples are
/// those `hop` places further on in `old`, and the rest are `zero`.
pub open spec fn shifted_then_cleared<T>(old: Seq<T>, new: Seq<T>, hop: int, kept: int, zero: T) -> bool {
    &&& new.len() == old.len()
    &&& forall|i: int| 0 <= i < kept && i < old.len() ==> new[i] == old[i + hop]
    &&& forall|i: int| kept <= i < old.len() ==> new[i] == zero
}

/// `new` is the overlap-add buffer `old` of a window of `window_size`
/// samples of type `window_type` after it moves on by one hop: for Hann and
/// Hamming, whose frames overlap by half, by half a window, with the second
/// half cleared; for Blackman-Harris and sin^4, whose frames overlap by
/// three quarters, by a quarter of a window, with only the last quarter
/// cleared (the other three quarters still hold the frames to come).
pub open spec fn overlap_moved_on<T>(
    old: Seq<T>,
    new: Seq<T>,
    window_type: WindowType,
    window_size: usize,
    zero: T,
) -> bool {
    match window_type {
        WindowType::Hann | WindowType::Hamming => shifted_then_cleared(
            old,
            new,
            window_size as int / 2,
            window_size as int / 2,
            zero,
        ),
        WindowType::BlackmanHarris | WindowType::Sine4 => shifted_then_cleared(
            old,
            new,
            window_size as int / 4,
            3 * (window_size as int / 4),
            zero,
        ),
        WindowType::Rectangular => new == old,
    }
}

/// Moving an overlap-add buffer on by a hop (`advanced_overlap`) shifts it
/// by half a window and clears the second half for Hann and Hamming, and
/// shifts it by a quarter of a window and clears only the last quarter for
/// Blackman-Harris and sin^4.
pub proof fn lemma_advanced_overlap_moves_on<T>(
    overlap: Seq<T>,
    window_type: WindowType,
    window_size: usize,
    zero: T,
)
    requires
        window_type != WindowType::Rectangular,
        overlap.len() == window_size,
    ensures
        overlap_moved_on(
            overlap,
            advanced_overlap(overlap, window_type, window_size, zero),
            window_type,
            window_size,
            zero,
        ),
{
    let hop = hop_of(window_type, window_size);
    let new = advanced_overlap(overlap, window_type, window_size, zero);
    if window_type == WindowType::Hann || window_type == WindowType::Hamming {
        assert(window_type.spec_overlap_divisor() == 2);
        assert(hop == window_size / 2);
        assert((window_type.spec_overlap_divisor() - 1) * hop == hop) by (nonlinear_arith)
            requires
                window_type.spec_overlap_divisor() == 2,
        ;
        assert(cleared_from(window_type, window_size) == hop);
    } else {
        assert(window_type.spec_overlap_divisor() == 4);
        assert(hop == window_size / 4);
        assert(3 * hop <= window_size);
        assert((window_type.spec_overlap_divisor() - 1) * hop == 3 * hop) by (nonlinear_arith)
            requires
                window_type.spec_overlap_divisor() == 4,
        ;
        assert(cleared_from(window_type, window_size) == 3 * hop);
    }
    assert(new.len() == overlap.len());
}

/// Consecutive frames of an overlapping window overlap: once a frame of a
/// whole window has been made, the window keeps all of it but the first
/// hop, and the next frame, made of what was kept and one hop of new
/// samples, is again a whole window, the first `window_size - hop` samples
/// of which are the last ones of the frame before.
pub proof fn lemma_frames_overlap<T>(
    window_type: WindowType,
    window_size: usize,
    frame: Seq<T>,
    data: Seq<T>,
)
    requires
        window_type != WindowType::Rectangular,
        frame.len() == window_size,
        data.len() == hop_of(window_type, window_size),
    ensures
        ({
            let hop = hop_of(window_type, window_size);
            let next = kept_for_next(frame, hop as nat) + data;
            &&& hop <= window_size
            &&& window_size > 0 ==> kept_for_next(frame, hop as nat).len() == window_size - hop
                > 0
            &&& next.len() == window_size
            &&& forall|i: int| 0 <= i < window_size - hop ==> next[i] == frame[i + hop]
            &&& forall|i: int| window_size - hop <= i < window_size ==> next[i] == data[i - (
            window_size - hop)]
        }),
{
    let d = window_type.spec_overlap_divisor();
    let hop = hop_of(window_type, window_size);
    assert(hop * d <= window_size) by (nonlinear_arith)
        requires
            hop == window_size / d,
            d > 0,
    ;
    if window_size > 0 {
        assert(hop < window_size) by (nonlinear_arith)
            requires
                hop * d <= window_size,
                d >= 2,
                window_size > 0,
        ;
    }
}

/// The number of samples a window of `window_type` and `window_size` needs
/// to make its next frame when it keeps `previous` from the last one: a
/// whole window when it keeps nothing, one hop otherwise.
pub open spec fn needed_for<T>(window_type: WindowType, window_size: usize, previous: Seq<T>) -> usize {
    if previous.len() == 0 {
        window_size
    } else {
        hop_of(window_type, window_size)
    }
}

/// What a window keeps after making a frame of `data`, when it kept
/// `previous` before: nothing for the rectangular window, and all of the
/// frame past its first hop for an overlapping one.
pub open spec fn kept_after<T>(
    window_type: WindowType,
    window_size: usize,
    previous: Seq<T>,
    data: Seq<T>,
) -> Seq<T> {
    if window_type == WindowType::Rectangular {
        Seq::empty()
    } else {
        kept_for_next(previous + data, hop_of(window_type, window_size) as nat)
    }
}

/// What a window keeps after making a frame of each of `chunks` in turn,
/// having kept `previous` before the first.
pub open spec fn kept_after_run<T>(
    window_type: WindowType,
    window_size: usize,
    previous: Seq<T>,
    chunks: Seq<Seq<T>>,
) -> Seq<T>
    decreases chunks.len(),
{
    if chunks.len() == 0 {
        previous
    } else {
        kept_after(
            window_type,
            window_size,
            kept_after_run(window_type, window_size, previous, chunks.drop_last()),
            chunks.last(),
        )
    }
}

/// Each of `chunks` holds exactly the number of samples the window needs
/// for its frame, given what it kept from the frames before.
pub open spec fn run_feeds_needed<T>(
    window_type: WindowType,
    window_size: usize,
    previous: Seq<T>,
    chunks: Seq<Seq<T>>,
) -> bool
    decreases chunks.len(),
{
    chunks.len() == 0 || {
        &&& run_feeds_needed(window_type, window_size, previous, chunks.drop_last())
        &&& chunks.last().len() == needed_for(
            window_type,
            window_size,
            kept_after_run(window_type, window_size, previous, chunks.drop_last()),
        )
    }
}

/// A hop of an overlapping window is at least one sample and less than
/// the window, once the window is at least as long as its divisor.
proof fn lemma_hop_bounds(window_type: WindowType, window_size: usize)
    requires
        window_type != WindowType::Rectangular,
        window_size >= window_type.spec_overlap_divisor(),
    ensures
        0 < hop_of(window_type, window_size) < window_size,
{
    let d = window_type.spec_overlap_divisor();
    let hop = hop_of(window_type, window_size);
    assert(0 < hop && hop * d <= window_size) by (nonlinear_arith)
        requires
            hop == window_size / d,
            2 <= d <= window_size,
    ;
    assert(hop < window_size) by (nonlinear_arith)
        requires
            hop * d <= window_size,
            d >= 2,
            hop > 0,
    ;
}

/// A window that starts fresh and is handed, frame after frame, exactly
/// the samples it asks for, needs a whole window for its first frame and
/// one hop for each frame after it (half a window for Hann and Hamming, a
/// quarter for Blackman-Harris and sin^4; a whole window each time for the
/// rectangular window), and every frame it makes is a whole window. The
/// statement is about the end of any such run, so it holds after each of
/// its frames.
pub proof fn lemma_run_of_frames<T>(window_type: WindowType, window_size: usize, chunks: Seq<Seq<T>>)
    requires
        window_size >= window_type.spec_overlap_divisor(),
        run_feeds_needed(window_type, window_size, Seq::<T>::empty(), chunks),
    ensures
        needed_for(
            window_type,
            window_size,
            kept_after_run(window_type, window_size, Seq::<T>::empty(), chunks),
        ) == if chunks.len() == 0 || window_type == WindowType::Rectangular {
            window_size
        } else {
            hop_of(window_type, window_size)
        },
        kept_after_run(window_type, window_size, Seq::<T>::empty(), chunks).len() == if chunks.len()
            == 0 || window_type == WindowType::Rectangular {
            0
        } else {
            window_size - hop_of(window_type, window_size)
        },
        chunks.len() > 0 ==> (kept_after_run(
            window_type,
            window_size,
            Seq::<T>::empty(),
            chunks.drop_last(),
        ) + chunks.last()).len() == window_size,
    decreases chunks.len(),
{
    if chunks.len() > 0 {
        lemma_run_of_frames(window_type, window_size, chunks.drop_last());
        if window_type != WindowType::Rectangular {
            lemma_hop_bounds(window_type, window_size);
        }
    }
}

/// The rectangular window: the stream is cut in frames that do not overlap.
pub struct RectangularWindow {
    window_size: usize,
}

impl RectangularWindow {
    /// The number of samples of one frame.
    pub closed spec fn spec_window_size(self) -> usize {
        self.window_size
    }

    /// A rectangular window of the given size.
    pub fn new(window_size: &WindowSize) -> (window: Self)
        ensures
            window.spec_window_size() == window_size.spec_value(),
    {
        RectangularWindow { window_size: window_size.value() }
    }

    /// The number of samples still needed to make a frame: always a whole
    /// window, since frames do not overlap.
    pub fn needed(&self) -> (n: usize)
        ensures
            n == self.spec_window_size(),
    {
        self.window_size
    }

    /// Takes on a new window size.
    pub fn resize(&mut self, window_size: &WindowSize)
        ensures
            final(self).spec_window_size() == window_size.spec_value(),
    {
        *self = RectangularWindow::new(window_size);
    }
}

/// An overlapping window (Hann, Hamming, Blackman-Harris or sin^4): each
/// frame shares all but one hop of its samples with the one before, and the
/// inverse transforms of the frames are added up where they overlap.
///
/// This holds the samples kept from one frame for the next and the
/// overlap-add buffer; the coefficients of the window are applied to the
/// samples by the caller.
pub struct OverlappingWindow<T> {
    window_type: WindowType,
    window_size: usize,
    kept: Kept<T>,
    overlap_add: Vec<T>,
}

/// The samples a window keeps from its last frame for the next one, and the
/// data of each frame it has made, in order.
struct Kept<T> {
    previous: Vec<T>,
    frames: Ghost<Seq<Seq<T>>>,
}

impl<T> OverlappingWindow<T> {
    /// The overlap-add buffer spans one window, the window is of an
    /// overlapping type, and the samples kept are what the frames made so
    /// far leave (see `kept_after_run`).
    #[verifier::type_invariant]
    spec fn inv(self) -> bool {
        &&& self.overlap_add@.len() == self.window_size
        &&& self.window_type != WindowType::Rectangular
        &&& self.kept.previous@ == kept_after_run(
            self.window_type,
            self.window_size,
            Seq::<T>::empty(),
            self.kept.frames@,
        )
    }
}

impl<T: Copy> OverlappingWindow<T> {
    pub closed spec fn spec_window_type(self) -> WindowType {
        self.window_type
    }

    pub closed spec fn spec_window_size(self) -> usize {
        self.window_size
    }

    /// The samples kept from the last frame for the next one.
    pub closed spec fn spec_previous(self) -> Seq<T> {
        self.kept.previous@
    }

    /// The data of each frame made so far, in order.
    pub closed spec fn spec_frames(self) -> Seq<Seq<T>> {
        self.kept.frames@
    }

    /// The overlap-add buffer.
    pub closed spec fn spec_overlap(self) -> Seq<T> {
        self.overlap_add@
    }


    /// A window of the given type and size that has seen no frame yet, its
    /// overlap-add buffer full of `zero`.
    pub fn new(window_type: WindowType, window_size: &WindowSize, zero: T) -> (window: Self)
        requires
            window_type != WindowType::Rectangular,
        ensures
            window.spec_window_type() == window_type,
            window.spec_window_size() == window_size.spec_value(),
            window.spec_previous() == Seq::<T>::empty(),
            window.spec_frames() == Seq::<Seq<T>>::empty(),
            window.spec_overlap() == Seq::new(window_size.spec_value() as nat, |i: int| zero),
    {
        let size = window_size.value();
        let mut overlap_add: Vec<T> = Vec::with_capacity(size);
        let mut i: usize = 0;
        while i < size
            invariant
                i <= size,
                overlap_add@ == Seq::new(i as nat, |k: int| zero),
            decreases size - i,
        {
            overlap_add.push(zero);
            i = i + 1;
            assert(overlap_add@ =~= Seq::new(i as nat, |k: int| zero));
        }
        let hop = size / window_type.overlap_divisor();
        OverlappingWindow {
            window_type,
            window_size: size,
            kept: Kept { previous: Vec::with_capacity(size - hop), frames: Ghost(Seq::empty()) },
            overlap_add,
        }
    }

    /// The number of samples by which consecutive frames advance.
    pub fn hop(&self) -> (hop: usize)
        ensures
            hop == hop_of(self.spec_window_type(), self.spec_window_size()),
    {
        self.window_size / self.window_type.overlap_divisor()
    }

    /// The number of samples still needed to make a frame: a whole window
    /// for the first frame, one hop for each frame after it.
    ///
    /// So a window that has been handed, for each frame, exactly what it
    /// needed, needs a whole window before its first frame and one hop
    /// after each (see `lemma_run_of_frames`).
    pub fn needed(&self) -> (n: usize)
        ensures
            n == if self.spec_previous().len() == 0 {
                self.spec_window_size()
            } else {
                hop_of(self.spec_window_type(), self.spec_window_size())
            },
            self.spec_window_size() >= self.spec_window_type().spec_overlap_divisor()
                && run_feeds_needed(
                self.spec_window_type(),
                self.spec_window_size(),
                Seq::<T>::empty(),
                self.spec_frames(),
            ) ==> n == if self.spec_frames().len() == 0 {
                self.spec_window_size()
            } else {
                hop_of(self.spec_window_type(), self.spec_window_size())
            } && self.spec_previous().len() + n == self.spec_window_size(),
    {
        proof {
            use_type_invariant(self);
            if self.window_size >= self.window_type.spec_overlap_divisor() && run_feeds_needed(
                self.window_type,
                self.window_size,
                Seq::<T>::empty(),
                self.kept.frames@,
            ) {
                lemma_run_of_frames(self.window_type, self.window_size, self.kept.frames@);
            }
        }
        if self.kept.previous.len() == 0 {
            self.window_size
        } else {
            self.hop()
        }
    }

    /// Makes a frame of `data`: the samples kept from the last frame are put
    /// in front of it, and all of the frame past its first hop is kept for
    /// the next one.
    pub fn apply(&mut self, data: &mut VecDeque<T>)
        requires
            old(self).spec_previous().len() + old(data)@.len() <= old(self).spec_window_size(),
        ensures
            final(data)@ == old(self).spec_previous() + old(data)@,
            final(self).spec_previous() == kept_for_next(
                final(data)@,
                hop_of(old(self).spec_window_type(), old(self).spec_window_size()) as nat,
            ),
            final(self).spec_frames() == old(self).spec_frames().push(old(data)@),
            final(self).spec_window_type() == old(self).spec_window_type(),
            final(self).spec_window_size() == old(self).spec_window_size(),
            final(self).spec_overlap() == old(self).spec_overlap(),
    {
        let hop = self.hop();
        // work on the kept samples apart from the window, and put them back
        proof {
            use_type_invariant(&*self);
        }
        let ghost data_in = data@;
        let mut taken = Kept { previous: Vec::new(), frames: Ghost(Seq::empty()) };
        std::mem::swap(&mut taken, &mut self.kept);
        let ghost frames = taken.frames@;
        let mut previous = taken.previous;
        let ghost kept = previous@;
        assert(kept == old(self).kept.previous@);
        if previous.len() != 0 {
            // in a sliding window the samples of the last frame come first
            let ghost data0 = data@;
            let mut k = previous.len();
            while k > 0
                invariant
                    k <= previous@.len(),
                    previous@ == kept,
                    data@ == previous@.subrange(k as int, previous@.len() as int) + data0,
                decreases k,
            {
                k = k - 1;
                data.push_front(previous[k]);
                assert(data@ =~= previous@.subrange(k as int, previous@.len() as int) + data0);
            }
            assert(previous@.subrange(0, previous@.len() as int) =~= previous@);
        }
        // keep the latter part of this frame for the next one
        let ghost frame = data@;
        previous.clear();
        let mut i = hop;
        while i < data.len()
            invariant
                data@ == frame,
                hop <= i <= frame.len() || (i == hop && frame.len() <= hop),
                frame.len() > hop ==> previous@ == frame.subrange(hop as int, i as int),
                frame.len() <= hop ==> previous@ == Seq::<T>::empty(),
            decreases data@.len() - i,
        {
            previous.push(data[i]);
            i = i + 1;
            assert(previous@ =~= frame.subrange(hop as int, i as int));
        }
        assert(frame.len() > hop ==> frame.subrange(hop as int, frame.len() as int) == previous@);
        proof {
            assert(frames.push(data_in).drop_last() =~= frames);
        }
        self.kept = Kept { previous, frames: Ghost(frames.push(data_in)) };
    }

    /// The sample at position `i` of the overlap-add buffer.
    pub fn overlap_value(&self, i: usize) -> (v: T)
        requires
            i < self.spec_window_size(),
        ensures
            v == self.spec_overlap()[i as int],
    {
        proof {
            use_type_invariant(self);
        }
        self.overlap_add[i]
    }

    /// Sets the sample at position `i` of the overlap-add buffer.
    pub fn set_overlap_value(&mut self, i: usize, v: T)
        requires
            i < old(self).spec_window_size(),
        ensures
            final(self).spec_overlap() == old(self).spec_overlap().update(i as int, v),
            final(self).spec_previous() == old(self).spec_previous(),
            final(self).spec_window_type() == old(self).spec_window_type(),
            final(self).spec_window_size() == old(self).spec_window_size(),
    {
        proof {
            use_type_invariant(&*self);
        }
        self.overlap_add[i] = v;
    }

    /// Moves the overlap-add buffer on by one hop, clearing the part that
    /// the next frame adds to first.
    pub fn advance_overlap(&mut self, zero: T)
        ensures
            final(self).spec_overlap() == advanced_overlap(
                old(self).spec_overlap(),
                old(self).spec_window_type(),
                old(self).spec_window_size(),
                zero,
            ),
            overlap_moved_on(
                old(self).spec_overlap(),
                final(self).spec_overlap(),
                old(self).spec_window_type(),
                old(self).spec_window_size(),
                zero,
            ),
            final(self).spec_previous() == old(self).spec_previous(),
            final(self).spec_window_type() == old(self).spec_window_type(),
            final(self).spec_window_size() == old(self).spec_window_size(),
    {
        proof {
            use_type_invariant(&*self);
        }
        let hop = self.hop();
        let d = self.window_type.overlap_divisor();
        let size = self.window_size;
        proof {
            assert(d * (size / d) <= size) by (nonlinear_arith)
                requires
                    d > 0,
            ;
            assert((d - 1) * hop + hop == d * hop) by (nonlinear_arith);
        }
        let tail = (d - 1) * hop;
        let ghost old_overlap = self.overlap_add@;
        let mut i: usize = 0;
        while i < tail
            invariant
                tail + hop <= size,
                self.window_type == old(self).window_type,
                self.kept.previous@ == old(self).kept.previous@,
                self.kept.frames == old(self).kept.frames,
                self.kept.previous@ == kept_after_run(
                    self.window_type,
                    self.window_size,
                    Seq::<T>::empty(),
                    self.kept.frames@,
                ),
                tail == cleared_from(self.window_type, size),
                hop == hop_of(self.window_type, size),
                self.overlap_add@.len() == size,
                self.window_type != WindowType::Rectangular,
                self.window_size == size,
                old_overlap.len() == size,
                i <= tail,
                forall|k: int| 0 <= k < i ==> self.overlap_add@[k] == old_overlap[k + hop],
                forall|k: int| i <= k < size ==> self.overlap_add@[k] == old_overlap[k],
            decreases tail - i,
        {
            let v = self.overlap_add[i + hop];
            self.overlap_add[i] = v;
            i = i + 1;
        }
        while i < size
            invariant
                tail <= i <= size,
                self.window_type == old(self).window_type,
                self.kept.previous@ == old(self).kept.previous@,
                self.kept.frames == old(self).kept.frames,
                self.kept.previous@ == kept_after_run(
                    self.window_type,
                    self.window_size,
                    Seq::<T>::empty(),
                    self.kept.frames@,
                ),
                tail == cleared_from(self.window_type, size),
                hop == hop_of(self.window_type, size),
                self.overlap_add@.len() == size,
                self.window_type != WindowType::Rectangular,
                self.window_size == size,
                old_overlap.len() == size,
                forall|k: int| 0 <= k < tail ==> self.overlap_add@[k] == old_overlap[k + hop],
                forall|k: int| tail <= k < i ==> self.overlap_add@[k] == zero,
            decreases size - i,
        {
            self.overlap_add[i] = zero;
            i = i + 1;
        }
        assert(self.overlap_add@ =~= advanced_overlap(old_overlap, self.window_type, size, zero));
    }
}

/// A window function of any type, as one frame source.
pub enum WindowFunction<T> {
    Rectangular(RectangularWindow),
    Overlapping(OverlappingWindow<T>),
}

impl<T: Copy> WindowFunction<T> {
    pub open spec fn spec_window_type(self) -> WindowType {
        match self {
            WindowFunction::Rectangular(_) => WindowType::Rectangular,
            WindowFunction::Overlapping(w) => w.spec_window_type(),
        }
    }

    pub open spec fn spec_window_size(self) -> usize {
        match self {
            WindowFunction::Rectangular(w) => w.spec_window_size(),
            WindowFunction::Overlapping(w) => w.spec_window_size(),
        }
    }

    /// The number of samples by which consecutive frames advance.
    pub open spec fn spec_hop(self) -> usize {
        hop_of(self.spec_window_type(), self.spec_window_size())
    }

    /// The samples kept from the last frame for the next one (never any for
    /// the rectangular window).
    pub open spec fn spec_previous(self) -> Seq<T> {
        match self {
            WindowFunction::Rectangular(_) => Seq::empty(),
            WindowFunction::Overlapping(w) => w.spec_previous(),
        }
    }

    /// The data of each frame an overlapping window has made, in order (the
    /// rectangular window keeps no account of its frames).
    pub open spec fn spec_frames(self) -> Seq<Seq<T>> {
        match self {
            WindowFunction::Rectangular(_) => Seq::empty(),
            WindowFunction::Overlapping(w) => w.spec_frames(),
        }
    }

    /// Each frame made so far was made of exactly the samples the window
    /// needed for it.
    pub open spec fn fed_as_needed(self) -> bool {
        run_feeds_needed(
            self.spec_window_type(),
            self.spec_window_size(),
            Seq::<T>::empty(),
            self.spec_frames(),
        )
    }

    /// The overlap-add buffer (none for the rectangular window).
    pub open spec fn spec_overlap(self) -> Seq<T> {
        match self {
            WindowFunction::Rectangular(_) => Seq::empty(),
            WindowFunction::Overlapping(w) => w.spec_overlap(),
        }
    }

    /// The window has seen no frame yet: it is of type `window_type` and
    /// size `window_size`, keeps no samples, and its overlap-add buffer
    /// holds `zero` throughout.
    pub open spec fn is_fresh(self, window_type: WindowType, window_size: usize, zero: T) -> bool {
        &&& self.spec_window_type() == window_type
        &&& self.spec_window_size() == window_size
        &&& self.spec_previous() == Seq::<T>::empty()
        &&& self.spec_frames() == Seq::<Seq<T>>::empty()
        &&& window_type != WindowType::Rectangular ==> self.spec_overlap() == Seq::new(
            window_size as nat,
            |i: int| zero,
        )
    }

    /// Whether `data` can be made into a frame: an overlapping window cannot
    /// make a frame longer than itself.
    pub open spec fn fits(self, data_len: nat) -> bool {
        self.spec_window_type() != WindowType::Rectangular ==> self.spec_previous().len()
            + data_len <= self.spec_window_size()
    }

    /// The type of this window.
    pub fn window_type(&self) -> (window_type: WindowType)
        ensures
            window_type == self.spec_window_type(),
    {
        match self {
            WindowFunction::Rectangular(_) => WindowType::Rectangular,
            WindowFunction::Overlapping(w) => w.window_type,
        }
    }

    /// The number of samples kept from the last frame for the next one.
    pub fn kept_len(&self) -> (n: usize)
        ensures
            n == self.spec_previous().len(),
    {
        match self {
            WindowFunction::Rectangular(_) => 0,
            WindowFunction::Overlapping(w) => w.kept.previous.len(),
        }
    }

    /// The number of samples of one frame.
    pub fn window_size(&self) -> (n: usize)
        ensures
            n == self.spec_window_size(),
    {
        match self {
            WindowFunction::Rectangular(w) => w.window_size,
            WindowFunction::Overlapping(w) => w.window_size,
        }
    }

    /// The number of samples still needed to make a frame: a whole window
    /// for the first frame, one hop for each frame after it.
    pub fn needed(&self) -> (n: usize)
        ensures
            n == if self.spec_previous().len() == 0 {
                self.spec_window_size()
            } else {
                self.spec_hop()
            },
            n == needed_for(self.spec_window_type(), self.spec_window_size(), self.spec_previous()),
            self.spec_window_size() >= self.spec_window_type().spec_overlap_divisor()
                && self.fed_as_needed() ==> n == if self.spec_frames().len() == 0
                || self.spec_window_type() == WindowType::Rectangular {
                self.spec_window_size()
            } else {
                self.spec_hop()
            } && self.spec_previous().len() + n == self.spec_window_size() && self.fits(n as nat),
    {
        match self {
            WindowFunction::Rectangular(w) => w.needed(),
            WindowFunction::Overlapping(w) => w.needed(),
        }
    }

    /// Makes a frame of `data` (see `OverlappingWindow::apply`); the
    /// rectangular window leaves the data as it is.
    pub fn apply(&mut self, data: &mut VecDeque<T>)
        requires
            old(self).fits(old(data)@.len()),
        ensures
            final(data)@ == old(self).spec_previous() + old(data)@,
            final(self).spec_previous() == if old(self).spec_window_type()
                == WindowType::Rectangular {
                Seq::<T>::empty()
            } else {
                kept_for_next(final(data)@, old(self).spec_hop() as nat)
            },
            final(self).spec_previous() == kept_after(
                old(self).spec_window_type(),
                old(self).spec_window_size(),
                old(self).spec_previous(),
                old(data)@,
            ),
            final(self).spec_frames() == if old(self).spec_window_type() == WindowType::Rectangular {
                Seq::<Seq<T>>::empty()
            } else {
                old(self).spec_frames().push(old(data)@)
            },
            old(self).fed_as_needed() && (old(self).spec_window_type() == WindowType::Rectangular
                || old(data)@.len() == needed_for(
                old(self).spec_window_type(),
                old(self).spec_window_size(),
                old(self).spec_previous(),
            )) ==> final(self).fed_as_needed(),
            final(self).spec_window_type() == old(self).spec_window_type(),
            final(self).spec_window_size() == old(self).spec_window_size(),
            final(self).spec_overlap() == old(self).spec_overlap(),
    {
        match self {
            WindowFunction::Rectangular(_) => {
                assert(Seq::<T>::empty() + data@ =~= data@);
            },
            WindowFunction::Overlapping(w) => {
                proof {
                    use_type_invariant(&*w);
                    let frames = w.spec_frames();
                    assert(frames.push(data@).drop_last() =~= frames);
                }
                w.apply(data)
            },
        }
    }

    /// The number of samples by which consecutive frames advance.
    pub fn hop(&self) -> (hop: usize)
        ensures
            hop == self.spec_hop(),
    {
        let d = self.window_type().overlap_divisor();
        self.window_size() / d
    }

    /// Sets the sample at position `i` of the overlap-add buffer of an
    /// overlapping window.
    pub fn set_overlap_value(&mut self, i: usize, v: T)
        requires
            old(self).spec_window_type() != WindowType::Rectangular,
            i < old(self).spec_window_size(),
        ensures
            final(self).spec_overlap() == old(self).spec_overlap().update(i as int, v),
            final(self).spec_previous() == old(self).spec_previous(),
            final(self).spec_window_type() == old(self).spec_window_type(),
            final(self).spec_window_size() == old(self).spec_window_size(),
    {
        match self {
            WindowFunction::Rectangular(_) => {},
            WindowFunction::Overlapping(w) => w.set_overlap_value(i, v),
        }
    }

    /// Moves the overlap-add buffer of an overlapping window on by one hop
    /// (see `advanced_overlap`).
    pub fn advance_overlap(&mut self, zero: T)
        requires
            old(self).spec_window_type() != WindowType::Rectangular,
        ensures
            final(self).spec_overlap() == advanced_overlap(
                old(self).spec_overlap(),
                old(self).spec_window_type(),
                old(self).spec_window_size(),
                zero,
            ),
            overlap_moved_on(
                old(self).spec_overlap(),
                final(self).spec_overlap(),
                old(self).spec_window_type(),
                old(self).spec_window_size(),
                zero,
            ),
            final(self).spec_previous() == old(self).spec_previous(),
            final(self).spec_window_type() == old(self).spec_window_type(),
            final(self).spec_window_size() == old(self).spec_window_size(),
    {
        match self {
            WindowFunction::Rectangular(_) => {},
            WindowFunction::Overlapping(w) => w.advance_overlap(zero),
        }
    }

    /// Takes on a new window size: the window starts over, as if it had
    /// seen no frame.
    pub fn resize(&mut self, window_size: &WindowSize, zero: T)
        ensures
            final(self).is_fresh(old(self).spec_window_type(), window_size.spec_value(), zero),
    {
        let window_type = self.window_type();
        *self = window_type.new_function(window_size, zero);
    }
}

impl WindowType {
    /// A window function of this type and the given size, that has seen no
    /// frame yet; its overlap-add buffer holds `zero`.
    pub fn new_function<T: Copy>(&self, window_size: &WindowSize, zero: T) -> (window:
        WindowFunction<T>)
        ensures
            window.is_fresh(*self, window_size.spec_value(), zero),
    {
        match self {
            WindowType::Rectangular => WindowFunction::Rectangular(RectangularWindow::new(window_size)),
            _ => WindowFunction::Overlapping(OverlappingWindow::new(*self, window_size, zero)),
        }
    }
}

} // verus!
