use std::collections::VecDeque;
use vstd::prelude::*;

use crate::window_function::{
    WindowFunction, advanced_overlap, kept_after, kept_for_next, needed_for, overlap_moved_on,
};
use crate::window_size::{WindowSize, window_size_of};
use crate::window_type::{DEFAULT_WINDOW_TYPE, WindowType};

verus! {

/// The sample side of a windowed short-time transform: samples come in one
/// at a time, are cut into (overlapping) frames by the window function, and
/// the frames that come back from the transform are handed out one sample
/// at a time.
///
/// The transform itself, and the coefficients of the window, are applied by
/// the caller to the frames this stream hands out.
pub struct WindowedStream<T> {
    window_function: WindowFunction<T>,
    input: VecDeque<T>,
    output: VecDeque<T>,
    zero: T,
}

impl<T: Copy> WindowedStream<T> {
    /// The number of samples of one window.
    pub closed spec fn spec_window_size(self) -> usize {
        self.window_function.spec_window_size()
    }

    pub closed spec fn spec_window_function(self) -> WindowFunction<T> {
        self.window_function
    }

    /// The samples received since the last frame was taken.
    pub closed spec fn spec_input(self) -> Seq<T> {
        self.input@
    }

    /// The samples of the last frame not yet handed out.
    pub closed spec fn spec_output(self) -> Seq<T> {
        self.output@
    }

    /// The silent sample, handed out when no frame has come back yet.
    pub closed spec fn spec_zero(self) -> T {
        self.zero
    }

    /// The number of samples still needed to make a frame.
    pub open spec fn spec_needed(self) -> usize {
        let w = self.spec_window_function();
        needed_for(w.spec_window_type(), w.spec_window_size(), w.spec_previous())
    }

    /// A stream for windows of `window_size` samples, using the default
    /// window type, that has received nothing; `zero` is the silent sample.
    pub fn new(window_size: WindowSize, zero: T) -> (stream: Self)
        ensures
            stream.spec_window_size() == window_size.spec_value(),
            stream.spec_window_function().is_fresh(
                DEFAULT_WINDOW_TYPE,
                window_size.spec_value(),
                zero,
            ),
            stream.spec_input() == Seq::<T>::empty(),
            stream.spec_output() == Seq::<T>::empty(),
            stream.spec_zero() == zero,
    {
        let window_function = DEFAULT_WINDOW_TYPE.new_function(&window_size, zero);
        let size = window_size.value();
        WindowedStream {
            window_function,
            input: VecDeque::with_capacity(size),
            output: VecDeque::with_capacity(size),
            zero,
        }
    }

    /// The number of samples of one window.
    pub fn window_len(&self) -> (n: usize)
        ensures
            n == self.spec_window_size(),
    {
        self.window_function.window_size()
    }

    /// The type of the window function in use.
    pub fn window_type(&self) -> (window_type: WindowType)
        ensures
            window_type == self.spec_window_function().spec_window_type(),
    {
        self.window_function.window_type()
    }

    /// Switches to a window function of the given type, which starts over
    /// as if it had seen no frame; the samples held are kept.
    pub fn window_function(&mut self, window_type: &WindowType)
        ensures
            final(self).spec_window_function().is_fresh(
                *window_type,
                old(self).spec_window_size(),
                old(self).spec_zero(),
            ),
            final(self).spec_window_size() == old(self).spec_window_size(),
            final(self).spec_input() == old(self).spec_input(),
            final(self).spec_output() == old(self).spec_output(),
            final(self).spec_zero() == old(self).spec_zero(),
    {
        let size = WindowSize::from(self.window_function.window_size());
        self.window_function = window_type.new_function(&size, self.zero);
    }

    /// Takes on a new window size, unless `window_size` is the size in use
    /// (as `WindowSize::from` names it). On a change, the window function
    /// starts over at the new size and every sample held is dropped. Returns
    /// whether the size changed, so that the transform can be planned anew.
    pub fn window_size(&mut self, window_size: WindowSize) -> (changed: bool)
        ensures
            changed == (window_size != window_size_of(old(self).spec_window_size())),
            changed ==> {
                &&& final(self).spec_window_size() == window_size.spec_value()
                &&& final(self).spec_window_function().is_fresh(
                    old(self).spec_window_function().spec_window_type(),
                    window_size.spec_value(),
                    old(self).spec_zero(),
                )
                &&& final(self).spec_input() == Seq::<T>::empty()
                &&& final(self).spec_output() == Seq::<T>::empty()
            },
            !changed ==> *final(self) == *old(self),
            final(self).spec_zero() == old(self).spec_zero(),
    {
        if window_size == WindowSize::from(self.window_function.window_size()) {
            return false;
        }
        self.window_function.resize(&window_size, self.zero);
        self.input.clear();
        self.output.clear();
        true
    }

    /// Drops the samples received since the last frame.
    pub fn clear_input(&mut self)
        ensures
            final(self).spec_input() == Seq::<T>::empty(),
            final(self).spec_window_size() == old(self).spec_window_size(),
            final(self).spec_window_function() == old(self).spec_window_function(),
            final(self).spec_output() == old(self).spec_output(),
            final(self).spec_zero() == old(self).spec_zero(),
    {
        self.input.clear();
    }

    /// Receives one sample; returns whether enough samples have come in to
    /// make a frame.
    pub fn push_back_input(&mut self, value: T) -> (ready: bool)
        ensures
            final(self).spec_input() == old(self).spec_input().push(value),
            ready == (final(self).spec_input().len() >= old(self).spec_needed()),
            final(self).spec_window_size() == old(self).spec_window_size(),
            final(self).spec_window_function() == old(self).spec_window_function(),
            final(self).spec_output() == old(self).spec_output(),
            final(self).spec_zero() == old(self).spec_zero(),
    {
        self.input.push_back(value);
        self.input.len() >= self.window_function.needed()
    }

    /// Hands out the next sample of the last frame, or the silent sample
    /// when there is none.
    pub fn pop_front_output(&mut self) -> (sample: T)
        ensures
            old(self).spec_output().len() > 0 ==> {
                &&& sample == old(self).spec_output()[0]
                &&& final(self).spec_output() == old(self).spec_output().subrange(
                    1,
                    old(self).spec_output().len() as int,
                )
            },
            old(self).spec_output().len() == 0 ==> {
                &&& sample == old(self).spec_zero()
                &&& final(self).spec_output() == old(self).spec_output()
            },
            final(self).spec_window_size() == old(self).spec_window_size(),
            final(self).spec_window_function() == old(self).spec_window_function(),
            final(self).spec_input() == old(self).spec_input(),
            final(self).spec_zero() == old(self).spec_zero(),
    {
        match self.output.pop_front() {
            Some(sample) => sample,
            None => self.zero,
        }
    }

    /// Whether the samples received can be made into a frame (an
    /// overlapping window cannot make a frame longer than itself).
    pub fn frame_fits(&self) -> (fits: bool)
        ensures
            fits == self.spec_window_function().fits(self.spec_input().len()),
    {
        match self.window_function.window_type() {
            WindowType::Rectangular => true,
            _ => {
                let size = self.window_function.window_size();
                let kept = self.window_function.kept_len();
                self.input.len() <= size && kept <= size - self.input.len()
            },
        }
    }

    /// Makes the samples received into a frame: the samples kept from the
    /// last frame are put in front of them. The frame is written into
    /// `frame` (whose room is reused), ready for the window's coefficients
    /// and the forward transform.
    pub fn forward_frame(&mut self, frame: &mut Vec<T>)
        requires
            old(self).spec_window_function().fits(old(self).spec_input().len()),
        ensures
            final(frame)@ == old(self).spec_window_function().spec_previous() + old(
                self,
            ).spec_input(),
            final(self).spec_input() == final(frame)@,
            final(self).spec_window_function().spec_previous() == if old(
                self,
            ).spec_window_function().spec_window_type() == WindowType::Rectangular {
                Seq::<T>::empty()
            } else {
                kept_for_next(final(frame)@, old(self).spec_window_function().spec_hop() as nat)
            },
            final(self).spec_window_function().spec_previous() == kept_after(
                old(self).spec_window_function().spec_window_type(),
                old(self).spec_window_size(),
                old(self).spec_window_function().spec_previous(),
                old(self).spec_input(),
            ),
            final(self).spec_window_function().spec_frames() == if old(
                self,
            ).spec_window_function().spec_window_type() == WindowType::Rectangular {
                Seq::<Seq<T>>::empty()
            } else {
                old(self).spec_window_function().spec_frames().push(old(self).spec_input())
            },
            old(self).spec_window_function().fed_as_needed() && (old(
                self,
            ).spec_window_function().spec_window_type() == WindowType::Rectangular
                || old(self).spec_input().len() == old(self).spec_needed())
                ==> final(self).spec_window_function().fed_as_needed(),
            final(self).spec_window_function().spec_window_type() == old(
                self,
            ).spec_window_function().spec_window_type(),
            final(self).spec_window_function().spec_overlap() == old(
                self,
            ).spec_window_function().spec_overlap(),
            final(self).spec_window_size() == old(self).spec_window_size(),
            final(self).spec_output() == old(self).spec_output(),
            final(self).spec_zero() == old(self).spec_zero(),
    {
        self.window_function.apply(&mut self.input);
        let len = self.input.len();
        frame.clear();
        let mut i: usize = 0;
        while i < len
            invariant
                i <= len,
                len == self.input@.len(),
                frame@ == self.input@.subrange(0, i as int),
            decreases len - i,
        {
            frame.push(self.input[i]);
            i = i + 1;
            assert(frame@ =~= self.input@.subrange(0, i as int));
        }
        assert(frame@ =~= self.input@);
    }

    /// The number of samples by which consecutive frames advance.
    pub fn hop(&self) -> (hop: usize)
        ensures
            hop == self.spec_window_function().spec_hop(),
    {
        self.window_function.hop()
    }

    /// The sample at position `i` of the overlap-add buffer of an
    /// overlapping window.
    pub fn overlap_value(&self, i: usize) -> (v: T)
        requires
            self.spec_window_function().spec_window_type() != WindowType::Rectangular,
            i < self.spec_window_size(),
        ensures
            v == self.spec_window_function().spec_overlap()[i as int],
    {
        match &self.window_function {
            WindowFunction::Overlapping(w) => w.overlap_value(i),
            WindowFunction::Rectangular(_) => self.zero,
        }
    }

    /// Sets the sample at position `i` of the overlap-add buffer of an
    /// overlapping window.
    pub fn set_overlap_value(&mut self, i: usize, v: T)
        requires
            old(self).spec_window_function().spec_window_type() != WindowType::Rectangular,
            i < old(self).spec_window_size(),
        ensures
            final(self).spec_window_function().spec_overlap() == old(
                self,
            ).spec_window_function().spec_overlap().update(i as int, v),
            final(self).spec_window_function().spec_previous() == old(
                self,
            ).spec_window_function().spec_previous(),
            final(self).spec_window_function().spec_window_type() == old(
                self,
            ).spec_window_function().spec_window_type(),
            final(self).spec_window_size() == old(self).spec_window_size(),
            final(self).spec_input() == old(self).spec_input(),
            final(self).spec_output() == old(self).spec_output(),
            final(self).spec_zero() == old(self).spec_zero(),
    {
        self.window_function.set_overlap_value(i, v);
    }

    /// Moves the overlap-add buffer of an overlapping window on by one hop,
    /// clearing with the silent sample (see `advanced_overlap`).
    pub fn advance_overlap(&mut self)
        requires
            old(self).spec_window_function().spec_window_type() != WindowType::Rectangular,
        ensures
            final(self).spec_window_function().spec_overlap() == advanced_overlap(
                old(self).spec_window_function().spec_overlap(),
                old(self).spec_window_function().spec_window_type(),
                old(self).spec_window_size(),
                old(self).spec_zero(),
            ),
            overlap_moved_on(
                old(self).spec_window_function().spec_overlap(),
                final(self).spec_window_function().spec_overlap(),
                old(self).spec_window_function().spec_window_type(),
                old(self).spec_window_size(),
                old(self).spec_zero(),
            ),
            final(self).spec_window_function().spec_previous() == old(
                self,
            ).spec_window_function().spec_previous(),
            final(self).spec_window_function().spec_window_type() == old(
                self,
            ).spec_window_function().spec_window_type(),
            final(self).spec_window_size() == old(self).spec_window_size(),
            final(self).spec_input() == old(self).spec_input(),
            final(self).spec_output() == old(self).spec_output(),
            final(self).spec_zero() == old(self).spec_zero(),
    {
        let zero = self.zero;
        self.window_function.advance_overlap(zero);
    }

    /// Replaces the samples to hand out by the frame that came back from
    /// the inverse transform.
    pub fn store_output(&mut self, frame: &Vec<T>)
        ensures
            final(self).spec_output() == frame@,
            final(self).spec_window_size() == old(self).spec_window_size(),
            final(self).spec_window_function() == old(self).spec_window_function(),
            final(self).spec_input() == old(self).spec_input(),
            final(self).spec_zero() == old(self).spec_zero(),
    {
        self.output.clear();
        let mut i: usize = 0;
        while i < frame.len()
            invariant
                i <= frame@.len(),
                self.output@ == frame@.subrange(0, i as int),
                self.window_function == old(self).window_function,
                self.input@ == old(self).input@,
                self.zero == old(self).zero,
            decreases frame@.len() - i,
        {
            self.output.push_back(frame[i]);
            i = i + 1;
            assert(self.output@ =~= frame@.subrange(0, i as int));
        }
        assert(self.output@ =~= frame@);
    }
}

/// Once a stream reports a frame ready, having taken whole frames before,
/// the frame fits and is a whole window; afterwards the window keeps all
/// but one hop of it, so that the next frame is again whole.
pub proof fn lemma_ready_frames_are_whole<T: Copy>(stream: WindowedStream<T>)
    requires
        stream.spec_input().len() == stream.spec_needed(),
        ({
            let w = stream.spec_window_function();
            w.spec_previous().len() == 0 || w.spec_previous().len() == w.spec_window_size()
                - w.spec_hop()
        }),
    ensures
        ({
            let w = stream.spec_window_function();
            let frame = w.spec_previous() + stream.spec_input();
            &&& w.fits(stream.spec_input().len())
            &&& frame.len() == stream.spec_window_size()
            &&& w.spec_window_type() != WindowType::Rectangular ==> kept_for_next(
                frame,
                w.spec_hop() as nat,
            ).len() == w.spec_window_size() - w.spec_hop()
        }),
{
    let w = stream.spec_window_function();
    let d = w.spec_window_type().spec_overlap_divisor();
    let size = w.spec_window_size();
    assert(d * (size / d) <= size) by (nonlinear_arith)
        requires
            d > 0,
    ;
    assert(w.spec_hop() <= size);
}

} // verus!
