//! A typed, bounds-checked view of the sample buffer that belongs to one
//! port for one callback period.
//!
//! The server owns the memory it exposes to a callback; the unverified glue
//! around this crate copies that memory in and out as plain values. Inside
//! the crate a buffer is exactly its sequence of frames: a view constructed
//! for a period of `nframes` frames holds exactly `nframes` elements, indexed
//! in presentation order.

use vstd::prelude::*;

use crate::types::NumFrames;

verus! {

/// The frames of one port for one callback period, in presentation order.
#[derive(Debug)]
pub struct BufferView<T> {
    frames: Vec<T>,
}

impl<T> View for BufferView<T> {
    type V = Seq<T>;

    closed spec fn view(&self) -> Seq<T> {
        self.frames@
    }
}

impl<T: Copy> BufferView<T> {
    /// A view for a period of `nframes` frames, every frame holding `fill`.
    pub fn new(nframes: NumFrames, fill: T) -> (r: Self)
        ensures
            r@.len() == nframes,
            forall|i: int| 0 <= i < nframes ==> r@[i] == fill,
    {
        let mut frames: Vec<T> = Vec::new();
        let mut n: u32 = 0;
        while n < nframes
            invariant
                n <= nframes,
                frames@.len() == n,
                forall|i: int| 0 <= i < n ==> frames@[i] == fill,
            decreases nframes - n,
        {
            frames.push(fill);
            n = n + 1;
        }
        BufferView { frames }
    }

    /// A view over the given frames, in the given order.
    pub fn from_frames(frames: Vec<T>) -> (r: Self)
        ensures
            r@ == frames@,
    {
        BufferView { frames }
    }

    /// The number of frames in the view.
    pub fn len(&self) -> (n: usize)
        ensures
            n == self@.len(),
    {
        self.frames.len()
    }

    /// The frame at index `i`.
    pub fn get(&self, i: usize) -> (x: T)
        requires
            i < self@.len(),
        ensures
            x == self@[i as int],
    {
        self.frames[i]
    }

    /// Replaces the frame at index `i`.
    pub fn set(&mut self, i: usize, x: T)
        requires
            i < old(self)@.len(),
        ensures
            final(self)@ == old(self)@.update(i as int, x),
    {
        self.frames.set(i, x);
    }

    /// Overwrites every frame of this view with the frames of `src`.
    pub fn copy_from(&mut self, src: &BufferView<T>)
        requires
            old(self)@.len() == src@.len(),
        ensures
            final(self)@ == src@,
    {
        let n = src.len();
        let mut i: usize = 0;
        while i < n
            invariant
                n == src@.len(),
                self@.len() == n,
                i <= n,
                forall|k: int| 0 <= k < i ==> self@[k] == src@[k],
            decreases n - i,
        {
            let x = src.get(i);
            self.set(i, x);
            i = i + 1;
        }
        assert(self@ =~= src@);
    }

    /// A fresh view holding the same frames in the same order.
    pub fn duplicate(&self) -> (r: Self)
        ensures
            r@ == self@,
    {
        let n = self.len();
        let mut frames: Vec<T> = Vec::new();
        let mut i: usize = 0;
        while i < n
            invariant
                n == self@.len(),
                i <= n,
                frames@.len() == i,
                forall|k: int| 0 <= k < i ==> frames@[k] == self@[k],
            decreases n - i,
        {
            frames.push(self.get(i));
            i = i + 1;
        }
        assert(frames@ =~= self@);
        BufferView { frames }
    }

    /// The frames of the view, in index order.
    pub fn as_frames(&self) -> (r: &Vec<T>)
        ensures
            r@ == self@,
    {
        &self.frames
    }

    /// Gives the frames up, in index order.
    pub fn into_frames(self) -> (r: Vec<T>)
        ensures
            r@ == self@,
    {
        self.frames
    }
}

} // verus!
