//! A process handler that copies each input buffer into the matching output
//! buffer, unmodified.

use vstd::prelude::*;

use crate::buffer::BufferView;
use crate::callbackhandler::CallbackContext;
use crate::callbackhandler::ProcessHandler;
use crate::types::NumFrames;

verus! {

/// Pairs each input port's buffer with one output port's buffer and, once
/// per period, copies every input frame straight through.
pub struct Connector<T> {
    pub inputs: Vec<BufferView<T>>,
    pub outputs: Vec<BufferView<T>>,
}

impl<T: Copy> Connector<T> {
    /// A connector over the given buffers; every input is paired with the
    /// output at the same index.
    pub fn new(inputs: Vec<BufferView<T>>, outputs: Vec<BufferView<T>>) -> (r: Self)
        requires
            inputs@.len() == outputs@.len(),
        ensures
            r.inputs == inputs,
            r.outputs == outputs,
    {
        Connector { inputs, outputs }
    }
}

impl<T: Copy> ProcessHandler for Connector<T> {
    /// The server hands the connector buffers sized to the period it
    /// announces: each paired buffer holds exactly `nframes` frames.
    open spec fn process_ready(self, nframes: NumFrames) -> bool {
        &&& self.inputs@.len() == self.outputs@.len()
        &&& forall|i: int|
            0 <= i < self.inputs@.len() ==> (#[trigger] self.inputs@[i])@.len() == nframes
        &&& forall|i: int|
            0 <= i < self.outputs@.len() ==> (#[trigger] self.outputs@[i])@.len() == nframes
    }

    /// One period leaves every input unchanged, makes every output
    /// frame-for-frame equal to its paired input, and reports success.
    open spec fn process_post(pre: Self, post: Self, nframes: NumFrames, status: i32) -> bool {
        &&& status == 0
        &&& post.inputs == pre.inputs
        &&& post.outputs@.len() == pre.outputs@.len()
        &&& forall|i: int|
            0 <= i < post.outputs@.len() ==> (#[trigger] post.outputs@[i])@ == pre.inputs@[i]@
    }

    fn process(&mut self, ctx: &CallbackContext, nframes: NumFrames) -> (status: i32) {
        let n = self.inputs.len();
        let mut index: usize = 0;
        while index < n
            invariant
                n == self.inputs@.len(),
                self.outputs@.len() == n,
                self.inputs == old(self).inputs,
                index <= n,
                forall|k: int|
                    0 <= k < index ==> (#[trigger] self.outputs@[k])@ == self.inputs@[k]@,
                forall|k: int|
                    index <= k < n ==> #[trigger] self.outputs@[k] == old(self).outputs@[k],
            decreases n - index,
        {
            let copied = self.inputs[index].duplicate();
            self.outputs.set(index, copied);
            index = index + 1;
        }
        0
    }
}

} // verus!
