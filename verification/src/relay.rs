//! From the shader's output region to the stream writer and the display.

use crate::messages::{UiCommand, UiCommandView};
use vstd::prelude::*;

verus! {

/// Takes the block that a run of the shader left at the start of its output
/// region. `readback` is the region as frames and `samples` the size of a
/// block. Returns the block twice: once for the stream writer, once as the
/// plot data for the display.
pub fn relay<S: Copy>(readback: &[[S; 2]], samples: u32) -> (out: (Vec<[S; 2]>, UiCommand<S>))
    requires
        samples <= readback@.len(),
    ensures
        out.0@ == readback@.take(samples as int),
        out.1@ == UiCommandView::PlotData(readback@.take(samples as int)),
{
    let block: &[[S; 2]] = vstd::slice::slice_subrange(readback, 0, samples as usize);
    (vstd::slice::slice_to_vec(block), UiCommand::PlotData(vstd::slice::slice_to_vec(block)))
}

} // verus!
