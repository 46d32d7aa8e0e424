//! What the control surface shows of the worker: the latest block, channel
//! by channel, and the entry points with the active one.

use crate::messages::{UiCommand, UiCommandView};
use vstd::prelude::*;

verus! {

/// Channel `channel` of `frames`: 0 is left, 1 is right.
pub open spec fn channel_of<S>(frames: Seq<[S; 2]>, channel: int) -> Seq<S> {
    Seq::new(frames.len(), |i: int| frames[i][channel])
}

/// Splits interleaved stereo frames into the left and the right channel.
pub fn split_channels<S: Copy>(frames: &[[S; 2]]) -> (channels: (Vec<S>, Vec<S>))
    ensures
        channels.0@ == channel_of(frames@, 0),
        channels.1@ == channel_of(frames@, 1),
{
    let mut left: Vec<S> = Vec::new();
    let mut right: Vec<S> = Vec::new();
    let mut i: usize = 0;
    while i < frames.len()
        invariant
            i <= frames@.len(),
            left@ == channel_of(frames@.take(i as int), 0),
            right@ == channel_of(frames@.take(i as int), 1),
        decreases frames@.len() - i,
    {
        let frame: [S; 2] = frames[i];
        left.push(frame[0]);
        right.push(frame[1]);
        i += 1;
    }
    (left, right)
}

/// What the control surface shows.
#[derive(Debug)]
pub struct Display<S> {
    /// The left and the right channel of the latest block, once there is one.
    pub plots: Option<(Vec<S>, Vec<S>)>,
    /// The entry points on offer.
    pub entry_points: Vec<String>,
    /// The entry point shown as active.
    pub current_pipeline: String,
}

/// The mathematical value of a [`Display`].
pub struct DisplayView<S> {
    pub plots: Option<(Seq<S>, Seq<S>)>,
    pub entry_points: Seq<Seq<char>>,
    pub current_pipeline: Seq<char>,
}

impl<S> DisplayView<S> {
    /// The display after `message`: plot data replaces the plots, a list of
    /// entry points replaces the list and the active name.
    pub open spec fn apply(self, message: UiCommandView<S>) -> Self {
        match message {
            UiCommandView::PlotData(frames) => DisplayView {
                plots: Some((channel_of(frames, 0), channel_of(frames, 1))),
                ..self
            },
            UiCommandView::NewPipelines(entry_points, current_pipeline) => DisplayView {
                plots: self.plots,
                entry_points,
                current_pipeline,
            },
        }
    }
}

impl<S> View for Display<S> {
    type V = DisplayView<S>;

    open spec fn view(&self) -> DisplayView<S> {
        DisplayView {
            plots: match self.plots {
                Some(pair) => Some((pair.0@, pair.1@)),
                None => None,
            },
            entry_points: self.entry_points.deep_view(),
            current_pipeline: self.current_pipeline@,
        }
    }
}

impl<S: Copy> Display<S> {
    /// A display with nothing plotted yet.
    pub fn new(entry_points: Vec<String>, current_pipeline: String) -> (display: Self)
        ensures
            display@ == (DisplayView::<S> {
                plots: None,
                entry_points: entry_points.deep_view(),
                current_pipeline: current_pipeline@,
            }),
    {
        Display { plots: None, entry_points, current_pipeline }
    }

    /// Takes in one message from the worker.
    pub fn apply(&mut self, message: UiCommand<S>)
        ensures
            final(self)@ == old(self)@.apply(message@),
    {
        match message {
            UiCommand::PlotData(frames) => {
                self.plots = Some(split_channels(frames.as_slice()));
            },
            UiCommand::NewPipelines(entry_points, current_pipeline) => {
                self.entry_points = entry_points;
                self.current_pipeline = current_pipeline;
            },
        }
    }
}

} // verus!
