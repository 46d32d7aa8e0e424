//! What the worker, the shader and the control surface say to each other.

use vstd::prelude::*;

verus! {

/// Number of control values the shader reads.
pub const SLIDERS: usize = 2;

/// The parameters one run of the shader observes.
#[derive(Debug)]
pub struct Params<S> {
    /// Frames produced by all earlier runs, modulo 2^32.
    pub samples_elapsed: u32,
    /// Frames per second of the audio stream.
    pub sample_rate: u32,
    /// Frames this run produces.
    pub samples: u32,
    /// The control values.
    pub sliders: [S; 2],
}

/// The mathematical value of a [`Params`].
pub struct ParamsView<S> {
    pub samples_elapsed: u32,
    pub sample_rate: u32,
    pub samples: u32,
    pub sliders: Seq<S>,
}

impl<S> View for Params<S> {
    type V = ParamsView<S>;

    open spec fn view(&self) -> ParamsView<S> {
        ParamsView {
            samples_elapsed: self.samples_elapsed,
            sample_rate: self.sample_rate,
            samples: self.samples,
            sliders: self.sliders@,
        }
    }
}

/// A message from the worker to the control surface.
#[derive(Debug)]
pub enum UiCommand<S> {
    /// The frames of the block that was just produced.
    PlotData(Vec<[S; 2]>),
    /// The entry points of a newly compiled source, and the active one.
    NewPipelines(Vec<String>, String),
}

/// The mathematical value of a [`UiCommand`].
pub enum UiCommandView<S> {
    PlotData(Seq<[S; 2]>),
    NewPipelines(Seq<Seq<char>>, Seq<char>),
}

impl<S> View for UiCommand<S> {
    type V = UiCommandView<S>;

    open spec fn view(&self) -> UiCommandView<S> {
        match self {
            UiCommand::PlotData(frames) => UiCommandView::PlotData(frames@),
            UiCommand::NewPipelines(entry_points, current_pipeline) => UiCommandView::NewPipelines(
                entry_points.deep_view(),
                current_pipeline@,
            ),
        }
    }
}

/// A message from the control surface to the worker.
#[derive(Debug)]
pub enum Command<S> {
    /// Read the shader source again and compile it.
    ReloadPipeline,
    /// Give the control value at an index a new value.
    SetSlider(usize, S),
    /// Make the named entry point the active one.
    SetCurrentPipeline(String),
}

/// The mathematical value of a [`Command`].
pub enum CommandView<S> {
    ReloadPipeline,
    SetSlider(int, S),
    SetCurrentPipeline(Seq<char>),
}

impl<S> View for Command<S> {
    type V = CommandView<S>;

    open spec fn view(&self) -> CommandView<S> {
        match self {
            Command::ReloadPipeline => CommandView::ReloadPipeline,
            Command::SetSlider(index, value) => CommandView::SetSlider(*index as int, *value),
            Command::SetCurrentPipeline(name) => CommandView::SetCurrentPipeline(name@),
        }
    }
}

impl<S> Command<S> {
    /// A slider command names one of the control values.
    pub open spec fn valid(&self) -> bool {
        self matches Command::SetSlider(index, _) ==> *index < SLIDERS
    }
}

/// What a poll of the command channel gave the worker.
#[derive(Debug)]
pub enum Polled<S> {
    /// A command was waiting.
    Command(Command<S>),
    /// Nothing was waiting.
    Empty,
    /// Nothing was waiting and the control surface is gone.
    Disconnected,
}

/// The mathematical value of a [`Polled`].
pub enum PolledView<S> {
    Command(CommandView<S>),
    Empty,
    Disconnected,
}

impl<S> View for Polled<S> {
    type V = PolledView<S>;

    open spec fn view(&self) -> PolledView<S> {
        match self {
            Polled::Command(command) => PolledView::Command(command@),
            Polled::Empty => PolledView::Empty,
            Polled::Disconnected => PolledView::Disconnected,
        }
    }
}

impl<S> Polled<S> {
    /// A polled command is a valid one.
    pub open spec fn valid(&self) -> bool {
        self matches Polled::Command(command) ==> command.valid()
    }
}

/// What the worker's loop does next.
#[derive(Debug)]
pub enum Next<S> {
    /// Poll the command channel again.
    Poll,
    /// Read the shader source and reload it, then poll again.
    Reload,
    /// Run the program at `slot` once with `params`, stream the block it
    /// yields, record the run with the worker, and only then poll again.
    Dispatch { slot: usize, params: Params<S> },
    /// Stop.
    Shutdown,
}

} // verus!
