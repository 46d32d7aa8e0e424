//! The synthesis worker: the state it keeps between runs of the shader, and
//! how commands and runs change it.

use crate::messages::{
    Command, CommandView, Next, Params, ParamsView, Polled, PolledView, UiCommand, UiCommandView,
    SLIDERS,
};
use crate::registry::{
    compiled, is_slot_of, Analysis, AnalysisView, CompileError, CompileErrorView, Pipelines,
    PipelinesView,
};
use crate::sizing::{block_size, spec_block_size};
use vstd::prelude::*;

verus! {

/// The mathematical value of a [`Worker`].
pub struct WorkerView<S> {
    pub pipelines: PipelinesView,
    pub samples_elapsed: u32,
    pub sample_rate: u32,
    pub sliders: Seq<S>,
}

impl<S> WorkerView<S> {
    /// The active entry point exists and there is one value per slider.
    pub open spec fn wf(self) -> bool {
        &&& self.pipelines.wf()
        &&& self.sliders.len() == SLIDERS
    }

    /// Frames produced by one run.
    pub open spec fn samples(self) -> u32 {
        spec_block_size(self.sample_rate)
    }

    /// The state after the control value at `index` is given `value`.
    pub open spec fn set_slider(self, index: int, value: S) -> Self {
        if 0 <= index < self.sliders.len() {
            WorkerView { sliders: self.sliders.update(index, value), ..self }
        } else {
            self
        }
    }

    /// The state after a request to make `name` the active entry point.
    pub open spec fn select(self, name: Seq<char>) -> Self {
        WorkerView { pipelines: self.pipelines.select(name), ..self }
    }

    /// The state after `command`. A reload request changes nothing by
    /// itself: the state changes when the source it asks for arrives.
    pub open spec fn apply(self, command: CommandView<S>) -> Self {
        match command {
            CommandView::ReloadPipeline => self,
            CommandView::SetSlider(index, value) => self.set_slider(index, value),
            CommandView::SetCurrentPipeline(name) => self.select(name),
        }
    }

    /// The state after a poll of the command channel: a command is applied,
    /// and an empty channel changes nothing.
    pub open spec fn polled(self, polled: PolledView<S>) -> Self {
        match polled {
            PolledView::Command(command) => self.apply(command),
            _ => self,
        }
    }

    /// The state after `fresh` replaces the set of programs: the entry point
    /// that was active stays active if `fresh` has it, else the first of
    /// `fresh` is.
    pub open spec fn install(self, fresh: PipelinesView) -> Self {
        WorkerView { pipelines: fresh.select(self.pipelines.current_pipeline), ..self }
    }

    /// The state after a reload for which the compiler made `analysis` of
    /// the source: a source that does not compile changes nothing.
    pub open spec fn reloaded(self, analysis: AnalysisView) -> Self {
        match compiled(analysis) {
            Ok(fresh) => self.install(fresh),
            Err(_) => self,
        }
    }

    /// The parameters that a run started in this state observes.
    pub open spec fn params(self) -> ParamsView<S> {
        ParamsView {
            samples_elapsed: self.samples_elapsed,
            sample_rate: self.sample_rate,
            samples: self.samples(),
            sliders: self.sliders,
        }
    }

    /// The state after one run of the shader: the frame counter has moved on
    /// by one block, wrapping at 2^32.
    pub open spec fn advance(self) -> Self {
        WorkerView {
            samples_elapsed: wrap(self.samples_elapsed + self.samples()),
            ..self
        }
    }
}

/// `count` modulo 2^32.
pub open spec fn wrap(count: int) -> u32 {
    (count % 0x1_0000_0000) as u32
}

/// One thing that happens to the worker.
pub enum Step<S> {
    /// A command is applied.
    Apply(CommandView<S>),
    /// A source arrives for a reload; the field is what the compiler makes
    /// of it.
    Reload(AnalysisView),
    /// The shader is run once.
    Dispatch,
}

impl<S> WorkerView<S> {
    /// The state after `step`.
    pub open spec fn step(self, step: Step<S>) -> Self {
        match step {
            Step::Apply(command) => self.apply(command),
            Step::Reload(analysis) => self.reloaded(analysis),
            Step::Dispatch => self.advance(),
        }
    }

    /// The state after `steps`, taken in order.
    pub open spec fn run(self, steps: Seq<Step<S>>) -> Self
        decreases steps.len(),
    {
        if steps.len() == 0 {
            self
        } else {
            self.run(steps.drop_last()).step(steps.last())
        }
    }
}

/// The value that the latest slider command for `index` among `steps` sets,
/// or `initial` where `steps` holds no such command.
pub open spec fn last_set<S>(steps: Seq<Step<S>>, index: int, initial: S) -> S
    decreases steps.len(),
{
    if steps.len() == 0 {
        initial
    } else {
        match steps.last() {
            Step::Apply(CommandView::SetSlider(at, value)) if at == index => value,
            _ => last_set(steps.drop_last(), index, initial),
        }
    }
}

/// How many of `steps` are runs of the shader.
pub open spec fn dispatches<S>(steps: Seq<Step<S>>) -> nat
    decreases steps.len(),
{
    if steps.len() == 0 {
        0
    } else {
        dispatches(steps.drop_last()) + if steps.last() is Dispatch {
            1nat
        } else {
            0nat
        }
    }
}

/// Whatever commands, reloads and runs went before, a run observes for each
/// slider the value that the latest command for that slider set, and the
/// initial value where there was none: no update is lost, and commands for
/// one slider take effect in the order they were applied.
pub proof fn run_observes_last_set<S>(start: WorkerView<S>, steps: Seq<Step<S>>, index: int)
    requires
        0 <= index < start.sliders.len(),
    ensures
        start.run(steps).sliders.len() == start.sliders.len(),
        start.run(steps).params().sliders[index] == last_set(steps, index, start.sliders[index]),
    decreases steps.len(),
{
    if steps.len() > 0 {
        run_observes_last_set(start, steps.drop_last(), index);
    }
}

/// The frame counter that a run observes is the block size times the number
/// of runs before it, modulo 2^32: it moves by one block per run, and by
/// nothing else.
pub proof fn run_counts_dispatches<S>(start: WorkerView<S>, steps: Seq<Step<S>>)
    ensures
        start.run(steps).sample_rate == start.sample_rate,
        start.run(steps).params().samples_elapsed == wrap(
            start.samples_elapsed + dispatches(steps) * start.samples(),
        ),
    decreases steps.len(),
{
    let block = start.samples() as int;
    let base = start.samples_elapsed as int;
    if steps.len() == 0 {
        assert(0 * block == 0);
        assert(base % 0x1_0000_0000 == base) by {
            vstd::arithmetic::div_mod::lemma_small_mod(base as nat, 0x1_0000_0000);
        }
    } else {
        let before = steps.drop_last();
        run_counts_dispatches(start, before);
        let n = dispatches(before) as int;
        if steps.last() is Dispatch {
            assert((n + 1) * block == n * block + block) by (nonlinear_arith);
            assert(((base + n * block) % 0x1_0000_0000 + block) % 0x1_0000_0000 == (base + n
                * block + block) % 0x1_0000_0000) by {
                vstd::arithmetic::div_mod::lemma_add_mod_noop(
                    base + n * block,
                    block,
                    0x1_0000_0000,
                );
                vstd::arithmetic::div_mod::lemma_small_mod(block as nat, 0x1_0000_0000);
            }
        }
    }
}

/// In every state the worker can reach, the active entry point is one of the
/// set and there is one value per slider.
pub proof fn run_keeps_wf<S>(start: WorkerView<S>, steps: Seq<Step<S>>)
    requires
        start.wf(),
    ensures
        start.run(steps).wf(),
    decreases steps.len(),
{
    if steps.len() > 0 {
        run_keeps_wf(start, steps.drop_last());
    }
}

/// A reload with a source that fails to parse or to validate, or that has
/// no entry point, leaves the set of programs and the active entry point as
/// they were, and a later reload does what it would have done without the
/// failed one.
pub proof fn failed_reload_is_not_sticky<S>(
    start: WorkerView<S>,
    bad: AnalysisView,
    next: AnalysisView,
)
    requires
        compiled(bad) is Err,
    ensures
        start.reloaded(bad) == start,
        start.reloaded(bad).reloaded(next) == start.reloaded(next),
        compiled(next) matches Ok(fresh) ==> start.reloaded(bad).reloaded(next).pipelines.entry_points
            == fresh.entry_points,
        bad is Unparsed || bad is Invalid ==> compiled(bad) is Err,
{
}

/// The state the worker keeps between runs of the shader.
pub struct Worker<S> {
    pipelines: Pipelines,
    samples_elapsed: u32,
    sample_rate: u32,
    sliders: [S; 2],
}

impl<S> View for Worker<S> {
    type V = WorkerView<S>;

    closed spec fn view(&self) -> WorkerView<S> {
        WorkerView {
            pipelines: self.pipelines@,
            samples_elapsed: self.samples_elapsed,
            sample_rate: self.sample_rate,
            sliders: self.sliders@,
        }
    }
}

impl<S: Copy> Worker<S> {
    /// A worker that has run nothing yet.
    pub fn new(pipelines: Pipelines, sample_rate: u32, sliders: [S; 2]) -> (worker: Self)
        ensures
            worker@ == (WorkerView {
                pipelines: pipelines@,
                samples_elapsed: 0,
                sample_rate,
                sliders: sliders@,
            }),
            worker@.wf(),
    {
        pipelines.recall_wf();
        Worker { pipelines, samples_elapsed: 0, sample_rate, sliders }
    }

    /// Applies one command. Returns whether it asks for a reload, which the
    /// caller answers by reading the source and calling [`Worker::reload`].
    pub fn apply(&mut self, command: Command<S>) -> (reload: bool)
        requires
            command.valid(),
        ensures
            final(self)@ == old(self)@.apply(command@),
            final(self)@.wf(),
            reload == (command is ReloadPipeline),
    {
        self.pipelines.recall_wf();
        match command {
            Command::ReloadPipeline => true,
            Command::SetSlider(index, value) => {
                self.sliders[index] = value;
                false
            },
            Command::SetCurrentPipeline(name) => {
                self.pipelines.select(name.as_str());
                false
            },
        }
    }

    /// Replaces the set of programs by `fresh`. The entry point that was
    /// active stays active if `fresh` has it; else the first of `fresh` is.
    /// Returns the notice for the control surface: the new names and the
    /// active one.
    pub fn install(&mut self, fresh: Pipelines) -> (notice: UiCommand<S>)
        ensures
            final(self)@ == old(self)@.install(fresh@),
            final(self)@.wf(),
            notice@ == UiCommandView::<S>::NewPipelines(
                final(self)@.pipelines.entry_points,
                final(self)@.pipelines.current_pipeline,
            ),
    {
        let mut fresh = fresh;
        let previous: String = self.pipelines.current_pipeline();
        fresh.select(previous.as_str());
        let notice = UiCommand::NewPipelines(fresh.keys(), fresh.current_pipeline());
        self.pipelines = fresh;
        notice
    }

    /// Compiles what the compiler made of a source and, if that succeeds,
    /// installs the result. A source that does not compile leaves the worker
    /// as it was, whatever went before.
    pub fn reload(&mut self, analysis: Analysis) -> (outcome: Result<UiCommand<S>, CompileError>)
        ensures
            final(self)@ == old(self)@.reloaded(analysis@),
            final(self)@.wf(),
            match outcome {
                Ok(notice) => compiled(analysis@) is Ok && notice@
                    == UiCommandView::<S>::NewPipelines(
                    final(self)@.pipelines.entry_points,
                    final(self)@.pipelines.current_pipeline,
                ),
                Err(error) => compiled(analysis@) == Err::<PipelinesView, CompileErrorView>(
                    error@,
                ),
            },
    {
        match Pipelines::from_analysis(analysis) {
            Ok(fresh) => Ok(self.install(fresh)),
            Err(error) => {
                self.pipelines.recall_wf();
                Err(error)
            },
        }
    }

    /// The parameters for the next run of the shader.
    pub fn params(&self) -> (params: Params<S>)
        ensures
            params@ == self@.params(),
    {
        Params {
            samples_elapsed: self.samples_elapsed,
            sample_rate: self.sample_rate,
            samples: block_size(self.sample_rate),
            sliders: self.sliders,
        }
    }

    /// Records that one run of the shader was dispatched: the frame counter
    /// moves on by one block.
    pub fn advance(&mut self)
        ensures
            final(self)@ == old(self)@.advance(),
            final(self)@.wf(),
    {
        self.pipelines.recall_wf();
        self.samples_elapsed = self.samples_elapsed.wrapping_add(block_size(self.sample_rate));
    }

    /// Takes what a poll of the command channel gave and decides what the
    /// loop does next. Commands are applied one by one for as long as there
    /// are any; only an empty channel lets the shader run, with the state
    /// that all of them left; a channel whose sender is gone ends the loop.
    pub fn handle(&mut self, polled: Polled<S>) -> (next: Next<S>)
        requires
            polled.valid(),
        ensures
            final(self)@ == old(self)@.polled(polled@),
            final(self)@.wf(),
            match polled@ {
                PolledView::Command(command) => if command is ReloadPipeline {
                    next is Reload
                } else {
                    next is Poll
                },
                PolledView::Empty => {
                    &&& next matches Next::Dispatch { slot, params }
                    &&& is_slot_of(
                        old(self)@.pipelines.entry_points,
                        old(self)@.pipelines.current_pipeline,
                        slot as int,
                    )
                    &&& params@ == old(self)@.params()
                },
                PolledView::Disconnected => next is Shutdown,
            },
    {
        self.pipelines.recall_wf();
        match polled {
            Polled::Command(command) => {
                if self.apply(command) {
                    Next::Reload
                } else {
                    Next::Poll
                }
            },
            Polled::Empty => Next::Dispatch {
                slot: self.pipelines.current_slot(),
                params: self.params(),
            },
            Polled::Disconnected => Next::Shutdown,
        }
    }

    /// The set of programs and the active entry point.
    pub fn pipelines(&self) -> (pipelines: &Pipelines)
        ensures
            pipelines@ == self@.pipelines,
    {
        &self.pipelines
    }
}

} // verus!
