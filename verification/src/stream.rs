//! Writing a block of frames into the audio stream, which takes only as many
//! frames as it has room for.

use vstd::prelude::*;

verus! {

/// `oddio::Handle`, the side of a playing signal from which it is
/// controlled. Its inside is not looked into.
#[verifier::external_type_specification]
#[verifier::external_body]
#[verifier::reject_recursive_types(T)]
pub struct ExHandle<T: ?Sized>(oddio::Handle<T>);

/// `oddio::Stream`, the signal that plays what is written into its ring of
/// frames. Its inside is not looked into: the audio callback drains the
/// ring while the worker fills it, so what it holds at any moment is not a
/// function of what the worker did.
#[verifier::external_type_specification]
#[verifier::external_body]
#[verifier::reject_recursive_types(T)]
pub struct ExStream<T>(oddio::Stream<T>);

/// Calls `oddio::StreamControl::write` on the stream behind `stream`. The
/// stream copies a prefix of `frames` into its ring and returns the length
/// of that prefix, which depends on how much the audio callback has drained.
/// Claimed is only that the count is no more than what was offered.
#[verifier::external_body]
fn stream_write<T: Copy + 'static>(
    stream: &mut oddio::Handle<oddio::Stream<T>>,
    frames: &[T],
) -> (accepted: usize)
    ensures
        accepted <= frames@.len(),
{
    stream.control::<oddio::Stream<T>, _>().write(frames)
}

/// The mathematical value of a [`BlockWriter`]: the frames of the block, and
/// how many of them the stream has accepted.
pub struct BlockWriterView<T> {
    pub frames: Seq<T>,
    pub written: nat,
}

impl<T> BlockWriterView<T> {
    /// No more frames count as accepted than the block has.
    pub open spec fn wf(self) -> bool {
        self.written <= self.frames.len()
    }

    /// Frames the stream has not accepted yet.
    pub open spec fn remaining(self) -> nat {
        (self.frames.len() - self.written) as nat
    }

    /// Whether the stream has accepted the whole block.
    pub open spec fn is_done(self) -> bool {
        self.written == self.frames.len()
    }

    /// The frames the stream has accepted: a prefix of the block.
    pub open spec fn delivered(self) -> Seq<T> {
        self.frames.subrange(0, self.written as int)
    }

    /// The frames still to be offered: the rest of the block.
    pub open spec fn pending(self) -> Seq<T> {
        self.frames.subrange(self.written as int, self.frames.len() as int)
    }

    /// The writer after the stream accepted `accepted` of the pending
    /// frames. A count beyond what was pending counts as all of it.
    pub open spec fn accept(self, accepted: nat) -> Self {
        if accepted <= self.remaining() {
            BlockWriterView { frames: self.frames, written: self.written + accepted }
        } else {
            BlockWriterView { frames: self.frames, written: self.frames.len() }
        }
    }

    /// The writer after one attempt per entry of `outcomes`, each entry the
    /// count the stream accepted at that attempt.
    pub open spec fn retry(self, outcomes: Seq<nat>) -> Self
        decreases outcomes.len(),
    {
        if outcomes.len() == 0 {
            self
        } else {
            self.retry(outcomes.drop_last()).accept(outcomes.last())
        }
    }
}

/// The sum of `counts`.
pub open spec fn total(counts: Seq<nat>) -> nat
    decreases counts.len(),
{
    if counts.len() == 0 {
        0
    } else {
        total(counts.drop_last()) + counts.last()
    }
}

/// How many entries of `counts` are not zero.
pub open spec fn productive(counts: Seq<nat>) -> nat
    decreases counts.len(),
{
    if counts.len() == 0 {
        0
    } else {
        productive(counts.drop_last()) + if counts.last() > 0 {
            1nat
        } else {
            0nat
        }
    }
}

/// A block on its way into the audio stream.
///
/// The stream takes a prefix of what it is offered. The writer remembers how
/// much of the block has been taken and offers the rest at the next attempt,
/// so that every frame reaches the stream once, in order.
pub struct BlockWriter<T> {
    frames: Vec<T>,
    written: usize,
}

impl<T> View for BlockWriter<T> {
    type V = BlockWriterView<T>;

    closed spec fn view(&self) -> BlockWriterView<T> {
        BlockWriterView { frames: self.frames@, written: self.written as nat }
    }
}

impl<T> BlockWriter<T> {
    #[verifier::type_invariant]
    spec fn inv(self) -> bool {
        self.written <= self.frames.len()
    }
}

impl<T: Copy + 'static> BlockWriter<T> {
    /// A writer for `frames`, none of them accepted yet.
    pub fn new(frames: Vec<T>) -> (writer: Self)
        ensures
            writer@ == (BlockWriterView { frames: frames@, written: 0 }),
            writer@.wf(),
    {
        BlockWriter { frames, written: 0 }
    }

    /// Frames the stream has not accepted yet.
    pub fn remaining(&self) -> (frames: usize)
        ensures
            frames == self@.remaining(),
            self@.wf(),
    {
        proof {
            use_type_invariant(self);
        }
        self.frames.len() - self.written
    }

    /// Whether the stream has accepted the whole block.
    pub fn is_done(&self) -> (done: bool)
        ensures
            done == self@.is_done(),
            self@.wf(),
    {
        proof {
            use_type_invariant(self);
        }
        self.written == self.frames.len()
    }

    /// The frames to offer at the next attempt.
    pub fn pending(&self) -> (frames: &[T])
        ensures
            frames@ == self@.pending(),
            self@.wf(),
    {
        proof {
            use_type_invariant(self);
        }
        vstd::slice::slice_subrange(self.frames.as_slice(), self.written, self.frames.len())
    }

    /// Records that the stream accepted `accepted` of the pending frames.
    pub fn accept(&mut self, accepted: usize)
        requires
            accepted <= old(self)@.remaining(),
        ensures
            final(self)@ == old(self)@.accept(accepted as nat),
            final(self)@.wf(),
    {
        proof {
            use_type_invariant(&*self);
        }
        self.written = self.written + accepted;
    }

    /// Offers the pending frames to `stream` once and records how many it
    /// took. Returns that count, which is never more than was pending. The
    /// stream takes nothing while it is full.
    pub fn write(&mut self, stream: &mut oddio::Handle<oddio::Stream<T>>) -> (accepted: usize)
        ensures
            accepted <= old(self)@.remaining(),
            accepted <= old(self)@.frames.len(),
            final(self)@ == old(self)@.accept(accepted as nat),
            final(self)@.wf(),
    {
        let accepted: usize = stream_write(stream, self.pending());
        self.accept(accepted);
        accepted
    }

    /// Offers the pending frames to `stream` until the whole block is
    /// accepted or `attempts` offers were made, whichever comes first.
    /// Returns whether the whole block is accepted. Where it is not, the
    /// stream was full for too long: the caller waits and calls again.
    pub fn write_all(&mut self, stream: &mut oddio::Handle<oddio::Stream<T>>, attempts: usize) -> (done:
        bool)
        ensures
            final(self)@.wf(),
            done == final(self)@.is_done(),
            exists|outcomes: Seq<nat>|
                {
                    &&& outcomes.len() <= attempts
                    &&& done || outcomes.len() == attempts
                    &&& final(self)@ == #[trigger] old(self)@.retry(outcomes)
                },
    {
        proof {
            use_type_invariant(&*self);
        }
        let mut left: usize = attempts;
        let ghost mut outcomes: Seq<nat> = Seq::empty();
        while !self.is_done() && left > 0
            invariant
                self@.wf(),
                outcomes.len() + left == attempts,
                self@ == old(self)@.retry(outcomes),
            decreases left,
        {
            let accepted: usize = self.write(stream);
            left = left - 1;
            proof {
                assert(outcomes.push(accepted as nat).drop_last() =~= outcomes);
                outcomes = outcomes.push(accepted as nat);
            }
        }
        self.is_done()
    }
}

/// Accepting part of what is pending moves exactly those frames, in their
/// order, from the pending frames to the delivered ones: none is skipped,
/// none is offered twice.
pub proof fn accept_moves_a_prefix<T>(writer: BlockWriterView<T>, accepted: nat)
    requires
        writer.wf(),
        accepted <= writer.remaining(),
    ensures
        writer.accept(accepted).wf(),
        writer.accept(accepted).delivered() == writer.delivered() + writer.pending().take(
            accepted as int,
        ),
        writer.accept(accepted).pending() == writer.pending().skip(accepted as int),
        writer.delivered() + writer.pending() == writer.frames,
{
}

/// Whatever the stream accepts at each attempt, the writer never counts more
/// frames than the block has, the block itself stays as it is, and progress
/// is never lost: the count after the attempts is the count before plus all
/// that was accepted, capped at the length of the block.
pub proof fn retry_adds_up<T>(writer: BlockWriterView<T>, outcomes: Seq<nat>)
    requires
        writer.wf(),
    ensures
        writer.retry(outcomes).wf(),
        writer.retry(outcomes).frames == writer.frames,
        writer.written <= writer.retry(outcomes).written,
        writer.retry(outcomes).written == if writer.written + total(outcomes)
            <= writer.frames.len() {
            writer.written + total(outcomes)
        } else {
            writer.frames.len()
        },
    decreases outcomes.len(),
{
    if outcomes.len() > 0 {
        retry_adds_up(writer, outcomes.drop_last());
    }
}

/// Retrying drains the block once the stream has made room: the block is
/// wholly accepted as soon as the counts accepted add up to what was
/// pending, and so after at most as many attempts that accept anything as
/// there were frames pending. What was delivered is then the block itself.
pub proof fn retry_drains_block<T>(writer: BlockWriterView<T>, outcomes: Seq<nat>)
    requires
        writer.wf(),
    ensures
        productive(outcomes) <= total(outcomes),
        total(outcomes) >= writer.remaining() <==> writer.retry(outcomes).is_done(),
        productive(outcomes) >= writer.remaining() ==> writer.retry(outcomes).is_done(),
        writer.retry(outcomes).is_done() ==> writer.retry(outcomes).delivered() == writer.frames,
    decreases outcomes.len(),
{
    retry_adds_up(writer, outcomes);
    if outcomes.len() > 0 {
        retry_drains_block(writer, outcomes.drop_last());
    }
}

} // verus!
