//! The download pipeline: it takes images from a stream on demand, keeps at
//! most a fixed number of downloads in flight and records one outcome for
//! every image it took.
//!
//! The pipeline keeps the books; the caller runs the downloads. Before it
//! takes an image from the stream the caller asks for leave, and it reports
//! every download that it started and every one that ended.

use crate::util::outcome_view;
use crate::util::DownloadStatus;
use vstd::prelude::*;

verus! {

/// How a run treats files that exist and how many downloads it runs at once.
#[derive(Debug, Clone, Copy, PartialEq, Eq, Structural)]
pub struct DownloadPolicy {
    /// Download again what is there already.
    pub force: bool,
    /// The number of downloads that may be in flight at the same time.
    pub max_concurrency: usize,
}

/// What the caller of a pipeline may do next.
#[derive(Debug, Clone, Copy, PartialEq, Eq, Structural)]
pub enum PipelineAction {
    /// A place is free: take the next image from the stream and start its
    /// download. Downloads in flight go on meanwhile.
    Pull,
    /// No place is free, or the stream has ended: wait for a download in
    /// flight to end.
    Wait,
    /// The stream has ended and nothing is in flight: the run is over.
    Finish,
    /// Nothing is in flight and nothing may be started. Only a pipeline that
    /// allows no download at all gets here; it never finishes.
    Stalled,
}

/// The state of a pipeline, as the contracts see it.
pub struct PipelineView {
    pub policy: DownloadPolicy,
    /// The number of downloads started and not yet ended.
    pub in_flight: nat,
    /// Whether the stream has reported its end.
    pub drained: bool,
    /// The number of images taken from the stream.
    pub started: nat,
    /// The outcomes recorded so far, in the order in which the downloads
    /// ended.
    pub outcomes: Seq<Result<DownloadStatus, Seq<char>>>,
}

impl PipelineView {
    /// The invariant of a pipeline: the downloads in flight do not exceed the
    /// limit, and every image taken is either in flight or has its outcome.
    pub open spec fn wf(self) -> bool {
        &&& self.in_flight <= self.policy.max_concurrency
        &&& self.started == self.outcomes.len() + self.in_flight
    }

    /// Whether the next image may be taken from the stream.
    pub open spec fn may_pull(self) -> bool {
        !self.drained && self.in_flight < self.policy.max_concurrency
    }

    /// What the caller may do next.
    pub open spec fn action(self) -> PipelineAction {
        if self.may_pull() {
            PipelineAction::Pull
        } else if self.in_flight > 0 {
            PipelineAction::Wait
        } else if self.drained {
            PipelineAction::Finish
        } else {
            PipelineAction::Stalled
        }
    }

    /// The state after an image was taken and its download started.
    pub open spec fn after_start(self) -> PipelineView {
        PipelineView { in_flight: self.in_flight + 1, started: self.started + 1, ..self }
    }

    /// The state after the stream has reported its end.
    pub open spec fn after_source_end(self) -> PipelineView {
        PipelineView { drained: true, ..self }
    }

    /// The state after a download has ended with `outcome`.
    pub open spec fn after_completion(self, outcome: Result<DownloadStatus, Seq<char>>) -> PipelineView {
        PipelineView {
            in_flight: (self.in_flight - 1) as nat,
            outcomes: self.outcomes.push(outcome),
            ..self
        }
    }
}

/// A pipeline of downloads under one policy.
pub struct DownloadPipeline {
    policy: DownloadPolicy,
    in_flight: usize,
    drained: bool,
    started: Ghost<nat>,
    outcomes: Ghost<Seq<Result<DownloadStatus, Seq<char>>>>,
}

impl View for DownloadPipeline {
    type V = PipelineView;

    closed spec fn view(&self) -> PipelineView {
        PipelineView {
            policy: self.policy,
            in_flight: self.in_flight as nat,
            drained: self.drained,
            started: self.started@,
            outcomes: self.outcomes@,
        }
    }
}

impl DownloadPipeline {
    /// An idle pipeline: nothing taken, nothing in flight.
    pub fn new(policy: DownloadPolicy) -> (pipeline: DownloadPipeline)
        ensures
            pipeline@ == (PipelineView {
                policy,
                in_flight: 0,
                drained: false,
                started: 0,
                outcomes: Seq::empty(),
            }),
            pipeline@.wf(),
    {
        DownloadPipeline {
            policy,
            in_flight: 0,
            drained: false,
            started: Ghost(0),
            outcomes: Ghost(Seq::empty()),
        }
    }

    /// The policy of the run.
    pub fn policy(&self) -> (policy: DownloadPolicy)
        ensures
            policy == self@.policy,
    {
        self.policy
    }

    /// The number of downloads in flight.
    pub fn in_flight(&self) -> (n: usize)
        ensures
            n == self@.in_flight,
    {
        self.in_flight
    }

    /// Whether the stream has reported its end.
    pub fn is_drained(&self) -> (drained: bool)
        ensures
            drained == self@.drained,
    {
        self.drained
    }

    /// What the caller may do next.
    pub fn next_action(&self) -> (action: PipelineAction)
        ensures
            action == self@.action(),
    {
        if !self.drained && self.in_flight < self.policy.max_concurrency {
            PipelineAction::Pull
        } else if self.in_flight > 0 {
            PipelineAction::Wait
        } else if self.drained {
            PipelineAction::Finish
        } else {
            PipelineAction::Stalled
        }
    }

    /// Records that an image was taken from the stream and its download
    /// started.
    pub fn started(&mut self)
        requires
            old(self)@.wf(),
            old(self)@.may_pull(),
        ensures
            final(self)@ == old(self)@.after_start(),
            final(self)@.wf(),
    {
        self.in_flight = self.in_flight + 1;
        self.started = Ghost((self.started@ + 1) as nat);
    }

    /// Records that the stream has reported its end.
    pub fn source_ended(&mut self)
        requires
            old(self)@.wf(),
            old(self)@.may_pull(),
        ensures
            final(self)@ == old(self)@.after_source_end(),
            final(self)@.wf(),
    {
        self.drained = true;
    }

    /// Records that a download in flight has ended, and how.
    pub fn completed(&mut self, outcome: &Result<DownloadStatus, String>)
        requires
            old(self)@.wf(),
            old(self)@.in_flight > 0,
        ensures
            final(self)@ == old(self)@.after_completion(outcome_view(*outcome)),
            final(self)@.wf(),
    {
        self.in_flight = self.in_flight - 1;
        self.outcomes = Ghost(self.outcomes@.push(outcome_view(*outcome)));
    }
}

/// The limit holds in every state a pipeline can reach: it holds of an idle
/// pipeline, and every event that the pipeline admits keeps it. So at no
/// time are more downloads in flight than the policy allows.
pub proof fn lemma_limit_is_kept(p: PipelineView, outcome: Result<DownloadStatus, Seq<char>>)
    requires
        p.wf(),
    ensures
        p.in_flight <= p.policy.max_concurrency,
        p.may_pull() ==> p.after_start().wf() && p.after_start().in_flight
            <= p.policy.max_concurrency,
        p.may_pull() ==> p.after_source_end().wf(),
        p.in_flight > 0 ==> p.after_completion(outcome).wf(),
{
}

/// A pipeline that allows at least one download never stalls: as long as it
/// has not finished, either the next image may be taken or a download is in
/// flight whose end can be awaited.
pub proof fn lemma_pipeline_makes_progress(p: PipelineView)
    requires
        p.wf(),
        p.policy.max_concurrency > 0,
    ensures
        p.action() != PipelineAction::Stalled,
        p.action() == PipelineAction::Wait ==> p.in_flight > 0,
        p.action() == PipelineAction::Pull ==> p.may_pull(),
{
}

/// When a pipeline finishes, it has recorded one outcome for every image
/// that it took from the stream, and the stream has ended.
pub proof fn lemma_finished_pipeline_is_complete(p: PipelineView)
    requires
        p.wf(),
        p.action() == PipelineAction::Finish,
    ensures
        p.drained,
        p.in_flight == 0,
        p.outcomes.len() == p.started,
{
}

/// A failed download is recorded as one more outcome and changes nothing
/// else: the outcomes recorded before stay as they are, and the pipeline
/// goes on exactly as it would after a success.
pub proof fn lemma_failure_is_contained(p: PipelineView, reason: Seq<char>, status: DownloadStatus)
    requires
        p.wf(),
        p.in_flight > 0,
    ensures
        p.after_completion(Err(reason)).outcomes.drop_last() == p.outcomes,
        p.after_completion(Err(reason)).outcomes.last() == Err::<DownloadStatus, Seq<char>>(reason),
        p.after_completion(Err(reason)).in_flight == p.after_completion(Ok(status)).in_flight,
        p.after_completion(Err(reason)).drained == p.after_completion(Ok(status)).drained,
        p.after_completion(Err(reason)).started == p.after_completion(Ok(status)).started,
        p.after_completion(Err(reason)).action() == p.after_completion(Ok(status)).action(),
{
}

} // verus!
