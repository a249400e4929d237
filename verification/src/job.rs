//! The collaborator contract: jobs, channels, job results, and the message
//! and progress streams a worker reports on.

use crate::order_state::{Order, OrderState};
use crate::registry::Provider;
use vstd::prelude::*;

verus! {

/// The most attempts one order is driven through before the worker gives up.
pub const NUM_MAX_ATTEMPTS: u32 = 100;

/// Marker trait for the opaque, shareable configuration bag.
pub trait Properties {
}

/// Messages a worker emits while it walks through providers.
#[derive(Clone, Debug, PartialEq, Eq, Hash)]
pub enum FlexoMessage<P> {
    ProviderSelected(P),
    ChannelEstablished(ChannelEstablishment),
    OrderError,
}

/// Progress a worker reports for the order it serves.
#[derive(Clone, Debug, PartialEq, Eq, Hash)]
pub enum FlexoProgress {
    /// The job cannot be completed because the requested order is not
    /// available.
    Unavailable,
    JobSize(u64),
    Progress(u64),
    Completed,
    OrderError,
}

/// Whether a channel was freshly connected or taken back from the pool.
#[derive(Clone, Copy, Debug, PartialEq, Eq, Hash, Structural)]
pub enum ChannelEstablishment {
    NewChannel,
    ExistingChannel,
}

/// The error a collaborator reports when a channel could not be established
/// or reused.
#[derive(Clone, Debug)]
pub struct OrderError {
    pub message: String,
}

/// The sending half of the unbounded streams the engine reports on.
/// Declared so that verified code can hold and pass crossbeam senders.
#[verifier::external_type_specification]
#[verifier::external_body]
#[verifier::reject_recursive_types(T)]
pub struct ExSender<T>(crossbeam::channel::Sender<T>);

/// Relies on crossbeam_channel's `Sender::send`: on an unbounded channel it
/// never blocks. Its result (undeliverable once all receivers are gone) is
/// deliberately dropped: a consumer that went away must not stop a worker.
#[verifier::external_body]
pub fn channel_send<T>(tx: &crossbeam::channel::Sender<T>, value: T) {
    let _ = tx.send(value);
}

/// The per-job state carried inside a channel: the order being served, and
/// the resources (for example open file handles) acquired for the job. The
/// resource slot is `None` while the channel merely sits in the pool.
pub struct JobState<JS> {
    pub order: Order,
    pub job_resources: Option<JS>,
    pub tx: crossbeam::channel::Sender<FlexoProgress>,
}

impl<JS> JobState<JS> {
    /// Release all resources that were required for this particular job, so
    /// that they are closed before the channel returns to the pool.
    pub fn release_job_resources(&mut self)
        ensures
            final(self).order == old(self).order,
            final(self).tx == old(self).tx,
            final(self).job_resources is None,
    {
        self.job_resources = None;
    }
}

/// A reusable connection-and-state bundle to one provider. The connection
/// itself (`C`) belongs to the collaborator and is opaque to the engine.
pub struct Channel<C, JS> {
    pub connection: C,
    pub job_state: JobState<JS>,
}

/// A job that finished with the complete artifact.
pub struct JobCompleted<C, JS> {
    pub channel: Channel<C, JS>,
    pub provider: Provider,
    pub size: u64,
}

impl<C, JS> JobCompleted<C, JS> {
    pub fn new(channel: Channel<C, JS>, provider: Provider, size: u64) -> (r: Self)
        ensures
            r.channel == channel,
            r.provider == provider,
            r.size == size,
    {
        Self { channel, provider, size }
    }
}

/// A job that delivered only a prefix of the artifact.
pub struct JobPartiallyCompleted<C, JS> {
    pub channel: Channel<C, JS>,
    pub continue_at: u64,
}

impl<C, JS> JobPartiallyCompleted<C, JS> {
    pub fn new(channel: Channel<C, JS>, continue_at: u64) -> (r: Self)
        ensures
            r.channel == channel,
            r.continue_at == continue_at,
    {
        Self { channel, continue_at }
    }
}

/// A job that ended with an upstream error.
pub struct JobTerminated<C, JS> {
    pub channel: Channel<C, JS>,
    pub error: OrderError,
}

/// Everything one attempt at serving an order can end in.
pub enum JobResult<C, JS> {
    Complete(JobCompleted<C, JS>),
    Partial(JobPartiallyCompleted<C, JS>),
    Error(JobTerminated<C, JS>),
    /// No provider was able to fulfil the order since the order was
    /// unavailable at all providers.
    Unavailable(Channel<C, JS>),
    /// The client has specified an invalid order that cannot be served.
    ClientError,
    /// An unexpected internal error has occurred while attempting to process
    /// the client's order.
    UnexpectedInternalError,
}

impl<C, JS> JobResult<C, JS> {
    pub open spec fn spec_is_success(&self) -> bool {
        self is Complete
    }

    #[verifier::when_used_as_spec(spec_is_success)]
    pub fn is_success(&self) -> (r: bool)
        ensures
            r == self.spec_is_success(),
    {
        match self {
            JobResult::Complete(_) => true,
            _ => false,
        }
    }
}

/// The final outcome a worker publishes for its order: the provider that
/// served it, or a snapshot of the failure tallies at the time it gave up.
#[derive(Debug)]
pub enum JobOutcome {
    Success(Provider),
    Error(crate::tally::TallyMap),
}

/// What the embedding program supplies to actually serve orders: channel
/// establishment, the transfer itself, error conversion, and the enumeration
/// of artifacts already cached on disk. The engine calls these through a
/// mutable handle and assumes nothing about their results beyond their types:
/// every contract of the engine holds whatever a job does.
pub trait Job<PR: Properties, C, JS>: Sized {
    /// Enumerate the artifacts already cached on disk, keyed by order
    /// identity, to seed the order index.
    fn initialize_cache(&mut self, properties: &PR) -> Vec<(u64, OrderState)>;

    /// Open a fresh channel to `provider` for `order`.
    fn new_channel(
        &mut self,
        provider: &Provider,
        order: &Order,
        properties: &PR,
        tx: &crossbeam::channel::Sender<FlexoProgress>,
        last_chance: bool,
    ) -> Result<Channel<C, JS>, OrderError>;

    /// Re-initialize a pooled channel to `provider` for `order`.
    fn reuse_channel(
        &mut self,
        provider: &Provider,
        order: &Order,
        properties: &PR,
        tx: &crossbeam::channel::Sender<FlexoProgress>,
        last_chance: bool,
        channel: Channel<C, JS>,
    ) -> Result<Channel<C, JS>, OrderError>;

    /// Run the transfer over the given channel, resuming after `cached_size`
    /// bytes already on disk.
    fn serve_from_provider(
        &mut self,
        channel: Channel<C, JS>,
        provider: &Provider,
        order: &Order,
        properties: &PR,
        cached_size: u64,
    ) -> JobResult<C, JS>;

    /// Convert a channel-establishment error into a job result.
    fn handle_error(&mut self, error: OrderError) -> JobResult<C, JS>;
}

} // verus!
