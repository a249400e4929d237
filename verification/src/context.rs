//! The scheduler: the process-wide context in which jobs are executed, the
//! public scheduling entry point, and the worker body.

use crate::attempt::AttemptLog;
use crate::job::{
    Channel, FlexoMessage, FlexoProgress, Job, JobOutcome, JobResult, Properties,
};
use crate::kvmap::{entries_to_map, KvMap};
use crate::order_state::{
    completion_post, failure_post, schedule_decision, schedule_post, scheduled_cached_size,
    CachedItem, Order, OrderState,
};
use crate::registry::{distinct_ids, Provider, ProvidersWithStats};
use crate::supervisor::{running_only, sweep_statuses, WorkerStatus};
use crate::tally::TallyMap;
use vstd::prelude::*;

verus! {

/// A scheduled order handed to a worker: the order itself and the bytes
/// already cached that the job may resume after.
pub struct ScheduledItem {
    pub order: Order,
    pub cached_size: u64,
}

/// What a scheduling call answers.
pub enum ScheduleOutcome {
    /// The order is already in progress, no new order was scheduled.
    AlreadyInProgress,
    /// The order has to be fetched from a provider.
    Scheduled(ScheduledItem),
    /// The order is already available in the cache.
    Cached,
    /// The order cannot be served from cache; the caller should fetch it
    /// directly from the named provider.
    Uncacheable(Provider),
}

/// The context in which jobs are executed: the provider registry, the live
/// tallies, the channel pool, the order index, and the worker statuses. It is
/// meant to be initialized once during the program's lifecycle and shared by
/// all workers under the embedding program's lock.
pub struct JobContext<PR: Properties, C, JS> {
    pub providers: Vec<Provider>,
    pub channels: KvMap<Channel<C, JS>>,
    pub order_states: KvMap<OrderState>,
    pub providers_in_use: TallyMap,
    pub panic_monitor: Vec<WorkerStatus>,
    pub provider_failures: TallyMap,
    pub properties: PR,
}

impl<PR: Properties, C, JS> JobContext<PR, C, JS> {
    pub open spec fn wf(self) -> bool {
        &&& distinct_ids(self.providers@)
        &&& self.provider_failures.wf()
        &&& self.providers_in_use.wf()
        &&& self.channels.wf()
        &&& self.order_states.wf()
        &&& forall|k: u64|
            #[trigger] self.channels@.contains_key(k)
                ==> self.channels@[k].job_state.job_resources is None
    }

    /// The provider an uncacheable order should be fetched from: the order's
    /// required provider when it names one, else the first provider of the
    /// registry (the registry is sorted from best to worst static rank).
    pub open spec fn spec_best_provider(self, order: Order) -> Provider {
        match order.custom_provider {
            Some(p) => p,
            None => self.providers@[0],
        }
    }

    fn best_provider(&self, order: &Order) -> (p: Provider)
        requires
            order.custom_provider is None ==> self.providers@.len() > 0,
        ensures
            p == self.spec_best_provider(*order),
    {
        match order.custom_provider {
            None => self.providers[0],
            Some(p) => p,
        }
    }

    /// Build the context: remember the providers and properties, start with
    /// clean tallies and an empty channel pool, and seed the order index from
    /// the job's enumeration of artifacts already cached on disk. The ghost
    /// result names the entries that enumeration returned; the index is
    /// exactly the map they build up, a later entry overwriting an earlier
    /// one with the same key.
    pub fn new<J: Job<PR, C, JS>>(
        initial_providers: Vec<Provider>,
        properties: PR,
        job: &mut J,
    ) -> (r: (Self, Ghost<Seq<(u64, OrderState)>>))
        requires
            distinct_ids(initial_providers@),
        ensures
            r.0.wf(),
            r.0.providers == initial_providers,
            r.0.properties == properties,
            r.0.order_states@ == entries_to_map(r.1@),
            forall|q: u64| #[trigger] r.0.provider_failures.count(q) == 0,
            forall|q: u64| #[trigger] r.0.providers_in_use.count(q) == 0,
            r.0.panic_monitor@ == Seq::<WorkerStatus>::empty(),
            forall|k: u64| #[trigger] r.0.channels@.contains_key(k) == false,
    {
        let cache_entries = job.initialize_cache(&properties);
        let order_states = KvMap::from_entries(&cache_entries);
        let ctx = JobContext {
            providers: initial_providers,
            channels: KvMap::new(),
            order_states,
            providers_in_use: TallyMap::new(),
            panic_monitor: Vec::new(),
            provider_failures: TallyMap::new(),
            properties,
        };
        let entries: Ghost<Seq<(u64, OrderState)>> = Ghost(cache_entries@);
        (ctx, entries)
    }

    /// Schedule the order, or say why scheduling it is impossible or
    /// unnecessary. The answer and the transition of the order index follow
    /// the decision table in [`crate::order_state::schedule_decision`]; in
    /// particular a scheduled order is marked in-progress before the call
    /// returns, which is what makes concurrent deduplication safe.
    pub fn try_schedule(&mut self, order: Order, resume_from: Option<u64>) -> (r: ScheduleOutcome)
        requires
            old(self).wf(),
            order.custom_provider is None ==> old(self).providers@.len() > 0,
        ensures
            final(self).wf(),
            final(self).providers == old(self).providers,
            final(self).channels == old(self).channels,
            final(self).provider_failures == old(self).provider_failures,
            final(self).providers_in_use == old(self).providers_in_use,
            final(self).panic_monitor == old(self).panic_monitor,
            final(self).properties == old(self).properties,
            final(self).order_states@ == schedule_post(
                old(self).order_states@,
                order,
                resume_from,
            ),
            match r {
                ScheduleOutcome::AlreadyInProgress => schedule_decision(
                    old(self).order_states@,
                    order,
                    resume_from,
                ) is AlreadyInProgress,
                ScheduleOutcome::Cached => schedule_decision(
                    old(self).order_states@,
                    order,
                    resume_from,
                ) is Cached,
                ScheduleOutcome::Uncacheable(p) => schedule_decision(
                    old(self).order_states@,
                    order,
                    resume_from,
                ) is Uncacheable && p == old(self).spec_best_provider(order),
                ScheduleOutcome::Scheduled(item) => schedule_decision(
                    old(self).order_states@,
                    order,
                    resume_from,
                ) is Scheduled && item.order == order && item.cached_size
                    == scheduled_cached_size(old(self).order_states@, order),
            },
    {
        if !order.is_cacheable {
            return ScheduleOutcome::Uncacheable(self.best_provider(&order));
        }
        let resume_offset: u64 = match resume_from {
            Some(v) => v,
            None => 0,
        };
        let cached_size: u64;
        match self.order_states.get(order.id) {
            None => {
                if resume_offset > 0 {
                    // Cannot satisfy a range resume with no cached bytes.
                    return ScheduleOutcome::Uncacheable(self.best_provider(&order));
                }
                cached_size = 0;
            },
            Some(state) => {
                match *state {
                    OrderState::InProgress => {
                        return ScheduleOutcome::AlreadyInProgress;
                    },
                    OrderState::Cached(item) => {
                        if item.cached_size < resume_offset {
                            // The cache holds fewer bytes than the client
                            // wants to resume from.
                            return ScheduleOutcome::Uncacheable(self.best_provider(&order));
                        }
                        let complete = match item.complete_size {
                            Some(c) => c == item.cached_size,
                            None => false,
                        };
                        if complete {
                            return ScheduleOutcome::Cached;
                        }
                        cached_size = item.cached_size;
                    },
                }
            },
        }
        self.order_states.insert(order.id, OrderState::InProgress);
        ScheduleOutcome::Scheduled(ScheduledItem { order, cached_size })
    }

    /// The body of a worker: drive the scheduled order through the attempt
    /// loop, then release the in-progress mark, publish the final cache state
    /// on success, return the channel to the pool, and report the outcome.
    /// The ghost log from the attempt loop pins the accounting exactly; the
    /// provider inside a successful outcome is the one the job itself
    /// reported, while the log's winner is the provider the engine rewarded.
    pub fn run_worker<J: Job<PR, C, JS>>(
        &mut self,
        item: ScheduledItem,
        job: &mut J,
        tx: &crossbeam::channel::Sender<FlexoMessage<Provider>>,
        tx_progress: &crossbeam::channel::Sender<FlexoProgress>,
    ) -> (r: (JobOutcome, Ghost<AttemptLog>))
        requires
            old(self).wf(),
            item.order.custom_provider is None ==> old(self).providers@.len() > 0,
            forall|q: u64| i32::MIN < #[trigger] old(self).provider_failures.count(q) < i32::MAX,
            forall|q: u64| #[trigger] old(self).providers_in_use.count(q) < i32::MAX,
        ensures
            final(self).wf(),
            final(self).providers == old(self).providers,
            final(self).properties == old(self).properties,
            final(self).panic_monitor == old(self).panic_monitor,
            r.1@.selected.contains(r.1@.last),
            forall|q: u64| #[trigger] r.1@.punished.contains(q) ==> r.1@.selected.contains(q),
            forall|q: u64|
                #[trigger] r.1@.selected.contains(q) ==> (match item.order.custom_provider {
                    Some(p) => q == p.id,
                    None => crate::registry::contains_id(old(self).providers@, q),
                }),
            forall|q: u64|
                r.1@.selected.contains(q) ==> #[trigger] final(self).providers_in_use.count(q)
                    == old(self).providers_in_use.count(q) + 1,
            forall|q: u64|
                !r.1@.selected.contains(q) ==> #[trigger] final(self).providers_in_use.count(q)
                    == old(self).providers_in_use.count(q),
            match r.0 {
                JobOutcome::Success(p) => {
                    &&& final(self).order_states@ == completion_post(
                        old(self).order_states@,
                        item.order.id,
                        r.1@.completed_size,
                    )
                    &&& r.1@.selected.contains(r.1@.winner)
                    &&& !r.1@.punished.contains(r.1@.winner)
                    &&& final(self).provider_failures.count(r.1@.winner) == old(self).provider_failures.count(
                        r.1@.winner,
                    ) - 1
                    &&& forall|q: u64|
                        q != r.1@.winner && r.1@.punished.contains(q)
                            ==> #[trigger] final(self).provider_failures.count(q) == old(self).provider_failures.count(
                            q,
                        ) + 1
                    &&& forall|q: u64|
                        q != r.1@.winner && !r.1@.punished.contains(q)
                            ==> #[trigger] final(self).provider_failures.count(q) == old(self).provider_failures.count(
                            q,
                        )
                    &&& final(self).channels@.contains_key(p.id)
                    &&& final(self).channels@[p.id].job_state.job_resources is None
                    &&& forall|k: u64|
                        k != p.id && #[trigger] final(self).channels@.contains_key(k) ==> old(self).channels@.contains_key(
                            k,
                        ) && final(self).channels@[k] == old(self).channels@[k]
                },
                JobOutcome::Error(snapshot) => {
                    &&& final(self).order_states@ == failure_post(
                        old(self).order_states@,
                        item.order.id,
                    )
                    &&& forall|q: u64|
                        r.1@.punished.contains(q) && old(self).provider_failures.count(q) != -1
                            ==> #[trigger] final(self).provider_failures.count(q) == old(self).provider_failures.count(
                            q,
                        )
                    &&& forall|q: u64|
                        r.1@.punished.contains(q) && old(self).provider_failures.count(q) == -1
                            ==> #[trigger] final(self).provider_failures.count(q) == 0
                    &&& forall|q: u64|
                        !r.1@.punished.contains(q)
                            ==> #[trigger] final(self).provider_failures.count(q) == old(self).provider_failures.count(
                            q,
                        )
                    &&& forall|q: u64|
                        #[trigger] snapshot.count(q) == final(self).provider_failures.count(q)
                    &&& forall|k: u64|
                        #[trigger] final(self).channels@.contains_key(k) ==> old(self).channels@.contains_key(
                            k,
                        ) && final(self).channels@[k] == old(self).channels@[k]
                },
            },
    {
        let working = copy_providers(&self.providers);
        let mut stats = ProvidersWithStats {
            providers: working,
            provider_failures: TallyMap::new(),
            provider_current_usages: TallyMap::new(),
        };
        core::mem::swap(&mut stats.provider_failures, &mut self.provider_failures);
        core::mem::swap(&mut stats.provider_current_usages, &mut self.providers_in_use);
        let (result, log) = item.order.try_until_success(
            job,
            &mut stats,
            &mut self.channels,
            tx,
            tx_progress,
            &self.properties,
            item.cached_size,
        );
        self.order_states.remove(item.order.id);
        let outcome = match result {
            JobResult::Complete(mut complete_job) => {
                complete_job.channel.job_state.release_job_resources();
                self.channels.insert(complete_job.provider.id, complete_job.channel);
                let size = complete_job.size;
                self.order_states.insert(
                    item.order.id,
                    OrderState::Cached(CachedItem { complete_size: Some(size), cached_size: size }),
                );
                core::mem::swap(&mut stats.provider_failures, &mut self.provider_failures);
                core::mem::swap(&mut stats.provider_current_usages, &mut self.providers_in_use);
                proof {
                    assert(self.order_states@ =~= completion_post(
                        old(self).order_states@,
                        item.order.id,
                        size,
                    ));
                }
                JobOutcome::Success(complete_job.provider)
            },
            JobResult::Partial(mut partial) => {
                partial.channel.job_state.release_job_resources();
                core::mem::swap(&mut stats.provider_failures, &mut self.provider_failures);
                core::mem::swap(&mut stats.provider_current_usages, &mut self.providers_in_use);
                JobOutcome::Error(self.provider_failures.duplicate())
            },
            JobResult::Error(mut terminated) => {
                terminated.channel.job_state.release_job_resources();
                core::mem::swap(&mut stats.provider_failures, &mut self.provider_failures);
                core::mem::swap(&mut stats.provider_current_usages, &mut self.providers_in_use);
                JobOutcome::Error(self.provider_failures.duplicate())
            },
            JobResult::Unavailable(mut channel) => {
                channel.job_state.release_job_resources();
                core::mem::swap(&mut stats.provider_failures, &mut self.provider_failures);
                core::mem::swap(&mut stats.provider_current_usages, &mut self.providers_in_use);
                JobOutcome::Error(self.provider_failures.duplicate())
            },
            JobResult::ClientError => {
                core::mem::swap(&mut stats.provider_failures, &mut self.provider_failures);
                core::mem::swap(&mut stats.provider_current_usages, &mut self.providers_in_use);
                JobOutcome::Error(self.provider_failures.duplicate())
            },
            JobResult::UnexpectedInternalError => {
                core::mem::swap(&mut stats.provider_failures, &mut self.provider_failures);
                core::mem::swap(&mut stats.provider_current_usages, &mut self.providers_in_use);
                JobOutcome::Error(self.provider_failures.duplicate())
            },
        };
        (outcome, log)
    }

    /// Register a freshly spawned worker with the supervisor; the returned
    /// index is where the embedding program later reports how it ended.
    pub fn register_worker(&mut self) -> (index: usize)
        requires
            old(self).wf(),
        ensures
            final(self).wf(),
            final(self).panic_monitor@ == old(self).panic_monitor@.push(WorkerStatus::Running),
            index == old(self).panic_monitor@.len(),
            *final(self) == (JobContext { panic_monitor: final(self).panic_monitor, ..*old(self) }),
    {
        let index = self.panic_monitor.len();
        self.panic_monitor.push(WorkerStatus::Running);
        index
    }

    /// Record how the worker at `index` ended.
    pub fn report_worker(&mut self, index: usize, crashed: bool)
        requires
            old(self).wf(),
            index < old(self).panic_monitor@.len(),
        ensures
            final(self).wf(),
            final(self).panic_monitor@ == old(self).panic_monitor@.update(
                index as int,
                if crashed {
                    WorkerStatus::Crashed
                } else {
                    WorkerStatus::Finished
                },
            ),
            *final(self) == (JobContext { panic_monitor: final(self).panic_monitor, ..*old(self) }),
    {
        let status = if crashed {
            WorkerStatus::Crashed
        } else {
            WorkerStatus::Finished
        };
        self.panic_monitor.set(index, status);
    }

    /// Sweep the supervisor's status list, dropping finished workers. A true
    /// answer means a worker terminated abnormally, which is fatal: the
    /// caller must stop scheduling.
    pub fn sweep_workers(&mut self) -> (crashed: bool)
        requires
            old(self).wf(),
        ensures
            final(self).wf(),
            final(self).panic_monitor@ == running_only(old(self).panic_monitor@),
            crashed == exists|i: int|
                0 <= i < old(self).panic_monitor@.len() && old(self).panic_monitor@[i] is Crashed,
            *final(self) == (JobContext { panic_monitor: final(self).panic_monitor, ..*old(self) }),
    {
        sweep_statuses(&mut self.panic_monitor)
    }
}

/// An element-wise copy of the provider list, handed to a worker as its
/// private working registry.
fn copy_providers(v: &Vec<Provider>) -> (r: Vec<Provider>)
    ensures
        r@ == v@,
{
    let n = v.len();
    let mut out: Vec<Provider> = Vec::new();
    let mut i: usize = 0;
    while i < n
        invariant
            i <= n,
            n == v@.len(),
            out@ == v@.subrange(0, i as int),
        decreases n - i,
    {
        out.push(v[i]);
        i = i + 1;
    }
    proof {
        assert(v@.subrange(0, n as int) == v@);
    }
    out
}

} // verus!
