use crossbeam::channel::{unbounded, Receiver, Sender};
use flexo::context::{JobContext, ScheduleOutcome, ScheduledItem};
use flexo::job::{
    Channel, ChannelEstablishment, FlexoMessage, FlexoProgress, Job, JobCompleted, JobOutcome,
    JobPartiallyCompleted, JobResult, JobState, JobTerminated, OrderError, Properties,
};
use flexo::order_state::{CachedItem, Order, OrderState};
use flexo::registry::Provider;

struct TestProps;

impl Properties for TestProps {}

#[derive(Clone, Copy)]
enum Plan {
    Complete(u64),
    Fail,
    Unavailable,
    Partial(u64),
}

struct ScriptedJob {
    plans: Vec<(u64, Plan)>,
    initial_states: Vec<(u64, OrderState)>,
    served_cached_sizes: Vec<u64>,
}

impl ScriptedJob {
    fn new(plans: Vec<(u64, Plan)>) -> Self {
        ScriptedJob {
            plans,
            initial_states: Vec::new(),
            served_cached_sizes: Vec::new(),
        }
    }

    fn with_initial_states(plans: Vec<(u64, Plan)>, states: Vec<(u64, OrderState)>) -> Self {
        ScriptedJob {
            plans,
            initial_states: states,
            served_cached_sizes: Vec::new(),
        }
    }

    fn plan_for(&self, id: u64) -> Plan {
        for (pid, plan) in &self.plans {
            if *pid == id {
                return *plan;
            }
        }
        Plan::Unavailable
    }
}

impl Job<TestProps, u64, u64> for ScriptedJob {
    fn initialize_cache(&mut self, _properties: &TestProps) -> Vec<(u64, OrderState)> {
        self.initial_states.clone()
    }

    fn new_channel(
        &mut self,
        _provider: &Provider,
        order: &Order,
        _properties: &TestProps,
        tx: &Sender<FlexoProgress>,
        _last_chance: bool,
    ) -> Result<Channel<u64, u64>, OrderError> {
        Ok(Channel {
            connection: 7,
            job_state: JobState {
                order: *order,
                job_resources: Some(1),
                tx: tx.clone(),
            },
        })
    }

    fn reuse_channel(
        &mut self,
        _provider: &Provider,
        order: &Order,
        _properties: &TestProps,
        tx: &Sender<FlexoProgress>,
        _last_chance: bool,
        channel: Channel<u64, u64>,
    ) -> Result<Channel<u64, u64>, OrderError> {
        Ok(Channel {
            connection: channel.connection,
            job_state: JobState {
                order: *order,
                job_resources: Some(1),
                tx: tx.clone(),
            },
        })
    }

    fn serve_from_provider(
        &mut self,
        channel: Channel<u64, u64>,
        provider: &Provider,
        _order: &Order,
        _properties: &TestProps,
        cached_size: u64,
    ) -> JobResult<u64, u64> {
        self.served_cached_sizes.push(cached_size);
        match self.plan_for(provider.id) {
            Plan::Complete(size) => {
                let _ = channel.job_state.tx.send(FlexoProgress::JobSize(size));
                let _ = channel.job_state.tx.send(FlexoProgress::Completed);
                JobResult::Complete(JobCompleted::new(channel, *provider, size))
            }
            Plan::Fail => JobResult::Error(JobTerminated {
                channel,
                error: OrderError {
                    message: String::from("upstream error"),
                },
            }),
            Plan::Unavailable => {
                let _ = channel.job_state.tx.send(FlexoProgress::Unavailable);
                JobResult::Unavailable(channel)
            }
            Plan::Partial(at) => JobResult::Partial(JobPartiallyCompleted::new(channel, at)),
        }
    }

    fn handle_error(&mut self, _error: OrderError) -> JobResult<u64, u64> {
        JobResult::UnexpectedInternalError
    }
}

fn provider(id: u64, initial_score: i64) -> Provider {
    Provider { id, initial_score }
}

fn cacheable_order(id: u64) -> Order {
    Order {
        id,
        is_cacheable: true,
        custom_provider: None,
    }
}

fn streams() -> (
    Sender<FlexoMessage<Provider>>,
    Receiver<FlexoMessage<Provider>>,
    Sender<FlexoProgress>,
    Receiver<FlexoProgress>,
) {
    let (tx, rx) = unbounded::<FlexoMessage<Provider>>();
    let (tx_progress, rx_progress) = unbounded::<FlexoProgress>();
    (tx, rx, tx_progress, rx_progress)
}

fn schedule_and_expect_item(
    ctx: &mut JobContext<TestProps, u64, u64>,
    order: Order,
    resume_from: Option<u64>,
) -> ScheduledItem {
    match ctx.try_schedule(order, resume_from) {
        ScheduleOutcome::Scheduled(item) => item,
        _ => panic!("expected the order to be scheduled"),
    }
}

#[test]
fn happy_path_rewards_best_provider() {
    let providers = vec![provider(1, 0), provider(2, 1), provider(3, 2)];
    let mut job = ScriptedJob::new(vec![(1, Plan::Complete(42))]);
    let mut ctx = JobContext::new(providers, TestProps, &mut job).0;
    let (tx, rx, tx_progress, _rx_progress) = streams();
    let x = cacheable_order(10);

    let item = schedule_and_expect_item(&mut ctx, x, None);
    assert_eq!(item.cached_size, 0);
    let outcome = ctx.run_worker(item, &mut job, &tx, &tx_progress).0;
    match outcome {
        JobOutcome::Success(p) => assert_eq!(p.id, 1),
        JobOutcome::Error(_) => panic!("expected success"),
    }
    assert_eq!(
        ctx.order_states.get(10).copied(),
        Some(OrderState::Cached(CachedItem {
            complete_size: Some(42),
            cached_size: 42,
        }))
    );
    assert_eq!(ctx.provider_failures.get(1), -1);
    assert_eq!(ctx.providers_in_use.get(1), 1);
    assert_eq!(ctx.provider_failures.get(2), 0);
    assert_eq!(ctx.providers_in_use.get(2), 0);
    let messages: Vec<FlexoMessage<Provider>> = rx.try_iter().collect();
    assert_eq!(
        messages,
        vec![
            FlexoMessage::ProviderSelected(provider(1, 0)),
            FlexoMessage::ChannelEstablished(ChannelEstablishment::NewChannel),
        ]
    );
}

#[test]
fn retry_on_error_walks_to_next_provider() {
    let providers = vec![provider(1, 0), provider(2, 1), provider(3, 2)];
    let mut job = ScriptedJob::new(vec![(1, Plan::Fail), (2, Plan::Complete(10))]);
    let mut ctx = JobContext::new(providers, TestProps, &mut job).0;
    let (tx, rx, tx_progress, _rx_progress) = streams();
    let x = cacheable_order(10);

    let item = schedule_and_expect_item(&mut ctx, x, None);
    let outcome = ctx.run_worker(item, &mut job, &tx, &tx_progress).0;
    match outcome {
        JobOutcome::Success(p) => assert_eq!(p.id, 2),
        JobOutcome::Error(_) => panic!("expected success"),
    }
    assert_eq!(ctx.provider_failures.get(1), 1);
    assert_eq!(ctx.provider_failures.get(2), -1);
    let messages: Vec<FlexoMessage<Provider>> = rx.try_iter().collect();
    assert_eq!(
        messages,
        vec![
            FlexoMessage::ProviderSelected(provider(1, 0)),
            FlexoMessage::ChannelEstablished(ChannelEstablishment::NewChannel),
            FlexoMessage::ProviderSelected(provider(2, 1)),
            FlexoMessage::ChannelEstablished(ChannelEstablishment::NewChannel),
        ]
    );
}

#[test]
fn global_unavailability_leaves_tallies_untouched() {
    let providers = vec![provider(1, 0), provider(2, 1)];
    let mut job = ScriptedJob::new(vec![(1, Plan::Unavailable), (2, Plan::Unavailable)]);
    let mut ctx = JobContext::new(providers, TestProps, &mut job).0;
    let (tx, _rx, tx_progress, rx_progress) = streams();
    let x = cacheable_order(10);

    let item = schedule_and_expect_item(&mut ctx, x, None);
    let outcome = ctx.run_worker(item, &mut job, &tx, &tx_progress).0;
    match outcome {
        JobOutcome::Success(_) => panic!("expected an error outcome"),
        JobOutcome::Error(snapshot) => {
            assert_eq!(snapshot.get(1), 0);
            assert_eq!(snapshot.get(2), 0);
        }
    }
    let progress: Vec<FlexoProgress> = rx_progress.try_iter().collect();
    assert_eq!(
        progress,
        vec![FlexoProgress::Unavailable, FlexoProgress::Unavailable]
    );
    assert!(ctx.order_states.get(10).is_none());
}

#[test]
fn exhaustion_pardons_punished_providers() {
    let providers = vec![provider(1, 0), provider(2, 1)];
    let mut job = ScriptedJob::new(vec![(1, Plan::Fail), (2, Plan::Fail)]);
    let mut ctx = JobContext::new(providers, TestProps, &mut job).0;
    let (tx, _rx, tx_progress, _rx_progress) = streams();
    let x = cacheable_order(10);

    let item = schedule_and_expect_item(&mut ctx, x, None);
    let outcome = ctx.run_worker(item, &mut job, &tx, &tx_progress).0;
    match outcome {
        JobOutcome::Success(_) => panic!("expected an error outcome"),
        JobOutcome::Error(_) => {}
    }
    assert_eq!(ctx.provider_failures.get(1), 0);
    assert_eq!(ctx.provider_failures.get(2), 0);
}

#[test]
fn partial_results_are_retried_and_punished() {
    let providers = vec![provider(1, 0), provider(2, 1)];
    let mut job = ScriptedJob::new(vec![(1, Plan::Partial(5)), (2, Plan::Complete(9))]);
    let mut ctx = JobContext::new(providers, TestProps, &mut job).0;
    let (tx, _rx, tx_progress, _rx_progress) = streams();
    let x = cacheable_order(10);

    let item = schedule_and_expect_item(&mut ctx, x, None);
    let outcome = ctx.run_worker(item, &mut job, &tx, &tx_progress).0;
    match outcome {
        JobOutcome::Success(p) => assert_eq!(p.id, 2),
        JobOutcome::Error(_) => panic!("expected success"),
    }
    assert_eq!(ctx.provider_failures.get(1), 1);
    assert_eq!(ctx.provider_failures.get(2), -1);
}

#[test]
fn deduplication_schedules_once() {
    let providers = vec![provider(1, 0), provider(2, 1)];
    let mut job = ScriptedJob::new(vec![(1, Plan::Complete(7))]);
    let mut ctx = JobContext::new(providers, TestProps, &mut job).0;
    let (tx, _rx, tx_progress, _rx_progress) = streams();
    let x = cacheable_order(10);

    let item = schedule_and_expect_item(&mut ctx, x, None);
    match ctx.try_schedule(x, None) {
        ScheduleOutcome::AlreadyInProgress => {}
        _ => panic!("the second call must see the order in progress"),
    }
    let outcome = ctx.run_worker(item, &mut job, &tx, &tx_progress).0;
    match outcome {
        JobOutcome::Success(_) => {}
        JobOutcome::Error(_) => panic!("expected success"),
    }
    match ctx.try_schedule(x, None) {
        ScheduleOutcome::Cached => {}
        _ => panic!("the third call must find the order cached"),
    }
}

#[test]
fn resume_mismatch_is_uncacheable_and_resume_within_cache_is_scheduled() {
    let providers = vec![provider(1, 0), provider(2, 1)];
    let states = vec![(
        10,
        OrderState::Cached(CachedItem {
            complete_size: None,
            cached_size: 100,
        }),
    )];
    let mut job =
        ScriptedJob::with_initial_states(vec![(1, Plan::Complete(200))], states);
    let mut ctx = JobContext::new(providers, TestProps, &mut job).0;
    let (tx, _rx, tx_progress, _rx_progress) = streams();
    let x = cacheable_order(10);

    match ctx.try_schedule(x, Some(150)) {
        ScheduleOutcome::Uncacheable(p) => assert_eq!(p.id, 1),
        _ => panic!("a resume past the cached bytes must bypass the cache"),
    }
    let item = schedule_and_expect_item(&mut ctx, x, Some(50));
    assert_eq!(item.cached_size, 100);
    let outcome = ctx.run_worker(item, &mut job, &tx, &tx_progress).0;
    match outcome {
        JobOutcome::Success(_) => {}
        JobOutcome::Error(_) => panic!("expected success"),
    }
    assert_eq!(job.served_cached_sizes, vec![100]);
}

#[test]
fn resume_boundary_against_cached_entry() {
    let providers = vec![provider(1, 0)];
    let incomplete = vec![(
        10,
        OrderState::Cached(CachedItem {
            complete_size: None,
            cached_size: 100,
        }),
    )];
    let mut job = ScriptedJob::with_initial_states(vec![], incomplete);
    let mut ctx = JobContext::new(providers, TestProps, &mut job).0;
    let x = cacheable_order(10);
    match ctx.try_schedule(x, Some(101)) {
        ScheduleOutcome::Uncacheable(_) => {}
        _ => panic!("one byte past the cache must bypass the cache"),
    }
    match ctx.try_schedule(x, Some(100)) {
        ScheduleOutcome::Scheduled(_) => {}
        _ => panic!("an incomplete entry at the boundary must be rescheduled"),
    }

    let providers = vec![provider(1, 0)];
    let complete = vec![(
        10,
        OrderState::Cached(CachedItem {
            complete_size: Some(100),
            cached_size: 100,
        }),
    )];
    let mut job = ScriptedJob::with_initial_states(vec![], complete);
    let mut ctx = JobContext::new(providers, TestProps, &mut job).0;
    match ctx.try_schedule(x, Some(100)) {
        ScheduleOutcome::Cached => {}
        _ => panic!("a complete entry at the boundary must be served from cache"),
    }
}

#[test]
fn uncacheable_order_names_best_provider() {
    let providers = vec![provider(5, 0), provider(6, 1)];
    let mut job = ScriptedJob::new(vec![]);
    let mut ctx = JobContext::new(providers, TestProps, &mut job).0;
    let direct = Order {
        id: 11,
        is_cacheable: false,
        custom_provider: None,
    };
    match ctx.try_schedule(direct, None) {
        ScheduleOutcome::Uncacheable(p) => assert_eq!(p.id, 5),
        _ => panic!("an uncacheable order must bypass the cache"),
    }
    let custom = Order {
        id: 12,
        is_cacheable: false,
        custom_provider: Some(provider(99, 7)),
    };
    match ctx.try_schedule(custom, None) {
        ScheduleOutcome::Uncacheable(p) => assert_eq!(p.id, 99),
        _ => panic!("a custom-provider order must name its provider"),
    }
}

#[test]
fn resume_with_no_cache_entry_is_uncacheable() {
    let providers = vec![provider(1, 0)];
    let mut job = ScriptedJob::new(vec![]);
    let mut ctx = JobContext::new(providers, TestProps, &mut job).0;
    let x = cacheable_order(10);
    match ctx.try_schedule(x, Some(1)) {
        ScheduleOutcome::Uncacheable(_) => {}
        _ => panic!("a range resume with no cached bytes must bypass the cache"),
    }
}

#[test]
fn custom_provider_is_single_shot_and_punished_on_failure() {
    let providers = vec![provider(1, 0), provider(2, 1)];
    let mut job = ScriptedJob::new(vec![(99, Plan::Fail), (1, Plan::Complete(3))]);
    let mut ctx = JobContext::new(providers, TestProps, &mut job).0;
    let (tx, rx, tx_progress, _rx_progress) = streams();
    let x = Order {
        id: 10,
        is_cacheable: true,
        custom_provider: Some(provider(99, 7)),
    };

    let item = schedule_and_expect_item(&mut ctx, x, None);
    let outcome = ctx.run_worker(item, &mut job, &tx, &tx_progress).0;
    match outcome {
        JobOutcome::Success(_) => panic!("the single custom attempt failed"),
        JobOutcome::Error(snapshot) => {
            // Punished once, pardoned once: net zero.
            assert_eq!(snapshot.get(99), 0);
            assert_eq!(snapshot.get(1), 0);
        }
    }
    let messages: Vec<FlexoMessage<Provider>> = rx.try_iter().collect();
    assert_eq!(
        messages,
        vec![
            FlexoMessage::ProviderSelected(provider(99, 7)),
            FlexoMessage::ChannelEstablished(ChannelEstablishment::NewChannel),
        ]
    );
}

#[test]
fn pooled_channel_is_reused_for_the_next_order() {
    let providers = vec![provider(1, 0)];
    let mut job = ScriptedJob::new(vec![(1, Plan::Complete(4))]);
    let mut ctx = JobContext::new(providers, TestProps, &mut job).0;
    let (tx, rx, tx_progress, _rx_progress) = streams();

    let first = schedule_and_expect_item(&mut ctx, cacheable_order(10), None);
    let _ = ctx.run_worker(first, &mut job, &tx, &tx_progress);
    let second = schedule_and_expect_item(&mut ctx, cacheable_order(11), None);
    let _ = ctx.run_worker(second, &mut job, &tx, &tx_progress);

    let messages: Vec<FlexoMessage<Provider>> = rx.try_iter().collect();
    assert_eq!(
        messages,
        vec![
            FlexoMessage::ProviderSelected(provider(1, 0)),
            FlexoMessage::ChannelEstablished(ChannelEstablishment::NewChannel),
            FlexoMessage::ProviderSelected(provider(1, 0)),
            FlexoMessage::ChannelEstablished(ChannelEstablishment::ExistingChannel),
        ]
    );
}

#[test]
fn failing_loop_skips_pardon_for_tally_already_at_zero() {
    // A provider that once earned a reward sits at -1; punished in a failing
    // loop it reaches 0, and the pardon skips a zero tally, so it stays at 0.
    let providers = vec![provider(1, 0), provider(2, 1)];
    let mut job = ScriptedJob::new(vec![(1, Plan::Fail), (2, Plan::Fail)]);
    let mut ctx = JobContext::new(providers, TestProps, &mut job).0;
    ctx.provider_failures.decrement(1);
    assert_eq!(ctx.provider_failures.get(1), -1);
    let (tx, _rx, tx_progress, _rx_progress) = streams();

    let item = schedule_and_expect_item(&mut ctx, cacheable_order(10), None);
    let _ = ctx.run_worker(item, &mut job, &tx, &tx_progress);
    assert_eq!(ctx.provider_failures.get(1), 0);
    assert_eq!(ctx.provider_failures.get(2), 0);
}
