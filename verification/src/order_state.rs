//! The order index: the cache-state machine that makes deduplication safe,
//! together with the scheduling decision table and its laws.

use crate::registry::Provider;
use vstd::prelude::*;

verus! {

/// An immutable request identity for one artifact. The identity is an opaque
/// `u64` key chosen by the embedding program. An order that is not cacheable,
/// or that must be served by one specific provider, carries that here.
#[derive(Clone, Copy, Debug, PartialEq, Eq, Hash, Structural)]
pub struct Order {
    pub id: u64,
    pub is_cacheable: bool,
    pub custom_provider: Option<Provider>,
}

/// What is known about a fully or partially cached artifact: the bytes on
/// disk, and the complete size when it is known.
#[derive(Clone, Copy, Debug, PartialEq, Eq, Hash, Structural)]
pub struct CachedItem {
    pub complete_size: Option<u64>,
    pub cached_size: u64,
}

/// The two states of an order index entry.
#[derive(Clone, Copy, Debug, PartialEq, Eq, Hash, Structural)]
pub enum OrderState {
    Cached(CachedItem),
    InProgress,
}

/// The four possible answers of the scheduler, at the specification level.
pub enum ScheduleDecision {
    AlreadyInProgress,
    Scheduled,
    Cached,
    Uncacheable,
}

/// The resume offset a client asked for, zero when it asked for none.
pub open spec fn resume_offset(resume_from: Option<u64>) -> u64 {
    match resume_from {
        Some(r) => r,
        None => 0,
    }
}

/// The scheduling decision table over the order index: an uncacheable order
/// bypasses the cache; an unknown order is scheduled unless a resume offset
/// asks for bytes the cache does not hold; a cached order is served from
/// cache when complete, rescheduled when incomplete, and bypassed when its
/// cached bytes cannot satisfy the resume offset; an in-progress order is
/// left to the worker already responsible for it.
pub open spec fn schedule_decision(
    states: Map<u64, OrderState>,
    order: Order,
    resume_from: Option<u64>,
) -> ScheduleDecision {
    let rf = resume_offset(resume_from);
    if !order.is_cacheable {
        ScheduleDecision::Uncacheable
    } else if !states.contains_key(order.id) {
        if rf > 0 {
            ScheduleDecision::Uncacheable
        } else {
            ScheduleDecision::Scheduled
        }
    } else {
        match states[order.id] {
            OrderState::InProgress => ScheduleDecision::AlreadyInProgress,
            OrderState::Cached(item) => {
                if item.cached_size < rf {
                    ScheduleDecision::Uncacheable
                } else if item.complete_size == Some(item.cached_size) {
                    ScheduleDecision::Cached
                } else {
                    ScheduleDecision::Scheduled
                }
            },
        }
    }
}

/// The bytes already on disk that a newly scheduled worker may resume from.
pub open spec fn scheduled_cached_size(states: Map<u64, OrderState>, order: Order) -> u64 {
    if states.contains_key(order.id) {
        match states[order.id] {
            OrderState::Cached(item) => item.cached_size,
            OrderState::InProgress => 0,
        }
    } else {
        0
    }
}

/// The order index after a scheduling call: a scheduled order is marked
/// in-progress, every other decision leaves the index unchanged.
pub open spec fn schedule_post(
    states: Map<u64, OrderState>,
    order: Order,
    resume_from: Option<u64>,
) -> Map<u64, OrderState> {
    if schedule_decision(states, order, resume_from) is Scheduled {
        states.insert(order.id, OrderState::InProgress)
    } else {
        states
    }
}

/// The order index after a worker completed an order with `size` bytes.
pub open spec fn completion_post(
    states: Map<u64, OrderState>,
    order_id: u64,
    size: u64,
) -> Map<u64, OrderState> {
    states.insert(
        order_id,
        OrderState::Cached(CachedItem { complete_size: Some(size), cached_size: size }),
    )
}

/// The order index after a worker gave an order up: its in-progress mark is
/// released and nothing is reinserted.
pub open spec fn failure_post(states: Map<u64, OrderState>, order_id: u64) -> Map<u64, OrderState> {
    states.remove(order_id)
}

/// Law: while an order is marked in-progress, no scheduling call hands out a
/// second worker for it, so at most one worker is ever responsible for an
/// order.
pub proof fn lemma_single_worker(states: Map<u64, OrderState>, order: Order, resume_from: Option<u64>)
    requires
        states.contains_key(order.id),
        states[order.id] is InProgress,
    ensures
        !(schedule_decision(states, order, resume_from) is Scheduled),
{
}

/// Law: of two scheduling calls for the same order, at most one returns a
/// schedule; the second call after a successful schedule is told that the
/// order is already in progress.
pub proof fn lemma_deduplication(
    states: Map<u64, OrderState>,
    order: Order,
    resume_first: Option<u64>,
    resume_second: Option<u64>,
)
    requires
        schedule_decision(states, order, resume_first) is Scheduled,
    ensures
        schedule_decision(schedule_post(states, order, resume_first), order, resume_second)
            is AlreadyInProgress,
{
}

/// Law: round trip. After an order completed with `size` bytes, scheduling it
/// again with a resume offset of at most `size` finds it cached.
pub proof fn lemma_round_trip(
    states: Map<u64, OrderState>,
    order: Order,
    size: u64,
    resume_from: Option<u64>,
)
    requires
        order.is_cacheable,
        resume_offset(resume_from) <= size,
    ensures
        schedule_decision(completion_post(states, order.id, size), order, resume_from)
            is Cached,
{
}

/// Law: boundary of the resume offset against a cached entry. One byte past
/// the cached bytes cannot be served; exactly the cached bytes are served
/// from cache when the entry is complete and rescheduled when it is not.
pub proof fn lemma_resume_boundary(states: Map<u64, OrderState>, order: Order, item: CachedItem)
    requires
        order.is_cacheable,
        states.contains_key(order.id),
        states[order.id] == OrderState::Cached(item),
        item.cached_size < u64::MAX,
    ensures
        schedule_decision(states, order, Some((item.cached_size + 1) as u64)) is Uncacheable,
        item.complete_size == Some(item.cached_size) ==> schedule_decision(
            states,
            order,
            Some(item.cached_size),
        ) is Cached,
        item.complete_size != Some(item.cached_size) ==> schedule_decision(
            states,
            order,
            Some(item.cached_size),
        ) is Scheduled && scheduled_cached_size(states, order) == item.cached_size,
{
}

} // verus!
