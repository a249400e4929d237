//! The attempt loop: drive a single order to completion by walking through
//! providers in score order, retrying on transient failures.

use crate::job::{
    Channel, ChannelEstablishment, FlexoMessage, FlexoProgress, Job, JobResult, OrderError,
    Properties, NUM_MAX_ATTEMPTS,
};
use crate::kvmap::KvMap;
use crate::order_state::Order;
use crate::registry::{
    contains_id, distinct_ids, lemma_remove_id, pardon, Provider, ProvidersWithStats,
};
use vstd::prelude::*;

verus! {

/// Ghost record of one attempt sequence: which provider won, the size it
/// reported, the provider of the last attempt, and which providers were
/// selected and punished along the way. It lets the loop's contract fix
/// every tally exactly without revealing the loop's internals.
pub ghost struct AttemptLog {
    pub winner: u64,
    pub completed_size: u64,
    pub last: u64,
    pub selected: Set<u64>,
    pub punished: Set<u64>,
}

/// Take the provider's pooled channel and ask the job to reuse it, or ask the
/// job for a fresh channel when the pool holds none. Reports which of the two
/// happened; on failure nothing is returned to the pool.
pub fn get_channel<PR: Properties, C, JS, J: Job<PR, C, JS>>(
    job: &mut J,
    provider: &Provider,
    order: &Order,
    channels: &mut KvMap<Channel<C, JS>>,
    properties: &PR,
    tx_progress: &crossbeam::channel::Sender<FlexoProgress>,
    last_chance: bool,
) -> (r: Result<(Channel<C, JS>, ChannelEstablishment), OrderError>)
    requires
        old(channels).wf(),
    ensures
        final(channels).wf(),
        final(channels)@ == old(channels)@.remove(provider.id),
        r matches Ok(p) ==> (p.1 == ChannelEstablishment::ExistingChannel <==> old(
            channels,
        )@.contains_key(provider.id)),
{
    match channels.remove(provider.id) {
        Some(existing) => {
            match job.reuse_channel(provider, order, properties, tx_progress, last_chance, existing) {
                Ok(new_channel) => Ok((new_channel, ChannelEstablishment::ExistingChannel)),
                Err(e) => Err(e),
            }
        },
        None => {
            match job.new_channel(provider, order, properties, tx_progress, last_chance) {
                Ok(c) => Ok((c, ChannelEstablishment::NewChannel)),
                Err(e) => Err(e),
            }
        },
    }
}

impl Order {
    /// Drive this order until one provider completes it, or every candidate
    /// was tried, or the attempt budget is spent, or a terminal client or
    /// internal error ends it. The ghost log pins the accounting: every
    /// selected provider's usage count rises by exactly one and no other
    /// moves; on success the winner's failure tally drops by one, providers
    /// punished for a partial or failed attempt keep their increment, and
    /// everyone else (including providers that answered "unavailable" and
    /// the provider of a terminal attempt) is untouched; on failure every
    /// punished provider is pardoned back to where it started, except that a
    /// tally that was at -1 is left at 0 because the pardon skips zero
    /// tallies. A custom-provider order makes exactly one attempt, on that
    /// provider, without reading or shrinking the working list; otherwise
    /// the working list loses exactly the selected providers.
    pub fn try_until_success<PR: Properties, C, JS, J: Job<PR, C, JS>>(
        &self,
        job: &mut J,
        provider_stats: &mut ProvidersWithStats,
        channels: &mut KvMap<Channel<C, JS>>,
        tx: &crossbeam::channel::Sender<FlexoMessage<Provider>>,
        tx_progress: &crossbeam::channel::Sender<FlexoProgress>,
        properties: &PR,
        cached_size: u64,
    ) -> (r: (JobResult<C, JS>, Ghost<AttemptLog>))
        requires
            old(provider_stats).wf(),
            old(channels).wf(),
            old(provider_stats).providers@.len() > 0 || self.custom_provider is Some,
            forall|q: u64|
                i32::MIN < #[trigger] old(provider_stats).provider_failures.count(q) < i32::MAX,
            forall|q: u64|
                #[trigger] old(provider_stats).provider_current_usages.count(q) < i32::MAX,
        ensures
            final(provider_stats).wf(),
            final(channels).wf(),
            forall|k: u64|
                #[trigger] final(channels)@.contains_key(k) ==> old(channels)@.contains_key(k)
                    && final(channels)@[k] == old(channels)@[k],
            forall|i: int|
                0 <= i < final(provider_stats).providers@.len() ==> old(provider_stats).providers@.contains(
                    #[trigger] final(provider_stats).providers@[i],
                ),
            r.1@.selected.contains(r.1@.last),
            forall|q: u64| #[trigger] r.1@.punished.contains(q) ==> r.1@.selected.contains(q),
            forall|q: u64|
                #[trigger] r.1@.selected.contains(q) ==> (match self.custom_provider {
                    Some(p) => q == p.id,
                    None => contains_id(old(provider_stats).providers@, q),
                }),
            self.custom_provider matches Some(p) ==> final(provider_stats).providers@ == old(provider_stats).providers@
                && (forall|q: u64| #[trigger] r.1@.selected.contains(q) <==> q == p.id),
            self.custom_provider is None ==> (forall|q: u64|
                #[trigger] contains_id(final(provider_stats).providers@, q) <==> (contains_id(
                    old(provider_stats).providers@,
                    q,
                ) && !r.1@.selected.contains(q))),
            forall|q: u64|
                r.1@.selected.contains(q) ==> #[trigger] final(provider_stats).provider_current_usages.count(
                    q,
                ) == old(provider_stats).provider_current_usages.count(q) + 1,
            forall|q: u64|
                !r.1@.selected.contains(q) ==> #[trigger] final(provider_stats).provider_current_usages.count(
                    q,
                ) == old(provider_stats).provider_current_usages.count(q),
            r.0 matches JobResult::Complete(jc) ==> {
                &&& jc.size == r.1@.completed_size
                &&& r.1@.selected.contains(r.1@.winner)
                &&& !r.1@.punished.contains(r.1@.winner)
                &&& final(provider_stats).provider_failures.count(r.1@.winner) == old(provider_stats).provider_failures.count(
                    r.1@.winner,
                ) - 1
                &&& forall|q: u64|
                    q != r.1@.winner && r.1@.punished.contains(q)
                        ==> #[trigger] final(provider_stats).provider_failures.count(q) == old(provider_stats).provider_failures.count(
                        q,
                    ) + 1
                &&& forall|q: u64|
                    q != r.1@.winner && !r.1@.punished.contains(q)
                        ==> #[trigger] final(provider_stats).provider_failures.count(q) == old(provider_stats).provider_failures.count(
                        q,
                    )
            },
            !(r.0 is Complete) ==> {
                &&& forall|q: u64|
                    r.1@.punished.contains(q) && old(provider_stats).provider_failures.count(q)
                        != -1 ==> #[trigger] final(provider_stats).provider_failures.count(q)
                        == old(provider_stats).provider_failures.count(q)
                &&& forall|q: u64|
                    r.1@.punished.contains(q) && old(provider_stats).provider_failures.count(q)
                        == -1 ==> #[trigger] final(provider_stats).provider_failures.count(q)
                        == 0
                &&& forall|q: u64|
                    !r.1@.punished.contains(q)
                        ==> #[trigger] final(provider_stats).provider_failures.count(q) == old(provider_stats).provider_failures.count(
                        q,
                    )
            },
    {
        let ghost init_failures = old(provider_stats).provider_failures;
        let ghost init_usages = old(provider_stats).provider_current_usages;
        let ghost init_providers = old(provider_stats).providers@;
        let mut num_attempt: u32 = 0;
        let mut punished_providers: Vec<Provider> = Vec::new();
        let ghost mut selected_ids: Set<u64> = Set::empty();
        let ghost mut punished_set: Set<u64> = Set::empty();
        let mut winner: Ghost<u64> = Ghost(0u64);
        let mut completed_size: Ghost<u64> = Ghost(0u64);
        let mut last_selected: Ghost<u64> = Ghost(0u64);
        let mut pending: Option<JobResult<C, JS>> = None;
        loop
            invariant_except_break
                pending is None,
                num_attempt < NUM_MAX_ATTEMPTS,
                provider_stats.providers@.len() > 0 || self.custom_provider is Some,
                self.custom_provider is Some ==> num_attempt == 0 && selected_ids
                    == Set::<u64>::empty(),
                forall|i: int|
                    0 <= i < provider_stats.providers@.len() ==> !selected_ids.contains(
                        #[trigger] provider_stats.providers@[i].id,
                    ),
                forall|q: u64|
                    !selected_ids.contains(q)
                        ==> #[trigger] provider_stats.provider_failures.count(q)
                        == init_failures.count(q),
                forall|q: u64|
                    selected_ids.contains(q) && punished_set.contains(q)
                        ==> #[trigger] provider_stats.provider_failures.count(q)
                        == init_failures.count(q) + 1,
                forall|q: u64|
                    selected_ids.contains(q) && !punished_set.contains(q)
                        ==> #[trigger] provider_stats.provider_failures.count(q)
                        == init_failures.count(q),
            invariant
                provider_stats.wf(),
                channels.wf(),
                forall|k: u64|
                    #[trigger] channels@.contains_key(k) ==> old(channels)@.contains_key(k)
                        && channels@[k] == old(channels)@[k],
                forall|i: int|
                    0 <= i < provider_stats.providers@.len() ==> init_providers.contains(
                        #[trigger] provider_stats.providers@[i],
                    ),
                forall|q: u64| i32::MIN < #[trigger] init_failures.count(q) < i32::MAX,
                forall|q: u64| #[trigger] init_usages.count(q) < i32::MAX,
                forall|q: u64|
                    !selected_ids.contains(q)
                        ==> #[trigger] provider_stats.provider_current_usages.count(q)
                        == init_usages.count(q),
                forall|q: u64|
                    selected_ids.contains(q)
                        ==> #[trigger] provider_stats.provider_current_usages.count(q)
                        == init_usages.count(q) + 1,
                distinct_ids(punished_providers@),
                forall|q: u64|
                    #[trigger] punished_set.contains(q) <==> contains_id(punished_providers@, q),
                forall|q: u64| #[trigger] punished_set.contains(q) ==> selected_ids.contains(q),
                forall|q: u64|
                    #[trigger] selected_ids.contains(q) ==> (match self.custom_provider {
                        Some(p) => q == p.id,
                        None => contains_id(init_providers, q),
                    }),
                self.custom_provider is Some ==> provider_stats.providers@ == init_providers,
                self.custom_provider is None ==> (forall|q: u64|
                    #[trigger] contains_id(provider_stats.providers@, q) <==> (contains_id(
                        init_providers,
                        q,
                    ) && !selected_ids.contains(q))),
            ensures
                pending is Some,
                selected_ids.contains(last_selected@),
                provider_stats.wf(),
                channels.wf(),
                distinct_ids(punished_providers@),
                forall|q: u64|
                    #[trigger] punished_set.contains(q) <==> contains_id(punished_providers@, q),
                self.custom_provider matches Some(p) ==> (forall|q: u64|
                    #[trigger] selected_ids.contains(q) <==> q == p.id),
                pending matches Some(res) ==> {
                    &&& (res matches JobResult::Complete(jc) ==> {
                        &&& jc.size == completed_size@
                        &&& selected_ids.contains(winner@)
                        &&& !punished_set.contains(winner@)
                        &&& provider_stats.provider_failures.count(winner@)
                            == init_failures.count(winner@) - 1
                        &&& forall|q: u64|
                            q != winner@ && punished_set.contains(q)
                                ==> #[trigger] provider_stats.provider_failures.count(q)
                                == init_failures.count(q) + 1
                        &&& forall|q: u64|
                            q != winner@ && !punished_set.contains(q)
                                ==> #[trigger] provider_stats.provider_failures.count(q)
                                == init_failures.count(q)
                    })
                    &&& (!(res is Complete) ==> {
                        &&& forall|q: u64|
                            punished_set.contains(q)
                                ==> #[trigger] provider_stats.provider_failures.count(q)
                                == init_failures.count(q) + 1
                        &&& forall|q: u64|
                            !punished_set.contains(q)
                                ==> #[trigger] provider_stats.provider_failures.count(q)
                                == init_failures.count(q)
                    })
                },
            decreases NUM_MAX_ATTEMPTS - num_attempt,
        {
            let ghost pre_list = provider_stats.providers@;
            let ghost pre_selected = selected_ids;
            let ghost pre_punished = punished_providers@;
            num_attempt = num_attempt + 1;
            let (provider, is_last_provider) = match self.custom_provider {
                None => provider_stats.select_provider(),
                Some(p) => (p, true),
            };
            proof {
                if self.custom_provider is None {
                    let i = choose|i: int|
                        0 <= i < pre_list.len() && pre_list[i] == provider && provider_stats
                            .providers@ == pre_list.remove(i);
                    assert(!pre_selected.contains(pre_list[i].id));
                    lemma_remove_id(pre_list, i);
                }
                assert(!pre_selected.contains(provider.id));
                assert(!contains_id(pre_punished, provider.id)) by {
                    if contains_id(pre_punished, provider.id) {
                        let i = choose|i: int|
                            0 <= i < pre_punished.len() && (#[trigger] pre_punished[i]).id
                                == provider.id;
                        assert(punished_set.contains(pre_punished[i].id));
                        assert(pre_selected.contains(pre_punished[i].id));
                    }
                }
            }
            last_selected = Ghost(provider.id);
            let last_chance = num_attempt >= NUM_MAX_ATTEMPTS || is_last_provider;
            crate::job::channel_send(tx, FlexoMessage::ProviderSelected(provider));
            provider_stats.provider_current_usages.increment(provider.id);
            proof {
                selected_ids = selected_ids.insert(provider.id);
                if self.custom_provider is None {
                    let i = choose|i: int|
                        0 <= i < pre_list.len() && pre_list[i] == provider && provider_stats
                            .providers@ == pre_list.remove(i);
                    lemma_remove_id(pre_list, i);
                    assert(pre_list[i].id == provider.id);
                    assert forall|q: u64| #[trigger] contains_id(
                        provider_stats.providers@,
                        q,
                    ) implies (contains_id(init_providers, q) && !selected_ids.contains(q)) by {
                        assert(contains_id(pre_list.remove(i), q));
                        assert(contains_id(pre_list, q) && q != provider.id);
                    }
                    assert forall|q: u64|
                        contains_id(init_providers, q) && !selected_ids.contains(q) implies
                        #[trigger] contains_id(provider_stats.providers@, q) by {
                        assert(contains_id(pre_list, q));
                        assert(q != provider.id);
                        assert(contains_id(pre_list.remove(i), q));
                    }
                }
            }
            let channel_result = get_channel(
                job,
                &provider,
                self,
                channels,
                properties,
                tx_progress,
                last_chance,
            );
            let result = match channel_result {
                Ok((channel, channel_establishment)) => {
                    crate::job::channel_send(
                        tx,
                        FlexoMessage::ChannelEstablished(channel_establishment),
                    );
                    job.serve_from_provider(channel, &provider, self, properties, cached_size)
                },
                Err(e) => {
                    crate::job::channel_send(tx, FlexoMessage::OrderError);
                    crate::job::channel_send(tx_progress, FlexoProgress::OrderError);
                    job.handle_error(e)
                },
            };
            let mut terminal_error: bool = false;
            match &result {
                JobResult::Complete(jc) => {
                    provider.reward(&mut provider_stats.provider_failures);
                    winner = Ghost(provider.id);
                    completed_size = Ghost(jc.size);
                },
                JobResult::Partial(_) => {
                    provider.punish(&mut provider_stats.provider_failures);
                    punished_providers.push(provider);
                    proof {
                        punished_set = punished_set.insert(provider.id);
                    }
                },
                JobResult::Error(_) => {
                    provider.punish(&mut provider_stats.provider_failures);
                    punished_providers.push(provider);
                    proof {
                        punished_set = punished_set.insert(provider.id);
                    }
                },
                JobResult::Unavailable(_) => {},
                JobResult::ClientError => {
                    terminal_error = true;
                },
                JobResult::UnexpectedInternalError => {
                    terminal_error = true;
                },
            };
            proof {
                if result is Partial || result is Error {
                    assert(punished_providers@ == pre_punished.push(provider));
                    assert forall|q: u64| #[trigger] contains_id(punished_providers@, q) implies (
                    contains_id(pre_punished, q) || q == provider.id) by {
                        let i = choose|i: int|
                            0 <= i < punished_providers@.len() && (
                            #[trigger] punished_providers@[i]).id == q;
                        if i < pre_punished.len() {
                            assert(pre_punished[i].id == q);
                        }
                    }
                    assert forall|q: u64| #[trigger] contains_id(pre_punished, q) implies
                        contains_id(punished_providers@, q) by {
                        let i = choose|i: int|
                            0 <= i < pre_punished.len() && (#[trigger] pre_punished[i]).id == q;
                        assert(punished_providers@[i].id == q);
                    }
                    assert(contains_id(punished_providers@, provider.id)) by {
                        assert(punished_providers@[pre_punished.len() as int].id == provider.id);
                    }
                    assert(distinct_ids(punished_providers@)) by {
                        assert forall|i: int, j: int|
                            0 <= i < j < punished_providers@.len() implies punished_providers@[i].id
                            != punished_providers@[j].id by {
                            if j < pre_punished.len() {
                                assert(pre_punished[i].id != pre_punished[j].id);
                            } else {
                                assert(punished_set.contains(pre_punished[i].id));
                                assert(pre_selected.contains(pre_punished[i].id));
                            }
                        }
                    }
                } else {
                    assert(punished_providers@ == pre_punished);
                }
            }
            if terminal_error || result.is_success() || provider_stats.providers.is_empty()
                || last_chance {
                proof {
                    assert(selected_ids.contains(provider.id));
                }
                pending = Some(result);
                break ;
            }
        }
        let result = match pending {
            Some(res) => res,
            None => {
                proof {
                    assert(false);
                }
                JobResult::UnexpectedInternalError
            },
        };
        if !result.is_success() {
            pardon(&punished_providers, &mut provider_stats.provider_failures);
        }
        let log = Ghost(
            AttemptLog {
                winner: winner@,
                completed_size: completed_size@,
                last: last_selected@,
                selected: selected_ids,
                punished: punished_set,
            },
        );
        (result, log)
    }
}

} // verus!
