//! The step orchestrator's computation: run the production engine over every
//! agent once, collecting the mutations of one simulation step, and apply a
//! batch of mutations to a set of inventory rows.

use vstd::prelude::*;
use crate::models::{inventories_wf, Agent, Inventory, Role};
use crate::production::{
    applied_production, evaluation_fails, failing_requirements, first_missing,
    production_updates, ProductionError,
};
use crate::strategy::{
    find_strategy, has_strategy, strategies_wf, strategy_for, ProductionStrategy,
};

verus! {

/// A fatal configuration error met while evaluating one agent of a step,
/// identifying the offending agent and role or commodity.
#[derive(Clone, Copy, Debug, PartialEq, Eq, Structural)]
pub enum StepError {
    /// The agent's role has no registered strategy.
    NoStrategyForRole { agent_id: i32, role: Role },
    /// A requirement of the agent's recipe references a commodity with no
    /// inventory row for that agent.
    MissingInventory { agent_id: i32, commodity_id: i32 },
}

/// Evaluating `agent` against the catalog succeeds: its role has a strategy
/// and every inventory lookup the evaluation makes finds its row.
pub open spec fn agent_evaluates(
    strategies: Seq<ProductionStrategy>,
    agent: Agent,
    invs: Seq<Inventory>,
) -> bool {
    &&& has_strategy(strategies, agent.role)
    &&& !evaluation_fails(strategy_for(strategies, agent.role), invs)
}

/// The mutations of one full step: the engine's outcome for every agent in
/// turn, concatenated in agent order.
pub open spec fn step_updates(
    strategies: Seq<ProductionStrategy>,
    agents: Seq<(Agent, Vec<Inventory>)>,
) -> Seq<Inventory>
    decreases agents.len(),
{
    if agents.len() == 0 {
        Seq::empty()
    } else {
        step_updates(strategies, agents.drop_last())
            + production_updates(
                strategy_for(strategies, agents.last().0.role),
                agents.last().1@,
            )
    }
}

/// `i` is the first position of `agents` whose evaluation fails.
pub open spec fn first_failing(
    strategies: Seq<ProductionStrategy>,
    agents: Seq<(Agent, Vec<Inventory>)>,
    i: int,
) -> bool {
    &&& 0 <= i < agents.len()
    &&& !agent_evaluates(strategies, agents[i].0, agents[i].1@)
    &&& forall|k: int| 0 <= k < i
        ==> agent_evaluates(strategies, agents[k].0, #[trigger] agents[k].1@)
}

/// The error reported for one failing agent: its role lacks a strategy, or
/// the first missing inventory row met by the evaluation, as the engine
/// reports it.
pub open spec fn step_error_for(
    strategies: Seq<ProductionStrategy>,
    agent: Agent,
    invs: Seq<Inventory>,
    e: StepError,
) -> bool {
    if !has_strategy(strategies, agent.role) {
        e == (StepError::NoStrategyForRole { agent_id: agent.id, role: agent.role })
    } else {
        exists|j: int| #[trigger] first_missing(
            invs,
            failing_requirements(strategy_for(strategies, agent.role), invs),
            j,
        ) && e == (StepError::MissingInventory {
            agent_id: agent.id,
            commodity_id: failing_requirements(
                strategy_for(strategies, agent.role),
                invs,
            )[j].commodity_id,
        })
    }
}

/// Run the production engine over every loaded agent once and collect every
/// produced mutation into one batch, in agent order.
///
/// The step fails on the first agent whose role has no registered strategy or
/// whose recipe references a commodity the agent does not track; otherwise it
/// returns the whole batch, which is empty when no recipe fired.
#[verifier::loop_isolation(false)]
pub fn perform_production(
    strategies: &Vec<ProductionStrategy>,
    agents: &Vec<(Agent, Vec<Inventory>)>,
) -> (r: Result<Vec<Inventory>, StepError>)
    requires
        strategies_wf(strategies@),
        forall|i: int| 0 <= i < agents@.len() ==> inventories_wf(#[trigger] agents@[i].1@),
    ensures
        r is Ok <==> (forall|i: int| 0 <= i < agents@.len()
            ==> agent_evaluates(strategies@, agents@[i].0, #[trigger] agents@[i].1@)),
        r matches Ok(updates) ==> updates@ == step_updates(strategies@, agents@),
        r matches Err(e) ==> exists|i: int| #[trigger] first_failing(strategies@, agents@, i)
            && step_error_for(strategies@, agents@[i].0, agents@[i].1@, e),
{
    let mut updates: Vec<Inventory> = Vec::new();
    let n: usize = agents.len();
    let mut i: usize = 0;
    while i < n
        invariant
            i <= n,
            updates@ == step_updates(strategies@, agents@.subrange(0, i as int)),
            forall|k: int| 0 <= k < i
                ==> agent_evaluates(strategies@, agents@[k].0, #[trigger] agents@[k].1@),
        decreases n - i,
    {
        let agent = agents[i].0;
        match find_strategy(strategies, agent.role) {
            None => {
                proof {
                    assert(first_failing(strategies@, agents@, i as int));
                }
                return Err(StepError::NoStrategyForRole { agent_id: agent.id, role: agent.role });
            },
            Some(si) => {
                match applied_production(&strategies[si], &agents[i].1) {
                    Err(pe) => {
                        let ghost s = strategy_for(strategies@, agent.role);
                        let ghost invs = agents@[i as int].1@;
                        match pe {
                            ProductionError::MissingInventory { commodity_id } => {
                                let e = StepError::MissingInventory {
                                    agent_id: agent.id,
                                    commodity_id,
                                };
                                proof {
                                    assert(first_failing(strategies@, agents@, i as int));
                                    let reqs = failing_requirements(s, invs);
                                    let j = choose|j: int| first_missing(invs, reqs, j)
                                        && pe == (ProductionError::MissingInventory {
                                            commodity_id: reqs[j].commodity_id,
                                        });
                                    assert(first_missing(invs, reqs, j)
                                        && e == (StepError::MissingInventory {
                                            agent_id: agent.id,
                                            commodity_id: reqs[j].commodity_id,
                                        }));
                                    assert(step_error_for(strategies@, agents@[i as int].0,
                                        invs, e));
                                }
                                return Err(e);
                            },
                        }
                    },
                    Ok(mut produced) => {
                        proof {
                            let pre = agents@.subrange(0, i as int);
                            let post = agents@.subrange(0, i + 1 as int);
                            assert(post.drop_last() =~= pre);
                            assert(post.last() == agents@[i as int]);
                        }
                        updates.append(&mut produced);
                    },
                }
            },
        }
        i = i + 1;
    }
    proof {
        assert(agents@.subrange(0, n as int) =~= agents@);
    }
    Ok(updates)
}

/// The first update row carrying `id`, if any.
pub open spec fn spec_find_update(ups: Seq<Inventory>, id: i32) -> Option<Inventory>
    decreases ups.len(),
{
    if ups.len() == 0 {
        None
    } else if ups.first().id == id {
        Some(ups.first())
    } else {
        spec_find_update(ups.drop_first(), id)
    }
}

/// The rows of `invs` after persisting the batch `ups`: each row replaced by
/// the first update carrying its id, untouched rows kept as they are.
pub open spec fn spec_apply_updates(invs: Seq<Inventory>, ups: Seq<Inventory>) -> Seq<Inventory> {
    Seq::new(
        invs.len(),
        |i: int| match spec_find_update(ups, invs[i].id) {
            Some(u) => u,
            None => invs[i],
        },
    )
}

/// Scanning past a prefix without a matching id does not change which update
/// row is found.
proof fn lemma_find_update_past_prefix(ups: Seq<Inventory>, id: i32, j: int)
    requires
        0 <= j <= ups.len(),
        forall|k: int| 0 <= k < j ==> ups[k].id != id,
    ensures
        spec_find_update(ups, id) == spec_find_update(ups.subrange(j, ups.len() as int), id),
    decreases j,
{
    if j == 0 {
        assert(ups.subrange(0, ups.len() as int) =~= ups);
    } else {
        let rest = ups.drop_first();
        assert(ups.first().id != id);
        assert(forall|k: int| 0 <= k < j - 1 ==> rest[k].id != id);
        lemma_find_update_past_prefix(rest, id, j - 1);
        assert(rest.subrange(j - 1, rest.len() as int)
            =~= ups.subrange(j, ups.len() as int));
    }
}

/// Locate the first update row carrying `id`.
#[verifier::loop_isolation(false)]
pub fn find_update(updates: &Vec<Inventory>, id: i32) -> (r: Option<Inventory>)
    ensures
        r == spec_find_update(updates@, id),
{
    let m: usize = updates.len();
    let mut j: usize = 0;
    while j < m
        invariant
            j <= m,
            forall|k: int| 0 <= k < j ==> updates@[k].id != id,
        decreases m - j,
    {
        if updates[j].id == id {
            proof {
                lemma_find_update_past_prefix(updates@, id, j as int);
                let tail = updates@.subrange(j as int, m as int);
                assert(tail.first() == updates@[j as int]);
            }
            return Some(updates[j]);
        }
        j = j + 1;
    }
    proof {
        lemma_find_update_past_prefix(updates@, id, m as int);
        assert(updates@.subrange(m as int, m as int).len() == 0);
    }
    None
}

/// Apply a persisted batch to a set of inventory rows: each row is replaced
/// by the first update carrying its id; rows without an update are unchanged.
#[verifier::loop_isolation(false)]
pub fn apply_updates(inventories: &Vec<Inventory>, updates: &Vec<Inventory>) -> (r: Vec<Inventory>)
    ensures
        r@ == spec_apply_updates(inventories@, updates@),
{
    let mut result: Vec<Inventory> = Vec::new();
    let n: usize = inventories.len();
    let mut i: usize = 0;
    while i < n
        invariant
            i <= n,
            result@.len() == i,
            forall|k: int| 0 <= k < i
                ==> result@[k] == spec_apply_updates(inventories@, updates@)[k],
        decreases n - i,
    {
        match find_update(updates, inventories[i].id) {
            Some(u) => result.push(u),
            None => result.push(inventories[i]),
        }
        i = i + 1;
    }
    proof {
        assert(result@ =~= spec_apply_updates(inventories@, updates@));
    }
    result
}

} // verus!
