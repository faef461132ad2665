//! The production engine: decides, for one agent, whether its role's recipe
//! can fire against the agent's current inventories, and computes the atomic
//! set of inventory mutations that results when it does.

use vstd::prelude::*;
use crate::models::{
    distinct_commodities, find_inventory, has_row, inventories_wf, row_for, Inventory,
};
use crate::strategy::{ProductionRequirement, ProductionStrategy};

verus! {

/// A fatal configuration error: a requirement references a commodity with no
/// inventory row for the agent under evaluation.
#[derive(Clone, Copy, Debug, PartialEq, Eq, Structural)]
pub enum ProductionError {
    MissingInventory { commodity_id: i32 },
}

/// Every requirement of `reqs` has an inventory row in `invs`.
pub open spec fn covers(invs: Seq<Inventory>, reqs: Seq<ProductionRequirement>) -> bool {
    forall|j: int| 0 <= j < reqs.len() ==> has_row(invs, #[trigger] reqs[j].commodity_id)
}

/// Every input requirement finds at least its amount in stock.
pub open spec fn inputs_satisfied(invs: Seq<Inventory>, reqs: Seq<ProductionRequirement>) -> bool {
    forall|j: int| 0 <= j < reqs.len()
        ==> row_for(invs, #[trigger] reqs[j].commodity_id).amount >= reqs[j].amount
}

/// Every output requirement finds enough remaining capacity to receive its
/// full amount.
pub open spec fn outputs_satisfied(invs: Seq<Inventory>, reqs: Seq<ProductionRequirement>) -> bool {
    forall|j: int| 0 <= j < reqs.len()
        ==> row_for(invs, #[trigger] reqs[j].commodity_id).max_amount
            - row_for(invs, reqs[j].commodity_id).amount >= reqs[j].amount
}

/// The recipe fires for this agent this step: every requirement has a row,
/// every input is in stock and every output has capacity.
pub open spec fn feasible(s: ProductionStrategy, invs: Seq<Inventory>) -> bool {
    &&& covers(invs, s.inputs@)
    &&& covers(invs, s.outputs@)
    &&& inputs_satisfied(invs, s.inputs@)
    &&& outputs_satisfied(invs, s.outputs@)
}

/// Evaluating the recipe against `invs` hits a missing inventory row: some
/// input row is absent, or the inputs are all present and in stock but some
/// output row is absent. (When the inputs are present but short, the output
/// rows are never looked up, so their absence is not reached.)
pub open spec fn evaluation_fails(s: ProductionStrategy, invs: Seq<Inventory>) -> bool {
    ||| !covers(invs, s.inputs@)
    ||| (inputs_satisfied(invs, s.inputs@) && !covers(invs, s.outputs@))
}

/// The requirement list whose lookup fails first when evaluation fails: the
/// inputs when some input row is absent, the outputs otherwise.
pub open spec fn failing_requirements(s: ProductionStrategy, invs: Seq<Inventory>)
    -> Seq<ProductionRequirement> {
    if !covers(invs, s.inputs@) {
        s.inputs@
    } else {
        s.outputs@
    }
}

/// `j` is the first position of `reqs` whose commodity has no row in `invs`.
pub open spec fn first_missing(
    invs: Seq<Inventory>,
    reqs: Seq<ProductionRequirement>,
    j: int,
) -> bool {
    &&& 0 <= j < reqs.len()
    &&& !has_row(invs, reqs[j].commodity_id)
    &&& forall|k: int| 0 <= k < j ==> has_row(invs, #[trigger] reqs[k].commodity_id)
}

/// The row of `invs` for an input requirement, with the requirement's amount
/// consumed out of the pre-step stock.
pub open spec fn consumed_row(invs: Seq<Inventory>, r: ProductionRequirement) -> Inventory {
    let inv = row_for(invs, r.commodity_id);
    Inventory {
        id: inv.id,
        commodity_id: inv.commodity_id,
        agent_id: inv.agent_id,
        amount: (inv.amount - r.amount) as i32,
        max_amount: inv.max_amount,
        ideal_amount: inv.ideal_amount,
    }
}

/// The row of `invs` for an output requirement, with the requirement's amount
/// added onto the pre-step stock.
pub open spec fn produced_row(invs: Seq<Inventory>, r: ProductionRequirement) -> Inventory {
    let inv = row_for(invs, r.commodity_id);
    Inventory {
        id: inv.id,
        commodity_id: inv.commodity_id,
        agent_id: inv.agent_id,
        amount: (inv.amount + r.amount) as i32,
        max_amount: inv.max_amount,
        ideal_amount: inv.ideal_amount,
    }
}

/// The mutations of one firing: every input row decremented and every output
/// row incremented by its requirement's amount, each delta taken from the
/// pre-step stock, inputs first and in requirement order.
pub open spec fn fired_updates(s: ProductionStrategy, invs: Seq<Inventory>) -> Seq<Inventory> {
    s.inputs@.map_values(|r: ProductionRequirement| consumed_row(invs, r))
        + s.outputs@.map_values(|r: ProductionRequirement| produced_row(invs, r))
}

/// The outcome of evaluating the recipe against one agent's inventories:
/// the firing's mutations when it is feasible, and no mutation otherwise.
pub open spec fn production_updates(s: ProductionStrategy, invs: Seq<Inventory>) -> Seq<Inventory> {
    if feasible(s, invs) {
        fired_updates(s, invs)
    } else {
        Seq::empty()
    }
}

/// Evaluate one agent's recipe against its inventories and compute the
/// resulting mutations.
///
/// The check is all-or-nothing: if any input is short or any output lacks
/// capacity, no mutation at all is produced. A requirement whose commodity
/// has no inventory row is a fatal configuration error naming that commodity;
/// output rows are only looked up once the inputs are all present and in
/// stock.
#[verifier::loop_isolation(false)]
pub fn applied_production(
    production_strategy: &ProductionStrategy,
    inventories: &Vec<Inventory>,
) -> (r: Result<Vec<Inventory>, ProductionError>)
    requires
        production_strategy.wf(),
        inventories_wf(inventories@),
    ensures
        r is Err <==> evaluation_fails(*production_strategy, inventories@),
        !covers(inventories@, production_strategy.inputs@) ==> exists|j: int|
            #[trigger] first_missing(inventories@, production_strategy.inputs@, j)
            && r == Result::<Vec<Inventory>, ProductionError>::Err(
                ProductionError::MissingInventory {
                    commodity_id: production_strategy.inputs@[j].commodity_id,
                },
            ),
        covers(inventories@, production_strategy.inputs@)
            && inputs_satisfied(inventories@, production_strategy.inputs@)
            && !covers(inventories@, production_strategy.outputs@) ==> exists|j: int|
            #[trigger] first_missing(inventories@, production_strategy.outputs@, j)
            && r == Result::<Vec<Inventory>, ProductionError>::Err(
                ProductionError::MissingInventory {
                    commodity_id: production_strategy.outputs@[j].commodity_id,
                },
            ),
        r matches Ok(updates)
            ==> updates@ == production_updates(*production_strategy, inventories@),
{
    let ghost invs = inventories@;
    let ghost ins = production_strategy.inputs@;
    let ghost outs = production_strategy.outputs@;

    // Locate every input row and check its stock against the requirement.
    let n_in: usize = production_strategy.inputs.len();
    let mut inputs_ok: bool = true;
    let mut i: usize = 0;
    while i < n_in
        invariant
            i <= n_in,
            forall|k: int| 0 <= k < i ==> has_row(invs, #[trigger] ins[k].commodity_id),
            inputs_ok <==> (forall|k: int| 0 <= k < i
                ==> row_for(invs, #[trigger] ins[k].commodity_id).amount >= ins[k].amount),
        decreases n_in - i,
    {
        let req = production_strategy.inputs[i];
        match find_inventory(inventories, req.commodity_id) {
            None => {
                proof {
                    assert(!has_row(invs, ins[i as int].commodity_id));
                    assert(!covers(invs, ins));
                    assert(first_missing(invs, ins, i as int));
                }
                return Err(ProductionError::MissingInventory { commodity_id: req.commodity_id });
            },
            Some(idx) => {
                if inventories[idx].amount < req.amount {
                    inputs_ok = false;
                }
            },
        }
        i = i + 1;
    }

    if !inputs_ok {
        // Some input is short: the recipe does not fire and no output row is
        // ever looked up.
        return Ok(Vec::new());
    }

    // Inputs are satisfied: locate every output row and check its remaining
    // capacity.
    let n_out: usize = production_strategy.outputs.len();
    let mut outputs_ok: bool = true;
    i = 0;
    while i < n_out
        invariant
            i <= n_out,
            forall|k: int| 0 <= k < i ==> has_row(invs, #[trigger] outs[k].commodity_id),
            outputs_ok <==> (forall|k: int| 0 <= k < i
                ==> row_for(invs, #[trigger] outs[k].commodity_id).max_amount
                    - row_for(invs, outs[k].commodity_id).amount >= outs[k].amount),
        decreases n_out - i,
    {
        let req = production_strategy.outputs[i];
        match find_inventory(inventories, req.commodity_id) {
            None => {
                proof {
                    assert(covers(invs, ins));
                    assert(inputs_satisfied(invs, ins));
                    assert(!has_row(invs, outs[i as int].commodity_id));
                    assert(first_missing(invs, outs, i as int));
                }
                return Err(ProductionError::MissingInventory { commodity_id: req.commodity_id });
            },
            Some(idx) => {
                if inventories[idx].max_amount - inventories[idx].amount < req.amount {
                    outputs_ok = false;
                }
            },
        }
        i = i + 1;
    }

    if !outputs_ok {
        // Some output lacks capacity: all-or-nothing, so nothing fires even
        // though the inputs were sufficient.
        return Ok(Vec::new());
    }

    // Both gates passed: emit every decrement and increment, each computed
    // from the pre-step amount.
    let mut updated_inventories: Vec<Inventory> = Vec::new();
    i = 0;
    while i < n_in
        invariant
            i <= n_in,
            inputs_satisfied(invs, ins),
            updated_inventories@.len() == i,
            forall|k: int| 0 <= k < i
                ==> updated_inventories@[k] == consumed_row(invs, #[trigger] ins[k]),
        decreases n_in - i,
    {
        let req = production_strategy.inputs[i];
        match find_inventory(inventories, req.commodity_id) {
            None => {
                proof {
                    assert(has_row(invs, ins[i as int].commodity_id));
                }
                // Unreachable: every input row was located above.
                return Err(ProductionError::MissingInventory { commodity_id: req.commodity_id });
            },
            Some(idx) => {
                let inv = inventories[idx];
                let updated = Inventory {
                    id: inv.id,
                    commodity_id: inv.commodity_id,
                    agent_id: inv.agent_id,
                    amount: inv.amount - req.amount,
                    max_amount: inv.max_amount,
                    ideal_amount: inv.ideal_amount,
                };
                updated_inventories.push(updated);
            },
        }
        i = i + 1;
    }
    i = 0;
    while i < n_out
        invariant
            i <= n_out,
            outputs_satisfied(invs, outs),
            updated_inventories@.len() == n_in + i,
            forall|k: int| 0 <= k < n_in
                ==> updated_inventories@[k] == consumed_row(invs, #[trigger] ins[k]),
            forall|k: int| 0 <= k < i
                ==> updated_inventories@[n_in + k] == produced_row(invs, #[trigger] outs[k]),
        decreases n_out - i,
    {
        let req = production_strategy.outputs[i];
        match find_inventory(inventories, req.commodity_id) {
            None => {
                proof {
                    assert(has_row(invs, outs[i as int].commodity_id));
                }
                // Unreachable: every output row was located above.
                return Err(ProductionError::MissingInventory { commodity_id: req.commodity_id });
            },
            Some(idx) => {
                let inv = inventories[idx];
                let updated = Inventory {
                    id: inv.id,
                    commodity_id: inv.commodity_id,
                    agent_id: inv.agent_id,
                    amount: inv.amount + req.amount,
                    max_amount: inv.max_amount,
                    ideal_amount: inv.ideal_amount,
                };
                updated_inventories.push(updated);
            },
        }
        i = i + 1;
    }
    proof {
        assert(feasible(*production_strategy, invs));
        assert(updated_inventories@ =~= fired_updates(*production_strategy, invs));
    }
    Ok(updated_inventories)
}

} // verus!
