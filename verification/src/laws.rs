//! The guarantees of the production engine, stated and proved over the spec
//! functions that the engine's contracts use: the all-or-nothing gates, the
//! idempotence of an infeasible step, conservation of the declared amounts,
//! and preservation of the inventory invariant.

use vstd::prelude::*;
use crate::models::{has_row, inventories_wf, row_for, row_index, Inventory};
use crate::production::{
    consumed_row, feasible, fired_updates, inputs_satisfied, outputs_satisfied, produced_row,
    production_updates,
};
use crate::step::{spec_apply_updates, spec_find_update};
use crate::strategy::ProductionStrategy;

verus! {

/// If any input commodity's stock is below its required amount, the engine
/// emits no mutation at all: there is no partial consumption.
pub proof fn lemma_short_input_blocks_firing(s: ProductionStrategy, invs: Seq<Inventory>, j: int)
    requires
        0 <= j < s.inputs@.len(),
        has_row(invs, s.inputs@[j].commodity_id),
        row_for(invs, s.inputs@[j].commodity_id).amount < s.inputs@[j].amount,
    ensures
        production_updates(s, invs) == Seq::<Inventory>::empty(),
{
    assert(!inputs_satisfied(invs, s.inputs@));
}

/// If any output commodity lacks the remaining capacity for its full amount,
/// the engine emits no mutation at all, even when every input is satisfied.
pub proof fn lemma_full_output_blocks_firing(s: ProductionStrategy, invs: Seq<Inventory>, j: int)
    requires
        0 <= j < s.outputs@.len(),
        has_row(invs, s.outputs@[j].commodity_id),
        row_for(invs, s.outputs@[j].commodity_id).max_amount
            - row_for(invs, s.outputs@[j].commodity_id).amount < s.outputs@[j].amount,
    ensures
        production_updates(s, invs) == Seq::<Inventory>::empty(),
{
    assert(!outputs_satisfied(invs, s.outputs@));
}

/// Running the engine on infeasible inventories yields no mutation, leaves
/// the inventories unchanged when the (empty) batch is applied, and yields no
/// mutation again on a second run over that unchanged state.
pub proof fn lemma_infeasible_run_idempotent(s: ProductionStrategy, invs: Seq<Inventory>)
    requires
        !feasible(s, invs),
    ensures
        production_updates(s, invs) == Seq::<Inventory>::empty(),
        spec_apply_updates(invs, production_updates(s, invs)) == invs,
        production_updates(s, spec_apply_updates(invs, production_updates(s, invs)))
            == Seq::<Inventory>::empty(),
{
    assert(spec_apply_updates(invs, Seq::<Inventory>::empty()) =~= invs);
}

/// When the recipe fires, the batch holds exactly one mutation per declared
/// requirement, each delta taken from the pre-step stock and equal to the
/// declared amount: inputs first, in requirement order, then outputs.
pub proof fn lemma_firing_matches_declared_amounts(s: ProductionStrategy, invs: Seq<Inventory>)
    requires
        feasible(s, invs),
    ensures
        production_updates(s, invs).len() == s.inputs@.len() + s.outputs@.len(),
        forall|j: int| 0 <= j < s.inputs@.len()
            ==> production_updates(s, invs)[j] == consumed_row(invs, #[trigger] s.inputs@[j]),
        forall|j: int| 0 <= j < s.outputs@.len()
            ==> production_updates(s, invs)[s.inputs@.len() + j]
                == produced_row(invs, #[trigger] s.outputs@[j]),
{
}

/// `spec_find_update` finds nothing when no update row carries the id.
proof fn lemma_find_update_none(ups: Seq<Inventory>, id: i32)
    requires
        forall|k: int| 0 <= k < ups.len() ==> (#[trigger] ups[k]).id != id,
    ensures
        spec_find_update(ups, id) == None::<Inventory>,
    decreases ups.len(),
{
    if ups.len() > 0 {
        assert(ups.first() == ups[0]);
        assert(forall|k: int| 0 <= k < ups.drop_first().len()
            ==> (#[trigger] ups.drop_first()[k]) == ups[k + 1]);
        lemma_find_update_none(ups.drop_first(), id);
    }
}

/// Whatever `spec_find_update` finds is one of the update rows.
proof fn lemma_find_update_is_member(ups: Seq<Inventory>, id: i32)
    requires
        spec_find_update(ups, id) is Some,
    ensures
        exists|k: int| 0 <= k < ups.len()
            && spec_find_update(ups, id) == Some(#[trigger] ups[k]),
    decreases ups.len(),
{
    if ups.len() > 0 {
        if ups.first().id == id {
            assert(spec_find_update(ups, id) == Some(ups[0]));
        } else {
            lemma_find_update_is_member(ups.drop_first(), id);
            let k = choose|k: int| 0 <= k < ups.drop_first().len()
                && spec_find_update(ups.drop_first(), id) == Some(ups.drop_first()[k]);
            assert(ups.drop_first()[k] == ups[k + 1]);
            assert(spec_find_update(ups, id) == Some(ups[k + 1]));
        }
    }
}

/// When the recipe fires, applying the batch changes no row whose commodity
/// appears in no requirement of the recipe: mutations touch exactly the
/// recipe's commodities.
pub proof fn lemma_firing_leaves_other_rows_unchanged(
    s: ProductionStrategy,
    invs: Seq<Inventory>,
    i: int,
)
    requires
        inventories_wf(invs),
        feasible(s, invs),
        0 <= i < invs.len(),
        forall|j: int| 0 <= j < s.inputs@.len()
            ==> (#[trigger] s.inputs@[j]).commodity_id != invs[i].commodity_id,
        forall|j: int| 0 <= j < s.outputs@.len()
            ==> (#[trigger] s.outputs@[j]).commodity_id != invs[i].commodity_id,
    ensures
        spec_apply_updates(invs, production_updates(s, invs))[i] == invs[i],
{
    let ups = production_updates(s, invs);
    let n_in = s.inputs@.len() as int;
    assert forall|k: int| 0 <= k < ups.len() implies (#[trigger] ups[k]).id != invs[i].id by {
        let cid = if k < n_in {
            s.inputs@[k].commodity_id
        } else {
            s.outputs@[k - n_in].commodity_id
        };
        assert(has_row(invs, cid));
        let r = row_index(invs, cid);
        assert(invs[r].commodity_id == cid);
        assert(ups[k].id == invs[r].id);
        assert(r != i);
    }
    lemma_find_update_none(ups, invs[i].id);
}

/// Every row of a fired batch still satisfies the stock invariant.
proof fn lemma_fired_rows_wf(s: ProductionStrategy, invs: Seq<Inventory>)
    requires
        s.wf(),
        inventories_wf(invs),
        feasible(s, invs),
    ensures
        forall|k: int| 0 <= k < fired_updates(s, invs).len()
            ==> (#[trigger] fired_updates(s, invs)[k]).wf(),
{
    let ups = fired_updates(s, invs);
    let n_in = s.inputs@.len() as int;
    assert forall|k: int| 0 <= k < ups.len() implies (#[trigger] ups[k]).wf() by {
        if k < n_in {
            let req = s.inputs@[k];
            assert(has_row(invs, req.commodity_id));
            let r = row_index(invs, req.commodity_id);
            assert(invs[r].wf());
            assert(row_for(invs, req.commodity_id).amount >= req.amount);
            assert(req.wf());
        } else {
            let req = s.outputs@[k - n_in];
            assert(has_row(invs, req.commodity_id));
            let r = row_index(invs, req.commodity_id);
            assert(invs[r].wf());
            assert(row_for(invs, req.commodity_id).max_amount
                - row_for(invs, req.commodity_id).amount >= req.amount);
            assert(req.wf());
        }
    }
}

/// After a step's batch is applied — whether the recipe fired or not — every
/// inventory row still satisfies `0 <= amount <= max_amount`, and the set of
/// rows is unchanged in number.
pub proof fn lemma_run_preserves_invariant(s: ProductionStrategy, invs: Seq<Inventory>)
    requires
        s.wf(),
        inventories_wf(invs),
    ensures
        spec_apply_updates(invs, production_updates(s, invs)).len() == invs.len(),
        forall|i: int| 0 <= i < invs.len()
            ==> (#[trigger] spec_apply_updates(invs, production_updates(s, invs))[i]).wf(),
{
    let ups = production_updates(s, invs);
    let applied = spec_apply_updates(invs, ups);
    if feasible(s, invs) {
        lemma_fired_rows_wf(s, invs);
        assert forall|i: int| 0 <= i < invs.len() implies (#[trigger] applied[i]).wf() by {
            match spec_find_update(ups, invs[i].id) {
                Some(u) => {
                    lemma_find_update_is_member(ups, invs[i].id);
                    let k = choose|k: int| 0 <= k < ups.len()
                        && spec_find_update(ups, invs[i].id) == Some(ups[k]);
                    assert(ups[k].wf());
                },
                None => {
                    assert(applied[i] == invs[i]);
                },
            }
        }
    } else {
        assert forall|i: int| 0 <= i < invs.len() implies (#[trigger] applied[i]).wf() by {
            assert(applied[i] == invs[i]);
        }
    }
}

} // verus!
