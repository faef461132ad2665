//! The entity records of the economy: agents, commodities and the per-agent
//! inventory rows the production engine reads and mutates.

use vstd::prelude::*;

verus! {

/// The fixed production behaviour assigned to an agent.
#[derive(Clone, Copy, Debug, PartialEq, Eq, Structural)]
pub enum Role {
    Farmer,
    WaterSource,
}

/// An economic actor with a fixed role and a private set of inventories.
#[derive(Clone, Copy, Debug, PartialEq, Eq, Structural)]
pub struct Agent {
    pub id: i32,
    pub role: Role,
}

/// A catalog good with a stable numeric id.
#[derive(Clone, Debug)]
pub struct Commodity {
    pub id: i32,
    pub name: String,
}

/// One (agent, commodity) stock record: the current amount together with its
/// capacity bound and the ideal level the agent would like to hold.
#[derive(Clone, Copy, Debug, PartialEq, Eq, Structural)]
pub struct Inventory {
    pub id: i32,
    pub commodity_id: i32,
    pub agent_id: i32,
    pub amount: i32,
    pub max_amount: i32,
    pub ideal_amount: i32,
}

impl Inventory {
    /// The row invariant: the stock never goes negative and never exceeds its
    /// capacity.
    pub open spec fn wf(self) -> bool {
        0 <= self.amount <= self.max_amount
    }
}

/// Does some row of `invs` track the commodity `commodity_id`?
pub open spec fn has_row(invs: Seq<Inventory>, commodity_id: i32) -> bool {
    exists|i: int| 0 <= i < invs.len() && invs[i].commodity_id == commodity_id
}

/// The index of the row of `invs` tracking `commodity_id`. Meaningful only
/// when `has_row` holds; unique when the commodity ids of `invs` are distinct.
pub open spec fn row_index(invs: Seq<Inventory>, commodity_id: i32) -> int {
    choose|i: int| 0 <= i < invs.len() && invs[i].commodity_id == commodity_id
}

/// The row of `invs` tracking `commodity_id`.
pub open spec fn row_for(invs: Seq<Inventory>, commodity_id: i32) -> Inventory {
    invs[row_index(invs, commodity_id)]
}

/// No two rows track the same commodity: one row per (agent, commodity) pair.
pub open spec fn distinct_commodities(invs: Seq<Inventory>) -> bool {
    forall|i: int, j: int|
        0 <= i < invs.len() && 0 <= j < invs.len() && i != j
            ==> invs[i].commodity_id != invs[j].commodity_id
}

/// No two rows share a primary id.
pub open spec fn distinct_ids(invs: Seq<Inventory>) -> bool {
    forall|i: int, j: int|
        0 <= i < invs.len() && 0 <= j < invs.len() && i != j ==> invs[i].id != invs[j].id
}

/// Well-formedness of one agent's inventory set: every row satisfies the
/// stock invariant, each commodity is tracked by at most one row, and the
/// rows carry distinct primary ids.
pub open spec fn inventories_wf(invs: Seq<Inventory>) -> bool {
    &&& forall|i: int| 0 <= i < invs.len() ==> invs[i].wf()
    &&& distinct_commodities(invs)
    &&& distinct_ids(invs)
}

/// Locate the inventory row tracking `commodity_id`, returning the index of
/// the first matching row.
pub fn find_inventory(inventories: &Vec<Inventory>, commodity_id: i32) -> (r: Option<usize>)
    ensures
        r is Some <==> has_row(inventories@, commodity_id),
        r matches Some(i) ==> i < inventories@.len()
            && inventories@[i as int].commodity_id == commodity_id,
        r matches Some(i) ==> (distinct_commodities(inventories@)
            ==> inventories@[i as int] == row_for(inventories@, commodity_id)),
{
    let n: usize = inventories.len();
    let mut i: usize = 0;
    while i < n
        invariant
            i <= n,
            n == inventories@.len(),
            forall|k: int| 0 <= k < i ==> inventories@[k].commodity_id != commodity_id,
        decreases n - i,
    {
        if inventories[i].commodity_id == commodity_id {
            proof {
                if distinct_commodities(inventories@) {
                    let j = row_index(inventories@, commodity_id);
                    assert(0 <= j < inventories@.len()
                        && inventories@[j].commodity_id == commodity_id);
                }
            }
            return Some(i);
        }
        i = i + 1;
    }
    None
}

} // verus!
