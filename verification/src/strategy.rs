//! The recipe catalog: per role, one production strategy whose requirement
//! rows are partitioned into the inputs consumed and the outputs produced by
//! a single firing.

use vstd::prelude::*;
use crate::models::Role;

verus! {

/// Whether a requirement row is consumed or produced by a firing.
#[derive(Clone, Copy, Debug, PartialEq, Eq, Structural)]
pub enum ProductionRequirementType {
    Input,
    Output,
}

/// One line item of a recipe: a commodity and the quantity consumed or
/// produced per firing.
#[derive(Clone, Copy, Debug, PartialEq, Eq, Structural)]
pub struct ProductionRequirement {
    pub commodity_id: i32,
    pub amount: i32,
}

impl ProductionRequirement {
    /// Requirement quantities are strictly positive.
    pub open spec fn wf(self) -> bool {
        self.amount > 0
    }
}

/// A requirement row as it comes out of the catalog, before the partition
/// into inputs and outputs.
#[derive(Clone, Copy, Debug, PartialEq, Eq, Structural)]
pub struct RequirementRow {
    pub commodity_id: i32,
    pub amount: i32,
    pub production_requirement_type: ProductionRequirementType,
}

/// A strategy row as it comes out of the catalog: the role it belongs to and
/// its stored duration.
#[derive(Clone, Copy, Debug, PartialEq, Eq, Structural)]
pub struct StrategyRow {
    pub id: i32,
    pub duration: i32,
    pub role: Role,
}

/// The recipe registered for one role: the inputs it consumes and the outputs
/// it produces per firing. `duration` is reserved for future time-gating and
/// is never consulted by the firing logic.
#[derive(Clone, Debug)]
pub struct ProductionStrategy {
    pub role: Role,
    pub duration: i32,
    pub inputs: Vec<ProductionRequirement>,
    pub outputs: Vec<ProductionRequirement>,
}

/// The duration every built strategy carries; the stored catalog value is
/// inert and is replaced by this constant.
pub const STRATEGY_DURATION: i32 = 10;

/// The requirement derived from one catalog row.
pub open spec fn requirement_of(row: RequirementRow) -> ProductionRequirement {
    ProductionRequirement { commodity_id: row.commodity_id, amount: row.amount }
}

/// The requirements of the rows of `rows` whose type is `kind`, in row order.
pub open spec fn selected(rows: Seq<RequirementRow>, kind: ProductionRequirementType)
    -> Seq<ProductionRequirement>
    decreases rows.len(),
{
    if rows.len() == 0 {
        Seq::empty()
    } else {
        let rest = selected(rows.drop_last(), kind);
        if rows.last().production_requirement_type == kind {
            rest.push(requirement_of(rows.last()))
        } else {
            rest
        }
    }
}

impl ProductionStrategy {
    /// Every requirement quantity of the recipe is strictly positive.
    pub open spec fn wf(self) -> bool {
        &&& forall|i: int| 0 <= i < self.inputs@.len() ==> self.inputs@[i].wf()
        &&& forall|i: int| 0 <= i < self.outputs@.len() ==> self.outputs@[i].wf()
    }

    /// Build the strategy of `role` from its catalog requirement rows,
    /// partitioning them into inputs and outputs while keeping row order.
    pub fn from_rows(role: Role, rows: &Vec<RequirementRow>) -> (s: ProductionStrategy)
        ensures
            s.role == role,
            s.duration == STRATEGY_DURATION,
            s.inputs@ == selected(rows@, ProductionRequirementType::Input),
            s.outputs@ == selected(rows@, ProductionRequirementType::Output),
    {
        let mut inputs: Vec<ProductionRequirement> = Vec::new();
        let mut outputs: Vec<ProductionRequirement> = Vec::new();
        let n: usize = rows.len();
        let mut i: usize = 0;
        while i < n
            invariant
                i <= n,
                n == rows@.len(),
                inputs@ == selected(rows@.subrange(0, i as int), ProductionRequirementType::Input),
                outputs@ == selected(rows@.subrange(0, i as int), ProductionRequirementType::Output),
            decreases n - i,
        {
            let row = rows[i];
            let req = ProductionRequirement { commodity_id: row.commodity_id, amount: row.amount };
            match row.production_requirement_type {
                ProductionRequirementType::Input => inputs.push(req),
                ProductionRequirementType::Output => outputs.push(req),
            }
            proof {
                let pre = rows@.subrange(0, i as int);
                let post = rows@.subrange(0, i + 1 as int);
                assert(post.drop_last() =~= pre);
                assert(post.last() == rows@[i as int]);
            }
            i = i + 1;
        }
        proof {
            assert(rows@.subrange(0, n as int) =~= rows@);
        }
        ProductionStrategy { role, duration: STRATEGY_DURATION, inputs, outputs }
    }
}

/// Is some strategy of `strategies` registered for `role`?
pub open spec fn has_strategy(strategies: Seq<ProductionStrategy>, role: Role) -> bool {
    exists|i: int| 0 <= i < strategies.len() && strategies[i].role == role
}

/// The index of the strategy registered for `role`. Meaningful only when
/// `has_strategy` holds; unique when the roles of `strategies` are distinct.
pub open spec fn strategy_index(strategies: Seq<ProductionStrategy>, role: Role) -> int {
    choose|i: int| 0 <= i < strategies.len() && strategies[i].role == role
}

/// The strategy registered for `role`.
pub open spec fn strategy_for(strategies: Seq<ProductionStrategy>, role: Role)
    -> ProductionStrategy {
    strategies[strategy_index(strategies, role)]
}

/// Exactly one recipe per role: no two strategies share a role.
pub open spec fn distinct_roles(strategies: Seq<ProductionStrategy>) -> bool {
    forall|i: int, j: int|
        0 <= i < strategies.len() && 0 <= j < strategies.len() && i != j
            ==> strategies[i].role != strategies[j].role
}

/// The whole catalog is well-formed: every strategy is, and roles are unique.
pub open spec fn strategies_wf(strategies: Seq<ProductionStrategy>) -> bool {
    &&& forall|i: int| 0 <= i < strategies.len() ==> strategies[i].wf()
    &&& distinct_roles(strategies)
}

/// Locate the strategy registered for `role`, returning the index of the
/// first matching entry.
pub fn find_strategy(strategies: &Vec<ProductionStrategy>, role: Role) -> (r: Option<usize>)
    ensures
        r is Some <==> has_strategy(strategies@, role),
        r matches Some(i) ==> i < strategies@.len() && strategies@[i as int].role == role,
        r matches Some(i) ==> (distinct_roles(strategies@)
            ==> strategies@[i as int] == strategy_for(strategies@, role)),
{
    let n: usize = strategies.len();
    let mut i: usize = 0;
    while i < n
        invariant
            i <= n,
            n == strategies@.len(),
            forall|k: int| 0 <= k < i ==> strategies@[k].role != role,
        decreases n - i,
    {
        if strategies[i].role == role {
            proof {
                if distinct_roles(strategies@) {
                    let j = strategy_index(strategies@, role);
                    assert(0 <= j < strategies@.len() && strategies@[j].role == role);
                }
            }
            return Some(i);
        }
        i = i + 1;
    }
    None
}

/// Build the whole catalog from loaded rows: one strategy per strategy row,
/// from that row's requirement rows, in row order.
pub fn build_strategies(rows: &Vec<(StrategyRow, Vec<RequirementRow>)>)
    -> (strategies: Vec<ProductionStrategy>)
    ensures
        strategies@.len() == rows@.len(),
        forall|i: int| 0 <= i < rows@.len() ==> {
            &&& #[trigger] strategies@[i].role == rows@[i].0.role
            &&& strategies@[i].duration == STRATEGY_DURATION
            &&& strategies@[i].inputs@
                == selected(rows@[i].1@, ProductionRequirementType::Input)
            &&& strategies@[i].outputs@
                == selected(rows@[i].1@, ProductionRequirementType::Output)
        },
{
    let mut strategies: Vec<ProductionStrategy> = Vec::new();
    let n: usize = rows.len();
    let mut i: usize = 0;
    while i < n
        invariant
            i <= n,
            n == rows@.len(),
            strategies@.len() == i,
            forall|k: int| 0 <= k < i ==> {
                &&& #[trigger] strategies@[k].role == rows@[k].0.role
                &&& strategies@[k].duration == STRATEGY_DURATION
                &&& strategies@[k].inputs@
                    == selected(rows@[k].1@, ProductionRequirementType::Input)
                &&& strategies@[k].outputs@
                    == selected(rows@[k].1@, ProductionRequirementType::Output)
            },
        decreases n - i,
    {
        let s = ProductionStrategy::from_rows(rows[i].0.role, &rows[i].1);
        strategies.push(s);
        i = i + 1;
    }
    strategies
}

} // verus!
