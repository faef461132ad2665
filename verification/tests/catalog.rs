//! Tests of recipe construction and of batch application to inventory rows.

use econ_sim::models::{find_inventory, Inventory, Role};
use econ_sim::step::{apply_updates, find_update};
use econ_sim::strategy::{
    build_strategies, ProductionRequirementType, ProductionStrategy, RequirementRow, StrategyRow,
    STRATEGY_DURATION,
};

fn row(commodity_id: i32, amount: i32, kind: ProductionRequirementType) -> RequirementRow {
    RequirementRow { commodity_id, amount, production_requirement_type: kind }
}

fn inv(id: i32, commodity_id: i32, amount: i32) -> Inventory {
    Inventory { id, commodity_id, agent_id: 1, amount, max_amount: 100, ideal_amount: 50 }
}

#[test]
fn from_rows_partitions_requirements_in_order() {
    let rows = vec![
        row(1, 1, ProductionRequirementType::Input),
        row(2, 3, ProductionRequirementType::Output),
        row(3, 2, ProductionRequirementType::Input),
        row(4, 5, ProductionRequirementType::Output),
    ];
    let s = ProductionStrategy::from_rows(Role::Farmer, &rows);
    assert_eq!(s.role, Role::Farmer);
    assert_eq!(s.duration, STRATEGY_DURATION);
    assert_eq!(s.inputs.len(), 2);
    assert_eq!(s.inputs[0].commodity_id, 1);
    assert_eq!(s.inputs[0].amount, 1);
    assert_eq!(s.inputs[1].commodity_id, 3);
    assert_eq!(s.inputs[1].amount, 2);
    assert_eq!(s.outputs.len(), 2);
    assert_eq!(s.outputs[0].commodity_id, 2);
    assert_eq!(s.outputs[0].amount, 3);
    assert_eq!(s.outputs[1].commodity_id, 4);
    assert_eq!(s.outputs[1].amount, 5);
}

#[test]
fn from_rows_of_no_rows_is_empty() {
    let s = ProductionStrategy::from_rows(Role::WaterSource, &vec![]);
    assert!(s.inputs.is_empty());
    assert!(s.outputs.is_empty());
}

#[test]
fn build_strategies_keeps_catalog_order() {
    let rows = vec![
        (
            StrategyRow { id: 1, duration: 1, role: Role::Farmer },
            vec![
                row(1, 1, ProductionRequirementType::Input),
                row(2, 1, ProductionRequirementType::Output),
            ],
        ),
        (
            StrategyRow { id: 2, duration: 1, role: Role::WaterSource },
            vec![row(1, 1, ProductionRequirementType::Output)],
        ),
    ];
    let strategies = build_strategies(&rows);
    assert_eq!(strategies.len(), 2);
    assert_eq!(strategies[0].role, Role::Farmer);
    assert_eq!(strategies[0].inputs.len(), 1);
    assert_eq!(strategies[0].outputs.len(), 1);
    assert_eq!(strategies[0].duration, STRATEGY_DURATION);
    assert_eq!(strategies[1].role, Role::WaterSource);
    assert!(strategies[1].inputs.is_empty());
    assert_eq!(strategies[1].outputs.len(), 1);
    assert_eq!(strategies[1].outputs[0].commodity_id, 1);
}

#[test]
fn find_inventory_returns_first_match() {
    let invs = vec![inv(1, 5, 10), inv(2, 6, 20)];
    assert_eq!(find_inventory(&invs, 6), Some(1));
    assert_eq!(find_inventory(&invs, 9), None);
}

#[test]
fn find_update_returns_first_match_by_id() {
    let ups = vec![inv(4, 5, 10), inv(2, 6, 20)];
    assert_eq!(find_update(&ups, 2), Some(inv(2, 6, 20)));
    assert_eq!(find_update(&ups, 3), None);
}

#[test]
fn apply_updates_replaces_matched_rows_only() {
    let invs = vec![inv(1, 5, 10), inv(2, 6, 20), inv(3, 7, 30)];
    let ups = vec![inv(2, 6, 25)];
    let after = apply_updates(&invs, &ups);
    assert_eq!(after.len(), 3);
    assert_eq!(after[0], invs[0]);
    assert_eq!(after[1].amount, 25);
    assert_eq!(after[2], invs[2]);
}

#[test]
fn apply_updates_with_empty_batch_is_identity() {
    let invs = vec![inv(1, 5, 10), inv(2, 6, 20)];
    let after = apply_updates(&invs, &vec![]);
    assert_eq!(after, invs);
}
