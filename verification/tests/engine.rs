//! Tests of the production engine on concrete agents, recipes and
//! inventories.

use econ_sim::models::{Agent, Inventory, Role};
use econ_sim::production::{applied_production, ProductionError};
use econ_sim::step::{apply_updates, perform_production, StepError};
use econ_sim::strategy::{ProductionRequirement, ProductionStrategy};

const WATER: i32 = 1;
const FOOD: i32 = 2;

fn inv(id: i32, commodity_id: i32, agent_id: i32, amount: i32, max_amount: i32) -> Inventory {
    Inventory { id, commodity_id, agent_id, amount, max_amount, ideal_amount: 50 }
}

fn req(commodity_id: i32, amount: i32) -> ProductionRequirement {
    ProductionRequirement { commodity_id, amount }
}

fn farmer_strategy() -> ProductionStrategy {
    ProductionStrategy {
        role: Role::Farmer,
        duration: 10,
        inputs: vec![req(WATER, 1)],
        outputs: vec![req(FOOD, 1)],
    }
}

fn water_source_strategy() -> ProductionStrategy {
    ProductionStrategy {
        role: Role::WaterSource,
        duration: 10,
        inputs: vec![],
        outputs: vec![req(WATER, 1)],
    }
}

#[test]
fn scenario_a_farmer_fires() {
    let invs = vec![inv(1, WATER, 1, 10, 100), inv(2, FOOD, 1, 10, 100)];
    let updates = applied_production(&farmer_strategy(), &invs).unwrap();
    assert_eq!(updates.len(), 2);
    assert_eq!(updates[0].id, 1);
    assert_eq!(updates[0].amount, 9);
    assert_eq!(updates[1].id, 2);
    assert_eq!(updates[1].amount, 11);
    let after = apply_updates(&invs, &updates);
    assert_eq!(after[0].amount, 9);
    assert_eq!(after[1].amount, 11);
}

#[test]
fn scenario_b_short_input_no_mutation() {
    let invs = vec![inv(1, WATER, 1, 0, 100), inv(2, FOOD, 1, 10, 100)];
    let updates = applied_production(&farmer_strategy(), &invs).unwrap();
    assert!(updates.is_empty());
    let after = apply_updates(&invs, &updates);
    assert_eq!(after, invs);
}

#[test]
fn scenario_c_full_output_no_mutation() {
    let invs = vec![inv(1, WATER, 1, 10, 100), inv(2, FOOD, 1, 100, 100)];
    let updates = applied_production(&farmer_strategy(), &invs).unwrap();
    assert!(updates.is_empty());
    let after = apply_updates(&invs, &updates);
    assert_eq!(after, invs);
}

#[test]
fn scenario_d_water_source_produces() {
    let invs = vec![inv(1, WATER, 1, 50, 100)];
    let updates = applied_production(&water_source_strategy(), &invs).unwrap();
    assert_eq!(updates.len(), 1);
    assert_eq!(updates[0].amount, 51);
}

#[test]
fn three_steps_of_scenario_a() {
    let strategies = vec![farmer_strategy()];
    let mut invs = vec![inv(1, WATER, 1, 10, 100), inv(2, FOOD, 1, 10, 100)];
    for _ in 0..3 {
        let agents = vec![(Agent { id: 1, role: Role::Farmer }, invs.clone())];
        let updates = perform_production(&strategies, &agents).unwrap();
        invs = apply_updates(&invs, &updates);
    }
    assert_eq!(invs[0].amount, 7);
    assert_eq!(invs[1].amount, 13);
}

#[test]
fn infeasible_run_twice_changes_nothing() {
    let invs = vec![inv(1, WATER, 1, 0, 100), inv(2, FOOD, 1, 10, 100)];
    let first = applied_production(&farmer_strategy(), &invs).unwrap();
    assert!(first.is_empty());
    let unchanged = apply_updates(&invs, &first);
    assert_eq!(unchanged, invs);
    let second = applied_production(&farmer_strategy(), &unchanged).unwrap();
    assert!(second.is_empty());
}

#[test]
fn firing_touches_only_recipe_commodities() {
    let gold: i32 = 3;
    let invs = vec![
        inv(1, WATER, 1, 10, 100),
        inv(2, FOOD, 1, 10, 100),
        inv(3, gold, 1, 42, 100),
    ];
    let updates = applied_production(&farmer_strategy(), &invs).unwrap();
    assert_eq!(updates.len(), 2);
    assert_eq!(updates[0].amount, invs[0].amount - 1);
    assert_eq!(updates[1].amount, invs[1].amount + 1);
    let after = apply_updates(&invs, &updates);
    assert_eq!(after[2], invs[2]);
}

#[test]
fn applied_rows_keep_stock_invariant() {
    let invs = vec![inv(1, WATER, 1, 1, 100), inv(2, FOOD, 1, 99, 100)];
    let updates = applied_production(&farmer_strategy(), &invs).unwrap();
    let after = apply_updates(&invs, &updates);
    for row in &after {
        assert!(0 <= row.amount && row.amount <= row.max_amount);
    }
    assert_eq!(after[0].amount, 0);
    assert_eq!(after[1].amount, 100);
}

#[test]
fn missing_input_row_is_fatal() {
    let invs = vec![inv(2, FOOD, 1, 10, 100)];
    let err = applied_production(&farmer_strategy(), &invs).unwrap_err();
    assert_eq!(err, ProductionError::MissingInventory { commodity_id: WATER });
}

#[test]
fn missing_output_row_is_fatal_when_inputs_satisfied() {
    let invs = vec![inv(1, WATER, 1, 10, 100)];
    let err = applied_production(&farmer_strategy(), &invs).unwrap_err();
    assert_eq!(err, ProductionError::MissingInventory { commodity_id: FOOD });
}

#[test]
fn missing_output_row_not_reached_when_inputs_short() {
    let invs = vec![inv(1, WATER, 1, 0, 100)];
    let updates = applied_production(&farmer_strategy(), &invs).unwrap();
    assert!(updates.is_empty());
}

#[test]
fn step_without_strategy_for_role_is_fatal() {
    let strategies = vec![farmer_strategy()];
    let agents = vec![(
        Agent { id: 7, role: Role::WaterSource },
        vec![inv(1, WATER, 7, 10, 100)],
    )];
    let err = perform_production(&strategies, &agents).unwrap_err();
    assert_eq!(err, StepError::NoStrategyForRole { agent_id: 7, role: Role::WaterSource });
}

#[test]
fn step_reports_agent_of_missing_row() {
    let strategies = vec![farmer_strategy()];
    let agents = vec![(Agent { id: 4, role: Role::Farmer }, vec![inv(9, FOOD, 4, 10, 100)])];
    let err = perform_production(&strategies, &agents).unwrap_err();
    assert_eq!(err, StepError::MissingInventory { agent_id: 4, commodity_id: WATER });
}

#[test]
fn step_collects_updates_of_all_agents() {
    let strategies = vec![farmer_strategy(), water_source_strategy()];
    let agents = vec![
        (
            Agent { id: 1, role: Role::Farmer },
            vec![inv(1, WATER, 1, 10, 100), inv(2, FOOD, 1, 10, 100)],
        ),
        (Agent { id: 2, role: Role::WaterSource }, vec![inv(3, WATER, 2, 50, 100)]),
    ];
    let updates = perform_production(&strategies, &agents).unwrap();
    assert_eq!(updates.len(), 3);
    assert_eq!(updates[0].id, 1);
    assert_eq!(updates[0].amount, 9);
    assert_eq!(updates[1].id, 2);
    assert_eq!(updates[1].amount, 11);
    assert_eq!(updates[2].id, 3);
    assert_eq!(updates[2].amount, 51);
}

#[test]
fn step_with_no_agents_is_a_no_op() {
    let strategies = vec![farmer_strategy()];
    let agents: Vec<(Agent, Vec<Inventory>)> = vec![];
    let updates = perform_production(&strategies, &agents).unwrap();
    assert!(updates.is_empty());
}

#[test]
fn step_with_infeasible_agent_only_skips_it() {
    let strategies = vec![farmer_strategy(), water_source_strategy()];
    let agents = vec![
        (
            Agent { id: 1, role: Role::Farmer },
            vec![inv(1, WATER, 1, 0, 100), inv(2, FOOD, 1, 10, 100)],
        ),
        (Agent { id: 2, role: Role::WaterSource }, vec![inv(3, WATER, 2, 50, 100)]),
    ];
    let updates = perform_production(&strategies, &agents).unwrap();
    assert_eq!(updates.len(), 1);
    assert_eq!(updates[0].id, 3);
    assert_eq!(updates[0].amount, 51);
}
