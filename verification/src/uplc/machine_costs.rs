//! The cost of each kind of machine step.
use vstd::prelude::*;

use crate::uplc::cost_map::{cost_named, CostMap};
use crate::uplc::ex_budget::{step_budget, ExBudget};

verus! {

/// The cost of each machine step, in this order: constant, variable, lambda,
/// application, delay, force, builtin, constructor, case.
#[derive(Debug, PartialEq)]
pub struct MachineCosts(pub [ExBudget; 9]);

impl Default for MachineCosts {
    fn default() -> (m: Self)
        ensures
            forall|i: int| 0 <= i < 9 ==> m.0@[i] == step_budget(),
    {
        Self::new()
    }
}

/// The budget named by a memory and a CPU parameter of the cost map.
pub open spec fn named_budget(map: &CostMap, mem: &str, cpu: &str) -> ExBudget {
    ExBudget {
        mem: cost_named(map.entries@, mem@).unwrap(),
        cpu: cost_named(map.entries@, cpu@).unwrap(),
    }
}

/// Both parameters of a step are in the cost map.
pub open spec fn has_step(map: &CostMap, mem: &str, cpu: &str) -> bool {
    cost_named(map.entries@, mem@) is Some && cost_named(map.entries@, cpu@) is Some
}

impl MachineCosts {
    /// The default cost of every step.
    pub fn new() -> (m: Self)
        ensures
            forall|i: int| 0 <= i < 9 ==> m.0@[i] == step_budget(),
    {
        MachineCosts(
            [
                ExBudget::constant(),
                ExBudget::var(),
                ExBudget::lambda(),
                ExBudget::apply(),
                ExBudget::delay(),
                ExBudget::force(),
                ExBudget::builtin(),
                ExBudget::constr(),
                ExBudget::case(),
            ],
        )
    }

    /// The cost of the step with the given position.
    pub fn get(&self, index: usize) -> (b: ExBudget)
        requires
            index < 9,
        ensures
            b == self.0@[index as int],
    {
        self.0[index]
    }

    /// The step costs that a protocol's cost model names; every one of the
    /// eighteen parameters must be present.
    pub fn initialize_machine_costs(cost_map: &CostMap) -> (m: Self)
        requires
            has_step(cost_map, "cek_const_cost-exBudgetmem", "cek_const_cost-exBudgetCPU"),
            has_step(cost_map, "cek_var_cost-exBudgetmem", "cek_var_cost-exBudgetCPU"),
            has_step(cost_map, "cek_lam_cost-exBudgetmem", "cek_lam_cost-exBudgetCPU"),
            has_step(cost_map, "cek_apply_cost-exBudgetmem", "cek_apply_cost-exBudgetCPU"),
            has_step(cost_map, "cek_delay_cost-exBudgetmem", "cek_delay_cost-exBudgetCPU"),
            has_step(cost_map, "cek_force_cost-exBudgetmem", "cek_force_cost-exBudgetCPU"),
            has_step(cost_map, "cek_builtin_cost-exBudgetmem", "cek_builtin_cost-exBudgetCPU"),
            has_step(cost_map, "cek_constr_cost-exBudgetmem", "cek_constr_cost-exBudgetCPU"),
            has_step(cost_map, "cek_case_cost-exBudgetmem", "cek_case_cost-exBudgetCPU"),
        ensures
            m.0@[0] == named_budget(cost_map, "cek_const_cost-exBudgetmem", "cek_const_cost-exBudgetCPU"),
            m.0@[1] == named_budget(cost_map, "cek_var_cost-exBudgetmem", "cek_var_cost-exBudgetCPU"),
            m.0@[2] == named_budget(cost_map, "cek_lam_cost-exBudgetmem", "cek_lam_cost-exBudgetCPU"),
            m.0@[3] == named_budget(cost_map, "cek_apply_cost-exBudgetmem", "cek_apply_cost-exBudgetCPU"),
            m.0@[4] == named_budget(cost_map, "cek_delay_cost-exBudgetmem", "cek_delay_cost-exBudgetCPU"),
            m.0@[5] == named_budget(cost_map, "cek_force_cost-exBudgetmem", "cek_force_cost-exBudgetCPU"),
            m.0@[6] == named_budget(cost_map, "cek_builtin_cost-exBudgetmem", "cek_builtin_cost-exBudgetCPU"),
            m.0@[7] == named_budget(cost_map, "cek_constr_cost-exBudgetmem", "cek_constr_cost-exBudgetCPU"),
            m.0@[8] == named_budget(cost_map, "cek_case_cost-exBudgetmem", "cek_case_cost-exBudgetCPU"),
    {
        MachineCosts(
            [
                ExBudget::new(cost_map.cost("cek_const_cost-exBudgetmem"), cost_map.cost("cek_const_cost-exBudgetCPU")),
                ExBudget::new(cost_map.cost("cek_var_cost-exBudgetmem"), cost_map.cost("cek_var_cost-exBudgetCPU")),
                ExBudget::new(cost_map.cost("cek_lam_cost-exBudgetmem"), cost_map.cost("cek_lam_cost-exBudgetCPU")),
                ExBudget::new(cost_map.cost("cek_apply_cost-exBudgetmem"), cost_map.cost("cek_apply_cost-exBudgetCPU")),
                ExBudget::new(cost_map.cost("cek_delay_cost-exBudgetmem"), cost_map.cost("cek_delay_cost-exBudgetCPU")),
                ExBudget::new(cost_map.cost("cek_force_cost-exBudgetmem"), cost_map.cost("cek_force_cost-exBudgetCPU")),
                ExBudget::new(cost_map.cost("cek_builtin_cost-exBudgetmem"), cost_map.cost("cek_builtin_cost-exBudgetCPU")),
                ExBudget::new(cost_map.cost("cek_constr_cost-exBudgetmem"), cost_map.cost("cek_constr_cost-exBudgetCPU")),
                ExBudget::new(cost_map.cost("cek_case_cost-exBudgetmem"), cost_map.cost("cek_case_cost-exBudgetCPU")),
            ],
        )
    }
}

} // verus!
