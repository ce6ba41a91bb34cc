use vstd::prelude::*;

verus! {

/// An execution budget: a memory and a CPU amount, both signed so that a
/// remaining budget may go below zero when a script overspends.
#[derive(Debug, Copy, Clone, PartialEq, Eq, Structural)]
pub struct ExBudget {
    pub mem: i64,
    pub cpu: i64,
}

/// The budget given to a whole script run by the machine.
pub open spec fn machine_budget() -> ExBudget {
    ExBudget { mem: 14_000_000, cpu: 10_000_000_000 }
}

/// The largest budget the machine accepts.
pub open spec fn machine_max_budget() -> ExBudget {
    ExBudget { mem: 14_000_000_000_000, cpu: 10_000_000_000_000_000 }
}

/// The cost of one machine step of any kind (variable, constant, lambda, ...).
pub open spec fn step_budget() -> ExBudget {
    ExBudget { mem: 100, cpu: 16000 }
}

impl Default for ExBudget {
    fn default() -> (r: Self)
        ensures
            r == machine_budget(),
    {
        Self::machine()
    }
}

impl ExBudget {
    pub fn new(mem: i64, cpu: i64) -> (r: Self)
        ensures
            r == (ExBudget { mem, cpu }),
    {
        ExBudget { mem, cpu }
    }

    pub fn max() -> (r: Self)
        ensures
            r == machine_max_budget(),
    {
        Self::machine_max()
    }

    /// Scales the budget by a number of occurrences of the same step.
    pub fn occurrences(&mut self, n: i64)
        requires
            i64::MIN <= old(self).mem * n <= i64::MAX,
            i64::MIN <= old(self).cpu * n <= i64::MAX,
        ensures
            final(self).mem == old(self).mem * n,
            final(self).cpu == old(self).cpu * n,
    {
        self.mem = self.mem * n;
        self.cpu = self.cpu * n;
    }

    pub fn machine() -> (r: Self)
        ensures
            r == machine_budget(),
    {
        ExBudget { mem: 14_000_000, cpu: 10_000_000_000 }
    }

    pub fn machine_max() -> (r: Self)
        ensures
            r == machine_max_budget(),
    {
        ExBudget { mem: 14_000_000_000_000, cpu: 10_000_000_000_000_000 }
    }

    pub fn start_up() -> (r: Self)
        ensures
            r == (ExBudget { mem: 100, cpu: 100 }),
    {
        ExBudget { mem: 100, cpu: 100 }
    }

    pub fn var() -> (r: Self)
        ensures
            r == step_budget(),
    {
        ExBudget { mem: 100, cpu: 16000 }
    }

    pub fn constant() -> (r: Self)
        ensures
            r == step_budget(),
    {
        ExBudget { mem: 100, cpu: 16000 }
    }

    pub fn lambda() -> (r: Self)
        ensures
            r == step_budget(),
    {
        ExBudget { mem: 100, cpu: 16000 }
    }

    pub fn delay() -> (r: Self)
        ensures
            r == step_budget(),
    {
        ExBudget { mem: 100, cpu: 16000 }
    }

    pub fn force() -> (r: Self)
        ensures
            r == step_budget(),
    {
        ExBudget { mem: 100, cpu: 16000 }
    }

    pub fn apply() -> (r: Self)
        ensures
            r == step_budget(),
    {
        ExBudget { mem: 100, cpu: 16000 }
    }

    pub fn builtin() -> (r: Self)
        ensures
            r == step_budget(),
    {
        ExBudget { mem: 100, cpu: 16000 }
    }

    pub fn constr() -> (r: Self)
        ensures
            r == step_budget(),
    {
        ExBudget { mem: 100, cpu: 16000 }
    }

    pub fn case() -> (r: Self)
        ensures
            r == step_budget(),
    {
        ExBudget { mem: 100, cpu: 16000 }
    }
}

impl core::ops::Sub for ExBudget {
    type Output = ExBudget;

    fn sub(self, rhs: Self) -> (r: Self::Output) {
        ExBudget { mem: self.mem - rhs.mem, cpu: self.cpu - rhs.cpu }
    }
}

impl vstd::std_specs::ops::SubSpecImpl for ExBudget {
    open spec fn obeys_sub_spec() -> bool {
        true
    }

    open spec fn sub_req(self, rhs: ExBudget) -> bool {
        &&& i64::MIN <= self.mem - rhs.mem <= i64::MAX
        &&& i64::MIN <= self.cpu - rhs.cpu <= i64::MAX
    }

    open spec fn sub_spec(self, rhs: ExBudget) -> ExBudget {
        ExBudget { mem: (self.mem - rhs.mem) as i64, cpu: (self.cpu - rhs.cpu) as i64 }
    }
}

} // verus!
