//! The setup-step enumeration: four phases the runtime's script is told
//! about, each bound to a fixed integer code.

use vstd::prelude::*;

verus! {

/// One of the four installation phases signalled to the foreign procedure.
/// The lower-case prefix follows the scripting runtime's own names.
#[allow(non_camel_case_types)]
#[derive(Clone, Copy, PartialEq, Eq, Structural, Debug)]
pub enum TSetupStep {
    ssPreInstall,
    ssInstall,
    ssPostInstall,
    ssDone,
}

/// The integer code bound to each step.
pub open spec fn step_code(s: TSetupStep) -> int {
    match s {
        TSetupStep::ssPreInstall => 0,
        TSetupStep::ssInstall => 1,
        TSetupStep::ssPostInstall => 2,
        TSetupStep::ssDone => 3,
    }
}

/// The step bound to an integer code, or `None` outside `0..=3`.
pub open spec fn step_of_code(v: int) -> Option<TSetupStep> {
    if v == 0 {
        Some(TSetupStep::ssPreInstall)
    } else if v == 1 {
        Some(TSetupStep::ssInstall)
    } else if v == 2 {
        Some(TSetupStep::ssPostInstall)
    } else if v == 3 {
        Some(TSetupStep::ssDone)
    } else {
        None
    }
}

impl TSetupStep {
    /// Reads a step back from its integer code; fails on every integer
    /// outside the closed set of four codes.
    pub fn try_from(value: i32) -> (r: Result<TSetupStep, ()>)
        ensures
            r matches Ok(s) ==> step_of_code(value as int) == Some(s),
            r is Err <==> step_of_code(value as int) is None,
    {
        match value {
            0 => Ok(TSetupStep::ssPreInstall),
            1 => Ok(TSetupStep::ssInstall),
            2 => Ok(TSetupStep::ssPostInstall),
            3 => Ok(TSetupStep::ssDone),
            _ => Err(()),
        }
    }

    /// Writes the step's integer code. Total: every variant maps to exactly
    /// one code, and the error path is never taken.
    pub fn try_into(self) -> (r: Result<i32, ()>)
        ensures
            r matches Ok(v) && v as int == step_code(self),
    {
        match self {
            TSetupStep::ssPreInstall => Ok(0),
            TSetupStep::ssInstall => Ok(1),
            TSetupStep::ssPostInstall => Ok(2),
            TSetupStep::ssDone => Ok(3),
        }
    }
}

/// The step codes are a bijection between the four variants and the integer
/// set `{0, 1, 2, 3}`: every variant's code reads back as that variant,
/// every code in the set reads to a variant that writes back the same code,
/// and reading any integer outside the set fails.
pub proof fn lemma_step_code_bijective(s: TSetupStep, v: int)
    ensures
        0 <= step_code(s) <= 3,
        step_of_code(step_code(s)) == Some(s),
        0 <= v <= 3 ==> (step_of_code(v) matches Some(t) && step_code(t) == v),
        !(0 <= v <= 3) ==> step_of_code(v) is None,
{
}

} // verus!
