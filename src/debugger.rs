use vstd::prelude::*;

verus! {

/// Breakpoints and single-stepping state, consulted once per CPU step.
pub struct Debugger {
    pub breakpoints: Vec<u16>,
    pub step_run: bool,
}

impl Debugger {
    pub fn new(breakpoints: Vec<u16>) -> (r: Debugger)
        ensures
            r.breakpoints == breakpoints,
            !r.step_run,
    {
        Debugger { step_run: false, breakpoints }
    }

    /// Whether to pause before the instruction at `pc`: when single-stepping,
    /// or at a breakpoint.
    pub fn should_break(&self, pc: u16) -> (r: bool)
        ensures
            r == (self.step_run || self.breakpoints@.contains(pc)),
    {
        if self.step_run {
            return true;
        }
        let mut i: usize = 0;
        while i < self.breakpoints.len()
            invariant
                i <= self.breakpoints@.len(),
                forall|j: int| 0 <= j < i ==> self.breakpoints@[j] != pc,
            decreases self.breakpoints@.len() - i,
        {
            if self.breakpoints[i] == pc {
                return true;
            }
            i += 1;
        }
        false
    }
}

} // verus!
