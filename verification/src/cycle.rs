use vstd::prelude::*;

verus! {

/// The cycle count of an opcode and what can lengthen it.
#[derive(Clone, Copy, PartialEq, Eq, Structural, Debug, Hash)]
pub enum Cycle {
    /// A fixed number of cycles.
    Normal(u8),
    /// One more cycle when a page is crossed.
    Cross(u8),
    /// A branch: one more cycle when taken, and one more when a page is crossed.
    Branch(u8),
}

/// A fixed cycle count.
pub fn n(cycle: u8) -> (r: Cycle)
    ensures
        r == Cycle::Normal(cycle),
{
    Cycle::Normal(cycle)
}

/// A cycle count with a page-crossing penalty.
pub fn c(cycle: u8) -> (r: Cycle)
    ensures
        r == Cycle::Cross(cycle),
{
    Cycle::Cross(cycle)
}

/// A branch cycle count.
pub fn b(cycle: u8) -> (r: Cycle)
    ensures
        r == Cycle::Branch(cycle),
{
    Cycle::Branch(cycle)
}

impl Cycle {
    /// The base number of cycles.
    pub open spec fn basic_spec(self) -> nat {
        match self {
            Cycle::Normal(n) | Cycle::Cross(n) | Cycle::Branch(n) => n as nat,
        }
    }

    /// The cycles taken: a page crossing adds one unless the count is fixed,
    /// and a taken branch adds one.
    pub open spec fn total_spec(self, cross_page: bool, branch_taken: bool) -> nat {
        self.basic_spec() + (if cross_page && !(self is Normal) {
            1nat
        } else {
            0nat
        }) + (if branch_taken && self is Branch {
            1nat
        } else {
            0nat
        })
    }

    /// The base number of cycles.
    pub fn basic_cycle(&self) -> (r: usize)
        ensures
            r == self.basic_spec(),
    {
        match self {
            Cycle::Normal(cycle) | Cycle::Cross(cycle) | Cycle::Branch(cycle) => *cycle as usize,
        }
    }

    /// The cycles taken, given whether a page was crossed and whether a branch was taken.
    pub fn total_cycle(&self, cross_page: bool, branch_taken: bool) -> (r: usize)
        ensures
            r == self.total_spec(cross_page, branch_taken),
    {
        let mut total_cycle = self.basic_cycle();
        if cross_page && !matches!(self, Cycle::Normal(_)) {
            total_cycle += 1;
        }
        if branch_taken && matches!(self, Cycle::Branch(_)) {
            total_cycle += 1;
        }
        total_cycle
    }
}

} // verus!
