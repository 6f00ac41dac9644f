use vstd::prelude::*;

verus! {

/// Counts the cluster centers of the light sources: it starts with one
/// center and may grow up to a maximum.
pub struct ClusterManager {
    amount_centers: u32,
    amount_centers_max: u32,
}

impl ClusterManager {
    pub closed spec fn centers(&self) -> u32 {
        self.amount_centers
    }

    pub closed spec fn centers_max(&self) -> u32 {
        self.amount_centers_max
    }

    /// There is at least one center and never more than the maximum.
    pub closed spec fn wf(&self) -> bool {
        1 <= self.amount_centers <= self.amount_centers_max
    }

    /// Starts with one center; `amount_centers_max` is at least one.
    pub fn new(amount_centers_max: u32) -> (m: Self)
        requires
            amount_centers_max > 0,
        ensures
            m.wf(),
            m.centers() == 1,
            m.centers_max() == amount_centers_max,
    {
        Self { amount_centers: 1, amount_centers_max }
    }

    /// Adds a center if the maximum allows one more. Returns whether it did.
    pub fn add_center(&mut self) -> (added: bool)
        requires
            old(self).wf(),
        ensures
            final(self).wf(),
            added == (old(self).centers() + 1 <= old(self).centers_max()),
            final(self).centers() == if added {
                old(self).centers() + 1
            } else {
                old(self).centers() as int
            },
            final(self).centers_max() == old(self).centers_max(),
    {
        let is_within_valid_range = self.amount_centers < self.amount_centers_max;
        if is_within_valid_range {
            self.amount_centers = self.amount_centers + 1;
        }
        is_within_valid_range
    }

    /// The amount of centers.
    pub fn amount_centers(&self) -> (n: u32)
        requires
            self.wf(),
        ensures
            n == self.centers(),
            1 <= n <= self.centers_max(),
    {
        self.amount_centers
    }

    /// The maximal amount of centers.
    pub fn amount_centers_max(&self) -> (n: u32)
        ensures
            n == self.centers_max(),
    {
        self.amount_centers_max
    }
}

} // verus!
