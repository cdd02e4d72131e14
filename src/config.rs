use vstd::prelude::*;

verus! {

/// Settings that the engine reads: capture interface, working directory, worker
/// thread count and the names of the enabled content dissectors.
pub struct Configure {
    pub interface: String,
    pub workspace: String,
    pub worker_thread: i64,
    pub dissectors: Vec<String>,
}

impl Configure {
    pub open spec fn enables(&self, name: Seq<char>) -> bool {
        exists|i: int| 0 <= i < self.dissectors@.len() && (#[trigger] self.dissectors@[i])@ == name
    }

    pub fn is_dissector_enable(&self, name: &str) -> (r: bool)
        ensures
            r == self.enables(name@),
    {
        let wanted = name.to_owned();
        let mut i: usize = 0;
        while i < self.dissectors.len()
            invariant
                0 <= i <= self.dissectors@.len(),
                wanted@ == name@,
                forall|j: int| 0 <= j < i ==> (#[trigger] self.dissectors@[j])@ != name@,
            decreases self.dissectors@.len() - i,
        {
            if self.dissectors[i] == wanted {
                return true;
            }
            i = i + 1;
        }
        false
    }
}

} // verus!
