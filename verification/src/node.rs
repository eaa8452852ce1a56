//! Scene nodes: the renderable unit placed in the world.

use vstd::prelude::*;
use crate::instance::{Instance, instance_wf};
use crate::model::{Model, model_wf};
use crate::pass::Locals;

verus! {

/// A placed, renderable instance group sharing one model and one
/// per-object uniform block.  The parent index is a reserved hook for
/// a transform hierarchy; the scene is currently flat.
pub struct Node {
    pub parent: u32,
    pub locals: Locals,
    pub model: Model,
    pub instances: Vec<Instance>,
}

/// A node's model indexes its materials consistently and each placed
/// instance can be packed.
pub open spec fn node_wf(n: Node) -> bool {
    &&& model_wf(n.model)
    &&& forall|i: int| 0 <= i < n.instances@.len() ==> instance_wf(#[trigger] n.instances@[i])
    &&& n.instances@.len() <= 100_000_000
}

impl Node {
    /// Pack every placed instance into the buffer layout.
    pub fn instances_raw(&self) -> (raws: Vec<crate::instance::InstanceRaw>)
        requires
            node_wf(*self),
        ensures
            raws@.len() == self.instances@.len(),
            forall|i: int| 0 <= i < raws@.len()
                ==> crate::instance::raw_matches_s(self.instances@[i], #[trigger] raws@[i]),
    {
        let mut raws: Vec<crate::instance::InstanceRaw> = Vec::new();
        let n = self.instances.len();
        let mut i: usize = 0;
        while i < n
            invariant
                i <= n,
                n == self.instances@.len(),
                raws@.len() == i,
                node_wf(*self),
                forall|j: int| 0 <= j < i
                    ==> crate::instance::raw_matches_s(self.instances@[j], #[trigger] raws@[j]),
            decreases n - i,
        {
            let raw = self.instances.get(i).unwrap().to_raw();
            raws.push(raw);
            i = i + 1;
        }
        raws
    }
}

} // verus!
