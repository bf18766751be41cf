use vstd::prelude::*;

use crate::model::{
    check_transition, verdict, CheckStep, Node, NodeModel, NodeStatus, ProbeOutcome,
};
use crate::text::same_text;

verus! {

/// Why a status request could not be served.
#[derive(PartialEq, Eq, Structural, Clone, Copy, Debug)]
pub enum CheckError {
    /// No target has the requested id.
    NotFound,
}

/// Some target has this id.
pub open spec fn has_id(nodes: Seq<NodeModel>, id: Seq<char>) -> bool {
    exists|i: int| 0 <= i < nodes.len() && #[trigger] nodes[i].id == id
}

/// `i` is the first target with this id.
pub open spec fn is_first_with_id(nodes: Seq<NodeModel>, id: Seq<char>, i: int) -> bool {
    &&& 0 <= i < nodes.len()
    &&& nodes[i].id == id
    &&& forall|j: int| 0 <= j < i ==> #[trigger] nodes[j].id != id
}

/// The registry of all monitored targets, in configuration order.
pub struct HealthChecker {
    nodes: Vec<Node>,
}

impl View for HealthChecker {
    type V = Seq<NodeModel>;

    closed spec fn view(&self) -> Seq<NodeModel> {
        self.nodes@.map_values(|n: Node| n@)
    }
}

impl HealthChecker {
    /// A registry over these targets, in this order.
    pub fn from_nodes(nodes: Vec<Node>) -> (r: HealthChecker)
        ensures
            r@ == nodes@.map_values(|n: Node| n@),
    {
        HealthChecker { nodes }
    }

    pub fn len(&self) -> (r: usize)
        ensures
            r == self@.len(),
    {
        self.nodes.len()
    }

    /// The id of every target, in order.
    pub fn get_node_ids(&self) -> (ids: Vec<String>)
        ensures
            ids@.len() == self@.len(),
            forall|i: int| 0 <= i < ids@.len() ==> #[trigger] ids@[i]@ == self@[i].id,
    {
        let mut ids: Vec<String> = Vec::with_capacity(self.nodes.len());
        let mut k: usize = 0;
        while k < self.nodes.len()
            invariant
                k <= self.nodes@.len(),
                ids@.len() == k,
                forall|i: int| 0 <= i < k ==> #[trigger] ids@[i]@ == self@[i].id,
            decreases self.nodes@.len() - k,
        {
            ids.push(self.nodes[k].id().clone());
            k += 1;
        }
        ids
    }

    /// The cached status of the target at index `u`.
    pub fn status(&self, u: usize) -> (r: NodeStatus)
        requires
            u < self@.len(),
        ensures
            r == self@[u as int].status,
    {
        self.nodes[u].status()
    }

    /// The index of the first target with this id.
    pub fn position(&self, id: &str) -> (r: Option<usize>)
        ensures
            r is None <==> !has_id(self@, id@),
            r matches Some(i) ==> is_first_with_id(self@, id@, i as int),
    {
        let mut k: usize = 0;
        while k < self.nodes.len()
            invariant
                k <= self.nodes@.len(),
                forall|j: int| 0 <= j < k ==> #[trigger] self@[j].id != id@,
            decreases self.nodes@.len() - k,
        {
            if same_text(self.nodes[k].id().as_str(), id) {
                assert(self@[k as int] == self.nodes@[k as int]@);
                return Some(k);
            }
            k += 1;
        }
        None
    }

    /// The cached status of the first target with this id, without probing.
    pub fn status_by_id(&self, id: &str) -> (r: Option<NodeStatus>)
        ensures
            r is None <==> !has_id(self@, id@),
            r matches Some(s) ==> exists|i: int|
                is_first_with_id(self@, id@, i) && s == #[trigger] self@[i].status,
    {
        match self.position(id) {
            Some(u) => Some(self.nodes[u].status()),
            None => None,
        }
    }

    /// A status request for the target at index `u` at time `now` (seconds);
    /// the other targets are left as they were.
    pub fn check(&mut self, u: usize, now: u64) -> (step: CheckStep)
        requires
            u < old(self)@.len(),
        ensures
            final(self)@.len() == old(self)@.len(),
            check_transition(old(self)@[u as int], now, final(self)@[u as int], step),
            final(self)@ == old(self)@.update(u as int, final(self)@[u as int]),
    {
        let ghost before = self@;
        let step = self.nodes[u].check(now);
        proof {
            assert(self@ =~= before.update(u as int, self@[u as int]));
        }
        step
    }

    /// A status request for the first target with this id; an unknown id
    /// fails with `NotFound` and changes nothing.
    pub fn check_by_id(&mut self, id: &str, now: u64) -> (r: Result<CheckStep, CheckError>)
        ensures
            r is Err <==> !has_id(old(self)@, id@),
            r is Err ==> r == Err::<CheckStep, CheckError>(CheckError::NotFound) && final(self)@
                == old(self)@,
            r matches Ok(step) ==> exists|i: int|
                #[trigger] is_first_with_id(old(self)@, id@, i) && check_transition(
                    old(self)@[i],
                    now,
                    final(self)@[i],
                    step,
                ) && final(self)@ == old(self)@.update(i, final(self)@[i]),
    {
        match self.position(id) {
            Some(u) => {
                let step = self.check(u, now);
                Ok(step)
            },
            None => Err(CheckError::NotFound),
        }
    }

    /// Hands the outcome of the probe of the target at index `u` to that
    /// target; the other targets are left as they were.
    pub fn complete(&mut self, u: usize, outcome: &ProbeOutcome) -> (r: NodeStatus)
        requires
            u < old(self)@.len(),
        ensures
            r == verdict(old(self)@[u as int].strategy, *outcome),
            final(self)@ == old(self)@.update(u as int, old(self)@[u as int].settled(r)),
    {
        let ghost before = self@;
        let r = self.nodes[u].complete(outcome);
        proof {
            assert(self@ =~= before.update(u as int, before[u as int].settled(r)));
        }
        r
    }

    /// A status request for every target at time `now`; the steps come in
    /// the order of the targets.
    pub fn check_all(&mut self, now: u64) -> (steps: Vec<CheckStep>)
        ensures
            steps@.len() == old(self)@.len(),
            final(self)@.len() == old(self)@.len(),
            forall|i: int|
                0 <= i < steps@.len() ==> check_transition(
                    old(self)@[i],
                    now,
                    final(self)@[i],
                    #[trigger] steps@[i],
                ),
    {
        let ghost before = self@;
        let mut steps: Vec<CheckStep> = Vec::with_capacity(self.nodes.len());
        let mut k: usize = 0;
        while k < self.nodes.len()
            invariant
                k <= self@.len(),
                self@.len() == before.len(),
                steps@.len() == k,
                forall|i: int|
                    0 <= i < k ==> check_transition(before[i], now, self@[i], #[trigger] steps@[i]),
                forall|i: int| k <= i < before.len() ==> #[trigger] self@[i] == before[i],
            decreases before.len() - k,
        {
            let step = self.check(k, now);
            steps.push(step);
            k += 1;
        }
        steps
    }
}

} // verus!
