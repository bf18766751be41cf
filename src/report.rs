use vstd::prelude::*;
use vstd::string::*;

use crate::checker::{CheckError, HealthChecker};
use crate::model::{NodeModel, NodeStatus};

verus! {

/// The word that names a status in a report.
pub open spec fn label(s: NodeStatus) -> Seq<char> {
    match s {
        NodeStatus::Healthy => "healthy"@,
        NodeStatus::Down => "down"@,
        NodeStatus::Processing => "processing"@,
    }
}

pub fn status_label(s: NodeStatus) -> (r: &'static str)
    ensures
        r@ == label(s),
{
    match s {
        NodeStatus::Healthy => "healthy",
        NodeStatus::Down => "down",
        NodeStatus::Processing => "processing",
    }
}

/// One line of the full report: `<id>: <status>` and a newline.
pub open spec fn report_line(n: NodeModel) -> Seq<char> {
    n.id + ": "@ + label(n.status) + "\n"@
}

/// The lines of all targets, in order.
pub open spec fn report_of(nodes: Seq<NodeModel>) -> Seq<char>
    decreases nodes.len(),
{
    if nodes.len() == 0 {
        Seq::empty()
    } else {
        report_of(nodes.drop_last()) + report_line(nodes.last())
    }
}

impl HealthChecker {
    /// Every target with its cached status, one line each.
    pub fn status_report(&self) -> (r: String)
        ensures
            r@ == report_of(self@),
    {
        let ids = self.get_node_ids();
        let mut out = String::new();
        let mut k: usize = 0;
        while k < ids.len()
            invariant
                ids@.len() == self@.len(),
                forall|i: int| 0 <= i < ids@.len() ==> #[trigger] ids@[i]@ == self@[i].id,
                k <= ids@.len(),
                out@ == report_of(self@.subrange(0, k as int)),
            decreases ids@.len() - k,
        {
            let ghost before = out@;
            out.append(ids[k].as_str());
            out.append(": ");
            out.append(status_label(self.status(k)));
            out.append("\n");
            proof {
                let prefix = self@.subrange(0, k + 1);
                assert(prefix.drop_last() =~= self@.subrange(0, k as int));
                assert(prefix.last() == self@[k as int]);
                assert(out@ =~= before + report_line(self@[k as int]));
            }
            k += 1;
        }
        proof {
            assert(self@.subrange(0, ids@.len() as int) =~= self@);
        }
        out
    }
}

/// The HTTP status code and message that answer a request for one target.
pub open spec fn reply_of(r: Result<NodeStatus, CheckError>) -> (u16, Seq<char>) {
    match r {
        Ok(NodeStatus::Down) => (500, "error"@),
        Ok(_) => (200, "ok"@),
        Err(_) => (404, "not found"@),
    }
}

/// Answers a request for one target: healthy and processing targets are
/// fine, a down target is a server error, an unknown id is not found.
pub fn service_reply(r: Result<NodeStatus, CheckError>) -> (out: (u16, &'static str))
    ensures
        out.0 == reply_of(r).0,
        out.1@ == reply_of(r).1,
{
    match r {
        Ok(NodeStatus::Down) => (500, "error"),
        Ok(_) => (200, "ok"),
        Err(_) => (404, "not found"),
    }
}

} // verus!
