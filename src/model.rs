use vstd::prelude::*;
use vstd::string::*;

use crate::text::{is_substring, text_contains};

verus! {

/// Health of one monitored endpoint. `Processing` means that no verified
/// status exists yet, or that a probe is in flight.
#[derive(PartialEq, Eq, Structural, Clone, Copy, Debug)]
pub enum NodeStatus {
    Healthy,
    Processing,
    Down,
}

/// The rule that turns a probe's answer into a status.
#[derive(Clone, Debug)]
pub enum NodeCheckStrategy {
    /// Healthy when the response body holds this text.
    BodyContains(String),
    /// Healthy when the status code lies in `200..400`.
    StatusCode,
}

/// The HTTP method a probe uses.
#[derive(PartialEq, Eq, Structural, Clone, Copy, Debug)]
pub enum RequestMethod {
    POST,
    GET,
}

/// Where a target lives.
#[derive(Clone, Debug)]
pub struct NodeConfig {
    pub url: String,
}

impl NodeConfig {
    pub fn new(url: String) -> (r: NodeConfig)
        ensures
            r.url@ == url@,
    {
        NodeConfig { url }
    }
}

/// What one probe of an endpoint produced.
#[derive(Clone, Debug)]
pub enum ProbeOutcome {
    /// The server answered. `body` holds the response text when it was asked
    /// for and could be decoded.
    Response { status_code: u16, body: Option<String> },
    /// Connection refused, name resolution failed, or the call timed out.
    TransportError,
}

/// Whether a status code counts as a success.
pub open spec fn code_in_range(code: u16) -> bool {
    200 <= code && code < 400
}

/// The status that `strategy` gives to `outcome`.
pub open spec fn verdict(strategy: NodeCheckStrategy, outcome: ProbeOutcome) -> NodeStatus {
    match outcome {
        ProbeOutcome::TransportError => NodeStatus::Down,
        ProbeOutcome::Response { status_code, body } => match strategy {
            NodeCheckStrategy::StatusCode => if code_in_range(status_code) {
                NodeStatus::Healthy
            } else {
                NodeStatus::Down
            },
            NodeCheckStrategy::BodyContains(pattern) => match body {
                Some(text) => if is_substring(pattern@, text@) {
                    NodeStatus::Healthy
                } else {
                    NodeStatus::Down
                },
                None => NodeStatus::Down,
            },
        },
    }
}

/// Applies a verification strategy to the result of a probe.
pub fn classify(strategy: &NodeCheckStrategy, outcome: &ProbeOutcome) -> (r: NodeStatus)
    ensures
        r == verdict(*strategy, *outcome),
{
    match outcome {
        ProbeOutcome::TransportError => NodeStatus::Down,
        ProbeOutcome::Response { status_code, body } => match strategy {
            NodeCheckStrategy::StatusCode => {
                if 200 <= *status_code && *status_code < 400 {
                    NodeStatus::Healthy
                } else {
                    NodeStatus::Down
                }
            },
            NodeCheckStrategy::BodyContains(pattern) => match body {
                Some(text) => {
                    if text_contains(text.as_str(), pattern.as_str()) {
                        NodeStatus::Healthy
                    } else {
                        NodeStatus::Down
                    }
                },
                None => NodeStatus::Down,
            },
        },
    }
}

/// One network request to perform for a target.
#[derive(Clone, Debug)]
pub struct ProbeRequest {
    pub url: String,
    pub method: RequestMethod,
    /// Sent with POST only.
    pub body: String,
    /// Hard ceiling on the whole request and response, in seconds.
    pub timeout_secs: u64,
    /// Whether the strategy needs the response body as text.
    pub read_body: bool,
}

/// A `ProbeRequest` as plain values.
pub struct ProbeRequestModel {
    pub url: Seq<char>,
    pub method: RequestMethod,
    pub body: Seq<char>,
    pub timeout_secs: u64,
    pub read_body: bool,
}

impl View for ProbeRequest {
    type V = ProbeRequestModel;

    open spec fn view(&self) -> ProbeRequestModel {
        ProbeRequestModel {
            url: self.url@,
            method: self.method,
            body: self.body@,
            timeout_secs: self.timeout_secs,
            read_body: self.read_body,
        }
    }
}

/// What a status request decided.
#[derive(Clone, Debug)]
pub enum CheckStep {
    /// The probe interval has not elapsed: this is the cached status, and no
    /// network call is to be made.
    Cached(NodeStatus),
    /// The target is due: perform this request and hand its outcome back.
    Probe(ProbeRequest),
}

/// A target's descriptor and state as plain values.
pub struct NodeModel {
    pub id: Seq<char>,
    pub url: Seq<char>,
    pub status: NodeStatus,
    /// When the last probe started; `None` before the first one.
    pub last_check: Option<u64>,
    pub strategy: NodeCheckStrategy,
    /// Minimum number of seconds between two probes.
    pub interval: u64,
    pub method: RequestMethod,
    pub request_body: Seq<char>,
    /// Seconds allowed for one network call.
    pub call_timeout: u64,
}

/// Seconds from `from` to `now`; a clock that went back counts as none.
pub open spec fn elapsed(from: u64, now: u64) -> int {
    if now >= from {
        now - from
    } else {
        0
    }
}

impl NodeModel {
    /// A status request at `now` has to probe.
    pub open spec fn is_due(self, now: u64) -> bool {
        match self.last_check {
            None => true,
            Some(t) => elapsed(t, now) >= self.interval,
        }
    }

    /// The request that probes this target.
    pub open spec fn request(self) -> ProbeRequestModel {
        ProbeRequestModel {
            url: self.url,
            method: self.method,
            body: self.request_body,
            timeout_secs: self.call_timeout,
            read_body: self.strategy is BodyContains,
        }
    }

    /// The same target with a probe started at `now`.
    pub open spec fn probing(self, now: u64) -> NodeModel {
        NodeModel { status: NodeStatus::Processing, last_check: Some(now), ..self }
    }

    /// The same target with its status settled to `s`.
    pub open spec fn settled(self, s: NodeStatus) -> NodeModel {
        NodeModel { status: s, ..self }
    }
}

/// A status request at `now` took the target from `before` to `after` and
/// decided `step`: a due target starts a probe, any other keeps its state and
/// answers from the cache.
pub open spec fn check_transition(
    before: NodeModel,
    now: u64,
    after: NodeModel,
    step: CheckStep,
) -> bool {
    if before.is_due(now) {
        &&& after == before.probing(now)
        &&& step is Probe
        &&& step->Probe_0@ == before.request()
    } else {
        &&& after == before
        &&& step == CheckStep::Cached(before.status)
    }
}

/// One monitored endpoint: its descriptor and its runtime state.
pub struct Node {
    id: String,
    config: NodeConfig,
    status: NodeStatus,
    last_check: Option<u64>,
    strategy: NodeCheckStrategy,
    interval: u64,
    method: RequestMethod,
    request_body: String,
    call_timeout: u64,
}

impl View for Node {
    type V = NodeModel;

    closed spec fn view(&self) -> NodeModel {
        NodeModel {
            id: self.id@,
            url: self.config.url@,
            status: self.status,
            last_check: self.last_check,
            strategy: self.strategy,
            interval: self.interval,
            method: self.method,
            request_body: self.request_body@,
            call_timeout: self.call_timeout,
        }
    }
}

impl Node {
    /// A target that has never been probed: its status is `Processing` and
    /// its first status request probes.
    pub fn new(
        config: NodeConfig,
        id: String,
        strategy: NodeCheckStrategy,
        interval: u64,
        method: RequestMethod,
        request_body: Option<String>,
        call_timeout: u64,
    ) -> (r: Node)
        ensures
            r@ == (NodeModel {
                id: id@,
                url: config.url@,
                status: NodeStatus::Processing,
                last_check: None,
                strategy,
                interval,
                method,
                request_body: match request_body {
                    Some(b) => b@,
                    None => Seq::empty(),
                },
                call_timeout,
            }),
    {
        let request_body = match request_body {
            Some(b) => b,
            None => String::new(),
        };
        Node {
            id,
            config,
            status: NodeStatus::Processing,
            last_check: None,
            strategy,
            interval,
            method,
            request_body,
            call_timeout,
        }
    }

    pub fn status(&self) -> (r: NodeStatus)
        ensures
            r == self@.status,
    {
        self.status
    }

    pub fn id(&self) -> (r: &String)
        ensures
            r@ == self@.id,
    {
        &self.id
    }

    /// A status request at `now`. When the probe interval has elapsed since
    /// the last probe started (or none ever did), the target turns
    /// `Processing`, records `now` as its probe time before anything is sent,
    /// and asks for a probe; otherwise it answers with its cached status and
    /// changes nothing.
    pub fn check(&mut self, now: u64) -> (step: CheckStep)
        ensures
            check_transition(old(self)@, now, final(self)@, step),
    {
        let due = match self.last_check {
            None => true,
            Some(t) => if now >= t {
                now - t >= self.interval
            } else {
                self.interval == 0
            },
        };
        if !due {
            return CheckStep::Cached(self.status);
        }
        self.status = NodeStatus::Processing;
        self.last_check = Some(now);
        let read_body = match &self.strategy {
            NodeCheckStrategy::BodyContains(_) => true,
            NodeCheckStrategy::StatusCode => false,
        };
        CheckStep::Probe(
            ProbeRequest {
                url: self.config.url.clone(),
                method: self.method,
                body: self.request_body.clone(),
                timeout_secs: self.call_timeout,
                read_body,
            },
        )
    }

    /// Settles the status from the outcome of the probe that `check` asked for.
    pub fn complete(&mut self, outcome: &ProbeOutcome) -> (r: NodeStatus)
        ensures
            r == verdict(old(self)@.strategy, *outcome),
            final(self)@ == old(self)@.settled(r),
    {
        let s = classify(&self.strategy, outcome);
        self.status = s;
        s
    }
}

} // verus!
