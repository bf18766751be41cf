use vstd::prelude::*;
use vstd::string::*;

use crate::checker::HealthChecker;
use crate::model::{
    Node, NodeCheckStrategy, NodeConfig, NodeModel, NodeStatus, RequestMethod,
};
use crate::json::{
    list_field, list_member, number_field, number_member, parse_json_list, parsed_json, text_field,
    text_member, Json,
};
use crate::text::{is_post, is_post_word, lemma_trimmed, same_text, trim_text, trimmed};

verus! {

/// Settings of the process around the registry.
pub struct AppConfig {
    pub addr: String,
    pub thread_count: usize,
    pub config_file: String,
}

/// Why a configuration was refused. Nothing of it is loaded then.
#[derive(PartialEq, Eq, Structural, Clone, Copy, Debug)]
pub enum ConfigError {
    /// The text is not a JSON array.
    Malformed,
    /// A group has no string `id`.
    MissingId,
    /// A group has no `services` array.
    MissingServices,
    /// A service has no string `url`.
    MissingUrl,
    /// A `stringcontains` service has no `strategy_string`.
    MissingPattern,
}

/// The fields of one configured service, each as given or absent.
#[derive(Clone, Debug)]
pub struct ServiceSettings {
    pub url: Option<String>,
    pub strategy: Option<String>,
    pub strategy_string: Option<String>,
    pub interval: Option<u64>,
    pub method: Option<String>,
    pub request_body: Option<String>,
    pub call_timeout: Option<u64>,
}

pub const DEFAULT_INTERVAL: u64 = 10;

pub const DEFAULT_CALL_TIMEOUT: u64 = 30;

/// The service asks for the body-content strategy.
pub open spec fn asks_body_match(s: ServiceSettings) -> bool {
    s.strategy matches Some(name) && name@ == "stringcontains"@
}

/// The target that a complete service entry describes, before any probe.
pub open spec fn node_of_settings(id: Seq<char>, s: ServiceSettings) -> NodeModel {
    NodeModel {
        id,
        url: trimmed(s.url->0@),
        status: NodeStatus::Processing,
        last_check: None,
        strategy: if asks_body_match(s) {
            NodeCheckStrategy::BodyContains(s.strategy_string->0)
        } else {
            NodeCheckStrategy::StatusCode
        },
        interval: match s.interval {
            Some(v) => v,
            None => DEFAULT_INTERVAL,
        },
        method: if s.method matches Some(m) && is_post_word(m@) {
            RequestMethod::POST
        } else {
            RequestMethod::GET
        },
        request_body: match s.request_body {
            Some(b) => b@,
            None => Seq::empty(),
        },
        call_timeout: match s.call_timeout {
            Some(v) => v,
            None => DEFAULT_CALL_TIMEOUT,
        },
    }
}

/// The error that a service entry gives, if any.
pub open spec fn settings_error(s: ServiceSettings) -> Option<ConfigError> {
    if s.url is None {
        Some(ConfigError::MissingUrl)
    } else if asks_body_match(s) && s.strategy_string is None {
        Some(ConfigError::MissingPattern)
    } else {
        None
    }
}

/// Builds the target of group `id` from one service entry, filling in the
/// defaults: GET, status-code strategy, a 10 s interval and a 30 s call
/// timeout. The URL is trimmed; the method name is read without regard to
/// ASCII case; the strategy name `stringcontains` selects the body match.
pub fn node_from_settings(id: &str, s: &ServiceSettings) -> (r: Result<Node, ConfigError>)
    ensures
        match settings_error(*s) {
            Some(e) => r == Err::<Node, ConfigError>(e),
            None => r matches Ok(n) && n@ == node_of_settings(id@, *s),
        },
{
    let url = match &s.url {
        Some(u) => {
            let t = trim_text(u.as_str());
            proof {
                lemma_trimmed(t@, u@);
            }
            t
        },
        None => {
            return Err(ConfigError::MissingUrl);
        },
    };
    let body_match = match &s.strategy {
        Some(name) => same_text(name.as_str(), "stringcontains"),
        None => false,
    };
    proof {
        reveal_strlit("stringcontains");
    }
    let strategy = if body_match {
        match &s.strategy_string {
            Some(p) => NodeCheckStrategy::BodyContains(p.clone()),
            None => {
                return Err(ConfigError::MissingPattern);
            },
        }
    } else {
        NodeCheckStrategy::StatusCode
    };
    let interval = match s.interval {
        Some(v) => v,
        None => DEFAULT_INTERVAL,
    };
    let method = match &s.method {
        Some(m) => if is_post(m.as_str()) {
            RequestMethod::POST
        } else {
            RequestMethod::GET
        },
        None => RequestMethod::GET,
    };
    let request_body = match &s.request_body {
        Some(b) => Some(b.clone()),
        None => None,
    };
    let call_timeout = match s.call_timeout {
        Some(v) => v,
        None => DEFAULT_CALL_TIMEOUT,
    };
    Ok(
        Node::new(
            NodeConfig::new(url),
            String::from_str(id),
            strategy,
            interval,
            method,
            request_body,
            call_timeout,
        ),
    )
}

/// The fields of one service object.
pub open spec fn settings_from(service: Json) -> ServiceSettings {
    ServiceSettings {
        url: text_field(service, "url"@),
        strategy: text_field(service, "strategy"@),
        strategy_string: text_field(service, "strategy_string"@),
        interval: number_field(service, "interval"@),
        method: text_field(service, "method"@),
        request_body: text_field(service, "requestBody"@),
        call_timeout: number_field(service, "call_timeout"@),
    }
}

/// Reads the fields of one service object; a field that is absent or of
/// another JSON type is `None`.
pub fn settings_of(service: &Json) -> (r: ServiceSettings)
    ensures
        r == settings_from(*service),
{
    ServiceSettings {
        url: text_member(service, "url"),
        strategy: text_member(service, "strategy"),
        strategy_string: text_member(service, "strategy_string"),
        interval: number_member(service, "interval"),
        method: text_member(service, "method"),
        request_body: text_member(service, "requestBody"),
        call_timeout: number_member(service, "call_timeout"),
    }
}

/// The targets of the services of group `id`, in order, or the error of the
/// first service that has one.
pub open spec fn services_load(id: Seq<char>, services: Seq<Json>) -> Result<
    Seq<NodeModel>,
    ConfigError,
>
    decreases services.len(),
{
    if services.len() == 0 {
        Ok(Seq::empty())
    } else {
        match services_load(id, services.drop_last()) {
            Err(e) => Err(e),
            Ok(done) => match settings_error(settings_from(services.last())) {
                Some(e) => Err(e),
                None => Ok(done.push(node_of_settings(id, settings_from(services.last())))),
            },
        }
    }
}

/// The targets of one group: its id is checked first, then its services.
pub open spec fn group_load(group: Json) -> Result<Seq<NodeModel>, ConfigError> {
    match text_field(group, "id"@) {
        None => Err(ConfigError::MissingId),
        Some(id) => match list_field(group, "services"@) {
            None => Err(ConfigError::MissingServices),
            Some(services) => services_load(id@, services),
        },
    }
}

/// The targets of all groups, each group's services in order, or the first
/// error met in that order.
pub open spec fn load_of(groups: Seq<Json>) -> Result<Seq<NodeModel>, ConfigError>
    decreases groups.len(),
{
    if groups.len() == 0 {
        Ok(Seq::empty())
    } else {
        match load_of(groups.drop_last()) {
            Err(e) => Err(e),
            Ok(done) => match group_load(groups.last()) {
                Err(e) => Err(e),
                Ok(more) => Ok(done + more),
            },
        }
    }
}

proof fn lemma_load_error_kept(groups: Seq<Json>, n: int, e: ConfigError)
    requires
        0 <= n <= groups.len(),
        load_of(groups.subrange(0, n)) == Err::<Seq<NodeModel>, ConfigError>(e),
    ensures
        load_of(groups) == Err::<Seq<NodeModel>, ConfigError>(e),
    decreases groups.len(),
{
    if n == groups.len() {
        assert(groups.subrange(0, n) =~= groups);
    } else {
        assert(groups.drop_last().subrange(0, n) =~= groups.subrange(0, n));
        lemma_load_error_kept(groups.drop_last(), n, e);
    }
}

proof fn lemma_services_error_kept(id: Seq<char>, services: Seq<Json>, n: int, e: ConfigError)
    requires
        0 <= n <= services.len(),
        services_load(id, services.subrange(0, n)) == Err::<Seq<NodeModel>, ConfigError>(e),
    ensures
        services_load(id, services) == Err::<Seq<NodeModel>, ConfigError>(e),
    decreases services.len(),
{
    if n == services.len() {
        assert(services.subrange(0, n) =~= services);
    } else {
        assert(services.drop_last().subrange(0, n) =~= services.subrange(0, n));
        lemma_services_error_kept(id, services.drop_last(), n, e);
    }
}

proof fn lemma_services_fresh(id: Seq<char>, services: Seq<Json>)
    ensures
        services_load(id, services) matches Ok(t) ==> forall|i: int|
            0 <= i < t.len() ==> (#[trigger] t[i]).status == NodeStatus::Processing
                && t[i].last_check is None,
    decreases services.len(),
{
    if services.len() > 0 {
        lemma_services_fresh(id, services.drop_last());
    }
}

/// Every target that a configuration loads starts `Processing` and has
/// never been probed.
pub proof fn lemma_loaded_targets_fresh(groups: Seq<Json>)
    ensures
        load_of(groups) matches Ok(t) ==> forall|i: int|
            0 <= i < t.len() ==> (#[trigger] t[i]).status == NodeStatus::Processing
                && t[i].last_check is None,
    decreases groups.len(),
{
    if groups.len() > 0 {
        lemma_loaded_targets_fresh(groups.drop_last());
        let g = groups.last();
        if let Some(id) = text_field(g, "id"@) {
            if let Some(services) = list_field(g, "services"@) {
                lemma_services_fresh(id@, services);
            }
        }
        if let Ok(t) = load_of(groups) {
            let done = load_of(groups.drop_last())->Ok_0;
            let more = group_load(g)->Ok_0;
            assert(t == done + more);
            assert forall|i: int| 0 <= i < t.len() implies (#[trigger] t[i]).status
                == NodeStatus::Processing && t[i].last_check is None by {
                if i >= done.len() {
                    assert(t[i] == more[i - done.len()]);
                }
            }
        }
    }
}

impl HealthChecker {
    /// The registry that parsed configuration groups describe: every service
    /// of every group becomes one target with the group's id (see
    /// `node_from_settings`), in order. The first error met in that order
    /// fails the whole load.
    pub fn from_groups(groups: &Vec<Json>) -> (r: Result<HealthChecker, ConfigError>)
        ensures
            match load_of(groups@) {
                Err(e) => r == Err::<HealthChecker, ConfigError>(e),
                Ok(targets) => r matches Ok(c) && c@ == targets,
            },
    {
        let mut nodes: Vec<Node> = Vec::new();
        let mut g: usize = 0;
        proof {
            assert(groups@.subrange(0, 0) =~= Seq::<Json>::empty());
            assert(nodes@.map_values(|n: Node| n@) =~= Seq::<NodeModel>::empty());
        }
        while g < groups.len()
            invariant
                g <= groups@.len(),
                load_of(groups@.subrange(0, g as int)) == Ok::<Seq<NodeModel>, ConfigError>(
                    nodes@.map_values(|n: Node| n@),
                ),
            decreases groups@.len() - g,
        {
            let ghost done = nodes@.map_values(|n: Node| n@);
            let ghost upto = groups@.subrange(0, g + 1);
            proof {
                assert(upto.drop_last() =~= groups@.subrange(0, g as int));
                assert(upto.last() == groups@[g as int]);
            }
            let id = match text_member(&groups[g], "id") {
                Some(t) => t,
                None => {
                    proof {
                        lemma_load_error_kept(groups@, g + 1, ConfigError::MissingId);
                    }
                    return Err(ConfigError::MissingId);
                },
            };
            let services = match list_member(&groups[g], "services") {
                Some(a) => a,
                None => {
                    proof {
                        lemma_load_error_kept(groups@, g + 1, ConfigError::MissingServices);
                    }
                    return Err(ConfigError::MissingServices);
                },
            };
            let mut k: usize = 0;
            proof {
                assert(services@.subrange(0, 0) =~= Seq::<Json>::empty());
                assert(done + Seq::<NodeModel>::empty() =~= done);
            }
            while k < services.len()
                invariant
                    g < groups@.len(),
                    k <= services@.len(),
                    upto == groups@.subrange(0, g + 1),
                    upto.drop_last() == groups@.subrange(0, g as int),
                    upto.last() == groups@[g as int],
                    load_of(groups@.subrange(0, g as int)) == Ok::<Seq<NodeModel>, ConfigError>(
                        done,
                    ),
                    text_field(groups@[g as int], "id"@) == Some(id),
                    list_field(groups@[g as int], "services"@) == Some(services@),
                    services_load(id@, services@.subrange(0, k as int)) matches Ok(more)
                        && nodes@.map_values(|n: Node| n@) == done + more,
                decreases services@.len() - k,
            {
                let ghost before = nodes@.map_values(|n: Node| n@);
                let ghost part = services@.subrange(0, k + 1);
                proof {
                    assert(part.drop_last() =~= services@.subrange(0, k as int));
                    assert(part.last() == services@[k as int]);
                }
                let settings = settings_of(&services[k]);
                let node = match node_from_settings(id.as_str(), &settings) {
                    Ok(n) => n,
                    Err(e) => {
                        proof {
                            lemma_services_error_kept(id@, services@, k + 1, e);
                            lemma_load_error_kept(groups@, g + 1, e);
                        }
                        return Err(e);
                    },
                };
                nodes.push(node);
                proof {
                    let more = services_load(id@, services@.subrange(0, k as int))->Ok_0;
                    assert(services_load(id@, part) == Ok::<Seq<NodeModel>, ConfigError>(
                        more.push(node_of_settings(id@, settings)),
                    ));
                    assert(nodes@.map_values(|n: Node| n@) =~= before.push(
                        node_of_settings(id@, settings),
                    ));
                    assert(done + more.push(node_of_settings(id@, settings)) =~= (done + more).push(
                        node_of_settings(id@, settings),
                    ));
                }
                k += 1;
            }
            proof {
                assert(services@.subrange(0, services@.len() as int) =~= services@);
            }
            g += 1;
        }
        proof {
            assert(groups@.subrange(0, groups@.len() as int) =~= groups@);
        }
        Ok(HealthChecker::from_nodes(nodes))
    }

    /// Loads the registry from a JSON configuration: an array of groups, each
    /// with a string `id` and an array `services` (see `from_groups`). Text
    /// that is not a JSON array fails with `Malformed`.
    pub fn new(json_config: String) -> (r: Result<HealthChecker, ConfigError>)
        ensures
            match parsed_json(json_config@) {
                None => r == Err::<HealthChecker, ConfigError>(ConfigError::Malformed),
                Some(groups) => match load_of(groups) {
                    Err(e) => r == Err::<HealthChecker, ConfigError>(e),
                    Ok(targets) => r matches Ok(c) && c@ == targets,
                },
            },
            r matches Ok(c) ==> forall|i: int|
                0 <= i < c@.len() ==> (#[trigger] c@[i]).status == NodeStatus::Processing
                    && c@[i].last_check is None,
    {
        match parse_json_list(json_config.as_str()) {
            Ok(groups) => {
                proof {
                    lemma_loaded_targets_fresh(groups@);
                }
                HealthChecker::from_groups(&groups)
            },
            Err(_) => Err(ConfigError::Malformed),
        }
    }
}

} // verus!
