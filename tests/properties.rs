use healthcheckify::checker::{CheckError, HealthChecker};
use healthcheckify::config::{node_from_settings, settings_of, ConfigError, ServiceSettings};
use healthcheckify::json::{member, Json};
use healthcheckify::model::{
    classify, CheckStep, Node, NodeCheckStrategy, NodeConfig, NodeStatus, ProbeOutcome,
    RequestMethod,
};
use healthcheckify::pool::{checked_pool_size, PoolError};
use healthcheckify::report::{service_reply, status_label};
use healthcheckify::text::is_post;

fn node(id: &str, strategy: NodeCheckStrategy, interval: u64) -> Node {
    Node::new(
        NodeConfig::new(format!("http://{}.example", id)),
        id.to_string(),
        strategy,
        interval,
        RequestMethod::GET,
        None,
        30,
    )
}

fn answer(status_code: u16, body: Option<&str>) -> ProbeOutcome {
    ProbeOutcome::Response { status_code, body: body.map(|b| b.to_string()) }
}

fn probes(steps: &[CheckStep]) -> usize {
    steps.iter().filter(|s| matches!(s, CheckStep::Probe(_))).count()
}

fn settings(url: Option<&str>) -> ServiceSettings {
    ServiceSettings {
        url: url.map(|u| u.to_string()),
        strategy: None,
        strategy_string: None,
        interval: None,
        method: None,
        request_body: None,
        call_timeout: None,
    }
}

#[test]
fn fresh_registry_reports_processing_everywhere() {
    let checker = HealthChecker::from_nodes(vec![
        node("a", NodeCheckStrategy::StatusCode, 10),
        node("b", NodeCheckStrategy::BodyContains("x".to_string()), 10),
    ]);
    assert_eq!(checker.status(0), NodeStatus::Processing);
    assert_eq!(checker.status(1), NodeStatus::Processing);
    assert_eq!(checker.status_by_id("a"), Some(NodeStatus::Processing));
    assert_eq!(checker.status_by_id("b"), Some(NodeStatus::Processing));
}

#[test]
fn requests_within_the_interval_answer_from_the_cache() {
    let mut n = node("a", NodeCheckStrategy::StatusCode, 10);
    let mut steps = vec![n.check(100)];
    n.complete(&answer(200, None));
    for t in [100, 101, 105, 109] {
        steps.push(n.check(t));
    }
    assert_eq!(probes(&steps), 1);
    assert!(matches!(steps[4], CheckStep::Cached(NodeStatus::Healthy)));
    assert!(matches!(n.check(110), CheckStep::Probe(_)));
    assert_eq!(n.status(), NodeStatus::Processing);
}

#[test]
fn a_clock_that_goes_back_keeps_the_cache() {
    let mut n = node("a", NodeCheckStrategy::StatusCode, 10);
    assert!(matches!(n.check(100), CheckStep::Probe(_)));
    n.complete(&ProbeOutcome::TransportError);
    assert!(matches!(n.check(50), CheckStep::Cached(NodeStatus::Down)));
}

#[test]
fn a_zero_interval_probes_every_time() {
    let mut n = node("a", NodeCheckStrategy::StatusCode, 0);
    assert!(matches!(n.check(100), CheckStep::Probe(_)));
    assert!(matches!(n.check(100), CheckStep::Probe(_)));
}

#[test]
fn status_code_range_bounds() {
    let s = NodeCheckStrategy::StatusCode;
    assert_eq!(classify(&s, &answer(199, None)), NodeStatus::Down);
    assert_eq!(classify(&s, &answer(200, None)), NodeStatus::Healthy);
    assert_eq!(classify(&s, &answer(302, None)), NodeStatus::Healthy);
    assert_eq!(classify(&s, &answer(399, None)), NodeStatus::Healthy);
    assert_eq!(classify(&s, &answer(400, None)), NodeStatus::Down);
    assert_eq!(classify(&s, &answer(500, None)), NodeStatus::Down);
    assert_eq!(classify(&s, &ProbeOutcome::TransportError), NodeStatus::Down);
}

#[test]
fn body_contains_is_a_literal_case_sensitive_match() {
    let s = NodeCheckStrategy::BodyContains("X".to_string());
    assert_eq!(classify(&s, &answer(200, Some("aaXbb"))), NodeStatus::Healthy);
    assert_eq!(classify(&s, &answer(500, Some("X"))), NodeStatus::Healthy);
    assert_eq!(classify(&s, &answer(200, Some("aaxbb"))), NodeStatus::Down);
    assert_eq!(classify(&s, &answer(200, Some(""))), NodeStatus::Down);
    assert_eq!(classify(&s, &answer(200, None)), NodeStatus::Down);
    assert_eq!(classify(&s, &ProbeOutcome::TransportError), NodeStatus::Down);
    let empty = NodeCheckStrategy::BodyContains(String::new());
    assert_eq!(classify(&empty, &answer(200, Some(""))), NodeStatus::Healthy);
}

#[test]
fn unknown_id_is_not_found_and_changes_nothing() {
    let mut checker = HealthChecker::from_nodes(vec![node("a", NodeCheckStrategy::StatusCode, 10)]);
    assert!(matches!(checker.check_by_id("zzz", 100), Err(CheckError::NotFound)));
    assert_eq!(checker.status_by_id("zzz"), None);
    assert_eq!(checker.position("zzz"), None);
    // the known target is still due: nothing recorded a probe time
    assert!(matches!(checker.check_by_id("a", 100), Ok(CheckStep::Probe(_))));
}

#[test]
fn overlapping_requests_issue_one_probe() {
    let mut checker = HealthChecker::from_nodes(vec![node("a", NodeCheckStrategy::StatusCode, 10)]);
    let mut steps = Vec::new();
    for t in [200, 200, 201, 203, 209] {
        steps.push(checker.check_by_id("a", t).unwrap());
    }
    assert_eq!(probes(&steps), 1);
    assert!(matches!(steps[0], CheckStep::Probe(_)));
    for s in &steps[1..] {
        assert!(matches!(s, CheckStep::Cached(NodeStatus::Processing)));
    }
}

#[test]
fn scenario_healthy_by_status_code() {
    let mut checker = HealthChecker::from_nodes(vec![node("a", NodeCheckStrategy::StatusCode, 10)]);
    let step = checker.check_by_id("a", 100).unwrap();
    assert!(matches!(step, CheckStep::Probe(_)));
    assert_eq!(checker.complete(0, &answer(200, Some("OK"))), NodeStatus::Healthy);
    assert_eq!(checker.status_by_id("a"), Some(NodeStatus::Healthy));
}

#[test]
fn scenario_connection_refused_is_down() {
    let mut checker = HealthChecker::from_nodes(vec![node("b", NodeCheckStrategy::StatusCode, 10)]);
    assert!(matches!(checker.check_by_id("b", 100), Ok(CheckStep::Probe(_))));
    assert_eq!(checker.complete(0, &ProbeOutcome::TransportError), NodeStatus::Down);
    assert_eq!(checker.status_by_id("b"), Some(NodeStatus::Down));
}

#[test]
fn scenario_post_echo_body_match() {
    let mut checker = HealthChecker::from_nodes(vec![Node::new(
        NodeConfig::new("http://echo.example/".to_string()),
        "c".to_string(),
        NodeCheckStrategy::BodyContains("origin".to_string()),
        10,
        RequestMethod::POST,
        Some("{\"origin\": \"probe\"}".to_string()),
        30,
    )]);
    let request = match checker.check_by_id("c", 100).unwrap() {
        CheckStep::Probe(r) => r,
        CheckStep::Cached(_) => panic!("expected a probe"),
    };
    assert_eq!(request.method, RequestMethod::POST);
    assert_eq!(request.body, "{\"origin\": \"probe\"}");
    // the echo server returns the request body
    let echoed = ProbeOutcome::Response { status_code: 200, body: Some(request.body.clone()) };
    assert_eq!(checker.complete(0, &echoed), NodeStatus::Healthy);
}

#[test]
fn scenario_check_all_with_mixed_outcomes() {
    let mut checker = HealthChecker::from_nodes(vec![
        node("ok", NodeCheckStrategy::StatusCode, 10),
        node("bad", NodeCheckStrategy::StatusCode, 10),
        node("slow", NodeCheckStrategy::StatusCode, 10),
    ]);
    let steps = checker.check_all(100);
    assert_eq!(probes(&steps), 3);
    assert_eq!(checker.complete(1, &answer(503, None)), NodeStatus::Down);
    assert_eq!(checker.status(0), NodeStatus::Processing);
    assert_eq!(checker.status(2), NodeStatus::Processing);
    assert_eq!(checker.complete(2, &ProbeOutcome::TransportError), NodeStatus::Down);
    assert_eq!(checker.status(0), NodeStatus::Processing);
    assert_eq!(checker.complete(0, &answer(200, None)), NodeStatus::Healthy);
    assert_eq!(checker.status_by_id("ok"), Some(NodeStatus::Healthy));
    assert_eq!(checker.status_by_id("bad"), Some(NodeStatus::Down));
    assert_eq!(checker.status_by_id("slow"), Some(NodeStatus::Down));
    assert_eq!(checker.status_report(), "ok: healthy\nbad: down\nslow: down\n");
    // all three are fresh now
    assert_eq!(probes(&checker.check_all(105)), 0);
}

#[test]
fn duplicate_ids_resolve_to_the_first() {
    let mut checker = HealthChecker::from_nodes(vec![
        node("x", NodeCheckStrategy::StatusCode, 10),
        node("x", NodeCheckStrategy::StatusCode, 10),
    ]);
    assert_eq!(checker.position("x"), Some(0));
    checker.check_by_id("x", 100).unwrap();
    checker.complete(0, &answer(200, None));
    assert_eq!(checker.status_by_id("x"), Some(NodeStatus::Healthy));
    assert_eq!(checker.status(1), NodeStatus::Processing);
    assert_eq!(checker.get_node_ids(), vec!["x".to_string(), "x".to_string()]);
}

#[test]
fn report_of_empty_and_fresh_registries() {
    assert_eq!(HealthChecker::from_nodes(Vec::new()).status_report(), "");
    let checker = HealthChecker::from_nodes(vec![node("a", NodeCheckStrategy::StatusCode, 10)]);
    assert_eq!(checker.status_report(), "a: processing\n");
    assert_eq!(status_label(NodeStatus::Healthy), "healthy");
    assert_eq!(status_label(NodeStatus::Down), "down");
}

#[test]
fn replies_for_one_target() {
    assert_eq!(service_reply(Ok(NodeStatus::Healthy)), (200, "ok"));
    assert_eq!(service_reply(Ok(NodeStatus::Processing)), (200, "ok"));
    assert_eq!(service_reply(Ok(NodeStatus::Down)), (500, "error"));
    assert_eq!(service_reply(Err(CheckError::NotFound)), (404, "not found"));
}

#[test]
fn settings_defaults() {
    let mut n = node_from_settings("svc", &settings(Some("  http://host/path \n"))).unwrap();
    assert_eq!(n.id(), "svc");
    assert_eq!(n.status(), NodeStatus::Processing);
    let request = match n.check(1000) {
        CheckStep::Probe(r) => r,
        CheckStep::Cached(_) => panic!("expected a probe"),
    };
    assert_eq!(request.url, "http://host/path");
    assert_eq!(request.method, RequestMethod::GET);
    assert_eq!(request.body, "");
    assert_eq!(request.timeout_secs, 30);
    assert!(!request.read_body);
    // the default interval is ten seconds
    assert!(matches!(n.check(1009), CheckStep::Cached(_)));
    assert!(matches!(n.check(1010), CheckStep::Probe(_)));
}

#[test]
fn settings_given_in_full() {
    let s = ServiceSettings {
        url: Some("http://host/".to_string()),
        strategy: Some("stringcontains".to_string()),
        strategy_string: Some("alive".to_string()),
        interval: Some(60),
        method: Some("PoSt".to_string()),
        request_body: Some("ping".to_string()),
        call_timeout: Some(5),
    };
    let mut n = node_from_settings("svc", &s).unwrap();
    let request = match n.check(1000) {
        CheckStep::Probe(r) => r,
        CheckStep::Cached(_) => panic!("expected a probe"),
    };
    assert_eq!(request.method, RequestMethod::POST);
    assert_eq!(request.body, "ping");
    assert_eq!(request.timeout_secs, 5);
    assert!(request.read_body);
    assert_eq!(n.complete(&answer(200, Some("still alive"))), NodeStatus::Healthy);
    assert!(matches!(n.check(1059), CheckStep::Cached(NodeStatus::Healthy)));
}

#[test]
fn settings_errors() {
    assert!(matches!(node_from_settings("svc", &settings(None)), Err(ConfigError::MissingUrl)));
    let mut s = settings(Some("http://host/"));
    s.strategy = Some("stringcontains".to_string());
    assert!(matches!(node_from_settings("svc", &s), Err(ConfigError::MissingPattern)));
    // any other strategy name falls back to the status code
    s.strategy = Some("StringContains".to_string());
    assert!(node_from_settings("svc", &s).is_ok());
}

#[test]
fn configuration_errors() {
    assert!(matches!(HealthChecker::new("not json".to_string()), Err(ConfigError::Malformed)));
    assert!(matches!(HealthChecker::new("{}".to_string()), Err(ConfigError::Malformed)));
    assert!(matches!(
        HealthChecker::new(r#"[{"services": []}]"#.to_string()),
        Err(ConfigError::MissingId)
    ));
    assert!(matches!(
        HealthChecker::new(r#"[{"id": "a"}]"#.to_string()),
        Err(ConfigError::MissingServices)
    ));
    assert!(matches!(
        HealthChecker::new(r#"[{"id": "a", "services": [{"method": "get"}]}]"#.to_string()),
        Err(ConfigError::MissingUrl)
    ));
    let empty = HealthChecker::new("[]".to_string()).unwrap();
    assert_eq!(empty.len(), 0);
}

#[test]
fn configuration_with_several_services_per_group() {
    let data = r#"[
        {"id": "web", "services": [
            {"url": "http://one/", "interval": 30, "call_timeout": 3},
            {"url": "http://two/", "method": "POST", "requestBody": "hi"}
        ]},
        {"id": "db", "services": [{"url": "http://three/"}]}
    ]"#;
    let mut checker = HealthChecker::new(data.to_string()).unwrap();
    assert_eq!(checker.get_node_ids(), vec!["web", "web", "db"]);
    let steps = checker.check_all(500);
    let requests: Vec<_> = steps
        .into_iter()
        .map(|s| match s {
            CheckStep::Probe(r) => r,
            CheckStep::Cached(_) => panic!("expected a probe"),
        })
        .collect();
    assert_eq!(requests[0].url, "http://one/");
    assert_eq!(requests[0].timeout_secs, 3);
    assert_eq!(requests[1].method, RequestMethod::POST);
    assert_eq!(requests[1].body, "hi");
    assert_eq!(requests[2].method, RequestMethod::GET);
    // the first target waits thirty seconds, the others ten
    let later = checker.check_all(515);
    assert!(matches!(later[0], CheckStep::Cached(_)));
    assert!(matches!(later[1], CheckStep::Probe(_)));
    assert!(matches!(later[2], CheckStep::Probe(_)));
}

#[test]
fn post_method_names() {
    assert!(is_post("post"));
    assert!(is_post("POST"));
    assert!(is_post("pOsT"));
    assert!(!is_post("get"));
    assert!(!is_post("posts"));
    assert!(!is_post(""));
}

#[test]
fn pool_needs_a_worker() {
    assert_eq!(checked_pool_size(0), Err(PoolError::ZeroSize));
    assert_eq!(checked_pool_size(1), Ok(1));
    assert_eq!(checked_pool_size(8), Ok(8));
}

fn text(s: &str) -> Json {
    Json::Text(s.to_string())
}

fn object(fields: Vec<(&str, Json)>) -> Json {
    Json::Object(fields.into_iter().map(|(k, v)| (k.to_string(), v)).collect())
}

#[test]
fn groups_load_in_order() {
    let groups = vec![
        object(vec![
            ("id", text("web")),
            (
                "services",
                Json::Array(vec![
                    object(vec![("url", text(" http://one/ ")), ("interval", Json::Number(Some(60)))]),
                    object(vec![("url", text("http://two/")), ("method", text("Post"))]),
                ]),
            ),
        ]),
        object(vec![("services", Json::Array(Vec::new())), ("id", text("idle"))]),
        object(vec![("id", text("db")), ("services", Json::Array(vec![object(vec![("url", text("http://three/"))])]))]),
    ];
    let mut checker = HealthChecker::from_groups(&groups).unwrap();
    assert_eq!(checker.get_node_ids(), vec!["web", "web", "db"]);
    let urls: Vec<String> = checker
        .check_all(0)
        .into_iter()
        .map(|s| match s {
            CheckStep::Probe(r) => r.url,
            CheckStep::Cached(_) => panic!("expected a probe"),
        })
        .collect();
    assert_eq!(urls, vec!["http://one/", "http://two/", "http://three/"]);
}

#[test]
fn groups_fail_at_the_first_error() {
    let no_url = object(vec![("id", text("a")), ("services", Json::Array(vec![object(Vec::new())]))]);
    let no_id = object(vec![("services", Json::Array(Vec::new()))]);
    assert!(matches!(
        HealthChecker::from_groups(&vec![no_url, no_id]),
        Err(ConfigError::MissingUrl)
    ));
    let no_id = object(vec![("services", Json::Array(Vec::new()))]);
    let no_url = object(vec![("id", text("a")), ("services", Json::Array(vec![object(Vec::new())]))]);
    assert!(matches!(
        HealthChecker::from_groups(&vec![no_id, no_url]),
        Err(ConfigError::MissingId)
    ));
    let wrong_types = object(vec![("id", Json::Number(Some(3))), ("services", Json::Null)]);
    assert!(matches!(
        HealthChecker::from_groups(&vec![wrong_types]),
        Err(ConfigError::MissingId)
    ));
    let services_not_a_list = object(vec![("id", text("a")), ("services", text("[]"))]);
    assert!(matches!(
        HealthChecker::from_groups(&vec![services_not_a_list]),
        Err(ConfigError::MissingServices)
    ));
    assert!(matches!(HealthChecker::from_groups(&vec![text("a")]), Err(ConfigError::MissingId)));
}

#[test]
fn json_members_and_settings() {
    let service = object(vec![
        ("url", text("http://x/")),
        ("interval", Json::Number(None)),
        ("call_timeout", Json::Number(Some(7))),
        ("method", Json::Bool(true)),
    ]);
    assert!(matches!(member(&service, "url"), Some(Json::Text(u)) if u == "http://x/"));
    assert!(member(&service, "missing").is_none());
    assert!(member(&text("x"), "url").is_none());
    let s = settings_of(&service);
    assert_eq!(s.url.as_deref(), Some("http://x/"));
    assert_eq!(s.interval, None);
    assert_eq!(s.call_timeout, Some(7));
    assert_eq!(s.method, None);
}

#[test]
fn numbers_from_text_are_read_as_u64_only() {
    let data = r#"[{"id": "a", "services": [{"url": "http://x/", "interval": -5, "call_timeout": 2.5}]}]"#;
    let mut checker = HealthChecker::new(data.to_string()).unwrap();
    match checker.check(0, 0) {
        CheckStep::Probe(r) => assert_eq!(r.timeout_secs, 30),
        CheckStep::Cached(_) => panic!("expected a probe"),
    }
    // the interval fell back to ten seconds
    assert!(matches!(checker.check(0, 9), CheckStep::Cached(_)));
    assert!(matches!(checker.check(0, 10), CheckStep::Probe(_)));
}

#[test]
fn urls_lose_unicode_white_space_at_both_ends() {
    let mut n = node_from_settings("svc", &settings(Some("\u{3000}\t http://h/a b\u{a0}\u{2028}"))).unwrap();
    match n.check(0) {
        CheckStep::Probe(r) => assert_eq!(r.url, "http://h/a b"),
        CheckStep::Cached(_) => panic!("expected a probe"),
    }
    let mut blank = node_from_settings("svc", &settings(Some(" \u{85} "))).unwrap();
    match blank.check(0) {
        CheckStep::Probe(r) => assert_eq!(r.url, ""),
        CheckStep::Cached(_) => panic!("expected a probe"),
    }
}
