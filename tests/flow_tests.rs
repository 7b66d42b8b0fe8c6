use puffin_oauth::callback::{
    callback_result, classify_query, find_last, response_page, CallbackListener, ListenerAction,
    ListenerEvent, FAILURE_PAGE, PAGE_CONTENT_TYPE, PAGE_STATUS, SUCCESS_PAGE,
};
use puffin_oauth::flow::{
    build_authorization_url, check_request, coordinator_wait_ms, decimal_text,
    get_oauth_redirect_uri, loopback_redirect_uri, plan_flow, start_flow, FlowPlan, FlowRequest,
    PortScanOutcome,
    DEFAULT_DEADLINE_MS,
};
use puffin_oauth::port::{find_available_port, FIRST_DYNAMIC_PORT, PORT_SCAN_END};
use puffin_oauth::outcome::port_exhaustion;
use puffin_oauth::{FlowError, FlowResult};
use std::cell::{Cell, RefCell};
use std::collections::HashSet;

fn request(base: &str) -> FlowRequest {
    FlowRequest {
        auth_url_base: base.to_string(),
        client_id: "abc".to_string(),
        scope: "read write".to_string(),
        state: "xyz123".to_string(),
    }
}

fn pairs(s: &[(&str, &str)]) -> Vec<(String, String)> {
    s.iter().map(|(k, v)| (k.to_string(), v.to_string())).collect()
}

fn query_of(u: &str) -> Vec<(String, String)> {
    url::Url::parse(u).unwrap().query_pairs().into_owned().collect()
}

fn last<'a>(q: &'a [(String, String)], k: &str) -> Option<&'a str> {
    q.iter().rev().find(|(key, _)| key == k).map(|(_, v)| v.as_str())
}

#[test]
fn port_scan_takes_first_free_port_in_ascending_order() {
    let probed = RefCell::new(Vec::new());
    let r = find_available_port(|p| {
        probed.borrow_mut().push(p);
        p >= 49155
    });
    assert_eq!(r, Some(49155));
    assert_eq!(*probed.borrow(), vec![49152, 49153, 49154, 49155]);
}

#[test]
fn port_scan_exhausted_range_gives_none() {
    let count = Cell::new(0u32);
    let r = find_available_port(|_| {
        count.set(count.get() + 1);
        false
    });
    assert_eq!(r, None);
    assert_eq!(count.get(), (PORT_SCAN_END - FIRST_DYNAMIC_PORT) as u32);
}

#[test]
fn concurrent_flows_get_distinct_ports() {
    let held: RefCell<HashSet<u16>> = RefCell::new(HashSet::new());
    for _ in 0..5 {
        let p = find_available_port(|p| !held.borrow().contains(&p)).unwrap();
        assert!(held.borrow_mut().insert(p));
    }
    assert_eq!(held.borrow().len(), 5);
    let expected: HashSet<u16> = (49152..49157).collect();
    assert_eq!(*held.borrow(), expected);
}

#[test]
fn redirect_uri_uses_decimal_port() {
    assert_eq!(loopback_redirect_uri(49152), "http://127.0.0.1:49152");
    assert_eq!(loopback_redirect_uri(65534), "http://127.0.0.1:65534");
    assert_eq!(decimal_text(0), "0");
    assert_eq!(decimal_text(7), "7");
    assert_eq!(decimal_text(10), "10");
    assert_eq!(decimal_text(65535), "65535");
    assert_eq!(get_oauth_redirect_uri(), "http://127.0.0.1");
}

#[test]
fn authorization_url_round_trips() {
    let redirect = loopback_redirect_uri(49152);
    let u = build_authorization_url(
        "https://provider.example/auth",
        "abc",
        "read write",
        "xyz123",
        &redirect,
    )
    .unwrap();
    assert!(u.starts_with("https://provider.example/auth?"));
    assert!(u.contains("client_id=abc"));
    assert!(u.contains("response_type=code"));
    assert!(u.contains("scope=read+write") || u.contains("scope=read%20write"));
    assert!(u.contains("access_type=offline"));
    assert!(u.contains("prompt=consent"));
    assert!(u.contains("state=xyz123"));
    let q = query_of(&u);
    assert_eq!(
        q,
        pairs(&[
            ("client_id", "abc"),
            ("redirect_uri", "http://127.0.0.1:49152"),
            ("response_type", "code"),
            ("scope", "read write"),
            ("access_type", "offline"),
            ("prompt", "consent"),
            ("state", "xyz123"),
        ])
    );
}

#[test]
fn authorization_url_keeps_existing_query_and_empty_values() {
    let u = build_authorization_url("https://p.example/a?x=1", "", "", "", "r").unwrap();
    let q = query_of(&u);
    assert_eq!(q[0], ("x".to_string(), "1".to_string()));
    assert_eq!(q.len(), 8);
    assert_eq!(last(&q, "client_id"), Some(""));
    assert_eq!(last(&q, "scope"), Some(""));
    assert_eq!(last(&q, "state"), Some(""));
}

#[test]
fn authorization_url_rejects_malformed_base() {
    match build_authorization_url("not a url", "abc", "read", "s", "r") {
        Err(FlowError::MalformedInput(m)) => assert!(!m.is_empty()),
        other => panic!("unexpected {:?}", other),
    }
    assert!(matches!(check_request(&request("not a url")), Err(FlowError::MalformedInput(_))));
    assert!(check_request(&request("https://provider.example/auth")).is_ok());
}

#[test]
fn plan_flow_outcomes() {
    match plan_flow(&request("https://provider.example/auth"), None) {
        Ok(PortScanOutcome::Ended(FlowResult::Failure { error, redirect_uri })) => {
            assert_eq!(error.as_deref(), Some("no available port"));
            assert_eq!(redirect_uri, None);
        }
        other => panic!("unexpected {:?}", other),
    }
    assert!(matches!(plan_flow(&request("::"), Some(50000)), Err(FlowError::MalformedInput(_))));
    let plan = match plan_flow(&request("https://provider.example/auth"), Some(50000)) {
        Ok(PortScanOutcome::Ready(plan)) => plan,
        other => panic!("unexpected {:?}", other),
    };
    assert_eq!(plan.port, 50000);
    assert_eq!(plan.redirect_uri, "http://127.0.0.1:50000");
    assert_eq!(last(&query_of(&plan.auth_url), "redirect_uri"), Some("http://127.0.0.1:50000"));
}

#[test]
fn last_value_wins_for_repeated_keys() {
    let q = pairs(&[("code", "a"), ("state", "s"), ("code", "b")]);
    assert_eq!(find_last(&q, &"code".to_string()), Some("b".to_string()));
    assert_eq!(find_last(&q, &"state".to_string()), Some("s".to_string()));
    assert_eq!(find_last(&q, &"error".to_string()), None);
    assert_eq!(find_last(&Vec::new(), &"code".to_string()), None);
}

#[test]
fn code_means_success_even_with_error() {
    let redirect = "http://127.0.0.1:50000".to_string();
    let r = classify_query(&pairs(&[("error", "x"), ("code", "C")]), &redirect);
    match r {
        FlowResult::Success { code, state, redirect_uri } => {
            assert_eq!(code, "C");
            assert_eq!(state, None);
            assert_eq!(redirect_uri, redirect);
        }
        other => panic!("unexpected {:?}", other),
    }
    match classify_query(&Vec::new(), &redirect) {
        FlowResult::Failure { error, .. } => assert_eq!(error, None),
        other => panic!("unexpected {:?}", other),
    }
}

#[test]
fn success_callback() {
    let redirect = loopback_redirect_uri(50001);
    let mut listener = CallbackListener::new(redirect.clone());
    let action = listener.handle(ListenerEvent::Request {
        target: "/?code=AUTH123&state=xyz123".to_string(),
    });
    match action {
        ListenerAction::RespondAndPublish { page, result } => {
            assert!(page.contains("Authentication Successful"));
            match result {
                FlowResult::Success { code, state, redirect_uri } => {
                    assert_eq!(code, "AUTH123");
                    assert_eq!(state.as_deref(), Some("xyz123"));
                    assert_eq!(redirect_uri, "http://127.0.0.1:50001");
                }
                other => panic!("unexpected {:?}", other),
            }
        }
        other => panic!("unexpected {:?}", other),
    }
    assert!(listener.is_done());
    assert_eq!(PAGE_STATUS, 200);
    assert_eq!(PAGE_CONTENT_TYPE, "text/html; charset=utf-8");
}

#[test]
fn provider_error_callback() {
    let redirect = loopback_redirect_uri(50002);
    let mut listener = CallbackListener::new(redirect.clone());
    let action = listener.handle(ListenerEvent::Request {
        target: "/?error=access_denied&state=xyz123".to_string(),
    });
    match action {
        ListenerAction::RespondAndPublish { page, result } => {
            assert!(page.contains("Authentication Failed"));
            match result {
                FlowResult::Failure { error, redirect_uri } => {
                    assert_eq!(error.as_deref(), Some("access_denied"));
                    assert_eq!(redirect_uri, Some(redirect));
                }
                other => panic!("unexpected {:?}", other),
            }
        }
        other => panic!("unexpected {:?}", other),
    }
}

#[test]
fn percent_encoded_callback_values_are_decoded() {
    let redirect = loopback_redirect_uri(50003);
    match callback_result("/?code=a%2Fb+c&state=s%20t", &redirect) {
        FlowResult::Success { code, state, .. } => {
            assert_eq!(code, "a/b c");
            assert_eq!(state.as_deref(), Some("s t"));
        }
        other => panic!("unexpected {:?}", other),
    }
}

#[test]
fn unparsable_callback_is_a_failure() {
    let redirect = loopback_redirect_uri(50004);
    match callback_result(":bad", &redirect) {
        FlowResult::Failure { error, redirect_uri } => {
            assert_eq!(error.as_deref(), Some("callback URL parse failed"));
            assert_eq!(redirect_uri, Some(redirect));
        }
        other => panic!("unexpected {:?}", other),
    }
}

#[test]
fn second_request_is_discarded() {
    let redirect = loopback_redirect_uri(50005);
    let mut listener = CallbackListener::new(redirect);
    let first = listener.handle(ListenerEvent::Request { target: "/?code=FIRST".to_string() });
    assert!(matches!(first, ListenerAction::RespondAndPublish { .. }));
    let second = listener.handle(ListenerEvent::Request { target: "/?code=SECOND".to_string() });
    assert!(matches!(second, ListenerAction::Discard));
    assert!(matches!(listener.handle(ListenerEvent::Elapsed), ListenerAction::Discard));
    match &listener.published {
        Some(FlowResult::Success { code, .. }) => assert_eq!(code, "FIRST"),
        other => panic!("unexpected {:?}", other),
    }
}

#[test]
fn listener_timeout_bind_failure_and_server_error() {
    let redirect = loopback_redirect_uri(50006);
    let mut l = CallbackListener::new(redirect.clone());
    match l.handle(ListenerEvent::Elapsed) {
        ListenerAction::Publish(FlowResult::Timeout { redirect_uri }) => {
            assert_eq!(redirect_uri, redirect)
        }
        other => panic!("unexpected {:?}", other),
    }
    let mut l = CallbackListener::new(redirect.clone());
    match l.handle(ListenerEvent::BindFailed) {
        ListenerAction::Publish(FlowResult::Failure { error, .. }) => {
            assert_eq!(error.as_deref(), Some("server start failed"))
        }
        other => panic!("unexpected {:?}", other),
    }
    let mut l = CallbackListener::new(redirect);
    match l.handle(ListenerEvent::ServerError("boom".to_string())) {
        ListenerAction::Publish(FlowResult::Failure { error, .. }) => {
            assert_eq!(error.as_deref(), Some("boom"))
        }
        other => panic!("unexpected {:?}", other),
    }
}

#[test]
fn response_pages() {
    let s = FlowResult::Success {
        code: "c".to_string(),
        state: None,
        redirect_uri: "r".to_string(),
    };
    let t = FlowResult::Timeout { redirect_uri: "r".to_string() };
    assert_eq!(response_page(&s), SUCCESS_PAGE);
    assert_eq!(response_page(&t), FAILURE_PAGE);
}

#[test]
fn oauth_result_records() {
    let s = FlowResult::Success {
        code: "c".to_string(),
        state: Some("st".to_string()),
        redirect_uri: "r".to_string(),
    }
    .to_oauth_result();
    assert_eq!(s.code.as_deref(), Some("c"));
    assert_eq!(s.state.as_deref(), Some("st"));
    assert_eq!(s.error, None);
    assert_eq!(s.redirect_uri.as_deref(), Some("r"));
    let t = FlowResult::Timeout { redirect_uri: "r".to_string() }.to_oauth_result();
    assert_eq!(t.code, None);
    assert_eq!(t.error.as_deref(), Some("OAuth timeout - no callback received"));
    let f = FlowResult::Failure { error: None, redirect_uri: Some("r".to_string()) }
        .to_oauth_result();
    assert_eq!(f.error, None);
    assert_eq!(f.redirect_uri.as_deref(), Some("r"));
    let n = port_exhaustion().to_oauth_result();
    assert_eq!(n.code, None);
    assert_eq!(n.state, None);
    assert_eq!(n.error.as_deref(), Some("no available port"));
    assert_eq!(n.redirect_uri, None);
}

#[test]
fn error_messages() {
    assert_eq!(FlowError::MalformedInput("m".to_string()).message(), "m");
    assert_eq!(FlowError::LaunchFailure("x".to_string()).message(), "Failed to open browser: x");
}

#[test]
fn deadlines() {
    assert_eq!(coordinator_wait_ms(200), 1200);
    assert_eq!(coordinator_wait_ms(DEFAULT_DEADLINE_MS), 301000);
    assert_eq!(coordinator_wait_ms(u64::MAX), u64::MAX);
}

#[test]
fn malformed_base_touches_nothing() {
    let probes = Cell::new(0u32);
    let launches = Cell::new(0u32);
    let waits = Cell::new(0u32);
    let r = start_flow(
        &request("not a url"),
        |_| {
            probes.set(probes.get() + 1);
            true
        },
        |_: FlowPlan| {
            launches.set(launches.get() + 1);
            Ok(())
        },
        || {
            waits.set(waits.get() + 1);
            None
        },
    );
    assert!(matches!(r, Err(FlowError::MalformedInput(_))));
    assert_eq!((probes.get(), launches.get(), waits.get()), (0, 0, 0));
}

#[test]
fn flow_success_path() {
    let started: RefCell<Option<FlowPlan>> = RefCell::new(None);
    let r = start_flow(
        &request("https://provider.example/auth"),
        |p| p == 49160,
        |plan: FlowPlan| {
            *started.borrow_mut() = Some(plan);
            Ok(())
        },
        || {
            let plan = started.borrow();
            let redirect = plan.as_ref().unwrap().redirect_uri.clone();
            let mut l = CallbackListener::new(redirect);
            match l.handle(ListenerEvent::Request { target: "/?code=AUTH123&state=xyz123".to_string() }) {
                ListenerAction::RespondAndPublish { result, .. } => Some(result),
                _ => None,
            }
        },
    );
    let plan = started.borrow().clone().unwrap();
    assert_eq!(plan.port, 49160);
    assert_eq!(last(&query_of(&plan.auth_url), "redirect_uri"), Some("http://127.0.0.1:49160"));
    match r {
        Ok(FlowResult::Success { code, state, redirect_uri }) => {
            assert_eq!(code, "AUTH123");
            assert_eq!(state.as_deref(), Some("xyz123"));
            assert_eq!(redirect_uri, "http://127.0.0.1:49160");
        }
        other => panic!("unexpected {:?}", other),
    }
}

#[test]
fn flow_wait_elapsed_is_timeout() {
    let r = start_flow(&request("https://provider.example/auth"), |_| true, |_: FlowPlan| Ok(()), || None);
    match r {
        Ok(FlowResult::Timeout { redirect_uri }) => assert_eq!(redirect_uri, "http://127.0.0.1:49152"),
        other => panic!("unexpected {:?}", other),
    }
}

#[test]
fn flow_launch_failure_does_not_wait() {
    let waits = Cell::new(0u32);
    let r = start_flow(
        &request("https://provider.example/auth"),
        |_| true,
        |_: FlowPlan| Err("no browser".to_string()),
        || {
            waits.set(waits.get() + 1);
            None
        },
    );
    match r {
        Err(FlowError::LaunchFailure(m)) => assert_eq!(m, "no browser"),
        other => panic!("unexpected {:?}", other),
    }
    assert_eq!(waits.get(), 0);
}

#[test]
fn flow_without_free_port() {
    let launches = Cell::new(0u32);
    let r = start_flow(
        &request("https://provider.example/auth"),
        |_| false,
        |_: FlowPlan| {
            launches.set(launches.get() + 1);
            Ok(())
        },
        || None,
    );
    match r {
        Ok(FlowResult::Failure { error, redirect_uri }) => {
            assert_eq!(error.as_deref(), Some("no available port"));
            assert_eq!(redirect_uri, None);
        }
        other => panic!("unexpected {:?}", other),
    }
    assert_eq!(launches.get(), 0);
}

#[test]
fn request_field_limits() {
    assert!(request("https://provider.example/auth").within_limits());
    let mut long = request("https://provider.example/auth");
    long.state = "s".repeat(puffin_oauth::url_text::MAX_FIELD_CHARS + 1);
    assert!(!long.within_limits());
    long.state = "s".repeat(puffin_oauth::url_text::MAX_FIELD_CHARS);
    assert!(long.within_limits());
}
