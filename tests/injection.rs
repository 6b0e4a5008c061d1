use electron_injector::config::{parse_usize, resolve_port, validate_port, Config};
use electron_injector::injector::{
    Action, Event, Injector, Phase, RunError, UserScript, INJECT_LOOP_SLEEP_MS,
};
use electron_injector::protocol::{
    classify_reply, evaluate_request, request_with_expression, DevtoolPage, EvaluateOutcome, EvaluateResponse,
    EvaluateResult, Reply,
};

fn settings(scripts: &[&str], timeout: u64, delay: u64, prelude: bool) -> Config {
    Config {
        app: String::from("fake-electron"),
        arg: vec![String::from("--no-sandbox")],
        script: scripts.iter().map(|s| s.to_string()).collect(),
        host: String::from("127.0.0.1"),
        port: 8315,
        timeout,
        delay,
        prelude,
    }
}

fn user_scripts(scripts: &[&str]) -> Vec<UserScript> {
    scripts
        .iter()
        .map(|s| UserScript { file_path: s.to_string(), content: format!("run('{}')", s) })
        .collect()
}

fn page(id: &str) -> DevtoolPage {
    DevtoolPage {
        description: String::new(),
        devtools_frontend_url: String::new(),
        id: id.to_string(),
        title: format!("title {}", id),
        kind: String::from("page"),
        url: String::from("file:///index.html"),
        web_socket_debugger_url: format!("ws://127.0.0.1:9000/devtools/page/{}", id),
    }
}

fn response(exception: bool) -> Reply {
    Reply::Response(EvaluateResponse {
        id: 1,
        result: EvaluateResult {
            result: serde_json::Value::Null,
            exception_details: if exception { Some(serde_json::Value::Bool(true)) } else { None },
        },
    })
}

fn ready(inj: &mut Injector) {
    assert!(matches!(inj.step(Event::Begin), Action::Spawn { .. }));
    assert!(matches!(inj.step(Event::Spawned), Action::Sleep { .. }));
    assert!(matches!(inj.step(Event::Slept { now_ms: 0 }), Action::ListPages { .. }));
    assert!(matches!(
        inj.step(Event::Pages { pages: vec![], now_ms: 0 }),
        Action::ListPages { .. }
    ));
    assert_eq!(inj.phase, Phase::Discovering);
}

/// Runs one page pass, answering every evaluate call with `reply`; returns
/// the number of evaluate calls.
fn inject_page(inj: &mut Injector, first: Action, reply: fn() -> Reply) -> (usize, Action) {
    assert!(matches!(first, Action::OpenChannel { .. }));
    let mut calls = 0;
    let mut action = inj.step(Event::ChannelOpened);
    while let Action::Evaluate { .. } = action {
        calls += 1;
        action = inj.step(Event::Replied(reply()));
    }
    assert!(matches!(action, Action::CloseChannel));
    (calls, inj.step(Event::ChannelClosed))
}

#[test]
fn port_accepts_range_ends() {
    assert_eq!(validate_port("1"), Ok(1));
    assert_eq!(validate_port("65535"), Ok(65535));
    assert_eq!(validate_port("8315"), Ok(8315));
    assert_eq!(validate_port("+80"), Ok(80));
}

#[test]
fn port_rejects_out_of_range() {
    assert_eq!(validate_port("0"), Err(String::from("port not in range 1-65535")));
    assert_eq!(validate_port("65536"), Err(String::from("port not in range 1-65535")));
    assert_eq!(
        validate_port("18446744073709551615"),
        Err(String::from("port not in range 1-65535"))
    );
}

#[test]
fn port_rejects_non_numbers() {
    assert_eq!(validate_port("abc"), Err(String::from("`abc` isn't a port number")));
    assert_eq!(validate_port(""), Err(String::from("`` isn't a port number")));
    assert_eq!(validate_port("+"), Err(String::from("`+` isn't a port number")));
    assert_eq!(validate_port("-1"), Err(String::from("`-1` isn't a port number")));
    assert_eq!(validate_port("12a"), Err(String::from("`12a` isn't a port number")));
    assert_eq!(
        validate_port("18446744073709551616"),
        Err(String::from("`18446744073709551616` isn't a port number"))
    );
}

#[test]
fn usize_text_is_read_as_std_reads_it() {
    assert_eq!(parse_usize("0"), Some(0));
    assert_eq!(parse_usize("007"), Some(7));
    assert_eq!(parse_usize("4294967296"), Some(4294967296));
    assert_eq!(parse_usize(" 1"), None);
}

#[test]
fn available_port_is_not_zero() {
    let config = settings(&[], 10000, 0, false);
    let port = Injector::get_available_port(&config).expect("a port");
    assert_ne!(port, 0);
}

#[test]
fn evaluate_request_has_fixed_shape() {
    let text = evaluate_request("1 + 1");
    assert_eq!(
        text,
        "{\"id\":1,\"method\":\"Runtime.evaluate\",\"params\":{\"awaitPromise\":true,\"expression\":\"1 + 1\",\"includeCommandLineAPI\":true,\"objectGroup\":\"inject\",\"silent\":true,\"userGesture\":true}}"
    );
}

#[test]
fn evaluate_request_escapes_expression() {
    let text = evaluate_request("alert(\"hi\")\n");
    assert!(text.contains("\"expression\":\"alert(\\\"hi\\\")\\n\""));
}

#[test]
fn replies_are_classified() {
    assert_eq!(classify_reply(&Reply::NonText), Some(EvaluateOutcome::Ignored));
    assert_eq!(classify_reply(&Reply::Malformed), None);
    assert_eq!(classify_reply(&response(false)), Some(EvaluateOutcome::Evaluated));
    assert_eq!(classify_reply(&response(true)), Some(EvaluateOutcome::Threw));
}

#[test]
fn prelude_script_only_when_enabled() {
    let on = Injector::new(settings(&[], 1, 0, true), 8315, String::from("p()"), vec![]);
    assert_eq!(on.get_prelude_script(), Some(String::from("p()")));
    let off = Injector::new(settings(&[], 1, 0, false), 8315, String::from("p()"), vec![]);
    assert_eq!(off.get_prelude_script(), None);
}

#[test]
fn chosen_port_is_used_for_launch_and_discovery() {
    let mut inj = Injector::new(settings(&["a.js"], 1000, 0, false), 15123, String::new(), vec![]);
    assert_eq!(
        inj.launch_arguments(),
        vec![String::from("--remote-debugging-port=15123"), String::from("--no-sandbox")]
    );
    assert_eq!(inj.list_url(), "http://127.0.0.1:15123/json/list");
    match inj.step(Event::Begin) {
        Action::Spawn { program, args } => {
            assert_eq!(program, "fake-electron");
            assert_eq!(args[0], "--remote-debugging-port=15123");
        }
        _ => panic!("expected a launch"),
    }
    inj.step(Event::Spawned);
    match inj.step(Event::Slept { now_ms: 5 }) {
        Action::ListPages { url } => assert_eq!(url, "http://127.0.0.1:15123/json/list"),
        _ => panic!("expected a page list request"),
    }
}

#[test]
fn end_to_end_single_page() {
    let names = ["a.js", "b.js"];
    let mut inj = Injector::new(settings(&names, 5000, 0, false), 8315, String::new(), user_scripts(&names));
    match inj.step(Event::Begin) {
        Action::Spawn { program, .. } => assert_eq!(program, "fake-electron"),
        _ => panic!("expected a launch"),
    }
    match inj.step(Event::Spawned) {
        Action::Sleep { ms } => assert_eq!(ms, 0),
        _ => panic!("expected the start delay"),
    }
    inj.step(Event::Slept { now_ms: 0 });
    inj.step(Event::Pages { pages: vec![page("page-1")], now_ms: 10 });
    let first = inj.step(Event::Pages { pages: vec![page("page-1")], now_ms: 10 });
    match &first {
        Action::OpenChannel { address } => {
            assert_eq!(address, "ws://127.0.0.1:9000/devtools/page/page-1")
        }
        _ => panic!("expected the channel of the first page"),
    }
    let (calls, next) = inject_page(&mut inj, first, || response(false));
    assert_eq!(calls, 2);
    assert!(matches!(next, Action::ListPages { .. }));
    assert!(matches!(inj.step(Event::Pages { pages: vec![page("page-1")], now_ms: 20 }), Action::Finish));
    assert_eq!(inj.phase, Phase::Done);
    assert_eq!(inj.injected, vec![String::from("page-1")]);
}

#[test]
fn requests_follow_plan_order() {
    let names = ["a.js", "b.js"];
    let mut inj = Injector::new(settings(&names, 5000, 0, true), 8315, String::from("prelude()"), user_scripts(&names));
    ready(&mut inj);
    inj.step(Event::Pages { pages: vec![page("page-1")], now_ms: 0 });
    let mut seen = Vec::new();
    let mut action = inj.step(Event::ChannelOpened);
    while let Action::Evaluate { request } = action {
        seen.push(request);
        action = inj.step(Event::Replied(response(false)));
    }
    assert_eq!(seen.len(), 3);
    assert!(seen[0].contains("\"expression\":\"prelude()\""));
    assert!(seen[1].contains("\"expression\":\"run('a.js')\""));
    assert!(seen[2].contains("\"expression\":\"run('b.js')\""));
}

#[test]
fn page_seen_twice_is_injected_once() {
    let names = ["a.js"];
    let mut inj = Injector::new(settings(&names, 5000, 0, false), 8315, String::new(), user_scripts(&names));
    ready(&mut inj);
    let first = inj.step(Event::Pages { pages: vec![page("page-1")], now_ms: 0 });
    let (calls, next) = inject_page(&mut inj, first, || response(false));
    assert_eq!(calls, 1);
    assert!(matches!(next, Action::ListPages { .. }));
    // A second page shows up: the round goes on.
    assert!(matches!(
        inj.step(Event::Pages { pages: vec![page("page-1"), page("page-2")], now_ms: 100 }),
        Action::Sleep { .. }
    ));
    assert!(matches!(inj.step(Event::Slept { now_ms: 1100 }), Action::ListPages { .. }));
    let second = inj.step(Event::Pages { pages: vec![page("page-1"), page("page-2")], now_ms: 1100 });
    match &second {
        Action::OpenChannel { address } => assert!(address.ends_with("/page-2")),
        _ => panic!("only the second page is pending"),
    }
    let (calls, next) = inject_page(&mut inj, second, || response(false));
    assert_eq!(calls, 1);
    assert!(matches!(next, Action::ListPages { .. }));
    assert!(matches!(
        inj.step(Event::Pages { pages: vec![page("page-1"), page("page-2")], now_ms: 1200 }),
        Action::Finish
    ));
    assert_eq!(inj.injected, vec![String::from("page-1"), String::from("page-2")]);
}

#[test]
fn duplicate_id_in_one_list_is_injected_once() {
    let names = ["a.js"];
    let mut inj = Injector::new(settings(&names, 5000, 0, false), 8315, String::new(), user_scripts(&names));
    ready(&mut inj);
    let first = inj.step(Event::Pages { pages: vec![page("page-1"), page("page-1")], now_ms: 0 });
    let (calls, next) = inject_page(&mut inj, first, || response(false));
    assert_eq!(calls, 1);
    assert!(matches!(next, Action::ListPages { .. }));
    assert_eq!(inj.injected.len(), 1);
}

#[test]
fn static_pages_finish_after_first_round() {
    let names = ["a.js"];
    let mut inj = Injector::new(settings(&names, 60000, 0, false), 8315, String::new(), user_scripts(&names));
    ready(&mut inj);
    let mut action = inj.step(Event::Pages { pages: vec![page("A"), page("B")], now_ms: 0 });
    let mut pages_done = 0;
    while let Action::OpenChannel { .. } = action {
        let (_, next) = inject_page(&mut inj, action, || response(false));
        pages_done += 1;
        action = next;
    }
    assert_eq!(pages_done, 2);
    assert!(matches!(action, Action::ListPages { .. }));
    assert!(matches!(
        inj.step(Event::Pages { pages: vec![page("A"), page("B")], now_ms: 50 }),
        Action::Finish
    ));
}

#[test]
fn unreachable_page_channel_fails_run() {
    let names = ["a.js"];
    let mut inj = Injector::new(settings(&names, 5000, 0, false), 8315, String::new(), user_scripts(&names));
    ready(&mut inj);
    let first = inj.step(Event::Pages { pages: vec![page("page-1")], now_ms: 0 });
    let (_, _) = inject_page(&mut inj, first, || response(false));
    let two = || vec![page("page-1"), page("page-2")];
    match inj.step(Event::Pages { pages: two(), now_ms: 4999 }) {
        Action::Sleep { ms } => assert_eq!(ms, INJECT_LOOP_SLEEP_MS),
        _ => panic!("expected a pause"),
    }
    inj.step(Event::Slept { now_ms: 5999 });
    let open = inj.step(Event::Pages { pages: two(), now_ms: 5999 });
    assert!(matches!(open, Action::OpenChannel { .. }));
    // The page's channel cannot be opened: the run fails on the channel.
    match inj.step(Event::ChannelFailed) {
        Action::Fail(e) => assert_eq!(e, RunError::Channel),
        _ => panic!("expected a failure"),
    }
}

#[test]
fn loop_timeout_is_reported() {
    let mut inj = Injector::new(settings(&[], 5000, 0, false), 8315, String::new(), vec![]);
    ready(&mut inj);
    assert!(matches!(
        inj.step(Event::Pages { pages: vec![], now_ms: 0 }),
        Action::ListPages { .. }
    ));
    // A page appears after the round and the timeout has passed.
    match inj.step(Event::Pages { pages: vec![page("late")], now_ms: 5000 }) {
        Action::Fail(e) => assert_eq!(e, RunError::LoopTimeout),
        _ => panic!("expected the loop timeout"),
    }
    assert_eq!(inj.phase, Phase::Failed);
    assert!(matches!(inj.step(Event::Begin), Action::Fail(RunError::LoopTimeout)));
}

#[test]
fn exception_does_not_stop_injection() {
    let names = ["a.js", "b.js"];
    let mut inj = Injector::new(settings(&names, 5000, 0, false), 8315, String::new(), user_scripts(&names));
    ready(&mut inj);
    let first = inj.step(Event::Pages { pages: vec![page("page-1"), page("page-2")], now_ms: 0 });
    let (calls, next) = inject_page(&mut inj, first, || response(true));
    assert_eq!(calls, 2);
    let (calls, next) = inject_page(&mut inj, next, || response(true));
    assert_eq!(calls, 2);
    assert!(matches!(next, Action::ListPages { .. }));
    assert_eq!(inj.injected.len(), 2);
}

#[test]
fn non_text_reply_is_a_success() {
    let names = ["a.js", "b.js"];
    let mut inj = Injector::new(settings(&names, 5000, 0, false), 8315, String::new(), user_scripts(&names));
    ready(&mut inj);
    let first = inj.step(Event::Pages { pages: vec![page("page-1")], now_ms: 0 });
    let (calls, next) = inject_page(&mut inj, first, || Reply::NonText);
    assert_eq!(calls, 2);
    assert!(matches!(next, Action::ListPages { .. }));
}

#[test]
fn malformed_reply_fails_the_run() {
    let names = ["a.js"];
    let mut inj = Injector::new(settings(&names, 5000, 0, false), 8315, String::new(), user_scripts(&names));
    ready(&mut inj);
    inj.step(Event::Pages { pages: vec![page("page-1")], now_ms: 0 });
    assert!(matches!(inj.step(Event::ChannelOpened), Action::Evaluate { .. }));
    assert!(matches!(
        inj.step(Event::Replied(Reply::Malformed)),
        Action::Fail(RunError::MalformedReply)
    ));
}

#[test]
fn readiness_wait_times_out() {
    let mut inj = Injector::new(settings(&[], 5000, 100, false), 8315, String::new(), vec![]);
    inj.step(Event::Begin);
    inj.step(Event::Spawned);
    inj.step(Event::Slept { now_ms: 1000 });
    assert!(matches!(inj.step(Event::ListFailed { now_ms: 30999 }), Action::ListPages { .. }));
    assert!(matches!(
        inj.step(Event::ListFailed { now_ms: 31000 }),
        Action::Fail(RunError::ReadinessTimeout)
    ));
}

#[test]
fn spawn_failure_and_discovery_failure() {
    let mut inj = Injector::new(settings(&[], 5000, 0, false), 8315, String::new(), vec![]);
    inj.step(Event::Begin);
    assert!(matches!(inj.step(Event::SpawnFailed), Action::Fail(RunError::Spawn)));

    let mut inj = Injector::new(settings(&[], 5000, 0, false), 8315, String::new(), vec![]);
    ready(&mut inj);
    assert!(matches!(
        inj.step(Event::ListFailed { now_ms: 1 }),
        Action::Fail(RunError::Discovery)
    ));
}

#[test]
fn exchange_failure_and_unexpected_event() {
    let names = ["a.js"];
    let mut inj = Injector::new(settings(&names, 5000, 0, false), 8315, String::new(), user_scripts(&names));
    ready(&mut inj);
    inj.step(Event::Pages { pages: vec![page("page-1")], now_ms: 0 });
    inj.step(Event::ChannelOpened);
    assert!(matches!(inj.step(Event::ExchangeFailed), Action::Fail(RunError::Channel)));

    let mut inj = Injector::new(settings(&[], 5000, 0, false), 8315, String::new(), vec![]);
    assert!(matches!(inj.step(Event::ChannelClosed), Action::Fail(RunError::UnexpectedEvent)));
}

#[test]
fn page_without_scripts_is_still_recorded() {
    let mut inj = Injector::new(settings(&[], 5000, 0, false), 8315, String::new(), vec![]);
    ready(&mut inj);
    let first = inj.step(Event::Pages { pages: vec![page("page-1")], now_ms: 0 });
    let (calls, _) = inject_page(&mut inj, first, || response(false));
    assert_eq!(calls, 0);
    assert_eq!(inj.injected, vec![String::from("page-1")]);
}

#[test]
fn request_is_built_around_quoted_expression() {
    assert_eq!(
        request_with_expression("\"x\""),
        "{\"id\":1,\"method\":\"Runtime.evaluate\",\"params\":{\"awaitPromise\":true,\"expression\":\"x\",\"includeCommandLineAPI\":true,\"objectGroup\":\"inject\",\"silent\":true,\"userGesture\":true}}"
    );
}

#[test]
fn evaluate_request_escapes_controls() {
    let text = evaluate_request("a\u{1}\u{1f}\u{8}\u{c}\r\t\\/\u{e9}");
    assert!(text.contains("\"expression\":\"a\\u0001\\u001f\\b\\f\\r\\t\\\\/\u{e9}\""));
}

#[test]
fn port_choice_prefers_free_port() {
    assert_eq!(resolve_port(8315, true, None), Some(8315));
    assert_eq!(resolve_port(8315, true, Some(15001)), Some(8315));
    assert_eq!(resolve_port(8315, false, Some(15001)), Some(15001));
    assert_eq!(resolve_port(8315, false, None), None);
}
