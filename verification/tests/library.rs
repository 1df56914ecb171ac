use browser_agent::chrome::{
    debug_endpoint, launch_args, probe_address, LaunchAction, Launcher, PollAction, ReadyPoll,
    ATTEMPTS, EDGE_X64, EDGE_X86, PORT, POLL_INTERVAL_MS, PROFILE,
};
use browser_agent::err::Error;
use browser_agent::outcome::{Content, ToolOutcome};
use browser_agent::srv::{
    contacts_reply, content_reply, on_element_lookup, on_step, screenshot_reply, truncate_content,
    ElementStep, PageSlot, CONTENT_LIMIT, PNG_MIME,
};
use browser_agent::text::decimal_string;
use browser_agent::tools::click::{click_reply, ClickParams};
use browser_agent::tools::navigate::{NavAction, NavParams, Navigation};
use browser_agent::tools::ping::pong;
use browser_agent::tools::press_key::{
    dispatch_script, press_on_lookup, press_reply, PressKeyParams, PressStep,
};
use browser_agent::tools::type_text::{type_reply, TypeParams};

fn text_of(o: &ToolOutcome) -> String {
    assert_eq!(o.content.len(), 1);
    match &o.content[0] {
        Content::Text(t) => t.clone(),
        other => panic!("expected text, got {:?}", other),
    }
}

fn ok_text(o: &ToolOutcome) -> String {
    assert!(!o.is_error);
    text_of(o)
}

fn err_text(o: &ToolOutcome) -> String {
    assert!(o.is_error);
    text_of(o)
}

#[test]
fn decimal_rendering() {
    assert_eq!(decimal_string(0), "0");
    assert_eq!(decimal_string(7), "7");
    assert_eq!(decimal_string(10), "10");
    assert_eq!(decimal_string(9222), "9222");
    assert_eq!(decimal_string(u64::MAX), u64::MAX.to_string());
}

#[test]
fn error_messages() {
    assert_eq!(Error::Chrome("boom".to_string()).message(), "chrome: boom");
    assert_eq!(Error::Mcp("closed".to_string()).message(), "mcp: closed");
    assert_eq!(
        Error::Timeout { port: 9222, attempts: 20 }.message(),
        "timeout: port=9222 after 20 attempts"
    );
    let io = std::io::Error::new(std::io::ErrorKind::NotFound, "no such file");
    let e: Error = Error::from(io);
    assert!(matches!(e, Error::Launch(_)));
    assert_eq!(e.message(), "launch: no such file");
}

#[test]
fn cdp_errors_become_chrome_errors() {
    let e = Error::from_cdp(&chromiumoxide::error::CdpError::NotFound);
    match e {
        Error::Chrome(m) => assert_eq!(m, "Requested value not found."),
        other => panic!("unexpected {:?}", other),
    }
}

#[test]
fn addresses_and_arguments() {
    assert_eq!(PORT, 9222);
    assert_eq!(probe_address(9222), "127.0.0.1:9222");
    assert_eq!(debug_endpoint(9222), "http://127.0.0.1:9222");
    let args = launch_args(9222);
    assert_eq!(
        args,
        vec![
            "--remote-debugging-port=9222".to_string(),
            format!("--user-data-dir={}", PROFILE),
            "--window-size=1280,720".to_string(),
        ]
    );
    assert_eq!(PROFILE, r"C:\Users\Артур\.browser-agent-profile");
}

#[test]
fn poll_succeeds_on_first_answer() {
    let p = ReadyPoll::new(9222);
    match p.start() {
        PollAction::Probe(a) => assert_eq!(a, "127.0.0.1:9222"),
        _ => panic!("expected a probe"),
    }
    assert!(matches!(p.on_probe(true), PollAction::Finish(Ok(()))));
}

#[test]
fn poll_retries_then_succeeds() {
    let mut p = ReadyPoll::new(4000);
    assert!(matches!(p.start(), PollAction::Probe(_)));
    let mut probes = 1;
    for _ in 0..4 {
        match p.on_probe(false) {
            PollAction::Sleep(ms) => assert_eq!(ms, POLL_INTERVAL_MS),
            _ => panic!("expected a pause"),
        }
        match p.on_slept() {
            PollAction::Probe(a) => assert_eq!(a, "127.0.0.1:4000"),
            _ => panic!("expected a probe"),
        }
        probes += 1;
    }
    assert!(matches!(p.on_probe(true), PollAction::Finish(Ok(()))));
    assert_eq!(probes, 5);
}

#[test]
fn poll_gives_up_after_twenty_probes() {
    let mut p = ReadyPoll::new(9222);
    assert!(matches!(p.start(), PollAction::Probe(_)));
    let mut probes = 1;
    loop {
        assert!(matches!(p.on_probe(false), PollAction::Sleep(500)));
        match p.on_slept() {
            PollAction::Probe(_) => probes += 1,
            PollAction::Finish(Err(e)) => {
                assert!(matches!(e, Error::Timeout { port: 9222, attempts: 20 }));
                assert_eq!(e.message(), "timeout: port=9222 after 20 attempts");
                break;
            }
            _ => panic!("unexpected action"),
        }
    }
    assert_eq!(probes, ATTEMPTS as usize);
}

#[test]
fn launch_skipped_when_listening() {
    let mut l = Launcher::new(9222, None);
    match l.start() {
        LaunchAction::ProbePort(a) => assert_eq!(a, "127.0.0.1:9222"),
        _ => panic!("expected a probe"),
    }
    assert!(matches!(l.on_probe(true), LaunchAction::Finish(Ok(false))));
}

#[test]
fn launch_prefers_browser_path() {
    let mut l = Launcher::new(9222, Some("/opt/chromium".to_string()));
    match l.on_probe(false) {
        LaunchAction::CheckPath(p) => assert_eq!(p, "/opt/chromium"),
        _ => panic!("expected a check"),
    }
    match l.on_check(true) {
        LaunchAction::Spawn { program, args } => {
            assert_eq!(program, "/opt/chromium");
            assert_eq!(args, launch_args(9222));
        }
        _ => panic!("expected a spawn"),
    }
    assert!(matches!(l.on_spawn(Ok(())), LaunchAction::Finish(Ok(true))));
}

#[test]
fn launch_falls_back_to_edge_locations() {
    let mut l = Launcher::new(9333, Some("/missing".to_string()));
    assert!(matches!(l.on_probe(false), LaunchAction::CheckPath(_)));
    match l.on_check(false) {
        LaunchAction::CheckPath(p) => assert_eq!(p, EDGE_X86),
        _ => panic!("expected a check"),
    }
    match l.on_check(false) {
        LaunchAction::CheckPath(p) => assert_eq!(p, EDGE_X64),
        _ => panic!("expected a check"),
    }
    match l.on_check(true) {
        LaunchAction::Spawn { program, args } => {
            assert_eq!(program, EDGE_X64);
            assert_eq!(args[0], "--remote-debugging-port=9333");
        }
        _ => panic!("expected a spawn"),
    }
}

#[test]
fn launch_fails_when_no_browser() {
    let mut l = Launcher::new(9222, None);
    match l.on_probe(false) {
        LaunchAction::CheckPath(p) => assert_eq!(p, EDGE_X86),
        _ => panic!("expected a check"),
    }
    assert!(matches!(l.on_check(false), LaunchAction::CheckPath(_)));
    match l.on_check(false) {
        LaunchAction::Finish(Err(e)) => assert_eq!(e.message(), "chrome: msedge not found"),
        _ => panic!("expected a failure"),
    }
}

#[test]
fn launch_spawn_failure_is_launch_error() {
    let l = Launcher::new(9222, None);
    let io = std::io::Error::new(std::io::ErrorKind::PermissionDenied, "denied");
    match l.on_spawn(Err(io)) {
        LaunchAction::Finish(Err(e)) => {
            match &e {
                Error::Launch(inner) => assert_eq!(inner.kind(), std::io::ErrorKind::PermissionDenied),
                other => panic!("unexpected {:?}", other),
            }
            assert_eq!(e.message(), "launch: denied");
        }
        _ => panic!("expected a failure"),
    }
}

#[test]
fn ping_answers_pong() {
    assert_eq!(ok_text(&pong()), "pong");
}

fn slot_with(page: u32) -> PageSlot<u32> {
    let mut slot: PageSlot<u32> = PageSlot::new();
    let nav = Navigation::new(NavParams { url: "about:blank".to_string() });
    assert!(matches!(nav.on_open(&mut slot, Ok(page)), NavAction::ReadUrl));
    slot
}

#[test]
fn page_slot_lookup() {
    let slot: PageSlot<u32> = PageSlot::new();
    assert_eq!(slot.page(), Err("no page - call navigate first".to_string()));
    let mut slot = slot_with(7);
    assert_eq!(slot.page(), Ok(&7));
    let nav = Navigation::new(NavParams { url: "x".to_string() });
    assert!(matches!(nav.on_goto(&mut slot, Err("gone".to_string())), NavAction::Reply(_)));
    assert!(slot.page().is_err());
}

#[test]
fn first_navigation_opens_page() {
    let mut slot: PageSlot<u32> = PageSlot::new();
    let nav = Navigation::new(NavParams { url: "https://example.com".to_string() });
    assert!(matches!(nav.start(&slot, false), NavAction::StartBrowser));
    match nav.on_browser(Ok(())) {
        NavAction::OpenPage(u) => assert_eq!(u, "https://example.com"),
        _ => panic!("expected a new page"),
    }
    assert!(matches!(nav.on_open(&mut slot, Ok(1)), NavAction::ReadUrl));
    assert_eq!(slot.page(), Ok(&1));
    match nav.on_url(Ok(Some("https://example.com/".to_string()))) {
        NavAction::Reply(o) => assert_eq!(ok_text(&o), "navigated to https://example.com/"),
        _ => panic!("expected a reply"),
    }
    match nav.on_url(Ok(None)) {
        NavAction::Reply(o) => assert_eq!(ok_text(&o), "navigated to https://example.com"),
        _ => panic!("expected a reply"),
    }
    match nav.on_url(Err("detached".to_string())) {
        NavAction::Reply(o) => assert_eq!(err_text(&o), "detached"),
        _ => panic!("expected a reply"),
    }
}

#[test]
fn navigation_reuses_page() {
    let mut slot = slot_with(3);
    let nav = Navigation::new(NavParams { url: "https://a.test".to_string() });
    match nav.start(&slot, true) {
        NavAction::Goto(u) => assert_eq!(u, "https://a.test"),
        _ => panic!("expected a load in the same page"),
    }
    assert!(matches!(nav.on_goto(&mut slot, Ok(())), NavAction::ReadUrl));
    assert_eq!(slot.page(), Ok(&3));
}

#[test]
fn failed_navigation_forgets_page() {
    let mut slot = slot_with(3);
    let nav = Navigation::new(NavParams { url: "https://a.test".to_string() });
    match nav.on_goto(&mut slot, Err("net::ERR_NAME_NOT_RESOLVED".to_string())) {
        NavAction::Reply(o) => assert_eq!(err_text(&o), "net::ERR_NAME_NOT_RESOLVED"),
        _ => panic!("expected a reply"),
    }
    assert_eq!(slot.page(), Err("no page - call navigate first".to_string()));
    let next = Navigation::new(NavParams { url: "https://b.test".to_string() });
    match next.start(&slot, true) {
        NavAction::OpenPage(u) => assert_eq!(u, "https://b.test"),
        _ => panic!("expected a new page in the connected browser"),
    }
    assert!(matches!(next.start(&slot, false), NavAction::StartBrowser));
}

#[test]
fn failed_open_leaves_no_page() {
    let mut slot: PageSlot<u32> = PageSlot::new();
    let nav = Navigation::new(NavParams { url: "bad".to_string() });
    match nav.on_open(&mut slot, Err("cannot open".to_string())) {
        NavAction::Reply(o) => assert_eq!(err_text(&o), "cannot open"),
        _ => panic!("expected a reply"),
    }
    assert!(slot.page().is_err());
}

#[test]
fn content_short_text_kept() {
    assert_eq!(ok_text(&content_reply(Ok("hello".to_string()))), "hello");
    assert_eq!(err_text(&content_reply(Err("eval failed".to_string()))), "eval failed");
}

#[test]
fn content_long_text_truncated() {
    let long = "a".repeat(CONTENT_LIMIT + 5);
    let t = ok_text(&content_reply(Ok(long)));
    assert_eq!(t.len(), CONTENT_LIMIT);
    let exact = "b".repeat(CONTENT_LIMIT);
    assert_eq!(truncate_content(&exact), exact);
    let mut multi = "x".repeat(CONTENT_LIMIT - 2);
    multi.push('é');
    multi.push_str("tail");
    let cut = truncate_content(&multi);
    assert_eq!(cut.len(), CONTENT_LIMIT);
    assert!(cut.ends_with('é'));
}

#[test]
fn content_cut_inside_character_drops_it() {
    let mut split = "x".repeat(CONTENT_LIMIT - 1);
    split.push('é');
    split.push_str("more");
    let cut = truncate_content(&split);
    assert_eq!(cut, "x".repeat(CONTENT_LIMIT - 1));
    let cyrillic = "Артур".repeat(CONTENT_LIMIT / 5);
    let t = ok_text(&content_reply(Ok(cyrillic.clone())));
    assert!(t.len() <= CONTENT_LIMIT && t.len() >= CONTENT_LIMIT - 3);
    assert!(cyrillic.starts_with(&t));
    let mut four = "x".repeat(CONTENT_LIMIT - 2);
    four.push('😀');
    assert_eq!(truncate_content(&four), "x".repeat(CONTENT_LIMIT - 2));
}

#[test]
fn browser_start_failure_is_answered() {
    let nav = Navigation::new(NavParams { url: "https://a.test".to_string() });
    match nav.on_browser(Err(Error::Timeout { port: 9222, attempts: 20 })) {
        NavAction::Reply(o) => assert_eq!(err_text(&o), "timeout: port=9222 after 20 attempts"),
        _ => panic!("expected a reply"),
    }
    match nav.on_browser(Err(Error::Chrome("msedge not found".to_string()))) {
        NavAction::Reply(o) => assert_eq!(err_text(&o), "chrome: msedge not found"),
        _ => panic!("expected a reply"),
    }
}

#[test]
fn screenshot_base64() {
    let o = screenshot_reply(Ok(b"Man".to_vec()));
    assert!(!o.is_error);
    assert_eq!(
        o.content,
        vec![Content::Image { data: "TWFu".to_string(), mime_type: PNG_MIME.to_string() }]
    );
    let o = screenshot_reply(Ok(vec![0xff]));
    assert_eq!(o.content, vec![Content::Image { data: "/w==".to_string(), mime_type: "image/png".to_string() }]);
    let o = screenshot_reply(Ok(vec![1, 2]));
    assert_eq!(o.content, vec![Content::Image { data: "AQI=".to_string(), mime_type: "image/png".to_string() }]);
    let o = screenshot_reply(Ok(vec![0xfb, 0xff, 0xbf, 0x00]));
    assert_eq!(o.content, vec![Content::Image { data: "+/+/AA==".to_string(), mime_type: "image/png".to_string() }]);
    let o = screenshot_reply(Ok(vec![]));
    assert_eq!(o.content, vec![Content::Image { data: String::new(), mime_type: "image/png".to_string() }]);
    assert_eq!(err_text(&screenshot_reply(Err("capture failed".to_string()))), "capture failed");
}

#[test]
fn contacts_answer() {
    let j = r#"{"telegram":[],"email":["a@b.cd"],"phone":[],"url":[]}"#.to_string();
    assert_eq!(ok_text(&contacts_reply(Ok(j.clone()))), j);
    assert_eq!(err_text(&contacts_reply(Err("x".to_string()))), "x");
}

#[test]
fn element_lookup_steps() {
    assert!(matches!(on_element_lookup("#go", Ok(())), ElementStep::Proceed));
    match on_element_lookup("#go", Err("no node".to_string())) {
        ElementStep::Reply(o) => assert_eq!(err_text(&o), "selector not found: #go -- no node"),
        _ => panic!("expected a reply"),
    }
    assert!(matches!(on_step(Ok(())), ElementStep::Proceed));
    match on_step(Err("click failed".to_string())) {
        ElementStep::Reply(o) => assert_eq!(err_text(&o), "click failed"),
        _ => panic!("expected a reply"),
    }
}

#[test]
fn click_and_type_answers() {
    let c = ClickParams { selector: "button.submit".to_string() };
    assert_eq!(ok_text(&click_reply(&c, Ok(()))), "clicked button.submit");
    assert_eq!(err_text(&click_reply(&c, Err("detached".to_string()))), "detached");
    let t = TypeParams { selector: "#q".to_string(), text: "rust".to_string() };
    assert_eq!(ok_text(&type_reply(&t, Ok(()))), "typed into #q");
    assert_eq!(err_text(&type_reply(&t, Err("no input".to_string()))), "no input");
}

#[test]
fn press_key_paths() {
    let p = PressKeyParams { key: "Enter".to_string() };
    assert!(matches!(press_on_lookup(&p, Ok(())), PressStep::OnElement));
    match press_on_lookup(&p, Err("nothing focused".to_string())) {
        PressStep::Dispatch(s) => assert_eq!(
            s,
            "document.activeElement&&document.activeElement.dispatchEvent(new KeyboardEvent('keydown',{key:'Enter',bubbles:true,cancelable:true}))"
        ),
        _ => panic!("expected the script"),
    }
    assert_eq!(dispatch_script("Tab"), format!(
        r#"document.activeElement&&document.activeElement.dispatchEvent(new KeyboardEvent('keydown',{{key:'{}',bubbles:true,cancelable:true}}))"#,
        "Tab"
    ));
    assert_eq!(ok_text(&press_reply(&p, Ok(()), false)), "pressed Enter");
    assert_eq!(ok_text(&press_reply(&p, Ok(()), true)), "pressed Enter (js)");
    assert_eq!(err_text(&press_reply(&p, Err("eval".to_string()), true)), "eval");
}

#[test]
fn press_key_script_escapes_key() {
    assert_eq!(
        dispatch_script("a');alert(1);('"),
        r#"document.activeElement&&document.activeElement.dispatchEvent(new KeyboardEvent('keydown',{key:'a\');alert(1);(\'',bubbles:true,cancelable:true}))"#
    );
    assert_eq!(
        dispatch_script("\\"),
        r#"document.activeElement&&document.activeElement.dispatchEvent(new KeyboardEvent('keydown',{key:'\\',bubbles:true,cancelable:true}))"#
    );
    assert_eq!(
        dispatch_script("\n\rй"),
        "document.activeElement&&document.activeElement.dispatchEvent(new KeyboardEvent('keydown',{key:'\\n\\rй',bubbles:true,cancelable:true}))"
    );
    let p = PressKeyParams { key: "'".to_string() };
    match press_on_lookup(&p, Err("none".to_string())) {
        PressStep::Dispatch(s) => assert!(s.contains("{key:'\\'',")),
        _ => panic!("expected the script"),
    }
}

#[test]
fn screenshot_base64_decodes_back() {
    let bytes: Vec<u8> = (0..=255u8).chain([7, 0, 255].into_iter()).collect();
    let o = screenshot_reply(Ok(bytes.clone()));
    match &o.content[0] {
        Content::Image { data, mime_type } => {
            assert_eq!(mime_type, "image/png");
            assert_eq!(base64::Engine::decode(&base64::engine::general_purpose::STANDARD, data).unwrap(), bytes);
        }
        other => panic!("expected an image, got {:?}", other),
    }
}

#[test]
fn startup_launches_waits_then_connects() {
    let s = browser_agent::chrome::Startup::new(9222);
    assert!(matches!(s.start(), browser_agent::chrome::StartAction::Launch));
    assert!(matches!(s.on_launched(Ok(true)), browser_agent::chrome::StartAction::WaitForPort));
    assert!(matches!(s.on_launched(Ok(false)), browser_agent::chrome::StartAction::WaitForPort));
    match s.on_ready(Ok(())) {
        browser_agent::chrome::StartAction::Connect(u) => assert_eq!(u, "http://127.0.0.1:9222"),
        _ => panic!("expected a connect"),
    }
    assert!(matches!(s.on_connected(Ok(())), browser_agent::chrome::StartAction::Finish(Ok(()))));
    match s.on_ready(Err(Error::Timeout { port: 9222, attempts: 20 })) {
        browser_agent::chrome::StartAction::Finish(Err(e)) => {
            assert_eq!(e.message(), "timeout: port=9222 after 20 attempts")
        }
        _ => panic!("expected the error"),
    }
    match s.on_launched(Err(Error::Chrome("msedge not found".to_string()))) {
        browser_agent::chrome::StartAction::Finish(Err(e)) => assert_eq!(e.message(), "chrome: msedge not found"),
        _ => panic!("expected the error"),
    }
    match s.on_connected(Err(Error::Chrome("refused".to_string()))) {
        browser_agent::chrome::StartAction::Finish(Err(e)) => assert_eq!(e.message(), "chrome: refused"),
        _ => panic!("expected the error"),
    }
}
