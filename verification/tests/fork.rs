use dmon::fork::{advance, classify_report, Directive, Event, Stage};
use dmon::Parent;

#[test]
fn sentinel_means_silent_success() {
    // The success sentinel: exit code zero, nothing printed.
    let v = classify_report("OK");
    assert_eq!(v.code, 0);
    assert_eq!(v.diagnostic, None);
}

#[test]
fn empty_report_means_generic_failure() {
    // A channel closed without a word: exit code one, generic diagnostic.
    let v = classify_report("");
    assert_eq!(v.code, 1);
    assert_eq!(v.diagnostic.as_deref(), Some("daemon failed to start"));
}

#[test]
fn other_reports_are_printed_verbatim() {
    let v = classify_report("pidfile troubles");
    assert_eq!(v.code, 1);
    assert_eq!(v.diagnostic.as_deref(), Some("pidfile troubles"));
}

#[test]
fn near_sentinel_reports_are_failures() {
    assert_eq!(classify_report("OK ").code, 1);
    assert_eq!(classify_report("ok").code, 1);
    assert_eq!(classify_report("O").code, 1);
}

#[test]
fn handle_delivers_at_most_once() {
    let mut parent = Parent::new();
    assert!(parent.is_waiting());

    let first = parent.success();
    assert_eq!(first.as_deref(), Some("OK"));
    assert!(!parent.is_waiting());

    // The channel is consumed: every later call is a no-op.
    assert_eq!(parent.notify("too late"), None);
    assert_eq!(parent.success(), None);
}

#[test]
fn notify_carries_the_message() {
    let mut parent = Parent::new();
    let sent = parent.notify("setup failed");
    assert_eq!(sent.as_deref(), Some("setup failed"));
    assert_eq!(parent.success(), None);
}

#[test]
fn detached_handle_is_inert() {
    let mut parent = Parent::default();
    assert!(!parent.is_waiting());
    assert_eq!(parent.notify("anything"), None);
    assert_eq!(parent.success(), None);
}

#[test]
fn daemon_walk_through_the_stages() {
    // The lineage of the process that ends up as the daemon.
    let (s, d) = advance(Stage::Start, Event::ChannelOpened);
    assert_eq!(s, Stage::ChannelOpen);
    assert_eq!(d, Directive::Fork);

    let (s, d) = advance(s, Event::ForkedChild);
    assert_eq!(s, Stage::FirstForked);
    assert_eq!(d, Directive::DetachSession);

    let (s, d) = advance(s, Event::SessionDetached);
    assert_eq!(s, Stage::SessionLeader);
    assert_eq!(d, Directive::Fork);

    let (s, d) = advance(s, Event::ForkedChild);
    assert_eq!(s, Stage::SecondForked);
    assert_eq!(d, Directive::BecomeDaemon);
}

#[test]
fn original_and_intermediate_walks() {
    // The original process turns to the channel after the first fork.
    let (s, _) = advance(Stage::Start, Event::ChannelOpened);
    let (_, d) = advance(s, Event::ForkedOriginal);
    assert_eq!(d, Directive::AwaitReport);

    // The intermediate process exits right after the second fork.
    let (_, d) = advance(Stage::SessionLeader, Event::ForkedOriginal);
    assert_eq!(d, Directive::ExitSuccess);
}

#[test]
fn failures_abort_with_their_step_diagnostic() {
    let (_, d) = advance(Stage::Start, Event::ChannelFailed("full".to_string()));
    assert_eq!(
        d,
        Directive::Abort("failed to create interprocess channel: full".to_string())
    );

    let (_, d) = advance(Stage::ChannelOpen, Event::ForkFailed("again".to_string()));
    assert_eq!(
        d,
        Directive::Abort("failed to fork off for the first time: again".to_string())
    );

    let (_, d) = advance(Stage::FirstForked, Event::SessionRefused);
    assert_eq!(d, Directive::Abort("already process group leader".to_string()));

    let (_, d) = advance(Stage::SessionLeader, Event::ForkFailed("again".to_string()));
    assert_eq!(
        d,
        Directive::Abort("failed to fork off for the second time: again".to_string())
    );
}

#[test]
fn read_failures_name_the_channel() {
    assert_eq!(
        dmon::fork::read_failure_message("Input/output error"),
        "failed to read message from daemon process: Input/output error"
    );
}

#[test]
fn channel_roundtrip_over_a_real_pipe() {
    // The daemon side writes what the handle decided; the original side
    // reads until end of stream and classifies the accumulated bytes.
    let (read_end, write_end) = nix::unistd::pipe().unwrap();

    let mut parent = Parent::new();
    let message = parent.success().unwrap();
    nix::unistd::write(&write_end, message.as_bytes()).unwrap();
    drop(write_end);

    let mut report = Vec::new();
    let mut buf = [0u8; 64];
    loop {
        let n = nix::unistd::read(&read_end, &mut buf).unwrap();
        if n == 0 {
            break;
        }
        report.extend_from_slice(&buf[..n]);
    }

    let report = String::from_utf8(report).unwrap();
    let v = classify_report(&report);
    assert_eq!(v.code, 0);
    assert_eq!(v.diagnostic, None);
}
