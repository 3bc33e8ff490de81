use redoxfs_mount::launcher::{
    FatalError, LaunchAction, LaunchEvent, Launcher, USAGE_EXIT,
};
use redoxfs_mount::resolver::{Action, Resolver};
use redoxfs_mount::script::{rehearse, Attempt, MountEnd};
use redoxfs_mount::selector::{DiskId, Invocation};

fn args(tokens: &[&str]) -> Vec<String> {
    tokens.iter().map(|token| token.to_string()).collect()
}

fn forked() -> (Launcher, Invocation) {
    let (launcher, first) = Launcher::begin(&args(&["/dev/sda1", "/mnt/x"]));
    assert!(first.lines.is_empty());
    assert_eq!(first.action, LaunchAction::CreateChannel);
    let (launcher, step) = launcher.step(LaunchEvent::ChannelCreated(0));
    assert_eq!(step.action, LaunchAction::Fork);
    let invocation = Invocation {
        disk: DiskId::Path("/dev/sda1".to_string()),
        mountpoint: "/mnt/x".to_string(),
    };
    assert_eq!(launcher, Launcher::Fork(invocation.clone()));
    (launcher, invocation)
}

#[test]
fn malformed_uuid_never_forks() {
    let (launcher, first) = Launcher::begin(&args(&["--uuid", "not-a-uuid", "/mnt/x"]));
    assert_eq!(
        first.lines,
        vec![
            "redoxfs: invalid uuid 'not-a-uuid': Invalid length; expecting 32 or 36 chars, found 10"
                .to_string(),
            "redoxfs [--uuid] [disk or uuid] [mountpoint]".to_string(),
        ]
    );
    assert_eq!(first.action, LaunchAction::Exit(1));
    assert_eq!(launcher, Launcher::Done);
    let (launcher, step) = launcher.step(LaunchEvent::ChannelCreated(0));
    assert_eq!(step.action, LaunchAction::Wait);
    let (launcher, step) = launcher.step(LaunchEvent::Forked(0));
    assert_eq!(step.action, LaunchAction::Wait);
    assert_eq!(launcher, Launcher::Done);
}

#[test]
fn uuid_without_hyphens_never_forks() {
    let (launcher, first) =
        Launcher::begin(&args(&["--uuid", "123e4567e89b12d3a456426614174000", "/mnt/x"]));
    assert_eq!(first.lines.len(), 2);
    assert_eq!(first.lines[1], "redoxfs [--uuid] [disk or uuid] [mountpoint]");
    assert_eq!(first.action, LaunchAction::Exit(1));
    assert_eq!(launcher, Launcher::Done);
    let (launcher, step) = launcher.step(LaunchEvent::ChannelCreated(0));
    assert_eq!(step.action, LaunchAction::Wait);
    let (launcher, step) = launcher.step(LaunchEvent::Forked(0));
    assert_eq!(step.action, LaunchAction::Wait);
    assert_eq!(launcher, Launcher::Done);
}

#[test]
fn hyphenated_uuid_asks_for_the_channel() {
    let (launcher, first) =
        Launcher::begin(&args(&["--uuid", "123e4567-e89b-12d3-a456-426614174000", "/mnt/x"]));
    assert!(first.lines.is_empty());
    assert_eq!(first.action, LaunchAction::CreateChannel);
    assert!(matches!(launcher, Launcher::Channel(_)));
}

#[test]
fn no_arguments_show_the_usage() {
    let (launcher, first) = Launcher::begin(&args(&[]));
    assert_eq!(
        first.lines,
        vec![
            "redoxfs: no disk provided".to_string(),
            "redoxfs [--uuid] [disk or uuid] [mountpoint]".to_string(),
        ]
    );
    assert_eq!(first.action, LaunchAction::Exit(USAGE_EXIT));
    assert_eq!(USAGE_EXIT, 1);
    assert_eq!(launcher, Launcher::Done);
}

#[test]
fn channel_failure_is_fatal() {
    let (launcher, _) = Launcher::begin(&args(&["/dev/sda1", "/mnt/x"]));
    let (launcher, step) = launcher.step(LaunchEvent::ChannelCreated(-1));
    assert_eq!(step.action, LaunchAction::Abort(FatalError::Channel));
    assert_eq!(launcher, Launcher::Done);
    assert_eq!(FatalError::Channel.message(), "redoxfs: failed to create pipe");
}

#[test]
fn fork_failure_is_fatal() {
    let (launcher, _) = forked();
    let (launcher, step) = launcher.step(LaunchEvent::Forked(-1));
    assert_eq!(step.action, LaunchAction::Abort(FatalError::Fork));
    assert_eq!(launcher, Launcher::Done);
    assert_eq!(FatalError::Fork.message(), "redoxfs: failed to fork");
}

#[test]
fn the_child_resolves() {
    let (launcher, invocation) = forked();
    let (launcher, step) = launcher.step(LaunchEvent::Forked(0));
    assert_eq!(step.action, LaunchAction::Resolve(invocation.clone()));
    assert_eq!(launcher, Launcher::Done);
    let (_, first) = Resolver::begin(invocation.disk, invocation.mountpoint);
    assert_eq!(first.action, Action::Probe("/dev/sda1".to_string()));
}

#[test]
fn the_parent_exits_with_the_byte() {
    for byte in [0u8, 1, 2, 255] {
        let (launcher, _) = forked();
        let (launcher, step) = launcher.step(LaunchEvent::Forked(4711));
        assert_eq!(step.action, LaunchAction::Listen);
        assert_eq!(launcher, Launcher::Listening);
        let (launcher, step) = launcher.step(LaunchEvent::Received(Some(byte)));
        assert_eq!(step.action, LaunchAction::Exit(byte as i32));
        assert_eq!(launcher, Launcher::Done);
    }
}

#[test]
fn a_silent_daemon_is_no_success() {
    let (launcher, _) = forked();
    let (launcher, _) = launcher.step(LaunchEvent::Forked(1));
    let (launcher, step) = launcher.step(LaunchEvent::Received(None));
    assert_eq!(step.action, LaunchAction::Abort(FatalError::Silence));
    assert_eq!(launcher, Launcher::Done);
    assert_eq!(
        FatalError::Silence.message(),
        "redoxfs: daemon closed the channel without an outcome"
    );
}

#[test]
fn events_out_of_turn_change_nothing() {
    let (launcher, _) = Launcher::begin(&args(&["/dev/sda1", "/mnt/x"]));
    let before = launcher.clone();
    let (launcher, step) = launcher.step(LaunchEvent::Received(Some(0)));
    assert_eq!(step.action, LaunchAction::Wait);
    assert_eq!(launcher, before);
    let (launcher, step) = launcher.step(LaunchEvent::Forked(0));
    assert_eq!(step.action, LaunchAction::Wait);
    assert_eq!(launcher, before);
}

#[test]
fn parent_exit_code_is_the_byte_the_daemon_sent() {
    let scripts = vec![
        vec![Attempt::Opened([7; 16], MountEnd::Serving)],
        vec![Attempt::Opened([7; 16], MountEnd::Refused("busy".to_string()))],
        vec![Attempt::NoDisk("gone".to_string())],
    ];
    let expected = [0, 1, 1];
    for (script, code) in scripts.iter().zip(expected.iter()) {
        let (launcher, invocation) = forked();
        let report = rehearse(invocation.disk, invocation.mountpoint, Vec::new(), script);
        assert_eq!(report.sent.len(), 1);
        let (launcher, _) = launcher.step(LaunchEvent::Forked(1));
        let (_, step) = launcher.step(LaunchEvent::Received(Some(report.sent[0])));
        assert_eq!(step.action, LaunchAction::Exit(*code));
    }
}
