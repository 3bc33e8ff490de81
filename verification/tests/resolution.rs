use redoxfs_mount::resolver::{same_id, Action, Event, Phase, Resolver, EXHAUSTED, MOUNTED};
use redoxfs_mount::selector::DiskId;

const WANTED: [u8; 16] = [
    0x12, 0x3e, 0x45, 0x67, 0xe8, 0x9b, 0x12, 0xd3, 0xa4, 0x56, 0x42, 0x66, 0x14, 0x17, 0x40, 0x00,
];

const OTHER: [u8; 16] = [
    0x12, 0x3e, 0x45, 0x67, 0xe8, 0x9b, 0x12, 0xd3, 0xa4, 0x56, 0x42, 0x66, 0x14, 0x17, 0x40, 0x01,
];

fn by_path() -> Resolver {
    let (resolver, first) =
        Resolver::begin(DiskId::Path("/dev/sda1".to_string()), "/mnt/x".to_string());
    assert_eq!(first.lines, vec!["redoxfs: opening /dev/sda1".to_string()]);
    assert_eq!(first.send, None);
    assert_eq!(first.action, Action::Probe("/dev/sda1".to_string()));
    resolver
}

fn by_uuid(found: &[&str]) -> (Resolver, redoxfs_mount::resolver::Step) {
    let (resolver, first) = Resolver::begin(DiskId::Uuid(WANTED), "/mnt/x".to_string());
    assert!(first.lines.is_empty());
    assert_eq!(first.send, None);
    assert_eq!(first.action, Action::Enumerate);
    assert_eq!(resolver.phase(), Phase::Enumerating);
    resolver.step(Event::Enumerated(found.iter().map(|path| path.to_string()).collect()))
}

#[test]
fn outcome_bytes() {
    assert_eq!(MOUNTED, 0);
    assert_eq!(EXHAUSTED, 1);
}

#[test]
fn identifiers_compare_byte_by_byte() {
    assert!(same_id(&WANTED, &WANTED));
    assert!(!same_id(&WANTED, &OTHER));
    let mut first = WANTED;
    first[0] ^= 0x80;
    assert!(!same_id(&first, &WANTED));
}

#[test]
fn path_mounts_and_serves() {
    let resolver = by_path();
    assert_eq!(resolver.phase(), Phase::Probing);
    let (resolver, step) = resolver.step(Event::Opened(OTHER));
    assert_eq!(
        step.lines,
        vec![
            "redoxfs: opened filesystem on /dev/sda1 with uuid 123e4567-e89b-12d3-a456-426614174001"
                .to_string()
        ]
    );
    assert_eq!(step.send, None);
    assert_eq!(step.action, Action::Mount("/dev/sda1".to_string()));
    assert_eq!(resolver.phase(), Phase::Mounting);
    let (resolver, step) = resolver.step(Event::Ready);
    assert_eq!(step.lines, vec!["redoxfs: mounted filesystem on /dev/sda1 to /mnt/x".to_string()]);
    assert_eq!(step.send, Some(0));
    assert_eq!(step.action, Action::Wait);
    let (resolver, step) = resolver.step(Event::Unmounted);
    assert!(step.lines.is_empty());
    assert_eq!(step.send, None);
    assert_eq!(step.action, Action::Exit(0));
    assert_eq!(resolver.phase(), Phase::Finished(0));
}

#[test]
fn path_that_cannot_be_opened() {
    let (resolver, step) = by_path().step(Event::DiskFailed("No such file".to_string()));
    assert_eq!(
        step.lines,
        vec![
            "redoxfs: failed to open image /dev/sda1: No such file".to_string(),
            "redoxfs: not able to mount path /dev/sda1".to_string(),
        ]
    );
    assert_eq!(step.send, Some(1));
    assert_eq!(step.action, Action::Exit(1));
    assert_eq!(resolver.phase(), Phase::Finished(1));
}

#[test]
fn path_without_filesystem() {
    let (_, step) = by_path().step(Event::FilesystemFailed("bad signature".to_string()));
    assert_eq!(
        step.lines,
        vec![
            "redoxfs: failed to open filesystem /dev/sda1: bad signature".to_string(),
            "redoxfs: not able to mount path /dev/sda1".to_string(),
        ]
    );
    assert_eq!(step.send, Some(1));
    assert_eq!(step.action, Action::Exit(1));
}

#[test]
fn mount_refused_before_it_is_ready() {
    let (resolver, _) = by_path().step(Event::Opened(OTHER));
    let (resolver, step) = resolver.step(Event::MountFailed("busy".to_string()));
    assert_eq!(
        step.lines,
        vec![
            "redoxfs: failed to mount /dev/sda1 to /mnt/x: busy".to_string(),
            "redoxfs: not able to mount path /dev/sda1".to_string(),
        ]
    );
    assert_eq!(step.send, Some(1));
    assert_eq!(step.action, Action::Exit(1));
    assert_eq!(resolver.phase(), Phase::Finished(1));
}

#[test]
fn mount_lost_after_it_was_ready_sends_no_second_byte() {
    let (resolver, _) = by_path().step(Event::Opened(OTHER));
    let (resolver, step) = resolver.step(Event::Ready);
    assert_eq!(step.send, Some(0));
    let (resolver, step) = resolver.step(Event::MountFailed("io".to_string()));
    assert_eq!(step.send, None);
    assert_eq!(step.action, Action::Exit(1));
    assert_eq!(resolver.phase(), Phase::Finished(1));
}

#[test]
fn clean_return_without_readiness_still_sends_the_byte() {
    let (resolver, _) = by_path().step(Event::Opened(OTHER));
    let (_, step) = resolver.step(Event::Unmounted);
    assert_eq!(step.send, Some(0));
    assert_eq!(step.action, Action::Exit(0));
}

#[test]
fn every_readiness_is_logged_but_only_the_first_is_sent() {
    let (resolver, _) = by_path().step(Event::Opened(OTHER));
    let (resolver, first) = resolver.step(Event::Ready);
    let (_, second) = resolver.step(Event::Ready);
    assert_eq!(first.send, Some(0));
    assert_eq!(second.send, None);
    assert_eq!(second.lines, first.lines);
    assert_eq!(second.action, Action::Wait);
}

#[test]
fn uuid_with_nothing_found() {
    let (resolver, step) = by_uuid(&[]);
    assert_eq!(
        step.lines,
        vec!["redoxfs: not able to mount uuid 123e4567-e89b-12d3-a456-426614174000".to_string()]
    );
    assert_eq!(step.send, Some(1));
    assert_eq!(step.action, Action::Exit(1));
    assert_eq!(resolver.phase(), Phase::Finished(1));
}

#[test]
fn uuid_skips_what_does_not_match() {
    let (resolver, step) = by_uuid(&["disk:/0", "disk:/1"]);
    assert_eq!(step.lines, vec!["redoxfs: opening disk:/0".to_string()]);
    assert_eq!(step.action, Action::Probe("disk:/0".to_string()));
    let (resolver, step) = resolver.step(Event::Opened(OTHER));
    assert_eq!(
        step.lines,
        vec![
            "redoxfs: opened filesystem on disk:/0 with uuid 123e4567-e89b-12d3-a456-426614174001"
                .to_string(),
            "redoxfs: filesystem on disk:/0 does not match uuid 123e4567-e89b-12d3-a456-426614174000"
                .to_string(),
            "redoxfs: opening disk:/1".to_string(),
        ]
    );
    assert_eq!(step.send, None);
    assert_eq!(step.action, Action::Probe("disk:/1".to_string()));
    let (resolver, step) = resolver.step(Event::Opened(WANTED));
    assert_eq!(
        step.lines,
        vec![
            "redoxfs: opened filesystem on disk:/1 with uuid 123e4567-e89b-12d3-a456-426614174000"
                .to_string(),
            "redoxfs: filesystem on disk:/1 matches uuid 123e4567-e89b-12d3-a456-426614174000"
                .to_string(),
        ]
    );
    assert_eq!(step.action, Action::Mount("disk:/1".to_string()));
    let (_, step) = resolver.step(Event::Ready);
    assert_eq!(step.lines, vec!["redoxfs: mounted filesystem on disk:/1 to /mnt/x".to_string()]);
    assert_eq!(step.send, Some(0));
}

#[test]
fn events_that_answer_nothing_are_ignored() {
    let resolver = by_path();
    let (resolver, step) = resolver.step(Event::Ready);
    assert!(step.lines.is_empty());
    assert_eq!(step.send, None);
    assert_eq!(step.action, Action::Wait);
    assert_eq!(resolver.phase(), Phase::Probing);
    let (resolver, step) = resolver.step(Event::Enumerated(vec!["disk:/9".to_string()]));
    assert_eq!(step.action, Action::Wait);
    let (resolver, step) = resolver.step(Event::DiskFailed("gone".to_string()));
    assert_eq!(step.action, Action::Exit(1));
    let (resolver, step) = resolver.step(Event::Opened(WANTED));
    assert!(step.lines.is_empty());
    assert_eq!(step.send, None);
    assert_eq!(step.action, Action::Exit(1));
    assert_eq!(resolver.phase(), Phase::Finished(1));
}

#[test]
fn hyphenated_text_of_all_byte_values() {
    let id: [u8; 16] = [
        0x00, 0x01, 0x0a, 0x0f, 0x10, 0x7f, 0x80, 0x9a, 0xab, 0xbc, 0xcd, 0xde, 0xef, 0xf0, 0xfe,
        0xff,
    ];
    assert_eq!(
        redoxfs_mount::notes::unable_uuid(&id),
        "redoxfs: not able to mount uuid 00010a0f-107f-809a-abbc-cddeeff0feff"
    );
}
