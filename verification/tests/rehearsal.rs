use redoxfs_mount::script::{rehearse, Attempt, MountEnd, Report};
use redoxfs_mount::selector::DiskId;

const WANTED: [u8; 16] = [
    0x12, 0x3e, 0x45, 0x67, 0xe8, 0x9b, 0x12, 0xd3, 0xa4, 0x56, 0x42, 0x66, 0x14, 0x17, 0x40, 0x00,
];

fn other(tag: u8) -> [u8; 16] {
    let mut id = WANTED;
    id[15] = tag;
    id
}

fn path_run(script: Vec<Attempt>) -> Report {
    rehearse(DiskId::Path("/dev/sda1".to_string()), "/mnt/x".to_string(), Vec::new(), &script)
}

fn uuid_run(found: &[&str], script: Vec<Attempt>) -> Report {
    rehearse(
        DiskId::Uuid(WANTED),
        "/mnt/x".to_string(),
        found.iter().map(|path| path.to_string()).collect(),
        &script,
    )
}

#[test]
fn path_opens_and_mounts_cleanly() {
    let report = path_run(vec![Attempt::Opened(other(7), MountEnd::Unmounted)]);
    assert_eq!(
        report.lines,
        vec![
            "redoxfs: opening /dev/sda1".to_string(),
            "redoxfs: opened filesystem on /dev/sda1 with uuid 123e4567-e89b-12d3-a456-426614174007"
                .to_string(),
            "redoxfs: mounted filesystem on /dev/sda1 to /mnt/x".to_string(),
        ]
    );
    assert_eq!(report.sent, vec![0]);
    assert_eq!(report.mounted, vec!["/dev/sda1".to_string()]);
    assert_eq!(report.exit, Some(0));
}

#[test]
fn path_goes_on_serving() {
    let report = path_run(vec![Attempt::Opened(other(7), MountEnd::Serving)]);
    assert_eq!(report.sent, vec![0]);
    assert_eq!(report.mounted, vec!["/dev/sda1".to_string()]);
    assert_eq!(report.exit, None);
}

#[test]
fn path_fails_to_open() {
    let report = path_run(vec![Attempt::NoDisk("No such file or directory".to_string())]);
    assert_eq!(
        report.lines,
        vec![
            "redoxfs: opening /dev/sda1".to_string(),
            "redoxfs: failed to open image /dev/sda1: No such file or directory".to_string(),
            "redoxfs: not able to mount path /dev/sda1".to_string(),
        ]
    );
    assert_eq!(report.sent, vec![1]);
    assert!(report.mounted.is_empty());
    assert_eq!(report.exit, Some(1));
}

#[test]
fn path_ignores_what_a_scan_would_find() {
    let report = rehearse(
        DiskId::Path("/dev/sda1".to_string()),
        "/mnt/x".to_string(),
        vec!["disk:/0".to_string(), "disk:/1".to_string()],
        &vec![
            Attempt::NoFilesystem("bad".to_string()),
            Attempt::Opened(WANTED, MountEnd::Serving),
        ],
    );
    assert_eq!(report.sent, vec![1]);
    assert!(report.mounted.is_empty());
    assert_eq!(report.exit, Some(1));
    assert_eq!(report.lines.len(), 3);
}

#[test]
fn uuid_with_candidates_but_no_match() {
    let report = uuid_run(
        &["disk:/0", "disk:/1", "disk:/2"],
        vec![
            Attempt::Opened(other(1), MountEnd::Serving),
            Attempt::NoDisk("busy".to_string()),
            Attempt::Opened(other(2), MountEnd::Unmounted),
        ],
    );
    assert_eq!(report.sent, vec![1]);
    assert!(report.mounted.is_empty());
    assert_eq!(report.exit, Some(1));
    assert_eq!(
        report.lines.last().unwrap(),
        "redoxfs: not able to mount uuid 123e4567-e89b-12d3-a456-426614174000"
    );
}

#[test]
fn uuid_without_candidates() {
    let report = uuid_run(&[], Vec::new());
    assert_eq!(
        report.lines,
        vec!["redoxfs: not able to mount uuid 123e4567-e89b-12d3-a456-426614174000".to_string()]
    );
    assert_eq!(report.sent, vec![1]);
    assert!(report.mounted.is_empty());
    assert_eq!(report.exit, Some(1));
}

#[test]
fn uuid_mounts_the_one_match_wherever_it_stands() {
    let found = ["disk:/0", "disk:/1", "disk:/2"];
    for place in 0..3 {
        let script: Vec<Attempt> = (0..3)
            .map(|at| {
                if at == place {
                    Attempt::Opened(WANTED, MountEnd::Serving)
                } else {
                    Attempt::Opened(other(at as u8 + 1), MountEnd::Serving)
                }
            })
            .collect();
        let report = uuid_run(&found, script);
        assert_eq!(report.mounted, vec![found[place].to_string()]);
        assert_eq!(report.sent, vec![0]);
        assert_eq!(report.exit, None);
    }
}

#[test]
fn refused_mount_moves_on_to_the_next_match() {
    let report = uuid_run(
        &["disk:/0", "disk:/1"],
        vec![
            Attempt::Opened(WANTED, MountEnd::Refused("busy".to_string())),
            Attempt::Opened(WANTED, MountEnd::Unmounted),
        ],
    );
    assert_eq!(report.mounted, vec!["disk:/0".to_string(), "disk:/1".to_string()]);
    assert_eq!(report.sent, vec![0]);
    assert_eq!(report.exit, Some(0));
}

#[test]
fn lost_mount_never_leads_to_a_second_byte() {
    let report = uuid_run(
        &["disk:/0", "disk:/1", "disk:/2"],
        vec![
            Attempt::Opened(WANTED, MountEnd::Lost("io".to_string())),
            Attempt::Opened(WANTED, MountEnd::Lost("io".to_string())),
            Attempt::NoDisk("gone".to_string()),
        ],
    );
    assert_eq!(report.mounted, vec!["disk:/0".to_string(), "disk:/1".to_string()]);
    assert_eq!(report.sent, vec![0]);
    assert_eq!(report.exit, Some(1));
}

#[test]
fn a_script_that_ends_early_leaves_the_daemon_waiting() {
    let report = uuid_run(&["disk:/0", "disk:/1"], vec![Attempt::NoDisk("gone".to_string())]);
    assert!(report.sent.is_empty());
    assert_eq!(report.exit, None);
    assert_eq!(report.lines.last().unwrap(), "redoxfs: opening disk:/1");
}

#[test]
fn every_finished_run_sends_one_byte() {
    let ends = [
        MountEnd::Refused("r".to_string()),
        MountEnd::Unmounted,
        MountEnd::Lost("l".to_string()),
    ];
    for first in ends.iter() {
        for second in ends.iter() {
            let report = uuid_run(
                &["a", "b", "c"],
                vec![
                    Attempt::Opened(WANTED, first.clone()),
                    Attempt::NoFilesystem("none".to_string()),
                    Attempt::Opened(WANTED, second.clone()),
                ],
            );
            assert!(report.exit.is_some());
            assert_eq!(report.sent.len(), 1);
        }
    }
}
