use redoxfs_mount::fsid::has_hyphenated_shape;
use redoxfs_mount::selector::{parse_args, selector_by_uuid, DiskId, Invocation, UsageError};

fn args(tokens: &[&str]) -> Vec<String> {
    tokens.iter().map(|token| token.to_string()).collect()
}

const SAMPLE: [u8; 16] = [
    0x12, 0x3e, 0x45, 0x67, 0xe8, 0x9b, 0x12, 0xd3, 0xa4, 0x56, 0x42, 0x66, 0x14, 0x17, 0x40, 0x00,
];

#[test]
fn path_and_mountpoint() {
    let parsed = parse_args(&args(&["/dev/sda1", "/mnt/x"]));
    assert_eq!(
        parsed,
        Ok(Invocation { disk: DiskId::Path("/dev/sda1".to_string()), mountpoint: "/mnt/x".to_string() })
    );
}

#[test]
fn uuid_and_mountpoint() {
    let parsed = parse_args(&args(&["--uuid", "123e4567-e89b-12d3-a456-426614174000", "/mnt/x"]));
    assert_eq!(
        parsed,
        Ok(Invocation { disk: DiskId::Uuid(SAMPLE), mountpoint: "/mnt/x".to_string() })
    );
}

const NOT_HYPHENATED: &str = "Invalid form; expecting 36 chars in hyphenated groups of 8-4-4-4-12";

#[test]
fn uuid_without_hyphens_and_in_upper_case() {
    let parsed = parse_args(&args(&["--uuid", "123E4567E89B12D3A456426614174000", "/mnt/x"]));
    assert_eq!(
        parsed,
        Err(UsageError::InvalidUuid {
            given: "123E4567E89B12D3A456426614174000".to_string(),
            why: NOT_HYPHENATED.to_string(),
        })
    );
}

#[test]
fn uuid_without_hyphens_is_turned_down() {
    let fault =
        parse_args(&args(&["--uuid", "123e4567e89b12d3a456426614174000", "/mnt/x"])).unwrap_err();
    assert_eq!(
        fault.report(),
        vec![
            format!("redoxfs: invalid uuid '123e4567e89b12d3a456426614174000': {}", NOT_HYPHENATED),
            "redoxfs [--uuid] [disk or uuid] [mountpoint]".to_string(),
        ]
    );
}

#[test]
fn uuid_as_urn() {
    let parsed =
        parse_args(&args(&["--uuid", "urn:uuid:123e4567-e89b-12d3-a456-426614174000", "/mnt/x"]));
    assert_eq!(
        parsed,
        Err(UsageError::InvalidUuid {
            given: "urn:uuid:123e4567-e89b-12d3-a456-426614174000".to_string(),
            why: NOT_HYPHENATED.to_string(),
        })
    );
}

#[test]
fn hyphenated_uuid_in_upper_case() {
    let parsed = parse_args(&args(&["--uuid", "123E4567-E89B-12D3-A456-426614174000", "/mnt/x"]));
    assert_eq!(
        parsed,
        Ok(Invocation { disk: DiskId::Uuid(SAMPLE), mountpoint: "/mnt/x".to_string() })
    );
}

#[test]
fn misplaced_hyphens_keep_the_reason_of_the_reader() {
    let fault =
        parse_args(&args(&["--uuid", "123e456-7e89b-12d3-a456-426614174000", "/mnt/x"])).unwrap_err();
    assert_eq!(
        fault,
        UsageError::InvalidUuid {
            given: "123e456-7e89b-12d3-a456-426614174000".to_string(),
            why: "Malformed; length of group 0 was 7, expecting 8".to_string(),
        }
    );
}

#[test]
fn malformed_uuid_is_turned_down() {
    let parsed = parse_args(&args(&["--uuid", "not-a-uuid", "/mnt/x"]));
    let fault = parsed.unwrap_err();
    assert_eq!(
        fault,
        UsageError::InvalidUuid {
            given: "not-a-uuid".to_string(),
            why: "Invalid length; expecting 32 or 36 chars, found 10".to_string(),
        }
    );
    assert_eq!(
        fault.message(),
        "redoxfs: invalid uuid 'not-a-uuid': Invalid length; expecting 32 or 36 chars, found 10"
    );
}

#[test]
fn malformed_uuid_wins_over_missing_mountpoint() {
    let parsed = parse_args(&args(&["--uuid", "123e4567-e89b-12d3-a456-42661417400g"]));
    assert!(matches!(parsed, Err(UsageError::InvalidUuid { .. })));
}

#[test]
fn no_arguments() {
    let fault = parse_args(&args(&[])).unwrap_err();
    assert_eq!(fault, UsageError::NoDisk);
    assert_eq!(
        fault.report(),
        vec![
            "redoxfs: no disk provided".to_string(),
            "redoxfs [--uuid] [disk or uuid] [mountpoint]".to_string(),
        ]
    );
}

#[test]
fn uuid_flag_alone() {
    let fault = parse_args(&args(&["--uuid"])).unwrap_err();
    assert_eq!(fault, UsageError::NoUuid);
    assert_eq!(fault.message(), "redoxfs: no uuid provided");
}

#[test]
fn path_without_mountpoint() {
    let fault = parse_args(&args(&["/dev/sda1"])).unwrap_err();
    assert_eq!(fault, UsageError::NoMountpoint);
    assert_eq!(fault.message(), "redoxfs: no mountpoint provided");
}

#[test]
fn uuid_without_mountpoint() {
    let parsed = parse_args(&args(&["--uuid", "123e4567-e89b-12d3-a456-426614174000"]));
    assert_eq!(parsed, Err(UsageError::NoMountpoint));
}

#[test]
fn trailing_arguments_are_not_looked_at() {
    let parsed = parse_args(&args(&["disk.img", "/mnt/x", "--uuid", "whatever"]));
    assert_eq!(
        parsed,
        Ok(Invocation { disk: DiskId::Path("disk.img".to_string()), mountpoint: "/mnt/x".to_string() })
    );
}

#[test]
fn a_flag_like_path_is_a_path() {
    let parsed = parse_args(&args(&["--UUID", "/mnt/x"]));
    assert_eq!(
        parsed,
        Ok(Invocation { disk: DiskId::Path("--UUID".to_string()), mountpoint: "/mnt/x".to_string() })
    );
}

#[test]
fn selector_from_a_read_identifier() {
    assert_eq!(
        selector_by_uuid("123e4567-e89b-12d3-a456-426614174000", Ok(SAMPLE)),
        Ok(DiskId::Uuid(SAMPLE))
    );
    assert_eq!(
        selector_by_uuid("123e4567e89b12d3a456426614174000", Ok(SAMPLE)),
        Err(UsageError::InvalidUuid {
            given: "123e4567e89b12d3a456426614174000".to_string(),
            why: NOT_HYPHENATED.to_string(),
        })
    );
    assert_eq!(
        selector_by_uuid("x", Err("bad".to_string())),
        Err(UsageError::InvalidUuid { given: "x".to_string(), why: "bad".to_string() })
    );
}

#[test]
fn hyphenated_outline() {
    assert!(has_hyphenated_shape("123e4567-e89b-12d3-a456-426614174000"));
    assert!(has_hyphenated_shape("zzzzzzzz-zzzz-zzzz-zzzz-zzzzzzzzzzzz"));
    assert!(!has_hyphenated_shape("123e4567e89b12d3a456426614174000"));
    assert!(!has_hyphenated_shape("123e4567-e89b-12d3-a456-42661417400"));
    assert!(!has_hyphenated_shape("123e4567-e89b-12d3-a456-4266141740000"));
    assert!(!has_hyphenated_shape("123e4567-e89b-12d3-a456_426614174000"));
    assert!(!has_hyphenated_shape("123e4567_e89b-12d3-a456-426614174000"));
    assert!(!has_hyphenated_shape(""));
}
