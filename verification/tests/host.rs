use zebra_emu::host::{bind_address, permissive_cors, preview_file_name};

#[test]
fn cors_policy_is_permissive() {
    let policy = permissive_cors();
    assert!(policy.allow_any_origin);
    assert!(policy.allow_any_headers);
    assert_eq!(policy.method, "POST");
    assert_eq!(policy.max_age_secs, 3600);
}

#[test]
fn bind_address_joins_interface_and_port() {
    assert_eq!(bind_address("127.0.0.1", 8080), "127.0.0.1:8080");
}

#[test]
fn bind_address_smallest_port() {
    assert_eq!(bind_address("0.0.0.0", 0), "0.0.0.0:0");
}

#[test]
fn bind_address_largest_port() {
    assert_eq!(bind_address("localhost", 65535), "localhost:65535");
}

#[test]
fn preview_artifact_has_fixed_name() {
    assert_eq!(preview_file_name(), "zebra_label.png");
}
