use fappa::id_map::{find_first_entry, helper_result, plan_id_maps, IdMapError, MIN_RANGE};

#[test]
fn first_matching_entry_wins() {
    let content = "root:1:999\nfaux:100000:65536\nfaux:7:7\n";
    assert_eq!(find_first_entry(content, "faux"), Ok(Some((100000, 65536))));
    assert_eq!(find_first_entry(content, "root"), Ok(Some((1, 999))));
    assert_eq!(find_first_entry(content, "nobody"), Ok(None));
}

#[test]
fn blank_lines_skipped() {
    let content = "\n\nfaux:5:6\n";
    assert_eq!(find_first_entry(content, "faux"), Ok(Some((5, 6))));
    assert_eq!(find_first_entry("", "faux"), Ok(None));
}

#[test]
fn malformed_entry_rejected() {
    assert_eq!(find_first_entry("faux:100000", "faux"), Err(IdMapError::BadLine));
    assert_eq!(find_first_entry("faux:x:65536", "faux"), Err(IdMapError::BadLine));
    // a malformed line that does not match the name is passed over
    assert_eq!(find_first_entry("other:x\nfaux:1:2\n", "faux"), Ok(Some((1, 2))));
}

#[test]
fn missing_subuid_entry() {
    let plan = plan_id_maps("faux", "root:1:65536\n", "faux:200000:65536\n", 10, 1000, 1000);
    assert_eq!(plan.unwrap_err(), IdMapError::MissingEntry { gid: false });
    let plan = plan_id_maps("faux", "faux:100000:65536\n", "", 10, 1000, 1000);
    assert_eq!(plan.unwrap_err(), IdMapError::MissingEntry { gid: true });
}

#[test]
fn short_subordinate_range() {
    assert_eq!(MIN_RANGE, 65536);
    let plan = plan_id_maps(
        "faux",
        "faux:100000:65535\n",
        "faux:200000:65536\n",
        10,
        1000,
        1000,
    );
    assert_eq!(plan.unwrap_err(), IdMapError::RangeTooShort { gid: false });
    let plan = plan_id_maps(
        "faux",
        "faux:100000:65536\n",
        "faux:200000:1000\n",
        10,
        1000,
        1000,
    );
    assert_eq!(plan.unwrap_err(), IdMapError::RangeTooShort { gid: true });
}

#[test]
fn helper_arguments() {
    let plan = plan_id_maps(
        "faux",
        "faux:100000:65536\n",
        "faux:200000:65536\n",
        1234,
        1000,
        1001,
    )
    .unwrap();
    assert_eq!(
        plan.uid_args,
        vec!["1234", "0", "1000", "1", "1", "100000", "65535"]
    );
    assert_eq!(
        plan.gid_args,
        vec!["1234", "0", "1001", "1", "1", "200000", "65535"]
    );
}

#[test]
fn helper_exit_status() {
    assert!(helper_result(0).is_ok());
    assert_eq!(helper_result(1).unwrap_err(), IdMapError::HelperFailed { status: 1 });
}
