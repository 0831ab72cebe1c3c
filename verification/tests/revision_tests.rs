use sirix_shell::{build_revision_arg, RevisionArg, RevisionType, SingleRevision, TwoRevisions};

#[test]
fn no_spec_means_no_argument() {
    assert_eq!(build_revision_arg(None), None);
}

#[test]
fn lone_number_becomes_single_point() {
    let r = build_revision_arg(Some(RevisionType::Revision { number: 3, end_number: None }));
    assert_eq!(r, Some(RevisionArg::SingleRevision(SingleRevision::Number(3))));
}

#[test]
fn number_with_end_becomes_range() {
    let r = build_revision_arg(Some(RevisionType::Revision { number: 3, end_number: Some(5) }));
    assert_eq!(r, Some(RevisionArg::TwoRevisions(TwoRevisions::Number(3, 5))));
}

#[test]
fn backwards_range_is_kept_as_given() {
    let r = build_revision_arg(Some(RevisionType::Revision { number: 9, end_number: Some(2) }));
    assert_eq!(r, Some(RevisionArg::TwoRevisions(TwoRevisions::Number(9, 2))));
}

#[test]
fn lone_timestamp_becomes_single_point() {
    let r = build_revision_arg(Some(RevisionType::Timestamp {
        timestamp: "2024-01-01T00:00:00".to_string(),
        end_timestamp: None,
    }));
    assert_eq!(
        r,
        Some(RevisionArg::SingleRevision(SingleRevision::Timestamp(
            "2024-01-01T00:00:00".to_string()
        )))
    );
}

#[test]
fn timestamp_with_end_becomes_range() {
    let r = build_revision_arg(Some(RevisionType::Timestamp {
        timestamp: "2024-01-01T00:00:00".to_string(),
        end_timestamp: Some("2024-02-01T00:00:00".to_string()),
    }));
    assert_eq!(
        r,
        Some(RevisionArg::TwoRevisions(TwoRevisions::Timestamp(
            "2024-01-01T00:00:00".to_string(),
            "2024-02-01T00:00:00".to_string()
        )))
    );
}
