use cuba_ims::error::AppError;
use cuba_ims::status::DocStatus;

#[test]
fn status_texts_round_trip() {
    for s in [DocStatus::Draft, DocStatus::Submitted, DocStatus::Completed, DocStatus::Voided] {
        assert_eq!(DocStatus::parse(s.as_str()), Ok(s));
    }
}

#[test]
fn unknown_status_text_is_refused() {
    assert_eq!(DocStatus::parse("draft"), Err(AppError::Validation("未知的单据状态: draft".to_string())));
    assert!(matches!(DocStatus::parse(""), Err(AppError::Validation(_))));
}

#[test]
fn only_draft_and_submitted_can_be_voided() {
    assert!(DocStatus::Draft.can_void());
    assert!(DocStatus::Submitted.can_void());
    assert!(!DocStatus::Completed.can_void());
    assert!(!DocStatus::Voided.can_void());
}
