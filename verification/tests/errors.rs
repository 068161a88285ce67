use pact_consumer_nif::error::{ErrorKind, PactError};

#[test]
fn an_error_carries_its_kind_and_its_detail() {
    let error = PactError::new(ErrorKind::LockContention, "invalid_pact_builder_reference".to_string());
    assert_eq!(error.kind(), ErrorKind::LockContention);
    assert_eq!(error.kind, ErrorKind::LockContention);
    assert_eq!(error.detail, "invalid_pact_builder_reference");
    assert_ne!(error.kind(), ErrorKind::ChannelClosed);
}
