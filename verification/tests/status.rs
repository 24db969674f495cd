use chain_extension::{DecodeError, ExtensionError, ProtocolViolation};

#[test]
fn status_zero_is_success() {
    assert_eq!(ExtensionError::from_status_code(0), Ok(()));
    assert_eq!(ExtensionError::try_from_status_code(0), Ok(Ok(())));
}

#[test]
fn status_one_is_a_failed_call() {
    assert_eq!(ExtensionError::from_status_code(1), Err(ExtensionError::CustomCallFailed));
    assert_eq!(
        ExtensionError::try_from_status_code(1),
        Ok(Err(ExtensionError::CustomCallFailed))
    );
}

#[test]
fn status_without_a_meaning_is_a_protocol_violation() {
    for code in [2u32, 3, 99, 256, u32::MAX] {
        assert_eq!(
            ExtensionError::try_from_status_code(code),
            Err(ProtocolViolation::UnknownStatusCode(code))
        );
    }
}

#[test]
fn status_code_is_the_inverse_of_translation() {
    assert_eq!(ExtensionError::CustomCallFailed.status_code(), Some(1));
    assert_eq!(ExtensionError::EncodingFailed.status_code(), None);
    let code = ExtensionError::CustomCallFailed.status_code().unwrap();
    assert_eq!(ExtensionError::from_status_code(code), Err(ExtensionError::CustomCallFailed));
}

#[test]
fn status_constants() {
    assert_eq!(chain_extension::status::STATUS_SUCCESS, 0);
    assert_eq!(chain_extension::status::STATUS_CUSTOM_CALL_FAILED, 1);
}

#[test]
fn decode_failure_becomes_encoding_failed() {
    assert_eq!(ExtensionError::from(DecodeError), ExtensionError::EncodingFailed);
    let refused = parity_scale_codec::Error::from("refused");
    assert_eq!(ExtensionError::from(refused), ExtensionError::EncodingFailed);
}

fn read(wire: &[u8]) -> Result<u32, ExtensionError> {
    let value = chain_extension::codec::decode_u32(wire)?;
    Ok(value)
}

#[test]
fn decode_failure_propagates_like_a_failed_call() {
    assert_eq!(read(&[1, 0, 0, 0]), Ok(1));
    assert_eq!(read(&[1, 0]), Err(ExtensionError::EncodingFailed));
}
