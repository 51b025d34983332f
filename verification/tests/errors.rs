use librime_api::error::RimeError;

#[test]
fn missing_data_dir_message() {
    assert_eq!(RimeError::MissingDataDir.message(), "Missing Data Directory");
}

#[test]
fn unrepresentable_text_message() {
    assert_eq!(RimeError::UnrepresentableText.message(), "Text Holds A NUL Byte");
}

#[test]
fn errors_compare_by_variant() {
    assert_eq!(RimeError::MissingDataDir, RimeError::MissingDataDir);
    assert_ne!(RimeError::MissingDataDir, RimeError::UnrepresentableText);
}
