use axum_api::password::{
    check_stored_password, hash_password_for_storage, insertion_was_applied, ColumnValue,
    StoredRecordError,
};

fn text(s: &str) -> Option<ColumnValue> {
    Some(ColumnValue::Text(s.to_string()))
}

#[test]
fn stored_record_accepts_its_password_only() {
    let record = hash_password_for_storage("P_ass1Wo$rD").ok().unwrap();
    assert!(record.hash.starts_with("$2a$13$"));
    assert_eq!(record.hash.len(), 60);
    assert_eq!(record.salt.len(), 22);
    assert_eq!(&record.hash[7..29], record.salt);
    let row = Some(vec![text(&record.hash), text(&record.salt)]);
    assert_eq!(check_stored_password(&row, "P_ass1Wo$rD"), Ok(true));
    assert_eq!(check_stored_password(&row, "P_ass1Wo$rd"), Ok(false));
}

#[test]
fn stored_hash_matches_bcrypt_for_the_same_salt() {
    let salt: [u8; 16] = *b"0123456789abcdef";
    let expected = bcrypt::hash_with_salt("hunter2", 13, salt)
        .unwrap()
        .format_for_version(bcrypt::Version::TwoA);
    let salt_text = expected[7..29].to_string();
    let row = Some(vec![text(&expected), None, text(&salt_text)]);
    assert_eq!(check_stored_password(&row, "hunter2"), Ok(true));
    let row = Some(vec![text(&expected), text(&salt_text)]);
    assert_eq!(check_stored_password(&row, "hunter3"), Ok(false));
}

#[test]
fn missing_row_is_refused() {
    assert_eq!(check_stored_password(&None, "pw"), Ok(false));
}

#[test]
fn row_of_other_than_two_values_is_refused() {
    assert_eq!(check_stored_password(&Some(vec![]), "pw"), Ok(false));
    assert_eq!(check_stored_password(&Some(vec![text("a")]), "pw"), Ok(false));
    assert_eq!(check_stored_password(&Some(vec![None, text("a"), None]), "pw"), Ok(false));
    assert_eq!(check_stored_password(&Some(vec![text("a"), text("b"), text("c")]), "pw"), Ok(false));
}

#[test]
fn malformed_records_are_errors() {
    let row = Some(vec![Some(ColumnValue::Other), text("abc")]);
    assert_eq!(check_stored_password(&row, "pw"), Err(StoredRecordError::HashNotText));
    let row = Some(vec![text("abc"), Some(ColumnValue::Other)]);
    assert_eq!(check_stored_password(&row, "pw"), Err(StoredRecordError::SaltNotText));
    let row = Some(vec![text("abc"), text("!!not base64!!")]);
    assert_eq!(check_stored_password(&row, "pw"), Err(StoredRecordError::SaltNotBase64));
    // four characters of bcrypt's base64 decode to three bytes
    let row = Some(vec![text("abc"), text("abcd")]);
    assert_eq!(check_stored_password(&row, "pw"), Err(StoredRecordError::SaltWrongLength(3)));
}

#[test]
fn conditional_insert_reply_is_read() {
    assert!(insertion_was_applied(&Some(vec![Some(ColumnValue::Boolean(true))])));
    assert!(!insertion_was_applied(&Some(vec![Some(ColumnValue::Boolean(false)), text("a@b.c")])));
    assert!(!insertion_was_applied(&Some(vec![])));
    assert!(!insertion_was_applied(&Some(vec![None])));
    assert!(!insertion_was_applied(&Some(vec![text("true")])));
    assert!(!insertion_was_applied(&None));
}
