use auth_core::hash_password;
use auth_core::verify_password_hash;

#[test]
fn verify_accepts_the_hashed_password() {
    let hash = match hash_password("correct horse battery staple") {
        Ok(h) => h,
        Err(_) => panic!("hashing failed"),
    };
    assert_eq!(
        verify_password_hash("correct horse battery staple", &hash).unwrap_or(false),
        true
    );
}

#[test]
fn verify_rejects_any_other_password() {
    let hash = match hash_password("correct horse battery staple") {
        Ok(h) => h,
        Err(_) => panic!("hashing failed"),
    };
    assert_eq!(
        verify_password_hash("correct horse battery stable", &hash).unwrap_or(true),
        false
    );
    assert_eq!(verify_password_hash("", &hash).unwrap_or(true), false);
}

#[test]
fn two_hashes_of_one_password_differ_but_both_verify() {
    let h1 = match hash_password("hunter22") {
        Ok(h) => h,
        Err(_) => panic!("hashing failed"),
    };
    let h2 = match hash_password("hunter22") {
        Ok(h) => h,
        Err(_) => panic!("hashing failed"),
    };
    // a fresh random salt every time
    assert_ne!(h1, h2);
    assert!(verify_password_hash("hunter22", &h1).unwrap_or(false));
    assert!(verify_password_hash("hunter22", &h2).unwrap_or(false));
}

#[test]
fn malformed_hash_is_an_internal_error_not_a_mismatch() {
    let r = verify_password_hash("anything", "not-a-phc-string");
    match r {
        Ok(_) => panic!("a malformed hash must not verify"),
        Err(e) => {
            assert_eq!(e.status_code, 500);
            assert_eq!(e.message, "Invalid password hash");
        }
    }
}
