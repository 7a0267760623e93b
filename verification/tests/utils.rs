use leaves::api::utils::random_string;

#[test]
fn test_random_string() {
    for x in 0..10 {
        assert_eq!(x, random_string(x).len());
    }
}

#[test]
fn random_string_is_alphanumeric() {
    let s = random_string(50);
    assert_eq!(s.chars().count(), 50);
    assert!(s.chars().all(|c| c.is_ascii_alphanumeric()));
}
