use fancy_mumble::identity::identity_name;

#[test]
fn identity_file_names() {
    assert_eq!(identity_name(b"cert_alice.pem"), Some(b"alice".to_vec()));
    assert_eq!(identity_name(b"cert_.pem"), Some(Vec::new()));
    assert_eq!(identity_name(b"cert_cert_bob.pem.pem"), Some(b"cert_bob.pem".to_vec()));
    assert_eq!(identity_name(b"cert.pem"), None);
    assert_eq!(identity_name(b"key_alice.pem"), None);
    assert_eq!(identity_name(b"cert_alice.txt"), None);
    assert_eq!(identity_name(b"cert_"), None);
    assert_eq!(identity_name(b""), None);
}
