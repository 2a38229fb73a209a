use cuda_provisioner::status::HttpStatus;

#[test]
fn status_exists_from_100_to_999() {
    assert!(HttpStatus::new(0).is_none());
    assert!(HttpStatus::new(99).is_none());
    assert!(HttpStatus::new(100).is_some());
    assert!(HttpStatus::new(999).is_some());
    assert!(HttpStatus::new(1000).is_none());
    assert!(HttpStatus::new(u16::MAX).is_none());
}

#[test]
fn status_keeps_its_number() {
    assert_eq!(HttpStatus::new(100).unwrap().code(), 100);
    assert_eq!(HttpStatus::new(404).unwrap().code(), 404);
    assert_eq!(HttpStatus::new(999).unwrap().code(), 999);
}

#[test]
fn success_is_200_to_299() {
    assert!(!HttpStatus::new(100).unwrap().is_success());
    assert!(!HttpStatus::new(199).unwrap().is_success());
    assert!(HttpStatus::new(200).unwrap().is_success());
    assert!(HttpStatus::new(204).unwrap().is_success());
    assert!(HttpStatus::new(299).unwrap().is_success());
    assert!(!HttpStatus::new(300).unwrap().is_success());
    assert!(!HttpStatus::new(404).unwrap().is_success());
    assert!(!HttpStatus::new(500).unwrap().is_success());
    assert!(!HttpStatus::new(999).unwrap().is_success());
}

#[test]
fn success_agrees_with_reqwest_on_every_status() {
    for code in 100..=999u16 {
        let status = HttpStatus::new(code).unwrap();
        let theirs = reqwest::StatusCode::from_u16(code).unwrap();
        assert_eq!(status.is_success(), theirs.is_success());
        assert_eq!(status.is_success(), (200..300).contains(&code));
        assert_eq!(status.code(), theirs.as_u16());
    }
}

#[test]
fn status_prints_number_and_reason() {
    assert_eq!(HttpStatus::new(200).unwrap().describe(), "200 OK");
    assert_eq!(HttpStatus::new(404).unwrap().describe(), "404 Not Found");
    assert_eq!(HttpStatus::new(403).unwrap().describe(), "403 Forbidden");
    assert_eq!(HttpStatus::new(500).unwrap().describe(), "500 Internal Server Error");
    assert_eq!(HttpStatus::new(503).unwrap().describe(), "503 Service Unavailable");
}

#[test]
fn unregistered_status_prints_without_reason() {
    assert_eq!(HttpStatus::new(999).unwrap().describe(), "999 <unknown status code>");
    assert_eq!(HttpStatus::new(299).unwrap().describe(), "299 <unknown status code>");
}

#[test]
fn equal_numbers_make_equal_statuses() {
    assert_eq!(HttpStatus::new(404), HttpStatus::new(404));
    assert_ne!(HttpStatus::new(404), HttpStatus::new(405));
}
