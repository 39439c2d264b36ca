use goiam::status::{status_is_success, status_line_text, status_text_of};

#[test]
fn success_is_200_to_299() {
    for status in 0..=u16::MAX {
        assert_eq!(status_is_success(status), (200..300).contains(&status));
    }
}

#[test]
fn the_edges_of_success() {
    assert!(!status_is_success(199));
    assert!(status_is_success(200));
    assert!(status_is_success(299));
    assert!(!status_is_success(300));
}

#[test]
fn status_line_joins_number_and_phrase() {
    assert_eq!(status_line_text(200, Some("OK")), "200 OK");
    assert_eq!(status_line_text(404, Some("Not Found")), "404 Not Found");
    assert_eq!(status_line_text(7, Some("")), "7 ");
}

#[test]
fn status_line_without_phrase_has_the_placeholder() {
    assert_eq!(status_line_text(299, None), "299 <unknown status code>");
    assert_eq!(status_line_text(0, None), "0 <unknown status code>");
}

#[test]
fn status_text_has_the_standard_phrase() {
    assert_eq!(status_text_of(200), "200 OK");
    assert_eq!(status_text_of(401), "401 Unauthorized");
    assert_eq!(status_text_of(418), "418 I'm a teapot");
    assert_eq!(status_text_of(503), "503 Service Unavailable");
    assert_ne!(status_text_of(401), "401 401");
}

#[test]
fn status_text_of_a_code_without_phrase() {
    assert_eq!(status_text_of(299), "299 <unknown status code>");
    assert_eq!(status_text_of(999), "999 <unknown status code>");
}

#[test]
fn status_text_of_a_number_that_is_no_code() {
    assert_eq!(status_text_of(99), "99 <unknown status code>");
    assert_eq!(status_text_of(1000), "1000 <unknown status code>");
    assert_eq!(status_text_of(65535), "65535 <unknown status code>");
}

#[test]
fn status_text_is_how_the_transport_writes_a_code() {
    for status in 100..=999u16 {
        let code = reqwest::StatusCode::from_u16(status).expect("a status code");
        assert_eq!(status_text_of(status), code.to_string());
    }
}
