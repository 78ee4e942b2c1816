use capyap_desktop::health::response_is_healthy;

#[test]
fn ok_status_lines_are_healthy() {
    assert!(response_is_healthy("HTTP/1.1 200 OK\r\nContent-Length: 2\r\n\r\nok"));
    assert!(response_is_healthy("HTTP/1.0 200 OK\r\n\r\n"));
}

#[test]
fn other_responses_are_unhealthy() {
    assert!(!response_is_healthy(""));
    assert!(!response_is_healthy("HTTP/1.1 404 Not Found\r\n\r\n"));
    assert!(!response_is_healthy("HTTP/1.1 500 Internal Server Error\r\n\r\n"));
    assert!(!response_is_healthy("HTTP/2 200\r\n\r\n"));
    assert!(!response_is_healthy("HTTP/1.1 20"));
    assert!(!response_is_healthy(" HTTP/1.1 200 OK"));
    assert!(!response_is_healthy("garbage"));
}
