use iflypen_api_rs::transport::{request_headers, JSON_CONTENT_TYPE, OCTET_STREAM_CONTENT_TYPE};

fn pairs(h: &[(String, String)]) -> Vec<(&str, &str)> {
    h.iter().map(|(k, v)| (k.as_str(), v.as_str())).collect()
}

#[test]
fn authenticated_request_has_four_headers() {
    let h = request_headers(JSON_CONTENT_TYPE, Some("sess-1"));
    assert_eq!(
        pairs(&h),
        vec![
            ("Accept", "application/json, text/plain, */*"),
            ("Content-Type", "application/json"),
            ("X-Biz-Id", "tjzs"),
            ("X-Session-Id", "sess-1"),
        ]
    );
}

#[test]
fn registration_request_has_no_session_header() {
    let h = request_headers(OCTET_STREAM_CONTENT_TYPE, None);
    assert_eq!(
        pairs(&h),
        vec![
            ("Accept", "application/json, text/plain, */*"),
            ("Content-Type", "application/octet-stream"),
            ("X-Biz-Id", "tjzs"),
        ]
    );
}
