use rurl::callback::{HttpHeaders, SimpleCurlByteBuffer};
use rurl::handle::{easy_strerror, CURLE_COULDNT_CONNECT, CURLE_COULDNT_RESOLVE_HOST, CURLE_OK};
use rurl::headers::{parse_header_line, HeaderMap};
use rurl::http_client::{complete_transfer, header_lines, HttpClient};
use rurl::examples::{json_request, plain_request, render_body, render_listing, EXAMPLE_URL};
use rurl::handle::{finish_fetch, Curl};
use rurl::request::Request;
use rurl::response::Response;

#[test]
fn test_basic_client() {
    let mut client = HttpClient::new();

    let url = "http://api.4chan.org/pol/threads.json";
    let mut headers = HeaderMap::new();
    headers.insert("Accept".to_string(), "application/json".to_string());

    let req = Request::new(url.to_string(), HeaderMap::new(), vec![]);

    let resp_res = client.exec(&req);

    match resp_res {
        Ok(response) => {
            assert!(!response.headers.is_empty());
            assert!(!response.body.is_empty());
        }
        // The request needs the host to be reachable: where no network is
        // to be had, the engine can only report that.
        Err(msg)
            if msg == easy_strerror(CURLE_COULDNT_RESOLVE_HOST)
                || msg == easy_strerror(CURLE_COULDNT_CONNECT) => {}
        Err(msg) => {
            panic!("Error{}", msg);
        }
    };
}

#[test]
fn parse_splits_name_and_value() {
    assert_eq!(
        parse_header_line(b"Name: Value\r\n"),
        Some(("Name".to_string(), "Value".to_string()))
    );
    assert_eq!(
        parse_header_line(b"Content-Type: text/html; charset=UTF-8\r\n"),
        Some(("Content-Type".to_string(), "text/html; charset=UTF-8".to_string()))
    );
}

#[test]
fn parse_keeps_the_case_of_the_name() {
    assert_eq!(
        parse_header_line(b"x-CUSTOM: a:b\n"),
        Some(("x-CUSTOM".to_string(), "a:b".to_string()))
    );
}

#[test]
fn parse_skips_lines_without_colon() {
    assert_eq!(parse_header_line(b"HTTP/1.1 200 OK\r\n"), None);
    assert_eq!(parse_header_line(b"\r\n"), None);
    assert_eq!(parse_header_line(b""), None);
}

#[test]
fn parse_gives_empty_value_for_short_lines() {
    assert_eq!(parse_header_line(b"X:"), Some(("X".to_string(), String::new())));
    assert_eq!(parse_header_line(b"X:\r\n"), Some(("X".to_string(), String::new())));
    assert_eq!(parse_header_line(b":"), Some((String::new(), String::new())));
}

#[test]
fn header_map_last_write_wins() {
    let mut m = HeaderMap::new();
    assert!(m.is_empty());
    m.insert("A".to_string(), "1".to_string());
    m.insert("B".to_string(), "2".to_string());
    m.insert("A".to_string(), "3".to_string());
    assert_eq!(m.len(), 2);
    assert_eq!(m.get(&"A".to_string()), Some("3".to_string()));
    assert_eq!(m.get(&"B".to_string()), Some("2".to_string()));
    assert_eq!(m.get(&"a".to_string()), None);
    assert!(m.contains_key(&"B".to_string()));
}

#[test]
fn header_sink_stores_lines_and_acknowledges_them() {
    let mut h = HttpHeaders::new();
    assert_eq!(h.write(b"HTTP/1.1 200 OK\r\n"), 17);
    assert_eq!(h.write(b"Server: test\r\n"), 14);
    assert_eq!(h.write(b"Server: again\r\n"), 15);
    assert_eq!(h.map.len(), 1);
    assert_eq!(h.map.get(&"Server".to_string()), Some("again".to_string()));
    assert!(h.accept(b"Age: 3\r\n"));
    assert_eq!(h.map.get(&"Age".to_string()), Some("3".to_string()));
}

#[test]
fn header_sink_leaves_out_set_cookie() {
    let mut h = HttpHeaders::new();
    assert_eq!(h.write(b"Set-Cookie: x\r\n"), 15);
    assert_eq!(h.write(b"Set-Cookie: id=1; Path=/\r\n"), 26);
    assert!(!h.map.contains_key(&"Set-Cookie".to_string()));
    assert!(h.map.is_empty());
    h.write(b"set-cookie: y\r\n");
    assert!(h.map.contains_key(&"set-cookie".to_string()));
}

#[test]
fn body_sink_appends_chunks() {
    let mut b = SimpleCurlByteBuffer::new();
    assert_eq!(b.write(b"abc"), 3);
    assert_eq!(b.write(b""), 0);
    assert_eq!(b.write(b"de"), 2);
    assert_eq!(b.data, b"abcde".to_vec());
}

#[test]
fn request_headers_become_wire_lines() {
    let mut headers = HeaderMap::new();
    headers.insert("Accept".to_string(), "application/json".to_string());
    headers.insert("X-Id".to_string(), "7".to_string());
    let lines = header_lines(&headers);
    assert_eq!(lines.len(), 2);
    assert!(lines.contains(&"Accept: application/json".to_string()));
    assert!(lines.contains(&"X-Id: 7".to_string()));
}

#[test]
fn complete_transfer_maps_the_code() {
    let mut h = HeaderMap::new();
    h.insert("A".to_string(), "1".to_string());
    let ok = complete_transfer(CURLE_OK, h, vec![1, 2]).unwrap();
    assert_eq!(ok.body, vec![1, 2]);
    assert_eq!(ok.headers.get(&"A".to_string()), Some("1".to_string()));

    match complete_transfer(7, HeaderMap::new(), vec![1]) {
        Ok(_) => panic!("a failed transfer gave a response"),
        Err(msg) => assert!(!msg.is_empty()),
    }
}

#[test]
fn exec_to_unreachable_host_fails_and_client_is_reusable() {
    let mut client = HttpClient::new();
    let mut headers = HeaderMap::new();
    headers.insert("Accept".to_string(), "application/json".to_string());
    let req = Request::new("http://127.0.0.1:1/".to_string(), headers, vec![]);
    match client.exec(&req) {
        Ok(_) => panic!("a closed port answered"),
        Err(msg) => assert!(!msg.is_empty()),
    }

    let req = Request::new("file:///etc/passwd".to_string(), HeaderMap::new(), vec![]);
    let resp = client.exec(&req).unwrap();
    assert!(!resp.body.is_empty());
    assert!(!resp.headers.is_empty());
}

#[test]
fn exec_twice_gives_headers_of_each_request_only() {
    let mut client = HttpClient::new();
    let first = client
        .exec(&Request::new("file:///etc/passwd".to_string(), HeaderMap::new(), vec![]))
        .unwrap();
    let second = client
        .exec(&Request::new("file:///etc/hostname".to_string(), HeaderMap::new(), vec![]))
        .unwrap();
    let len_key = "Content-Length".to_string();
    assert_eq!(
        first.headers.get(&len_key),
        Some(first.body.len().to_string())
    );
    assert_eq!(
        second.headers.get(&len_key),
        Some(second.body.len().to_string())
    );
}

#[test]
fn finish_fetch_maps_the_code() {
    let mut buf = SimpleCurlByteBuffer::new();
    buf.write(b"body");
    assert_eq!(finish_fetch(CURLE_OK, buf).unwrap(), b"body".to_vec());

    let mut buf = SimpleCurlByteBuffer::new();
    buf.write(b"partial");
    match finish_fetch(CURLE_COULDNT_CONNECT, buf) {
        Ok(_) => panic!("a failed transfer gave a body"),
        Err(msg) => assert_eq!(msg, easy_strerror(CURLE_COULDNT_CONNECT)),
    }
}

#[test]
fn fetch_on_a_session_reads_a_local_file() {
    let mut c = Curl::new();
    let data = c.fetch("file:///etc/passwd").unwrap();
    assert!(!data.is_empty());
    assert!(c.fetch("http://127.0.0.1:1/").is_err());
}

#[test]
fn duplicate_of_an_unconfigured_session_succeeds() {
    let c = Curl::new();
    assert!(c.duplicate().is_ok());
}

#[test]
fn example_requests_are_as_described() {
    let plain = plain_request();
    assert_eq!(plain.url, EXAMPLE_URL);
    assert!(plain.headers.is_empty());
    assert!(plain.body.is_empty());

    let json = json_request();
    assert_eq!(json.url, EXAMPLE_URL);
    assert_eq!(json.headers.len(), 1);
    assert_eq!(json.headers.get(&"Accept".to_string()), Some("application/json".to_string()));
    assert_eq!(header_lines(&json.headers), vec!["Accept: application/json".to_string()]);
}

#[test]
fn rendering_shows_headers_then_body() {
    let mut h = HeaderMap::new();
    h.insert("A".to_string(), "1".to_string());
    h.insert("B".to_string(), "2".to_string());
    let resp = Response::new(h, b"hello".to_vec());
    assert_eq!(render_listing(Ok(resp)).unwrap(), "A: 1\nB: 2\nhello");

    let resp = Response::new(HeaderMap::new(), b"hi".to_vec());
    assert_eq!(render_body(Ok(resp)).unwrap(), "hi");
    assert_eq!(render_body(Err("boom".to_string())), Err("boom".to_string()));
}
