use rurl::callback::{HttpHeaders, SimpleCurlByteBuffer};
use rurl::handle::{
    easy_strerror, get, Curl, CURLE_BAD_FUNCTION_ARGUMENT, CURLE_COULDNT_CONNECT,
    CURLE_COULDNT_RESOLVE_HOST, CURLE_OK,
};
use rurl::opt::{expand_option, CURLoption, EasyCurlOption, OptValue, RawOption};

#[test]
fn test_init_clone() {
    let c1 = Curl::new();
    let c2 = c1.duplicate().unwrap();

    assert!(c1.session() != c2.session());
}

#[test]
fn test_easy_escape() {
    let mut c1 = Curl::new();

    let query = "lol and stuff";
    let escaped_query = c1.easy_escape(query);
    let unescaped_query = c1.easy_unescape(&escaped_query);

    assert!(escaped_query == "lol%20and%20stuff");
    assert!(unescaped_query == query);
}

#[test]
fn test_basic_functionality() {
    let mut curl = Curl::new();

    let mut buf = SimpleCurlByteBuffer::new();
    let mut headers = HttpHeaders::new();

    curl.easy_setopt(EasyCurlOption::URL("www.google.com".to_string()));
    curl.easy_setopt(EasyCurlOption::ShowHeaders(true));

    let err = curl.easy_perform(&mut buf, &mut headers);

    // The transfer needs the host to be reachable: where no network is to
    // be had, the engine can only report that.
    if host_unreachable(err) {
        return;
    }
    assert!(!buf.data.is_empty());
    assert!(err == CURLE_OK);
}

fn host_unreachable(code: u32) -> bool {
    code == CURLE_COULDNT_RESOLVE_HOST || code == CURLE_COULDNT_CONNECT
}

fn unreachable_message(msg: &str) -> bool {
    msg == easy_strerror(CURLE_COULDNT_RESOLVE_HOST) || msg == easy_strerror(CURLE_COULDNT_CONNECT)
}

#[test]
fn test_simple_get() {
    let data_res = get("http://api.4chan.org/pol/threads.json");

    match data_res {
        Ok(_) => {}
        // The fetch needs the host to be reachable: where no network is to
        // be had, the engine can only report that.
        Err(msg) if unreachable_message(&msg) => {}
        Err(msg) => {
            panic!("Error{}", msg);
        }
    };
}

#[test]
fn test_invalid_params_should_fail() {
    let mut curl = Curl::new();

    // a flag slot handed a string is refused
    let code = curl.easy_setopt_raw(&RawOption {
        option: CURLoption::HEADER,
        value: OptValue::Text("1".to_string()),
    });
    assert_eq!(code, CURLE_BAD_FUNCTION_ARGUMENT);
}

#[test]
fn escape_keeps_unreserved_bytes() {
    let mut c = Curl::new();
    assert_eq!(c.easy_escape("AZaz09-._~"), "AZaz09-._~");
    assert_eq!(c.easy_escape(""), "");
}

#[test]
fn escape_encodes_reserved_bytes_in_upper_case_hex() {
    let mut c = Curl::new();
    assert_eq!(c.easy_escape("a/b?c&d=e"), "a%2Fb%3Fc%26d%3De");
    assert_eq!(c.easy_escape("100%"), "100%25");
    assert_eq!(c.easy_escape("é"), "%C3%A9");
}

#[test]
fn unescape_keeps_incomplete_escapes() {
    let mut c = Curl::new();
    assert_eq!(c.easy_unescape("%zz%4"), "%zz%4");
    assert_eq!(c.easy_unescape("a%2fb%2F"), "a/b/");
}

#[test]
fn unescape_undoes_escape() {
    let mut c = Curl::new();
    for s in ["", "plain", "lol and stuff", "a/b?c&d=e#f", "100% ünïcødé ☃", "~-._ %%"] {
        let e = c.easy_escape(s);
        assert_eq!(c.easy_unescape(&e), s);
    }
}

#[test]
fn proxy_expands_to_the_given_parts_only() {
    let host_only = expand_option(EasyCurlOption::Proxy("proxy:8080".to_string(), None, None));
    assert_eq!(host_only.len(), 1);
    assert!(host_only[0].option == CURLoption::PROXY);

    let full = expand_option(EasyCurlOption::Proxy(
        "proxy:8080".to_string(),
        Some("alice".to_string()),
        Some("hunter2".to_string()),
    ));
    assert_eq!(full.len(), 3);
    assert!(full[1].option == CURLoption::PROXYUSERNAME);
    assert!(full[2].option == CURLoption::PROXYPASSWORD);

    let pass_only = expand_option(EasyCurlOption::Proxy(
        "proxy:8080".to_string(),
        None,
        Some("pw".to_string()),
    ));
    assert_eq!(pass_only.len(), 2);
    assert!(pass_only[1].option == CURLoption::PROXYPASSWORD);
}

#[test]
fn flags_become_zero_or_one() {
    let on = expand_option(EasyCurlOption::VerboseMode(true));
    let off = expand_option(EasyCurlOption::FollowLocation(false));
    assert!(matches!(on[0].value, OptValue::Long(1)));
    assert!(on[0].option == CURLoption::VERBOSE);
    assert!(matches!(off[0].value, OptValue::Long(0)));
    assert!(off[0].option == CURLoption::FOLLOWLOCATION);
}

#[test]
fn option_ids_are_the_engine_numbers() {
    assert_eq!(CURLoption::URL.id(), 10002);
    assert_eq!(CURLoption::FOLLOWLOCATION.id(), 52);
    assert_eq!(CURLoption::HTTPHEADER.id(), 10023);
    assert_eq!(CURLoption::TIMEOUT.id(), 13);
}

#[test]
fn options_apply_to_a_session() {
    let mut c = Curl::new();
    assert_eq!(c.easy_setopt(EasyCurlOption::URL("http://localhost/".to_string())), CURLE_OK);
    assert_eq!(c.easy_setopt(EasyCurlOption::Timeout(5)), CURLE_OK);
    assert_eq!(c.easy_setopt(EasyCurlOption::Referer("http://example.com/".to_string())), CURLE_OK);
    assert_eq!(
        c.easy_setopt(EasyCurlOption::HttpHeader(vec!["Accept: text/plain".to_string()])),
        CURLE_OK
    );
    let d = c.duplicate();
    assert!(d.is_ok());
    c.easy_reset();
}

#[test]
fn error_text_is_not_empty() {
    assert!(!easy_strerror(7).is_empty());
    assert!(!easy_strerror(6).is_empty());
    assert!(!easy_strerror(9999).is_empty());
    assert_ne!(easy_strerror(7), easy_strerror(0));
}

#[test]
fn get_from_unreachable_host_fails_with_text() {
    match get("http://127.0.0.1:1/") {
        Ok(_) => panic!("a closed port answered"),
        Err(msg) => assert!(!msg.is_empty()),
    }
}

#[test]
fn get_reads_a_local_file() {
    let data = get("file:///etc/passwd").unwrap();
    assert!(!data.is_empty());
}
