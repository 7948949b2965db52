use proxy_autologin::checker::{
    CheckOutcome, CheckStatus, Failure, LoginStatus, Progress, ProxyChecker, Reply,
    REQUEST_TIMEOUT_SECS,
};
use proxy_autologin::options::Options;
use proxy_autologin::response::{Header, Response};

fn options(retries: usize, interval: u64) -> Options {
    Options::new(
        "alice".to_string(),
        "s3cret-pw".to_string(),
        false,
        "http://probe.example/ok.txt".to_string(),
        "0 0 6 * * mon-fri *".to_string(),
        interval,
        retries,
    )
}

fn header(name: &str, value: &[u8]) -> Header {
    Header { name: name.as_bytes().to_vec(), value: value.to_vec() }
}

fn reply(status: u16, headers: Vec<Header>) -> Result<Response, String> {
    Ok(Response { status, headers })
}

#[test]
fn request_is_given_up_after_ten_seconds() {
    assert_eq!(REQUEST_TIMEOUT_SECS, 10);
}

#[test]
fn options_keep_their_values() {
    let options = options(3, 300);
    assert_eq!(options.login(), "alice");
    assert_eq!(options.pass(), "s3cret-pw");
    assert!(!options.now());
    assert_eq!(options.detect_url(), "http://probe.example/ok.txt");
    assert_eq!(options.cron(), "0 0 6 * * mon-fri *");
    assert_eq!(options.error_interval(), 300);
    assert_eq!(options.error_retry(), 3);
}

#[test]
fn checker_takes_its_settings_from_the_options() {
    let options = options(7, 11);
    let checker = ProxyChecker::new(&options);
    assert_eq!(checker.detect_url(), "http://probe.example/ok.txt");
    assert_eq!(checker.error_retry(), 7);
    assert_eq!(checker.error_interval(), 11);
}

#[test]
fn login_form_names_its_fields_login_and_pass() {
    let options = options(3, 300);
    let checker = ProxyChecker::new(&options);
    assert_eq!(
        checker.login_form(),
        vec![
            ("login".to_string(), "alice".to_string()),
            ("pass".to_string(), "s3cret-pw".to_string()),
        ]
    );
}

#[test]
fn status_is_a_redirection_from_300_to_399_only() {
    for status in [0u16, 99, 100, 200, 299] {
        assert!(!Response { status, headers: vec![] }.is_redirection(), "{}", status);
    }
    for status in [300u16, 301, 302, 303, 307, 308, 399] {
        assert!(Response { status, headers: vec![] }.is_redirection(), "{}", status);
    }
    for status in [400u16, 404, 500, 999, 1000, 3000, u16::MAX] {
        assert!(!Response { status, headers: vec![] }.is_redirection(), "{}", status);
    }
}

#[test]
fn location_is_found_under_any_case_of_its_name() {
    for name in ["location", "Location", "LOCATION", "lOcAtIoN"] {
        let response = Response { status: 302, headers: vec![header(name, b"/login")] };
        assert_eq!(response.location(), Some(&b"/login".to_vec()), "{}", name);
    }
}

#[test]
fn location_is_not_found_under_another_name() {
    for name in ["", "locatio", "locations", "content-location", "l0cation", "location ", "loc@tion"] {
        let response = Response { status: 302, headers: vec![header(name, b"/login")] };
        assert_eq!(response.location(), None, "{:?}", name);
    }
    let raw = Response {
        status: 302,
        headers: vec![Header { name: vec![0xCC, 0xCF, 0xC3, 0xC1, 0xD4, 0xC9, 0xCF, 0xCE], value: vec![] }],
    };
    assert_eq!(raw.location(), None);
}

#[test]
fn first_location_header_counts() {
    let response = Response {
        status: 302,
        headers: vec![
            header("content-type", b"text/html"),
            header("Location", b"http://first.example/"),
            header("location", b"http://second.example/"),
        ],
    };
    assert_eq!(response.location(), Some(&b"http://first.example/".to_vec()));
}

#[test]
fn probe_without_redirection_needs_no_login() {
    let options = options(3, 300);
    let checker = ProxyChecker::new(&options);
    for status in [200u16, 204, 404, 500, 100, 299, 400] {
        assert_eq!(checker.detect_proxy(reply(status, vec![])), Ok(CheckStatus::Success));
    }
}

#[test]
fn probe_without_redirection_ignores_a_location_header() {
    let options = options(3, 300);
    let checker = ProxyChecker::new(&options);
    let found = checker.detect_proxy(reply(200, vec![header("location", b"http://login.example/")]));
    assert_eq!(found, Ok(CheckStatus::Success));
    let unreadable = checker.detect_proxy(reply(404, vec![header("location", b"\xff")]));
    assert_eq!(unreadable, Ok(CheckStatus::Success));
}

#[test]
fn redirected_probe_gives_the_location_as_it_is_spelt() {
    let options = options(3, 300);
    let checker = ProxyChecker::new(&options);
    for status in [301u16, 302, 303, 307, 308] {
        let found = checker.detect_proxy(reply(
            status,
            vec![header("server", b"gate"), header("location", b"https://Gate.example:8443/Login?u=a b\t&r=%2F")],
        ));
        assert_eq!(
            found,
            Ok(CheckStatus::Redirect("https://Gate.example:8443/Login?u=a b\t&r=%2F".to_string()))
        );
    }
}

#[test]
fn redirected_probe_may_give_a_relative_or_empty_location() {
    let options = options(3, 300);
    let checker = ProxyChecker::new(&options);
    assert_eq!(
        checker.detect_proxy(reply(302, vec![header("location", b"/auth")])),
        Ok(CheckStatus::Redirect("/auth".to_string()))
    );
    assert_eq!(
        checker.detect_proxy(reply(302, vec![header("location", b"")])),
        Ok(CheckStatus::Redirect(String::new()))
    );
}

#[test]
fn redirected_probe_without_location_is_no_failure() {
    let options = options(3, 300);
    let checker = ProxyChecker::new(&options);
    for status in [300u16, 301, 302, 303, 307, 308, 399] {
        assert_eq!(
            checker.detect_proxy(reply(status, vec![header("server", b"gate")])),
            Ok(CheckStatus::RedirectError)
        );
    }
}

#[test]
fn location_beyond_ascii_is_given_as_it_is_spelt() {
    let options = options(3, 300);
    let checker = ProxyChecker::new(&options);
    assert_eq!(
        checker.detect_proxy(reply(302, vec![header("location", b"/caf\xc3\xa9")])),
        Ok(CheckStatus::Redirect("/caf\u{e9}".to_string()))
    );
    assert_eq!(
        checker.detect_proxy(reply(302, vec![header("location", &[0xC3, 0xA9])])),
        Ok(CheckStatus::Redirect("\u{e9}".to_string()))
    );
    for location in ["http://gate.example/\u{43b}\u{43e}\u{433}\u{438}\u{43d}", "/\u{65e5}\u{672c}", "/\u{1f510}?next=%2F"] {
        for status in [301u16, 302, 303, 307, 308] {
            assert_eq!(
                checker.detect_proxy(reply(status, vec![header("Location", location.as_bytes())])),
                Ok(CheckStatus::Redirect(location.to_string()))
            );
        }
    }
}

#[test]
fn location_is_neither_trimmed_nor_decoded() {
    let options = options(3, 300);
    let checker = ProxyChecker::new(&options);
    for location in [" /Login ", "HTTP://GATE/%41%zz", "../up?a=1&b=2#frag", "a\tb", "line\nbreak", "\u{0}", "\u{7f}"] {
        assert_eq!(
            checker.detect_proxy(reply(302, vec![header("location", location.as_bytes())])),
            Ok(CheckStatus::Redirect(location.to_string())),
            "{:?}",
            location
        );
    }
}

#[test]
fn location_that_is_not_utf8_is_a_failure() {
    let options = options(3, 300);
    let checker = ProxyChecker::new(&options);
    let values: [&[u8]; 9] = [
        b"\xff\xfe",
        b"http://g/caf\xe9",
        b"\xc3\x28",
        b"caf\xc3",
        b"\x80",
        b"\xc0\xaf",
        b"\xed\xa0\x80",
        b"\xf4\x90\x80\x80",
        b"/ok/\xf0\x9f\x94",
    ];
    for value in values {
        assert_eq!(
            checker.detect_proxy(reply(302, vec![header("location", value)])),
            Err(Failure::LocationNotUtf8),
            "{:?}",
            value
        );
    }
}

#[test]
fn first_location_that_is_not_utf8_is_not_passed_over() {
    let options = options(3, 300);
    let checker = ProxyChecker::new(&options);
    let found = checker.detect_proxy(reply(
        302,
        vec![header("location", b"\x80"), header("location", b"http://login.example/")],
    ));
    assert_eq!(found, Err(Failure::LocationNotUtf8));
}

#[test]
fn probe_that_got_no_reply_is_a_failure() {
    let options = options(3, 300);
    let checker = ProxyChecker::new(&options);
    assert_eq!(
        checker.detect_proxy(Err("connection refused".to_string())),
        Err(Failure::Request("connection refused".to_string()))
    );
}

#[test]
fn login_succeeds_on_any_redirection() {
    let options = options(3, 300);
    let checker = ProxyChecker::new(&options);
    for status in [300u16, 301, 302, 303, 304, 307, 308, 399] {
        assert_eq!(checker.login_proxy(Ok(status)), Ok(LoginStatus::Success));
    }
}

#[test]
fn login_fails_on_any_other_status() {
    let options = options(3, 300);
    let checker = ProxyChecker::new(&options);
    for status in [200u16, 400, 401, 403, 500, 100, 299, 999, 0] {
        assert_eq!(checker.login_proxy(Ok(status)), Ok(LoginStatus::Failed));
    }
}

#[test]
fn login_that_got_no_reply_is_a_failure() {
    let options = options(3, 300);
    let checker = ProxyChecker::new(&options);
    assert_eq!(
        checker.login_proxy(Err("timed out".to_string())),
        Err(Failure::Request("timed out".to_string()))
    );
}

#[test]
fn attempt_ends_when_nothing_redirects() {
    let options = options(3, 300);
    let checker = ProxyChecker::new(&options);
    assert_eq!(
        checker.ensure_auth(Reply::Detect(reply(200, vec![]))),
        Progress::Done(CheckOutcome::NoAuthRequired)
    );
}

#[test]
fn attempt_goes_on_to_the_login_page() {
    let options = options(3, 300);
    let checker = ProxyChecker::new(&options);
    assert_eq!(
        checker.ensure_auth(Reply::Detect(reply(302, vec![header("Location", b"http://gate/login")]))),
        Progress::Login("http://gate/login".to_string())
    );
}

#[test]
fn attempt_ends_on_a_redirection_to_nowhere() {
    let options = options(3, 300);
    let checker = ProxyChecker::new(&options);
    assert_eq!(
        checker.ensure_auth(Reply::Detect(reply(307, vec![]))),
        Progress::Done(CheckOutcome::RedirectedWithoutLocation)
    );
}

#[test]
fn attempt_ends_with_the_login_whatever_the_proxy_says() {
    let options = options(3, 300);
    let checker = ProxyChecker::new(&options);
    assert_eq!(
        checker.ensure_auth(Reply::Login(Ok(302))),
        Progress::Done(CheckOutcome::RedirectedAndLoggedIn)
    );
    assert_eq!(
        checker.ensure_auth(Reply::Login(Ok(401))),
        Progress::Done(CheckOutcome::RedirectedButLoginFailed)
    );
}

#[test]
fn attempt_fails_when_a_request_fails() {
    let options = options(3, 300);
    let checker = ProxyChecker::new(&options);
    assert_eq!(
        checker.ensure_auth(Reply::Detect(Err("dns".to_string()))),
        Progress::Done(CheckOutcome::TransportError(Failure::Request("dns".to_string())))
    );
    assert_eq!(
        checker.ensure_auth(Reply::Login(Err("reset".to_string()))),
        Progress::Done(CheckOutcome::TransportError(Failure::Request("reset".to_string())))
    );
    assert_eq!(
        checker.ensure_auth(Reply::Detect(reply(302, vec![header("location", b"\xe9")]))),
        Progress::Done(CheckOutcome::TransportError(Failure::LocationNotUtf8))
    );
}
