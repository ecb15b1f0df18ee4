use cookie_filters::Filter;
use cookie_filters::OrFilter;
use cookie_filters::Rejection;
use cookie_filters::Request;
use cookie_filters::ValueLength;
use cookie_filters::ValueOwned;
use cookie_filters::cookie;
use cookie_filters::optional;
use cookie_filters::optional_value;

fn request_with_cookies(value: &str) -> Request {
    let mut req = Request::new();
    req.add_header("cookie".to_string(), value.to_string());
    req
}

#[test]
fn scenario_session_and_theme() {
    let req = request_with_cookies("session=abc123; theme=dark");

    assert_eq!(cookie("session").run(&req).unwrap(), "abc123");

    let rejection = cookie("missing").run(&req).unwrap_err();
    assert!(rejection.describe().contains("missing"));

    assert_eq!(optional("theme").run(&req).unwrap(), Some("dark".to_string()));
    assert_eq!(optional("absent").run(&req).unwrap(), None);
}

#[test]
fn cookie_value_is_exact_among_others() {
    let req = request_with_cookies("a=1; b=2; c=3");
    assert_eq!(cookie("b").run(&req).unwrap(), "2");
    assert_eq!(cookie("a").run(&req).unwrap(), "1");
    assert_eq!(cookie("c").run(&req).unwrap(), "3");
}

#[test]
fn cookie_rejects_when_header_absent() {
    let mut req = Request::new();
    req.add_header("accept".to_string(), "text/html".to_string());
    let rejection = cookie("session").run(&req).unwrap_err();
    assert_eq!(rejection.describe(), "Missing request header 'cookie'");
}

#[test]
fn cookie_rejection_names_the_cookie() {
    let req = request_with_cookies("theme=dark");
    let rejection = cookie("session").run(&req).unwrap_err();
    assert_eq!(rejection.describe(), "Missing request cookie 'session'");
}

#[test]
fn optional_never_rejects() {
    let empty = Request::new();
    assert_eq!(optional("session").run(&empty).unwrap(), None);

    let without_name = request_with_cookies("theme=dark");
    assert_eq!(optional("session").run(&without_name).unwrap(), None);

    let malformed = request_with_cookies("session=abc\nbroken");
    assert_eq!(optional("session").run(&malformed).unwrap(), None);

    let with_name = request_with_cookies("session=abc123");
    assert_eq!(
        optional("session").run(&with_name).unwrap(),
        Some("abc123".to_string())
    );
}

#[test]
fn optional_value_applies_the_function() {
    let req = request_with_cookies("session=abc123");
    assert_eq!(optional_value("session", ValueLength).run(&req).unwrap(), Some(6));
    assert_eq!(optional_value("absent", ValueLength).run(&req).unwrap(), None);
}

#[test]
fn optional_value_equals_optional_with_identity() {
    let requests = [
        Request::new(),
        request_with_cookies("session=abc123; theme=dark"),
        request_with_cookies("theme=dark"),
        request_with_cookies("session=abc\nbroken"),
    ];
    for req in requests.iter() {
        let mapped = optional_value("session", ValueOwned).run(req).unwrap();
        let plain = optional("session").run(req).unwrap();
        assert_eq!(mapped, plain);
    }
}

#[test]
fn same_filter_twice_gives_identical_results() {
    let req = request_with_cookies("session=abc123; theme=dark");

    let required = cookie("session");
    assert_eq!(required.run(&req).unwrap(), required.run(&req).unwrap());

    let rejected = cookie("absent");
    assert_eq!(
        rejected.run(&req).unwrap_err().describe(),
        rejected.run(&req).unwrap_err().describe()
    );

    let opt = optional("theme");
    assert_eq!(opt.run(&req).unwrap(), opt.run(&req).unwrap());
}

#[test]
fn malformed_cookie_header_short_circuits() {
    let req = request_with_cookies("session=abc\nbroken");
    let rejection = cookie("session").run(&req).unwrap_err();
    assert_eq!(rejection.describe(), "Invalid request header 'cookie'");
}

#[test]
fn rejections_are_distinguishable_by_cause() {
    let absent = cookie("a").run(&Request::new()).unwrap_err();
    assert!(absent.is_header_absent());
    assert!(!absent.is_header_malformed());
    assert!(!absent.is_missing_cookie());

    let malformed = cookie("a")
        .run(&request_with_cookies("a=b\nc"))
        .unwrap_err();
    assert!(malformed.is_header_malformed());

    let missing = cookie("a")
        .run(&request_with_cookies("b=c"))
        .unwrap_err();
    assert!(missing.is_missing_cookie());
}

#[test]
fn combine_picks_the_more_specific_rejection() {
    let absent = Rejection::header_absent("cookie".to_string());
    let missing = Rejection::missing_cookie("session".to_string());
    assert_eq!(
        absent.combine(missing).describe(),
        "Missing request cookie 'session'"
    );

    let malformed = Rejection::header_malformed("cookie".to_string());
    let missing = Rejection::missing_cookie("session".to_string());
    assert_eq!(
        missing.combine(malformed).describe(),
        "Missing request cookie 'session'"
    );

    let first = Rejection::missing_cookie("one".to_string());
    let second = Rejection::missing_cookie("two".to_string());
    assert_eq!(first.combine(second).describe(), "Missing request cookie 'one'");
}

#[test]
fn or_filter_takes_the_first_success() {
    let req = request_with_cookies("session=abc123; theme=dark");
    let either = OrFilter::new(cookie("absent"), cookie("theme"));
    assert_eq!(either.run(&req).unwrap(), "dark");

    let preferred = OrFilter::new(cookie("session"), cookie("theme"));
    assert_eq!(preferred.run(&req).unwrap(), "abc123");
}

#[test]
fn or_filter_merges_rejections() {
    let req = Request::new();
    let either = OrFilter::new(cookie("one"), cookie("two"));
    // Both sides reject with an absent header; the first wins the tie.
    assert_eq!(
        either.run(&req).unwrap_err().describe(),
        "Missing request header 'cookie'"
    );

    let req = request_with_cookies("theme=dark");
    let either = OrFilter::new(cookie("one"), cookie("two"));
    assert_eq!(
        either.run(&req).unwrap_err().describe(),
        "Missing request cookie 'one'"
    );
}

#[test]
fn first_header_of_the_name_wins() {
    let mut req = Request::new();
    req.add_header("cookie".to_string(), "session=first".to_string());
    req.add_header("cookie".to_string(), "session=second".to_string());
    assert_eq!(cookie("session").run(&req).unwrap(), "first");
}

#[test]
fn empty_cookie_value_is_extracted() {
    let req = request_with_cookies("empty=; theme=dark");
    assert_eq!(cookie("empty").run(&req).unwrap(), "");
    assert_eq!(optional("empty").run(&req).unwrap(), Some("".to_string()));
}

#[test]
fn surrounding_whitespace_is_trimmed() {
    let req = request_with_cookies(" session  =    abc123 ;theme= dark  ");
    assert_eq!(cookie("session").run(&req).unwrap(), "abc123");
    assert_eq!(cookie("theme").run(&req).unwrap(), "dark");
}

#[test]
fn header_value_finds_the_first_match() {
    let mut req = Request::new();
    req.add_header("accept".to_string(), "text/html".to_string());
    req.add_header("cookie".to_string(), "a=1".to_string());
    assert_eq!(req.header_value("accept"), Some("text/html".to_string()));
    assert_eq!(req.header_value("cookie"), Some("a=1".to_string()));
    assert_eq!(req.header_value("host"), None);
}

#[test]
fn extracted_value_is_an_owned_copy() {
    let extracted;
    {
        let req = request_with_cookies("session=abc123");
        extracted = cookie("session").run(&req).unwrap();
    }
    assert_eq!(extracted, "abc123");
}
