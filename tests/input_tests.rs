use holidays::country::{check_country_code, contains_code, read_country_codes};
use holidays::errors::{classify_transport, handle_http_error, HttpFailure, TransportFailure};
use holidays::flow::{step, Event, Stage};

#[test]
fn codes_are_read_one_per_line_trimmed() {
    let codes = read_country_codes("DE\n  FR  \r\nUS\n");
    assert_eq!(codes, vec!["DE".to_string(), "FR".to_string(), "US".to_string()]);
    assert!(read_country_codes("").is_empty());
}

#[test]
fn code_is_upper_cased_and_accepted() {
    let valid = vec!["DE".to_string(), "FR".to_string()];
    assert_eq!(check_country_code(&valid, "de"), Ok("DE".to_string()));
    assert_eq!(check_country_code(&valid, "Fr"), Ok("FR".to_string()));
    assert!(contains_code(&valid, &"FR".to_string()));
}

#[test]
fn unknown_code_is_rejected() {
    let valid = vec!["DE".to_string(), "FR".to_string()];
    assert_eq!(check_country_code(&valid, "ZZ"), Err("ZZ".to_string()));
    assert_eq!(check_country_code(&valid, "zz"), Err("ZZ".to_string()));
    assert_eq!(check_country_code(&vec![], "de"), Err("DE".to_string()));
}

#[test]
fn unknown_code_ends_run_with_exit_one() {
    let s = step(Stage::Validate, Event::Validated(false));
    assert_eq!(s, Stage::Done(1));
    assert_eq!(step(s, Event::ResetDone(true)), Stage::Done(1));
}

#[test]
fn run_with_cache_miss() {
    let mut s = Stage::Validate;
    for e in [
        Event::Validated(true),
        Event::ResetDone(true),
        Event::LookedUp(false),
        Event::Fetched(true),
        Event::Written(true),
    ] {
        s = step(s, e);
    }
    assert_eq!(s, Stage::Present);
    assert_eq!(step(s, Event::Presented), Stage::Done(0));
}

#[test]
fn run_with_cache_hit_and_failures() {
    assert_eq!(step(Stage::Lookup, Event::LookedUp(true)), Stage::Present);
    assert_eq!(step(Stage::Fetch, Event::Fetched(false)), Stage::Done(1));
    assert_eq!(step(Stage::Write, Event::Written(false)), Stage::Done(1));
    assert_eq!(step(Stage::Reset, Event::ResetDone(false)), Stage::Done(1));
    assert_eq!(step(Stage::Fetch, Event::Presented), Stage::Done(1));
}

#[test]
fn http_statuses_are_classified() {
    assert_eq!(handle_http_error(400), HttpFailure::BadRequest);
    assert_eq!(handle_http_error(404), HttpFailure::NotFound);
    assert_eq!(handle_http_error(500), HttpFailure::InternalServerError);
    assert_eq!(handle_http_error(503), HttpFailure::ServiceUnavailable);
    assert_eq!(handle_http_error(418), HttpFailure::Unexpected(418));
}

#[test]
fn transport_failures_are_classified() {
    assert_eq!(classify_transport(true, true), TransportFailure::Connect);
    assert_eq!(classify_transport(false, true), TransportFailure::Timeout);
    assert_eq!(classify_transport(false, false), TransportFailure::Other);
}
