use download_orchestrator::error::Error;
use download_orchestrator::failure::{status_error, Failure};
use download_orchestrator::orchestrator::join;
use download_orchestrator::status::is_success;
use download_orchestrator::text::decimal_string;

#[test]
fn message_of_an_error_without_cause_is_its_own() {
    let e = Error::new("It didn't work.".to_string());
    assert_eq!(e.message(), "It didn't work.");
    assert!(e.source().is_none());
}

#[test]
fn message_lists_every_cause_on_its_own_line() {
    let root = Error::new("disk full".to_string());
    let middle = Error::with_source("could not write".to_string(), root);
    let top = Error::with_source("There was a problem doing something.".to_string(), middle);
    assert_eq!(
        top.message(),
        "There was a problem doing something.\nCaused by: could not write\nCaused by: disk full"
    );
    let cause = top.source().expect("a cause");
    assert_eq!(cause.what, "could not write");
    assert_eq!(cause.source().expect("a root").what, "disk full");
}

#[test]
fn status_error_names_url_and_status() {
    let e = status_error("https://example.com/missing.bin", 404);
    assert_eq!(e.what, "Couldn't download URL: https://example.com/missing.bin. Error: 404");
    assert!(e.source.is_none());
    assert_eq!(e.message(), "Couldn't download URL: https://example.com/missing.bin. Error: 404");
}

#[test]
fn decimal_rendering_has_no_leading_zeros() {
    assert_eq!(decimal_string(0), "0");
    assert_eq!(decimal_string(9), "9");
    assert_eq!(decimal_string(10), "10");
    assert_eq!(decimal_string(404), "404");
    assert_eq!(decimal_string(500), "500");
    assert_eq!(decimal_string(65535), "65535");
}

#[test]
fn decimal_rendering_agrees_with_std() {
    let mut n: u16 = 0;
    loop {
        assert_eq!(decimal_string(n), format!("{}", n));
        if n == u16::MAX {
            break;
        }
        n += 1;
    }
}

#[test]
fn success_is_the_range_from_200_to_299() {
    assert!(!is_success(0));
    assert!(!is_success(199));
    assert!(is_success(200));
    assert!(is_success(204));
    assert!(is_success(299));
    assert!(!is_success(300));
    assert!(!is_success(404));
    assert!(!is_success(500));
}

#[test]
fn join_reports_the_tasks_error_first() {
    assert_eq!(join(Ok(()), Ok(())), Ok(()));
    assert_eq!(join(Ok(()), Err(Failure::Render)), Err(Failure::Render));
    assert_eq!(join(Err(Failure::Io), Ok(())), Err(Failure::Io));
    assert_eq!(join(Err(Failure::Transport), Err(Failure::Render)), Err(Failure::Transport));
}
