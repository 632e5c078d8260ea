use scrape::text::{filename_of, screen_name_of};
use scrape::{select_log_level_filter, Error, LogLevel};

#[test]
fn screen_name_trailing_slash() {
    let r = screen_name_of("/users/alice/").unwrap();
    assert_eq!(r, "alice");
}

#[test]
fn screen_name_no_trailing_slash() {
    let r = screen_name_of("/users/alice").unwrap();
    assert_eq!(r, "alice");
}

#[test]
fn screen_name_missing_segment() {
    let r = screen_name_of("/users/");
    assert!(matches!(r, Err(Error::InvalidHtml(_))));
}

#[test]
fn screen_name_empty() {
    assert!(matches!(screen_name_of(""), Err(Error::InvalidHtml(_))));
    assert!(matches!(screen_name_of("/"), Err(Error::InvalidHtml(_))));
    assert!(matches!(screen_name_of("///"), Err(Error::InvalidHtml(_))));
}

#[test]
fn filename_keeps_query_unmodified() {
    let r = filename_of("/static/img/banner.png?x=1").unwrap();
    assert_eq!(r, "banner.png?x=1");
}

#[test]
fn filename_plain() {
    assert_eq!(filename_of("style.css").unwrap(), "style.css");
    assert_eq!(filename_of("/a/b/c.png").unwrap(), "c.png");
}

#[test]
fn filename_empty_segment() {
    assert!(matches!(filename_of(""), Err(Error::InvalidHtml(_))));
    assert!(matches!(filename_of("foo/"), Err(Error::InvalidHtml(_))));
    assert!(matches!(filename_of("/"), Err(Error::InvalidHtml(_))));
}

#[test]
fn log_level_mapping() {
    assert_eq!(select_log_level_filter(0), LogLevel::Off);
    assert_eq!(select_log_level_filter(1), LogLevel::Error);
    assert_eq!(select_log_level_filter(2), LogLevel::Warn);
    assert_eq!(select_log_level_filter(3), LogLevel::Info);
    assert_eq!(select_log_level_filter(4), LogLevel::Debug);
    assert_eq!(select_log_level_filter(5), LogLevel::Trace);
    assert_eq!(select_log_level_filter(200), LogLevel::Trace);
}
