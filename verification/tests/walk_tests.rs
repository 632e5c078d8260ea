use scrape::walk::{Phase, Walker};
use scrape::Error;

const BASE: &str = "https://example.com/";

const INDEX: &str = "<html><head></head><body>\
<a href=\"/users/alice/\">Alice</a>\
<a href=\"/users/bob/\">Bob</a>\
</body></html>";

const ALICE: &str = "<html><head></head><body><main>\
<h1>Alice</h1>\
<a href=\"/t/one\">One</a>\
<a href=\"/t/two\">Two</a>\
</main></body></html>";

const BOB: &str = "<html><head></head><body><main>\
<h1>Bob</h1>\
<a href=\"/t/three\">Three</a>\
</main></body></html>";

const ASSET_PAGE: &str = "<html><head>\
<link rel=\"stylesheet\" href=\"/static/css/style.css?v=2\">\
</head><body>\
<header><img src=\"/static/img/banner.png\"></header>\
<main><h1>Alice</h1><img src=\"/static/img/alice.jpg\">\
<a href=\"/t/one\">One</a></main>\
</body></html>";

#[test]
fn round_trip_two_users_three_rows() {
    let mut w = Walker::new(BASE.to_string(), None);
    let plan = w.feed_index(INDEX).unwrap();
    assert!(plan.is_none());
    assert_eq!(w.links.len(), 2);

    let mut rows = Vec::new();

    let u1 = w.next_user().unwrap().unwrap();
    assert_eq!(u1, "https://example.com/users/alice/");
    let out1 = w.feed_user(ALICE).unwrap();
    assert!(out1.warning.is_none());
    rows.extend(out1.rows);

    let u2 = w.next_user().unwrap().unwrap();
    assert_eq!(u2, "https://example.com/users/bob/");
    let out2 = w.feed_user(BOB).unwrap();
    assert!(out2.warning.is_none());
    rows.extend(out2.rows);

    assert!(w.next_user().unwrap().is_none());

    let mut writer = csv::WriterBuilder::new().from_writer(Vec::new());
    for row in &rows {
        writer
            .write_record(&[&row.screen_name, &row.display_name, &row.title, &row.url])
            .unwrap();
    }
    let bytes = writer.into_inner().unwrap();
    let rendered = String::from_utf8(bytes).unwrap();
    assert_eq!(
        rendered,
        "alice,Alice,One,/t/one\nalice,Alice,Two,/t/two\nbob,Bob,Three,/t/three\n"
    );
}

#[test]
fn snapshot_disabled_plans_no_write() {
    let mut w = Walker::new(BASE.to_string(), None);
    assert!(w.feed_index(INDEX).unwrap().is_none());
    w.next_user().unwrap().unwrap();
    let out = w.feed_user(ASSET_PAGE).unwrap();
    assert!(out.snapshot.is_none());
}

#[test]
fn snapshot_enabled_no_assets_writes_only_page() {
    let run = "snapshot/20240101000000";
    let mut w = Walker::new(BASE.to_string(), Some(run.to_string()));
    let plan = w.feed_index(INDEX).unwrap().unwrap();
    assert_eq!(plan.dir, run);
    assert!(plan.assets.is_empty());

    w.next_user().unwrap().unwrap();
    let out = w.feed_user(ALICE).unwrap();
    let p = out.snapshot.unwrap();
    assert_eq!(p.dir, "snapshot/20240101000000/alice");
    assert!(p.assets.is_empty());
}

#[test]
fn snapshot_enabled_plans_all_assets_in_order() {
    let run = "snapshot/20240101000000";
    let mut w = Walker::new(BASE.to_string(), Some(run.to_string()));
    w.feed_index(INDEX).unwrap().unwrap();
    w.next_user().unwrap().unwrap();
    let out = w.feed_user(ASSET_PAGE).unwrap();
    let p = out.snapshot.unwrap();
    assert_eq!(p.dir, "snapshot/20240101000000/alice");
    assert_eq!(p.assets.len(), 3);
    assert_eq!(
        p.assets[0].source_url,
        "https://example.com/static/css/style.css?v=2"
    );
    assert_eq!(p.assets[0].filename, "style.css?v=2");
    assert_eq!(
        p.assets[1].source_url,
        "https://example.com/static/img/banner.png"
    );
    assert_eq!(p.assets[1].filename, "banner.png");
    assert_eq!(
        p.assets[2].source_url,
        "https://example.com/static/img/alice.jpg"
    );
    assert_eq!(p.assets[2].filename, "alice.jpg");
    assert_eq!(out.rows.len(), 1);
}

#[test]
fn heading_mismatch_warns_but_still_yields_rows() {
    let page = "<html><body><main><h1>Bob</h1>\
<a href=\"/t/one\">One</a></main></body></html>";
    let mut w = Walker::new(BASE.to_string(), None);
    w.feed_index(INDEX).unwrap();
    w.next_user().unwrap().unwrap();
    let out = w.feed_user(page).unwrap();
    let warn = out.warning.unwrap();
    assert_eq!(warn.expected, "Alice");
    assert_eq!(warn.found, "Bob");
    assert_eq!(out.rows.len(), 1);
    assert_eq!(out.rows[0].screen_name, "alice");
    assert_eq!(out.rows[0].display_name, "Alice");
    assert_eq!(out.rows[0].title, "One");
    assert_eq!(out.rows[0].url, "/t/one");
}

#[test]
fn heading_text_is_trimmed_before_comparison() {
    let page = "<html><body><main><h1> Alice </h1>\
<a href=\"/t/one\">One</a></main></body></html>";
    let mut w = Walker::new(BASE.to_string(), None);
    w.feed_index(INDEX).unwrap();
    w.next_user().unwrap().unwrap();
    let out = w.feed_user(page).unwrap();
    assert!(out.warning.is_none());
}

#[test]
fn missing_heading_warns_nothing() {
    let page = "<html><body><main>\
<a href=\"/t/one\">One</a></main></body></html>";
    let mut w = Walker::new(BASE.to_string(), None);
    w.feed_index(INDEX).unwrap();
    w.next_user().unwrap().unwrap();
    let out = w.feed_user(page).unwrap();
    assert!(out.warning.is_none());
}

#[test]
fn missing_index_href_aborts_whole_run() {
    let bad = "<html><body>\
<a href=\"/users/alice/\">Alice</a>\
<a>Bob</a>\
</body></html>";
    let mut w = Walker::new(BASE.to_string(), None);
    let r = w.feed_index(bad);
    assert!(matches!(r, Err(Error::InvalidHtml(_))));
    assert!(matches!(w.phase, Phase::Failed));
}

#[test]
fn missing_user_href_aborts_user_page() {
    let page = "<html><body><main><h1>Alice</h1>\
<a href=\"/t/one\">One</a><a>Two</a></main></body></html>";
    let mut w = Walker::new(BASE.to_string(), None);
    w.feed_index(INDEX).unwrap();
    w.next_user().unwrap().unwrap();
    let r = w.feed_user(page);
    assert!(matches!(r, Err(Error::InvalidHtml(_))));
    assert!(matches!(w.phase, Phase::Failed));
}

#[test]
fn index_href_without_screen_name_fails_that_user() {
    let bad = "<html><body><a href=\"/users/\">Users</a></body></html>";
    let mut w = Walker::new(BASE.to_string(), None);
    w.feed_index(bad).unwrap();
    let r = w.next_user();
    assert!(matches!(r, Err(Error::InvalidHtml(_))));
    assert!(matches!(w.phase, Phase::Failed));
}

#[test]
fn unresolvable_base_fails_with_url_error() {
    let mut w = Walker::new("not a base url".to_string(), None);
    w.feed_index(INDEX).unwrap();
    let r = w.next_user();
    assert!(matches!(r, Err(Error::Url(_))));
    assert!(matches!(w.phase, Phase::Failed));
}

#[test]
fn stylesheet_without_href_is_invalid_when_snapshotting() {
    let page = "<html><head><link rel=\"stylesheet\"></head><body>\
<a href=\"/users/alice/\">Alice</a></body></html>";

    let mut off = Walker::new(BASE.to_string(), None);
    assert!(off.feed_index(page).is_ok());

    let mut on = Walker::new(BASE.to_string(), Some("snapshot/x".to_string()));
    let r = on.feed_index(page);
    assert!(matches!(r, Err(Error::InvalidHtml(_))));
}

#[test]
fn asset_reference_with_empty_filename_is_invalid() {
    let page = "<html><head>\
<link rel=\"stylesheet\" href=\"/static/css/\">\
</head><body><a href=\"/users/alice/\">Alice</a></body></html>";
    let mut w = Walker::new(BASE.to_string(), Some("snapshot/x".to_string()));
    let r = w.feed_index(page);
    assert!(matches!(r, Err(Error::InvalidHtml(_))));
}

#[test]
fn unresolvable_asset_reference_fails_with_url_error() {
    let page = "<html><head>\
<link rel=\"stylesheet\" href=\"/static/style.css\">\
</head><body><a href=\"/users/alice/\">Alice</a></body></html>";
    let mut w = Walker::new("not a base url".to_string(), Some("snapshot/x".to_string()));
    let r = w.feed_index(page);
    assert!(matches!(r, Err(Error::Url(_))));
    assert!(matches!(w.phase, Phase::Failed));
}
