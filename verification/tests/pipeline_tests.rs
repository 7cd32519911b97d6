use rssget::aggregate::{aggregate, format_error};
use rssget::config::{ChanConfig, ItemConfig, Order};
use rssget::fetch::{fetch_from_body, FetchError};
use rssget::item::{DisplayItem, RawItem};
use rssget::sort::sort_items;

fn chan(url: &str, max_items: Option<usize>) -> ChanConfig {
    ChanConfig { url: url.to_string(), alias: None, max_items, item_config: None }
}

fn raw(title: &str) -> RawItem {
    RawItem {
        title: Some(title.to_string()),
        link: None,
        description: None,
        author: None,
        pub_date: None,
        enclosure_url: None,
    }
}

fn feed_body(title: &str, items: &[(&str, Option<&str>)]) -> Vec<u8> {
    let mut xml = String::new();
    xml.push_str("<rss version=\"2.0\"><channel><title>");
    xml.push_str(title);
    xml.push_str("</title>");
    for (item_title, pub_date) in items {
        xml.push_str("<item><title>");
        xml.push_str(item_title);
        xml.push_str("</title>");
        if let Some(d) = pub_date {
            xml.push_str("<pubDate>");
            xml.push_str(d);
            xml.push_str("</pubDate>");
        }
        xml.push_str("</item>");
    }
    xml.push_str("</channel></rss>");
    xml.into_bytes()
}

#[test]
fn normalized_timestamp_absent_when_date_unparsable() {
    let mut r = raw("x");
    r.pub_date = Some("not a date at all".to_string());
    let d = DisplayItem::new(r, "chan", &ItemConfig::default());
    assert!(d.pub_date.is_none());
}

#[test]
fn normalized_timestamp_absent_when_date_missing() {
    let d = DisplayItem::new(raw("x"), "chan", &ItemConfig::default());
    assert!(d.pub_date.is_none());
}

#[test]
fn normalized_timestamp_present_for_rfc2822_date() {
    let mut r = raw("x");
    r.pub_date = Some("Mon, 01 Jan 2024 10:00:00 +0000".to_string());
    let d = DisplayItem::new(r, "chan", &ItemConfig::default());
    let p = d.pub_date.expect("valid RFC 2822 date must parse");
    assert_eq!(p.epoch, 1_704_103_200);
    assert_eq!(p.local, "2024-01-01 10:00:00");
}

#[test]
fn normalized_timestamp_uses_offset_local_time() {
    let mut r = raw("x");
    r.pub_date = Some("Mon, 01 Jan 2024 10:00:00 +0200".to_string());
    let d = DisplayItem::new(r, "chan", &ItemConfig::default());
    let p = d.pub_date.expect("valid RFC 2822 date must parse");
    assert_eq!(p.epoch, 1_704_096_000);
    assert_eq!(p.local, "2024-01-01 10:00:00");
}

#[test]
fn normalization_keeps_fields_and_channel_title() {
    let r = RawItem {
        title: Some("t".to_string()),
        link: Some("http://l.example".to_string()),
        description: Some("".to_string()),
        author: None,
        pub_date: None,
        enclosure_url: Some("http://e.example/a.mp3".to_string()),
    };
    let d = DisplayItem::new(r, "chan", &ItemConfig::default());
    assert_eq!(d.chan_title, "chan");
    assert_eq!(d.title.as_deref(), Some("t"));
    assert_eq!(d.link.as_deref(), Some("http://l.example"));
    assert_eq!(d.description.as_deref(), Some(""));
    assert_eq!(d.author, None);
    assert_eq!(d.enclosure_url.as_deref(), Some("http://e.example/a.mp3"));
}

#[test]
fn cap_limits_a_five_item_feed_to_one_record() {
    let sources = vec![chan("http://a.example", Some(1))];
    let body = feed_body("A", &[("1", None), ("2", None), ("3", None), ("4", None), ("5", None)]);
    let responses = vec![Ok(body)];
    let run = aggregate(&sources, &responses);
    assert_eq!(run.items.len(), 1);
    assert!(run.errors.is_empty());
}

#[test]
fn unset_cap_keeps_all_items() {
    let sources = vec![chan("http://a.example", None)];
    let body = feed_body("A", &[("1", None), ("2", None), ("3", None), ("4", None), ("5", None)]);
    let responses = vec![Ok(body)];
    let run = aggregate(&sources, &responses);
    assert_eq!(run.items.len(), 5);
    assert!(run.errors.is_empty());
}

#[test]
fn cap_larger_than_feed_keeps_all_items() {
    let sources = vec![chan("http://a.example", Some(9))];
    let body = feed_body("A", &[("1", None), ("2", None)]);
    let responses = vec![Ok(body)];
    let run = aggregate(&sources, &responses);
    assert_eq!(run.items.len(), 2);
}

#[test]
fn two_sources_one_unreachable() {
    let sources = vec![chan("http://a.example", None), chan("http://b.example", None)];
    let body_a = feed_body(
        "A",
        &[
            ("jan", Some("Mon, 01 Jan 2024 00:00:00 +0000")),
            ("mar", Some("Fri, 01 Mar 2024 00:00:00 +0000")),
        ],
    );
    let responses = vec![Ok(body_a), Err("http://b.example: connection refused".to_string())];
    let run = aggregate(&sources, &responses);
    assert_eq!(run.items.len(), 2);
    assert_eq!(run.errors.len(), 1);
    assert_eq!(run.errors[0], "Could not reach rss: [http://b.example: connection refused]");
    let mut items = run.items;
    sort_items(&mut items, Order::Date);
    assert_eq!(items[0].title.as_deref(), Some("jan"));
    assert_eq!(items[1].title.as_deref(), Some("mar"));
}

#[test]
fn all_sources_failing_is_empty_and_non_fatal() {
    let sources = vec![chan("http://a.example", None), chan("http://b.example", None)];
    let responses = vec![
        Err("connection refused".to_string()),
        Err("dns failure".to_string()),
    ];
    let run = aggregate(&sources, &responses);
    assert!(run.items.is_empty());
    assert_eq!(run.errors.len(), 2);
}

#[test]
fn errors_plus_successes_equal_source_count() {
    let sources = vec![
        chan("http://a.example", None),
        chan("http://b.example", None),
        chan("http://c.example", None),
    ];
    let responses = vec![
        Ok(feed_body("A", &[("1", None)])),
        Err("unreachable".to_string()),
        Ok(b"this is no feed document".to_vec()),
    ];
    let run = aggregate(&sources, &responses);
    let successes = sources.len() - run.errors.len();
    assert_eq!(run.errors.len() + successes, sources.len());
    assert_eq!(run.errors.len(), 2);
    assert_eq!(run.items.len(), 1);
}

#[test]
fn parse_failure_is_reported_per_source() {
    let sources = vec![chan("http://a.example", None)];
    let responses = vec![Ok(b"<html>not rss</html>".to_vec())];
    let run = aggregate(&sources, &responses);
    assert!(run.items.is_empty());
    assert_eq!(run.errors.len(), 1);
    assert!(run.errors[0].starts_with("Could not parse rss response from chan: ["));
    assert!(run.errors[0].ends_with("]"));
}

#[test]
fn fetch_keeps_the_first_entries_up_to_the_cap() {
    let source = chan("http://a.example", Some(2));
    let body = feed_body("A", &[("1", None), ("2", None), ("3", None)]);
    let items = fetch_from_body(&body, &source).expect("a well-formed feed must parse");
    assert_eq!(items.len(), 2);
    assert_eq!(items[0].chan_title, "A");
    assert_eq!(items[0].title.as_deref(), Some("1"));
    assert_eq!(items[1].title.as_deref(), Some("2"));
}

#[test]
fn fetch_reports_a_malformed_body_as_a_parse_error() {
    let source = chan("http://a.example", None);
    match fetch_from_body(&b"junk".to_vec(), &source) {
        Err(FetchError::Parse(m)) => {
            let line = format_error(&FetchError::Parse(m));
            assert!(line.starts_with("Could not parse rss response from chan: ["));
        }
        other => panic!("expected a parse failure, got {other:?}"),
    }
}

#[test]
fn network_failures_format_as_network_errors() {
    let line = format_error(&FetchError::Network("boom".to_string()));
    assert_eq!(line, "Could not reach rss: [boom]");
}

#[test]
fn per_source_item_config_reaches_records() {
    let mut source = chan("http://a.example", None);
    source.item_config = Some(ItemConfig { hide_title: true, ..ItemConfig::default() });
    let sources = vec![source];
    let responses = vec![Ok(feed_body("A", &[("1", None)]))];
    let run = aggregate(&sources, &responses);
    assert_eq!(run.items.len(), 1);
    assert!(run.items[0].conf.hide_title);
}
