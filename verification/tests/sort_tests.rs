use rssget::config::{ItemConfig, Order};
use rssget::item::{DisplayItem, ParsedDate};
use rssget::sort::sort_items;

fn item(title: &str, epoch: Option<i64>) -> DisplayItem {
    DisplayItem {
        chan_title: "chan".to_string(),
        conf: ItemConfig::default(),
        title: Some(title.to_string()),
        link: None,
        description: None,
        author: None,
        pub_date: epoch.map(|e| ParsedDate { epoch: e, local: "x".to_string() }),
        enclosure_url: None,
    }
}

fn titles(items: &[DisplayItem]) -> Vec<&str> {
    items.iter().map(|i| i.title.as_deref().unwrap()).collect()
}

#[test]
fn date_order_sorts_ascending() {
    let mut v = vec![item("c", Some(30)), item("a", Some(10)), item("b", Some(20))];
    sort_items(&mut v, Order::Date);
    assert_eq!(titles(&v), vec!["a", "b", "c"]);
}

#[test]
fn absent_dates_sort_before_present_ones() {
    let mut v = vec![
        item("dated-late", Some(100)),
        item("undated-1", None),
        item("dated-early", Some(5)),
        item("undated-2", None),
    ];
    sort_items(&mut v, Order::Date);
    assert_eq!(titles(&v), vec!["undated-1", "undated-2", "dated-early", "dated-late"]);
}

#[test]
fn equal_dates_keep_their_input_order() {
    let mut v = vec![
        item("z-first", Some(50)),
        item("m-second", Some(50)),
        item("a-third", Some(50)),
        item("before-all", Some(1)),
    ];
    sort_items(&mut v, Order::Date);
    assert_eq!(titles(&v), vec!["before-all", "z-first", "m-second", "a-third"]);
}

#[test]
fn channel_order_reorders_nothing() {
    let mut v = vec![item("c", Some(30)), item("a", Some(10)), item("b", None)];
    sort_items(&mut v, Order::Channel);
    assert_eq!(titles(&v), vec!["c", "a", "b"]);
}

#[test]
fn sorting_is_stable_regardless_of_input_order() {
    let mut v1 = vec![item("x", Some(7)), item("y", Some(7)), item("early", Some(2))];
    let mut v2 = vec![item("early", Some(2)), item("x", Some(7)), item("y", Some(7))];
    sort_items(&mut v1, Order::Date);
    sort_items(&mut v2, Order::Date);
    assert_eq!(titles(&v1), titles(&v2));
}
