//! Turning one feed source's response body into normalized records: parse the
//! document, normalize each entry, and cap the result at the source's bound.
use vstd::prelude::*;

use crate::config::{ChanConfig, ItemConfig};
use crate::item::{normalize_spec, views_of, DisplayItem, DisplayItemV, RawItem};

verus! {

/// What parsing a feed document body yields: the channel title and the
/// ordered raw entries on success, the parser's error message otherwise. The
/// outcome depends on the bytes alone.
pub uninterp spec fn feed_parse(body: Seq<u8>) -> Result<(Seq<char>, Seq<RawItem>), Seq<char>>;

/// Relies on rss's Channel::read_from: parses an RSS document from bytes into
/// a channel title and its entries' optional text fields, or reports why the
/// document is malformed.
#[verifier::external_body]
fn parse_channel(body: &Vec<u8>) -> (r: Result<(String, Vec<RawItem>), String>)
    ensures
        match feed_parse(body@) {
            Ok(p) => r is Ok && r->Ok_0.0@ == p.0 && r->Ok_0.1@ == p.1,
            Err(m) => r is Err && r->Err_0@ == m,
        },
{
    match rss::Channel::read_from(&body[..]) {
        Ok(c) => Ok((c.title, c.items.into_iter().map(|i| RawItem {
            title: i.title, link: i.link, description: i.description, author: i.author,
            pub_date: i.pub_date, enclosure_url: i.enclosure.map(|e| e.url),
        }).collect())),
        Err(e) => Err(e.to_string()),
    }
}

/// Why one source yielded no items: the transport failed, or the response
/// body was not a well-formed feed document.
#[derive(Debug, Clone, PartialEq, Eq)]
pub enum FetchError {
    /// Transport/connection failure, with the transport's message.
    Network(String),
    /// Malformed feed document, with the parser's message.
    Parse(String),
}

/// How many records a source keeps: its bound when one is set and smaller
/// than what is available, everything available otherwise.
pub open spec fn cap_of(max_items: Option<usize>, n: int) -> int {
    match max_items {
        Some(m) => if m as int <= n { m as int } else { n },
        None => n,
    }
}

/// Every raw entry normalized, in feed order.
pub open spec fn normalized_seq(title: Seq<char>, raws: Seq<RawItem>, conf: ItemConfig) -> Seq<DisplayItemV> {
    raws.map_values(|r: RawItem| normalize_spec(r, title, conf))
}

/// What a successful fetch of one source yields: the first `cap_of` raw
/// entries, normalized with the source's display configuration.
pub open spec fn fetch_spec(title: Seq<char>, raws: Seq<RawItem>, conf: ChanConfig) -> Seq<DisplayItemV> {
    normalized_seq(title, raws, conf.spec_item_config()).take(cap_of(conf.max_items, raws.len() as int))
}

/// Normalize a parsed feed's entries and truncate to the source's bound.
pub fn fetch_items(title: &str, raws: Vec<RawItem>, conf: &ChanConfig) -> (r: Vec<DisplayItem>)
    ensures
        views_of(r@) == fetch_spec(title@, raws@, *conf),
        r@.len() == cap_of(conf.max_items, raws@.len() as int),
{
    let ic: ItemConfig = match &conf.item_config {
        Some(c) => *c,
        None => ItemConfig::default(),
    };
    let n = raws.len();
    let cap: usize = match &conf.max_items {
        Some(m) => if *m <= n { *m } else { n },
        None => n,
    };
    let mut rest = raws;
    let ghost orig = rest@;
    let mut out: Vec<DisplayItem> = Vec::new();
    let mut i: usize = 0;
    while i < cap
        invariant
            i <= cap,
            cap as int == cap_of(conf.max_items, orig.len() as int),
            cap <= orig.len(),
            rest@ == orig.skip(i as int),
            out@.len() == i,
            views_of(out@) == normalized_seq(title@, orig, ic).take(i as int),
            ic == conf.spec_item_config(),
        decreases cap - i,
    {
        proof {
            assert(rest@.len() == orig.len() - i);
            assert(rest@[0] == orig[i as int]);
        }
        let raw = rest.remove(0);
        let d = DisplayItem::new(raw, title, &ic);
        out.push(d);
        i += 1;
        proof {
            assert(rest@ =~= orig.skip(i as int));
            assert(normalized_seq(title@, orig, ic)[i - 1] == normalize_spec(orig[i - 1], title@, ic));
            assert(views_of(out@) =~= normalized_seq(title@, orig, ic).take(i as int));
        }
    }
    proof {
        assert(views_of(out@) == fetch_spec(title@, orig, *conf));
    }
    out
}

/// Parse one source's response body and yield its normalized, capped records,
/// or the parse failure.
pub fn fetch_from_body(body: &Vec<u8>, conf: &ChanConfig) -> (r: Result<Vec<DisplayItem>, FetchError>)
    ensures
        match feed_parse(body@) {
            Ok(p) => r is Ok && views_of(r->Ok_0@) == fetch_spec(p.0, p.1, *conf),
            Err(m) => r matches Err(FetchError::Parse(s)) && s@ == m,
        },
{
    match parse_channel(body) {
        Ok((title, raws)) => Ok(fetch_items(title.as_str(), raws, conf)),
        Err(m) => Err(FetchError::Parse(m)),
    }
}

/// A successful fetch never yields more than `max_items` records when the
/// bound is set, and yields all available records when it is unset.
pub proof fn lemma_fetch_cap(title: Seq<char>, raws: Seq<RawItem>, conf: ChanConfig)
    ensures
        conf.max_items matches Some(m) ==> fetch_spec(title, raws, conf).len() <= m,
        conf.max_items is None ==> fetch_spec(title, raws, conf).len() == raws.len(),
{
}

} // verus!
