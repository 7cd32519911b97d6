//! Normalization of one raw feed entry into a display-ready record with
//! independently optional fields and a comparable publication timestamp.
use vstd::prelude::*;

use crate::config::ItemConfig;

verus! {

/// One entry of a parsed feed, as the wire-format parser hands it over:
/// every field is optional raw text.
#[derive(Debug, Clone)]
pub struct RawItem {
    /// The title of the entry.
    pub title: Option<String>,
    /// The URL of the entry.
    pub link: Option<String>,
    /// The entry synopsis.
    pub description: Option<String>,
    /// The email address of the author of the entry.
    pub author: Option<String>,
    /// The publication date as an unparsed RFC 2822 timestamp string.
    pub pub_date: Option<String>,
    /// The URL of a media object attached to the entry.
    pub enclosure_url: Option<String>,
}

/// What parsing an RFC 2822 timestamp string yields: `None` when the string
/// is not a valid RFC 2822 date, otherwise the instant as seconds since the
/// Unix epoch together with the text rendering of its local (offset-adjusted)
/// date and time. The outcome depends on the characters alone.
pub uninterp spec fn rfc2822_parse(s: Seq<char>) -> Option<(int, Seq<char>)>;

/// A successfully parsed publication timestamp: its instant, for ordering,
/// and its local-time rendering, for display.
#[derive(Debug, Clone, PartialEq, Eq)]
pub struct ParsedDate {
    /// Seconds since the Unix epoch; RFC 2822 has second granularity.
    pub epoch: i64,
    /// The local (offset-adjusted) date and time as text.
    pub local: String,
}

/// Relies on chrono's DateTime::parse_from_rfc2822, DateTime::timestamp and
/// DateTime::naive_local: whether a string is a valid RFC 2822 timestamp,
/// which instant it denotes, and that instant's local-time rendering are
/// functions of the characters alone.
#[verifier::external_body]
fn parse_rfc2822(s: &str) -> (r: Option<ParsedDate>)
    ensures
        r is Some <==> rfc2822_parse(s@) is Some,
        r is Some ==> {
            let p = rfc2822_parse(s@)->0;
            r->0.epoch as int == p.0 && r->0.local@ == p.1
        },
{
    chrono::DateTime::<chrono::FixedOffset>::parse_from_rfc2822(s).ok().map(
        |d| ParsedDate { epoch: d.timestamp(), local: d.naive_local().to_string() },
    )
}

/// The mathematical shape of a normalized display record.
#[verifier::ext_equal]
pub ghost struct DisplayItemV {
    pub chan_title: Seq<char>,
    pub conf: ItemConfig,
    pub title: Option<Seq<char>>,
    pub link: Option<Seq<char>>,
    pub description: Option<Seq<char>>,
    pub author: Option<Seq<char>>,
    pub pub_date: Option<(int, Seq<char>)>,
    pub enclosure_url: Option<Seq<char>>,
}

/// The view of an optional string: the characters, when present.
pub open spec fn opt_view(o: Option<String>) -> Option<Seq<char>> {
    match o {
        Some(s) => Some(s@),
        None => None,
    }
}

/// A normalized feed entry, ready for ordering and rendering. Each field is
/// independently optional: absence is distinct from an empty string and is
/// never rendered.
#[derive(Debug, Clone, PartialEq, Eq)]
pub struct DisplayItem {
    /// Channel name/title.
    pub chan_title: String,
    /// Item display configuration.
    pub conf: ItemConfig,
    /// The title of the item.
    pub title: Option<String>,
    /// The URL of the item.
    pub link: Option<String>,
    /// The item synopsis.
    pub description: Option<String>,
    /// The email address of the author of the item.
    pub author: Option<String>,
    /// The publication timestamp, parsed from RFC 2822; absent if the raw
    /// date was missing or unparsable.
    pub pub_date: Option<ParsedDate>,
    /// The URL of a media object attached to the item.
    pub enclosure_url: Option<String>,
}

impl View for DisplayItem {
    type V = DisplayItemV;

    open spec fn view(&self) -> DisplayItemV {
        DisplayItemV {
            chan_title: self.chan_title@,
            conf: self.conf,
            title: opt_view(self.title),
            link: opt_view(self.link),
            description: opt_view(self.description),
            author: opt_view(self.author),
            pub_date: match self.pub_date {
                Some(p) => Some((p.epoch as int, p.local@)),
                None => None,
            },
            enclosure_url: opt_view(self.enclosure_url),
        }
    }
}

/// What normalization yields for one raw entry: every text field carried over
/// as-is, and the timestamp present exactly when the raw date string is
/// present and parses as RFC 2822.
pub open spec fn normalize_spec(item: RawItem, chan_title: Seq<char>, conf: ItemConfig) -> DisplayItemV {
    DisplayItemV {
        chan_title: chan_title,
        conf: conf,
        title: opt_view(item.title),
        link: opt_view(item.link),
        description: opt_view(item.description),
        author: opt_view(item.author),
        pub_date: match item.pub_date {
            Some(d) => rfc2822_parse(d@),
            None => None,
        },
        enclosure_url: opt_view(item.enclosure_url),
    }
}

impl DisplayItem {
    /// Create a new DisplayItem from a raw feed entry. Absent or malformed
    /// fields degrade to absence, never to an error or a default value.
    pub fn new(item: RawItem, chan_title: &str, conf: &ItemConfig) -> (r: DisplayItem)
        ensures
            r@ == normalize_spec(item, chan_title@, *conf),
    {
        let pub_date = match &item.pub_date {
            Some(d) => parse_rfc2822(d.as_str()),
            None => None,
        };
        let r = DisplayItem {
            chan_title: chan_title.to_owned(),
            conf: *conf,
            title: item.title,
            link: item.link,
            description: item.description,
            author: item.author,
            pub_date,
            enclosure_url: item.enclosure_url,
        };
        proof {
            assert(r@ =~= normalize_spec(item, chan_title@, *conf));
        }
        r
    }
}

/// The views of a sequence of normalized records.
pub open spec fn views_of(s: Seq<DisplayItem>) -> Seq<DisplayItemV> {
    s.map_values(|d: DisplayItem| d@)
}

/// A raw entry whose publish-date string is absent or not a valid RFC 2822
/// timestamp normalizes to a record with an absent timestamp — never a
/// default or epoch value.
pub proof fn lemma_normalize_absent_date(item: RawItem, chan_title: Seq<char>, conf: ItemConfig)
    requires
        match item.pub_date {
            Some(d) => rfc2822_parse(d@) is None,
            None => true,
        },
    ensures
        normalize_spec(item, chan_title, conf).pub_date is None,
{
}

} // verus!
