//! Run configuration: the ordered list of feed sources, per-item display
//! toggles, and the global ordering selection.
use vstd::prelude::*;

verus! {

/// Toggles for displaying the fields of one item. Every field is shown by
/// default except the enclosure, which is hidden by default.
#[derive(Debug, Clone, Copy, PartialEq, Eq, Structural)]
pub struct ItemConfig {
    pub hide_title: bool,
    pub hide_link: bool,
    pub hide_description: bool,
    pub hide_author: bool,
    pub hide_pub_date: bool,
    pub show_enclosure: bool,
}

/// The default display configuration: all fields shown, enclosure hidden.
pub open spec fn default_item_config() -> ItemConfig {
    ItemConfig {
        hide_title: false,
        hide_link: false,
        hide_description: false,
        hide_author: false,
        hide_pub_date: false,
        show_enclosure: false,
    }
}

impl Default for ItemConfig {
    fn default() -> (r: Self)
        ensures
            r == default_item_config(),
    {
        ItemConfig {
            hide_title: false,
            hide_link: false,
            hide_description: false,
            hide_author: false,
            hide_pub_date: false,
            show_enclosure: false,
        }
    }
}

/// The global sort key selection for the merged item list.
#[derive(Debug, Clone, Copy, PartialEq, Eq, Structural)]
pub enum Order {
    /// Order by item publication date.
    Date,
    /// Order by item's channel. Kept with the behaviour of giving every item
    /// the same (empty) key, so it performs no reordering.
    Channel,
}

impl Order {
    /// Parse an ordering name: exactly "date" or "channel", anything else is
    /// rejected.
    pub fn from_str(s: &str) -> (r: Result<Order, String>)
        ensures
            s@ == "date"@ ==> r == Ok::<Order, String>(Order::Date),
            s@ == "channel"@ ==> r == Ok::<Order, String>(Order::Channel),
            s@ != "date"@ && s@ != "channel"@ ==> r is Err
                && r->Err_0@ == "Unrecognized Order. [date | channel]"@,
    {
        proof {
            reveal_strlit("date");
            reveal_strlit("channel");
            assert("date"@.len() == 4);
            assert("channel"@.len() == 7);
            assert("date"@ != "channel"@);
        }
        if str_eq(s, "date") {
            Ok(Order::Date)
        } else if str_eq(s, "channel") {
            Ok(Order::Channel)
        } else {
            Err("Unrecognized Order. [date | channel]".to_owned())
        }
    }
}

/// Equality of two string slices, by content.
fn str_eq(a: &str, b: &str) -> (r: bool)
    ensures
        r == (a@ == b@),
{
    a.to_owned() == b.to_owned()
}

/// Configuration of one feed source: its URL, an optional display label, an
/// optional bound on how many of its items are kept, and optional per-item
/// display toggles.
#[derive(Debug, Clone)]
pub struct ChanConfig {
    pub url: String,
    pub alias: Option<String>,
    pub max_items: Option<usize>,
    pub item_config: Option<ItemConfig>,
}

impl ChanConfig {
    /// Build a source from a bare URL string: no alias, no item cap, the
    /// default display configuration.
    pub fn from_str(s: &str) -> (r: Result<ChanConfig, String>)
        ensures
            r is Ok,
            r->Ok_0.url@ == s@,
            r->Ok_0.alias is None,
            r->Ok_0.max_items is None,
            r->Ok_0.item_config == Some(default_item_config()),
    {
        Ok(ChanConfig {
            url: s.to_owned(),
            alias: None,
            max_items: None,
            item_config: Some(ItemConfig::default()),
        })
    }

    /// The display configuration of this source: its own if set, the default
    /// otherwise.
    pub open spec fn spec_item_config(self) -> ItemConfig {
        match self.item_config {
            Some(c) => c,
            None => default_item_config(),
        }
    }
}

/// A whole run's configuration: the ordering selection and the feed sources.
#[derive(Debug)]
pub struct Config {
    pub display_by: Order,
    pub channels: Vec<ChanConfig>,
}

impl Config {
    /// Validate if this Config is usable: at least one source must be
    /// configured.
    pub fn validate(&self) -> (r: Result<(), &str>)
        ensures
            r is Ok <==> self.channels@.len() > 0,
            r is Err ==> r->Err_0@ == "No channels configured."@,
    {
        if self.channels.is_empty() {
            return Err("No channels configured.");
        }
        Ok(())
    }

    /// Override Self with `other`'s fields: `other`'s ordering always wins,
    /// and `other`'s sources win unless it has none.
    pub fn override_with(self, other: Config) -> (r: Config)
        ensures
            r.display_by == other.display_by,
            other.channels@.len() == 0 ==> r.channels == self.channels,
            other.channels@.len() > 0 ==> r.channels == other.channels,
    {
        let channels = if other.channels.is_empty() {
            self.channels
        } else {
            other.channels
        };
        Config { channels, display_by: other.display_by }
    }
}

} // verus!
