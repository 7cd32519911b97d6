//! Rendering one normalized record as a multi-line text block: every field
//! only when present and not hidden, the channel title always.
use vstd::prelude::*;

use crate::item::{DisplayItem, DisplayItemV};

verus! {

/// The wrap width for titles and descriptions.
pub const MAX_WIDTH: usize = 80;

/// What filling text to a width with an indent (used for the first and all
/// later lines alike) yields. The outcome depends on the arguments alone.
pub uninterp spec fn wrapped(s: Seq<char>, width: int, indent: Seq<char>) -> Seq<char>;

/// Relies on textwrap::fill with textwrap::Options: word-wraps text to the
/// given width, indenting the first and all later lines with `indent`.
#[verifier::external_body]
fn wrap_text(s: &str, width: usize, indent: &str) -> (r: String)
    ensures
        r@ == wrapped(s@, width as int, indent@),
{
    textwrap::fill(
        s,
        textwrap::Options::new(width).initial_indent(indent).subsequent_indent(indent),
    )
}

/// The leading bracketed local-time stamp, when present and not hidden.
pub open spec fn date_part(d: DisplayItemV) -> Seq<char> {
    match d.pub_date {
        Some(p) => if d.conf.hide_pub_date {
            Seq::empty()
        } else {
            "["@ + p.1 + "] - "@
        },
        None => Seq::empty(),
    }
}

/// The word-wrapped title line, when present and not hidden.
pub open spec fn title_part(d: DisplayItemV) -> Seq<char> {
    match d.title {
        Some(t) => if d.conf.hide_title {
            Seq::empty()
        } else {
            wrapped(t, MAX_WIDTH as int, "     "@) + "\n"@
        },
        None => Seq::empty(),
    }
}

/// The author line, when present and not hidden.
pub open spec fn author_part(d: DisplayItemV) -> Seq<char> {
    match d.author {
        Some(a) => if d.conf.hide_author {
            Seq::empty()
        } else {
            " - "@ + a + "\n"@
        },
        None => Seq::empty(),
    }
}

/// The word-wrapped description line, when present and not hidden.
pub open spec fn description_part(d: DisplayItemV) -> Seq<char> {
    match d.description {
        Some(t) => if d.conf.hide_description {
            Seq::empty()
        } else {
            wrapped(t, MAX_WIDTH as int, "     "@) + "\n"@
        },
        None => Seq::empty(),
    }
}

/// The bracketed enclosure URL line, when present and enabled.
pub open spec fn enclosure_part(d: DisplayItemV) -> Seq<char> {
    match d.enclosure_url {
        Some(u) => if d.conf.show_enclosure {
            "["@ + u + "]\n"@
        } else {
            Seq::empty()
        },
        None => Seq::empty(),
    }
}

/// The bracketed link line, when present and not hidden.
pub open spec fn link_part(d: DisplayItemV) -> Seq<char> {
    match d.link {
        Some(u) => if d.conf.hide_link {
            Seq::empty()
        } else {
            "["@ + u + "]\n"@
        },
        None => Seq::empty(),
    }
}

/// The whole rendered block of one record: the optional timestamp, the
/// channel title line (always shown), then each optional field's line only
/// when present and not hidden.
pub open spec fn render_spec(d: DisplayItemV) -> Seq<char> {
    date_part(d) + d.chan_title + "\n"@ + title_part(d) + author_part(d) + description_part(d)
        + enclosure_part(d) + link_part(d)
}

impl DisplayItem {
    /// Build the formatted text block for this item. Rendering never fails:
    /// absent fields are simply not rendered.
    #[verifier::rlimit(60)]
    pub fn format(&self) -> (r: String)
        ensures
            r@ == render_spec(self@),
    {
        let mut out = String::new();
        match &self.pub_date {
            Some(p) => {
                if !self.conf.hide_pub_date {
                    out.push_str("[");
                    out.push_str(p.local.as_str());
                    out.push_str("] - ");
                }
            },
            None => {},
        }
        proof {
            assert(out@ =~= date_part(self@));
        }
        out.push_str(self.chan_title.as_str());
        out.push_str("\n");
        match &self.title {
            Some(t) => {
                if !self.conf.hide_title {
                    let w = wrap_text(t.as_str(), MAX_WIDTH, "     ");
                    out.push_str(w.as_str());
                    out.push_str("\n");
                }
            },
            None => {},
        }
        proof {
            assert(out@ =~= date_part(self@) + self@.chan_title + "\n"@ + title_part(self@));
        }
        match &self.author {
            Some(a) => {
                if !self.conf.hide_author {
                    out.push_str(" - ");
                    out.push_str(a.as_str());
                    out.push_str("\n");
                }
            },
            None => {},
        }
        match &self.description {
            Some(t) => {
                if !self.conf.hide_description {
                    let w = wrap_text(t.as_str(), MAX_WIDTH, "     ");
                    out.push_str(w.as_str());
                    out.push_str("\n");
                }
            },
            None => {},
        }
        proof {
            assert(out@ =~= date_part(self@) + self@.chan_title + "\n"@ + title_part(self@)
                + author_part(self@) + description_part(self@));
        }
        match &self.enclosure_url {
            Some(u) => {
                if self.conf.show_enclosure {
                    out.push_str("[");
                    out.push_str(u.as_str());
                    out.push_str("]\n");
                }
            },
            None => {},
        }
        match &self.link {
            Some(u) => {
                if !self.conf.hide_link {
                    out.push_str("[");
                    out.push_str(u.as_str());
                    out.push_str("]\n");
                }
            },
            None => {},
        }
        proof {
            assert(out@ =~= render_spec(self@));
        }
        out
    }
}

/// Render every record, in order, one text block each. A record's rendering
/// never blocks the remaining ones.
pub fn render_all(items: &Vec<DisplayItem>) -> (r: Vec<String>)
    ensures
        r@.len() == items@.len(),
        forall|i: int| 0 <= i < items@.len() ==> (#[trigger] r@[i])@ == render_spec(items@[i]@),
{
    let mut out: Vec<String> = Vec::new();
    let mut i: usize = 0;
    while i < items.len()
        invariant
            i <= items@.len(),
            out@.len() == i,
            forall|t: int| 0 <= t < i ==> (#[trigger] out@[t])@ == render_spec(items@[t]@),
        decreases items@.len() - i,
    {
        out.push(items[i].format());
        i += 1;
    }
    out
}

/// The newline characters of a text, in order.
pub open spec fn newline_filter(s: Seq<char>) -> Seq<char> {
    s.filter(|c: char| c == '\n')
}

/// How many lines a rendered block holds, counted by its newline characters
/// (every rendered line ends in one).
pub open spec fn line_count(s: Seq<char>) -> nat {
    newline_filter(s).len()
}

/// A text without newline characters has none to filter.
proof fn lemma_newline_filter_none(s: Seq<char>)
    requires
        forall|t: int| 0 <= t < s.len() ==> s[t] != '\n',
    ensures
        newline_filter(s) == Seq::<char>::empty(),
    decreases s.len(),
{
    reveal_with_fuel(Seq::filter, 2);
    if s.len() > 0 {
        lemma_newline_filter_none(s.drop_last());
    }
}

/// Rendering a record with every optional field hidden produces exactly one
/// output line: the channel title.
pub proof fn lemma_render_channel_only(d: DisplayItemV)
    requires
        d.conf.hide_pub_date,
        d.conf.hide_title,
        d.conf.hide_author,
        d.conf.hide_description,
        d.conf.hide_link,
        !d.conf.show_enclosure,
    ensures
        render_spec(d) == d.chan_title + "\n"@,
        !d.chan_title.contains('\n') ==> line_count(render_spec(d)) == 1,
{
    broadcast use vstd::seq_lib::group_filter_ensures;

    assert(render_spec(d) =~= d.chan_title + "\n"@);
    if !d.chan_title.contains('\n') {
        assert forall|t: int| 0 <= t < d.chan_title.len() implies d.chan_title[t] != '\n' by {
            assert(!d.chan_title.contains('\n'));
        }
        lemma_newline_filter_none(d.chan_title);
        reveal_strlit("\n");
        assert(newline_filter("\n"@) =~= "\n"@) by {
            reveal_with_fuel(Seq::filter, 2);
            assert("\n"@.drop_last() =~= Seq::<char>::empty());
        }
        assert(newline_filter(d.chan_title + "\n"@) =~= newline_filter(d.chan_title)
            + newline_filter("\n"@));
        assert(line_count(render_spec(d)) == 1);
    }
}

} // verus!
