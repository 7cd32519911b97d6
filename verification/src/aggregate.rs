//! Merging every source's outcome into one run result: successful sources
//! contribute their records in source order, failed sources contribute one
//! formatted error string each, and no failure aborts the run.
use vstd::prelude::*;

use crate::config::ChanConfig;
use crate::fetch::{feed_parse, fetch_from_body, fetch_spec, FetchError};
use crate::item::{views_of, DisplayItem, DisplayItemV};

verus! {

/// The views of a sequence of strings.
pub open spec fn strs_of(s: Seq<String>) -> Seq<Seq<char>> {
    s.map_values(|x: String| x@)
}

/// The diagnostic line for a source whose transport failed.
pub open spec fn network_error_msg(m: Seq<char>) -> Seq<char> {
    "Could not reach rss: ["@ + m + "]"@
}

/// The diagnostic line for a source whose response was not a feed document.
pub open spec fn parse_error_msg(m: Seq<char>) -> Seq<char> {
    "Could not parse rss response from chan: ["@ + m + "]"@
}

/// The diagnostic line for one fetch failure.
pub open spec fn format_error_spec(e: FetchError) -> Seq<char> {
    match e {
        FetchError::Network(m) => network_error_msg(m@),
        FetchError::Parse(m) => parse_error_msg(m@),
    }
}

/// Render one fetch failure as its diagnostic line.
pub fn format_error(e: &FetchError) -> (r: String)
    ensures
        r@ == format_error_spec(*e),
{
    match e {
        FetchError::Network(m) => {
            let mut s = "Could not reach rss: [".to_owned();
            s.push_str(m.as_str());
            s.push_str("]");
            s
        },
        FetchError::Parse(m) => {
            let mut s = "Could not parse rss response from chan: [".to_owned();
            s.push_str(m.as_str());
            s.push_str("]");
            s
        },
    }
}

/// What one source contributes to the run, given its transport outcome: its
/// capped records on success, one diagnostic line otherwise.
pub open spec fn source_outcome(conf: ChanConfig, resp: Result<Vec<u8>, String>) -> Result<
    Seq<DisplayItemV>,
    Seq<char>,
> {
    match resp {
        Ok(body) => match feed_parse(body@) {
            Ok(p) => Ok(fetch_spec(p.0, p.1, conf)),
            Err(m) => Err(parse_error_msg(m)),
        },
        Err(m) => Err(network_error_msg(m@)),
    }
}

/// All records of the run: the successful sources' records, concatenated in
/// source order.
pub open spec fn items_of(sources: Seq<ChanConfig>, resps: Seq<Result<Vec<u8>, String>>) -> Seq<
    DisplayItemV,
>
    decreases sources.len(),
{
    if sources.len() == 0 {
        Seq::empty()
    } else {
        items_of(sources.drop_last(), resps.drop_last()) + (match source_outcome(
            sources.last(),
            resps.last(),
        ) {
            Ok(items) => items,
            Err(_) => Seq::empty(),
        })
    }
}

/// All diagnostic lines of the run: one per failed source, in source order.
pub open spec fn errors_of(sources: Seq<ChanConfig>, resps: Seq<Result<Vec<u8>, String>>) -> Seq<
    Seq<char>,
>
    decreases sources.len(),
{
    if sources.len() == 0 {
        Seq::empty()
    } else {
        errors_of(sources.drop_last(), resps.drop_last()) + (match source_outcome(
            sources.last(),
            resps.last(),
        ) {
            Ok(_) => Seq::empty(),
            Err(m) => seq![m],
        })
    }
}

/// How many sources succeeded in full.
pub open spec fn success_count(sources: Seq<ChanConfig>, resps: Seq<Result<Vec<u8>, String>>) -> int
    decreases sources.len(),
{
    if sources.len() == 0 {
        0
    } else {
        success_count(sources.drop_last(), resps.drop_last()) + (match source_outcome(
            sources.last(),
            resps.last(),
        ) {
            Ok(_) => 1int,
            Err(_) => 0int,
        })
    }
}

/// The two independent outputs of one run: the merged records and one error
/// message per failed source. No ordering relation holds between the two.
#[derive(Debug)]
pub struct RunResult {
    pub items: Vec<DisplayItem>,
    pub errors: Vec<String>,
}

/// The count of reported errors plus the count of fully-successful sources
/// equals the total configured source count.
pub proof fn lemma_errors_partition(sources: Seq<ChanConfig>, resps: Seq<Result<Vec<u8>, String>>)
    requires
        resps.len() == sources.len(),
    ensures
        errors_of(sources, resps).len() + success_count(sources, resps) == sources.len(),
    decreases sources.len(),
{
    if sources.len() > 0 {
        lemma_errors_partition(sources.drop_last(), resps.drop_last());
    }
}

/// A run in which every source fails yields no items at all, and one
/// diagnostic line per source.
pub proof fn lemma_all_fail_no_items(sources: Seq<ChanConfig>, resps: Seq<Result<Vec<u8>, String>>)
    requires
        resps.len() == sources.len(),
        forall|i: int|
            0 <= i < sources.len() ==> (#[trigger] source_outcome(sources[i], resps[i])) is Err,
    ensures
        items_of(sources, resps).len() == 0,
        errors_of(sources, resps).len() == sources.len(),
    decreases sources.len(),
{
    if sources.len() > 0 {
        assert(source_outcome(sources.last(), resps.last()) is Err);
        lemma_all_fail_no_items(sources.drop_last(), resps.drop_last());
    }
}

/// Merge every source's outcome into one run result. A failing source
/// contributes exactly one formatted error string and no items; it never
/// aborts the run. Successful sources contribute their capped records in
/// source order.
pub fn aggregate(sources: &Vec<ChanConfig>, responses: &Vec<Result<Vec<u8>, String>>) -> (r:
    RunResult)
    requires
        responses@.len() == sources@.len(),
    ensures
        views_of(r.items@) == items_of(sources@, responses@),
        strs_of(r.errors@) == errors_of(sources@, responses@),
        r.errors@.len() + success_count(sources@, responses@) == sources@.len(),
{
    let mut items: Vec<DisplayItem> = Vec::new();
    let mut errors: Vec<String> = Vec::new();
    let n = sources.len();
    let mut i: usize = 0;
    while i < n
        invariant
            i <= n,
            n == sources@.len() == responses@.len(),
            views_of(items@) == items_of(sources@.take(i as int), responses@.take(i as int)),
            strs_of(errors@) == errors_of(sources@.take(i as int), responses@.take(i as int)),
        decreases n - i,
    {
        let ghost pre_items = items@;
        let ghost pre_errors = errors@;
        match &responses[i] {
            Ok(body) => match fetch_from_body(body, &sources[i]) {
                Ok(mut got) => {
                    proof {
                        assert(views_of(items@ + got@) =~= views_of(items@) + views_of(got@));
                    }
                    items.append(&mut got);
                },
                Err(e) => {
                    errors.push(format_error(&e));
                },
            },
            Err(m) => {
                let e = FetchError::Network(m.clone());
                errors.push(format_error(&e));
            },
        }
        i += 1;
        proof {
            let s1 = sources@.take(i as int);
            let r1 = responses@.take(i as int);
            assert(s1.drop_last() =~= sources@.take(i - 1));
            assert(r1.drop_last() =~= responses@.take(i - 1));
            assert(s1.last() == sources@[i - 1]);
            assert(r1.last() == responses@[i - 1]);
            assert(views_of(items@) =~= items_of(s1, r1));
            assert(strs_of(errors@) =~= errors_of(s1, r1));
        }
    }
    proof {
        assert(sources@.take(n as int) =~= sources@);
        assert(responses@.take(n as int) =~= responses@);
        lemma_errors_partition(sources@, responses@);
        assert(strs_of(errors@).len() == errors@.len());
    }
    RunResult { items, errors }
}

} // verus!
