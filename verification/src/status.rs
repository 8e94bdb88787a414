//! The partial-failure status model: a batch of checks is classified as
//! fully satisfied or partially unsatisfied, carrying the evidence for both.

use vstd::prelude::*;
use crate::executor::CommandOutcome;
use crate::text;

verus! {

/// Spec-level shape of a `Status`.
pub enum StatusView {
    Installed { success: Seq<Seq<char>> },
    NotInstalled { success: Seq<Seq<char>>, fail: Seq<Seq<char>> },
}

/// The satisfied / unsatisfied result of one capability check, with the
/// itemized evidence in the order the items were checked.
#[derive(Debug)]
pub enum Status {
    Installed { success: Vec<String> },
    NotInstalled { success: Vec<String>, fail: Vec<String> },
}

impl View for Status {
    type V = StatusView;

    open spec fn view(&self) -> StatusView {
        match self {
            Status::Installed { success } => StatusView::Installed {
                success: success.deep_view(),
            },
            Status::NotInstalled { success, fail } => StatusView::NotInstalled {
                success: success.deep_view(),
                fail: fail.deep_view(),
            },
        }
    }
}

/// What `Status::new` yields: satisfied exactly when the failure list is
/// empty, and both evidence lists keep the caller's order untouched.
pub open spec fn status_new_spec(success: Seq<Seq<char>>, failure: Seq<Seq<char>>) -> StatusView {
    if failure.len() == 0 {
        StatusView::Installed { success }
    } else {
        StatusView::NotInstalled { success, fail: failure }
    }
}

impl Status {
    pub fn new(success: Vec<String>, failure: Vec<String>) -> (r: Status)
        ensures
            r@ == status_new_spec(success.deep_view(), failure.deep_view()),
    {
        if failure.is_empty() {
            Status::Installed { success }
        } else {
            Status::NotInstalled { success, fail: failure }
        }
    }

    pub fn is_satisfied(&self) -> (r: bool)
        ensures
            r == (self@ matches StatusView::Installed { .. }),
    {
        match self {
            Status::Installed { .. } => true,
            Status::NotInstalled { .. } => false,
        }
    }

    /// Renders the compact report text the dispatcher prints beside the
    /// capability name: the variant, with each non-empty evidence list in
    /// stored order, its items quoted.
    pub fn render(&self) -> (r: String)
        ensures
            r@ == status_render_spec(self@),
    {
        match self {
            Status::Installed { success } => {
                if success.len() == 0 {
                    "Installed".to_owned()
                } else {
                    let mut out = "Installed { success: ".to_owned();
                    out.append(render_list(success).as_str());
                    out.append(" }");
                    out
                }
            },
            Status::NotInstalled { success, fail } => {
                if success.len() == 0 && fail.len() == 0 {
                    "NotInstalled".to_owned()
                } else if fail.len() == 0 {
                    let mut out = "NotInstalled { success: ".to_owned();
                    out.append(render_list(success).as_str());
                    out.append(" }");
                    out
                } else if success.len() == 0 {
                    let mut out = "NotInstalled { fail: ".to_owned();
                    out.append(render_list(fail).as_str());
                    out.append(" }");
                    out
                } else {
                    let mut out = "NotInstalled { success: ".to_owned();
                    out.append(render_list(success).as_str());
                    out.append(", fail: ");
                    out.append(render_list(fail).as_str());
                    out.append(" }");
                    out
                }
            },
        }
    }
}

/// An evidence list as the report shows it: the items quoted, comma
/// separated, bracketed.
pub open spec fn rendered_list_spec(items: Seq<Seq<char>>) -> Seq<char> {
    "["@ + text::join_seq(items.map_values(|s: Seq<char>| text::quoted_spec(s)), ", "@) + "]"@
}

/// The compact report text of a status: the variant name, with each
/// non-empty evidence list in stored order.
pub open spec fn status_render_spec(v: StatusView) -> Seq<char> {
    match v {
        StatusView::Installed { success } => {
            if success.len() == 0 {
                "Installed"@
            } else {
                "Installed { success: "@ + rendered_list_spec(success) + " }"@
            }
        },
        StatusView::NotInstalled { success, fail } => {
            if success.len() == 0 && fail.len() == 0 {
                "NotInstalled"@
            } else if fail.len() == 0 {
                "NotInstalled { success: "@ + rendered_list_spec(success) + " }"@
            } else if success.len() == 0 {
                "NotInstalled { fail: "@ + rendered_list_spec(fail) + " }"@
            } else {
                "NotInstalled { success: "@ + rendered_list_spec(success) + ", fail: "@
                    + rendered_list_spec(fail) + " }"@
            }
        },
    }
}

fn render_list(items: &Vec<String>) -> (r: String)
    ensures
        r@ == rendered_list_spec(items.deep_view()),
{
    let ghost dv = items.deep_view();
    let ghost mapped = dv.map_values(|s: Seq<char>| text::quoted_spec(s));
    let mut out = "[".to_owned();
    let mut i: usize = 0;
    proof {
        assert(out@ + text::join_seq(mapped.subrange(0, 0), ", "@) =~= out@);
    }
    while i < items.len()
        invariant
            i <= items@.len(),
            dv == items.deep_view(),
            mapped == dv.map_values(|s: Seq<char>| text::quoted_spec(s)),
            dv.len() == items@.len(),
            mapped.len() == items@.len(),
            out@ == "["@ + text::join_seq(mapped.subrange(0, i as int), ", "@),
        decreases items@.len() - i,
    {
        if i > 0 {
            out.append(", ");
        }
        out.append(text::quoted(items[i].as_str()).as_str());
        proof {
            let cur = mapped.subrange(0, i + 1);
            assert(cur.drop_last() =~= mapped.subrange(0, i as int));
            assert(dv[i as int] == items@[i as int]@);
            assert(cur.last() == text::quoted_spec(items@[i as int]@));
        }
        i = i + 1;
    }
    out.append("]");
    proof {
        assert(mapped.subrange(0, mapped.len() as int) =~= mapped);
        assert(out@ =~= rendered_list_spec(dv));
    }
    out
}

pub open spec fn found_line_spec(item: Seq<char>) -> Seq<char> {
    item + " found"@
}

pub open spec fn missing_line_spec(item: Seq<char>) -> Seq<char> {
    item + " missing"@
}

/// The satisfied evidence of a batch of per-item existence probes: one
/// found line per item whose probe exited zero, in declared order.
pub open spec fn probe_successes(items: Seq<Seq<char>>, exits: Seq<u32>) -> Seq<Seq<char>>
    decreases items.len(),
{
    if items.len() == 0 {
        Seq::empty()
    } else {
        let rest = probe_successes(items.drop_last(), exits.drop_last());
        if exits[items.len() - 1] == 0 {
            rest + seq![found_line_spec(items.last())]
        } else {
            rest
        }
    }
}

/// The gaps of a batch of per-item existence probes: one missing line per
/// item whose probe exited non-zero, in declared order.
pub open spec fn probe_failures(items: Seq<Seq<char>>, exits: Seq<u32>) -> Seq<Seq<char>>
    decreases items.len(),
{
    if items.len() == 0 {
        Seq::empty()
    } else {
        let rest = probe_failures(items.drop_last(), exits.drop_last());
        if exits[items.len() - 1] == 0 {
            rest
        } else {
            rest + seq![missing_line_spec(items.last())]
        }
    }
}

pub open spec fn outcome_exits(outcomes: Seq<CommandOutcome>) -> Seq<u32> {
    outcomes.map_values(|o: CommandOutcome| o.exit_status)
}

/// Folds a batch of per-item existence probes into one status; each item is
/// judged independently by its own probe's exit status.
pub fn probe_status(items: &Vec<String>, outcomes: &Vec<CommandOutcome>) -> (r: Status)
    requires
        outcomes@.len() == items@.len(),
    ensures
        r@ == status_new_spec(
            probe_successes(items.deep_view(), outcome_exits(outcomes@)),
            probe_failures(items.deep_view(), outcome_exits(outcomes@)),
        ),
{
    let ghost iv = items.deep_view();
    let ghost exits = outcome_exits(outcomes@);
    let mut success: Vec<String> = Vec::new();
    let mut fail: Vec<String> = Vec::new();
    let mut i: usize = 0;
    while i < items.len()
        invariant
            i <= items@.len(),
            iv == items.deep_view(),
            exits == outcome_exits(outcomes@),
            iv.len() == items@.len(),
            exits.len() == items@.len(),
            outcomes@.len() == items@.len(),
            success.deep_view() == probe_successes(
                iv.subrange(0, i as int),
                exits.subrange(0, i as int),
            ),
            fail.deep_view() == probe_failures(
                iv.subrange(0, i as int),
                exits.subrange(0, i as int),
            ),
        decreases items@.len() - i,
    {
        if outcomes[i].exit_status == 0 {
            let mut line = items[i].clone();
            line.append(" found");
            success.push(line);
        } else {
            let mut line = items[i].clone();
            line.append(" missing");
            fail.push(line);
        }
        proof {
            let ipre = iv.subrange(0, i + 1);
            let epre = exits.subrange(0, i + 1);
            assert(ipre.drop_last() =~= iv.subrange(0, i as int));
            assert(epre.drop_last() =~= exits.subrange(0, i as int));
            assert(ipre.last() == iv[i as int]);
            assert(epre[ipre.len() - 1] == exits[i as int]);
            if exits[i as int] == 0 {
                assert(success.deep_view() =~= probe_successes(
                    iv.subrange(0, i as int),
                    exits.subrange(0, i as int),
                ) + seq![found_line_spec(iv[i as int])]);
            } else {
                assert(fail.deep_view() =~= probe_failures(
                    iv.subrange(0, i as int),
                    exits.subrange(0, i as int),
                ) + seq![missing_line_spec(iv[i as int])]);
            }
        }
        i = i + 1;
    }
    proof {
        assert(iv.subrange(0, iv.len() as int) =~= iv);
        assert(exits.subrange(0, exits.len() as int) =~= exits);
    }
    Status::new(success, fail)
}

/// Every probed item lands in exactly one of the two evidence lists: the
/// items are judged independently, none dropped and none counted twice.
pub proof fn lemma_probe_partition(items: Seq<Seq<char>>, exits: Seq<u32>)
    ensures
        probe_successes(items, exits).len() + probe_failures(items, exits).len() == items.len(),
    decreases items.len(),
{
    if items.len() > 0 {
        lemma_probe_partition(items.drop_last(), exits.drop_last());
    }
}

/// For every pair of evidence lists, the aggregate is satisfied if and only
/// if the failure list is empty, and the evidence keeps the input order.
pub proof fn lemma_status_new_satisfied(success: Seq<Seq<char>>, failure: Seq<Seq<char>>)
    ensures
        (status_new_spec(success, failure) matches StatusView::Installed { .. }) <==> failure.len()
            == 0,
        match status_new_spec(success, failure) {
            StatusView::Installed { success: s } => s == success,
            StatusView::NotInstalled { success: s, fail: f } => s == success && f == failure,
        },
{
}

} // verus!
