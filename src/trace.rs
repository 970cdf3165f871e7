use vstd::prelude::*;

use crate::config::url_error;
use crate::request::{empty_name_message, short_interval_message, CliView};
use crate::session::{
    begin_spec, not_running_message, step_spec, ActionView, EventView, SessionView, Stage,
};

verus! {

/// The actions a run in state `s` answers the events `evs` with, one for each.
pub open spec fn run_from(s: SessionView, evs: Seq<EventView>) -> Seq<ActionView>
    decreases evs.len(),
{
    if evs.len() == 0 {
        seq![]
    } else {
        let (t, a) = step_spec(s, evs[0]);
        seq![a] + run_from(t, evs.drop_first())
    }
}

/// Everything a run for the request `c` asks for: its first action, then its
/// answer to each of the events `evs`.
pub open spec fn trace(c: CliView, evs: Seq<EventView>) -> Seq<ActionView> {
    seq![begin_spec(c).1] + run_from(begin_spec(c).0, evs)
}

/// The run answers each event with exactly one action, and the answer to the
/// first event comes first.
pub proof fn lemma_run_from_shape(s: SessionView, evs: Seq<EventView>)
    ensures
        run_from(s, evs).len() == evs.len(),
        evs.len() > 0 ==> run_from(s, evs)[0] == step_spec(s, evs[0]).1,
        forall|i: int|
            0 < i < evs.len() ==> #[trigger] run_from(s, evs)[i] == run_from(
                step_spec(s, evs[0]).0,
                evs.drop_first(),
            )[i - 1],
    decreases evs.len(),
{
    if evs.len() > 0 {
        lemma_run_from_shape(step_spec(s, evs[0]).0, evs.drop_first());
    }
}

/// A run that is over answers every further event with a failure.
pub proof fn lemma_finished_run_only_fails(s: SessionView, evs: Seq<EventView>)
    requires
        s.stage == Stage::Done,
    ensures
        run_from(s, evs).len() == evs.len(),
        forall|i: int| 0 <= i < evs.len() ==> #[trigger] run_from(s, evs)[i] is Fail,
    decreases evs.len(),
{
    lemma_run_from_shape(s, evs);
    if evs.len() > 0 {
        let t = step_spec(s, evs[0]).0;
        lemma_finished_run_only_fails(t, evs.drop_first());
    }
}

/// A request with an empty process name fails at once with the empty-name
/// message, and the run never asks for anything but failures: in particular
/// no process is ever looked up.
pub proof fn empty_name_fails_before_lookup(c: CliView, evs: Seq<EventView>)
    requires
        c.process_name.len() == 0,
    ensures
        trace(c, evs).len() == evs.len() + 1,
        trace(c, evs)[0] == ActionView::Fail(empty_name_message()),
        forall|i: int| 0 <= i < trace(c, evs).len() ==> #[trigger] trace(c, evs)[i] is Fail,
{
    lemma_finished_run_only_fails(begin_spec(c).0, evs);
    assert forall|i: int| 0 <= i < trace(c, evs).len() implies #[trigger] trace(c, evs)[i] is Fail by {
        if i > 0 {
            assert(trace(c, evs)[i] == run_from(begin_spec(c).0, evs)[i - 1]);
        }
    }
}

/// A request with a poll interval under one second fails at once (with the
/// interval message, unless the name is empty too), and the run never asks
/// for anything but failures: in particular no process is ever looked up.
pub proof fn short_interval_fails_before_lookup(c: CliView, evs: Seq<EventView>)
    requires
        c.interval < 1,
    ensures
        trace(c, evs).len() == evs.len() + 1,
        c.process_name.len() > 0 ==> trace(c, evs)[0] == ActionView::Fail(short_interval_message()),
        forall|i: int| 0 <= i < trace(c, evs).len() ==> #[trigger] trace(c, evs)[i] is Fail,
{
    lemma_finished_run_only_fails(begin_spec(c).0, evs);
    assert forall|i: int| 0 <= i < trace(c, evs).len() implies #[trigger] trace(c, evs)[i] is Fail by {
        if i > 0 {
            assert(trace(c, evs)[i] == run_from(begin_spec(c).0, evs)[i - 1]);
        }
    }
}

/// When the lookup finds no process with the name, dry run or not, the run
/// fails with the not-running message and never asks for anything but
/// failures afterwards: no notification is sent.
pub proof fn absent_process_fails_without_notification(s: SessionView, evs: Seq<EventView>)
    requires
        s.stage == Stage::LookingUp,
    ensures
        ({
            let r = run_from(s, seq![EventView::LookedUp(None)] + evs);
            &&& r.len() == evs.len() + 1
            &&& r[0] == ActionView::Fail(not_running_message(s.cli.process_name))
            &&& forall|i: int| 0 <= i < r.len() ==> #[trigger] r[i] is Fail
        }),
{
    let all = seq![EventView::LookedUp(None)] + evs;
    assert(all.drop_first() =~= evs);
    lemma_run_from_shape(s, all);
    lemma_finished_run_only_fails(step_spec(s, all[0]).0, evs);
}

/// Reading the webhook variable that fails, or gives an empty value or one
/// that does not begin with `http`, ends the run with a failure before any
/// process is looked up or watched, and nothing but failures follow.
pub proof fn invalid_url_fails_before_watch(
    s: SessionView,
    value: Result<Seq<char>, Seq<char>>,
    evs: Seq<EventView>,
)
    requires
        s.stage == Stage::ReadingUrl,
        value matches Ok(v) ==> url_error(v) is Some,
    ensures
        ({
            let r = run_from(s, seq![EventView::UrlRead(value)] + evs);
            &&& r.len() == evs.len() + 1
            &&& forall|i: int| 0 <= i < r.len() ==> #[trigger] r[i] is Fail
        }),
{
    let all = seq![EventView::UrlRead(value)] + evs;
    assert(all.drop_first() =~= evs);
    lemma_run_from_shape(s, all);
    lemma_finished_run_only_fails(step_spec(s, all[0]).0, evs);
}

/// In any state, a process lookup is asked for only in answer to a webhook
/// url that was read and accepted.
pub proof fn lemma_lookup_answers_valid_url(s: SessionView, evs: Seq<EventView>)
    ensures
        run_from(s, evs).len() == evs.len(),
        forall|i: int|
            0 <= i < evs.len() && (#[trigger] run_from(s, evs)[i]) is LookUp ==> (
            evs[i] matches EventView::UrlRead(Ok(v)) && url_error(v) is None),
    decreases evs.len(),
{
    lemma_run_from_shape(s, evs);
    if evs.len() > 0 {
        lemma_lookup_answers_valid_url(step_spec(s, evs[0]).0, evs.drop_first());
    }
}

/// Unless it is a dry run, a run looks a process up only right after the
/// webhook url was read and accepted: the url is resolved before watching
/// begins.
pub proof fn url_resolved_before_lookup(c: CliView, evs: Seq<EventView>)
    requires
        !c.dry_run,
    ensures
        trace(c, evs).len() == evs.len() + 1,
        trace(c, evs)[0] !is LookUp,
        forall|i: int|
            0 <= i < evs.len() && (#[trigger] trace(c, evs)[i + 1]) is LookUp ==> (
            evs[i] matches EventView::UrlRead(Ok(v)) && url_error(v) is None),
{
    lemma_lookup_answers_valid_url(begin_spec(c).0, evs);
    assert forall|i: int| 0 <= i < evs.len() implies #[trigger] trace(c, evs)[i + 1]
        == run_from(begin_spec(c).0, evs)[i] by {}
}

/// The states a dry run can reach: no url, and not resolving one.
pub open spec fn resolves_nothing(s: SessionView) -> bool {
    &&& s.url is None
    &&& s.stage !is LoadingEnv
    &&& s.stage !is ReadingUrl
}

/// From a state that resolves nothing, a run never asks to load a `.env`
/// file, to read the webhook variable, or to send a notification.
pub proof fn lemma_quiet_run(s: SessionView, evs: Seq<EventView>)
    requires
        resolves_nothing(s),
    ensures
        run_from(s, evs).len() == evs.len(),
        forall|i: int|
            0 <= i < evs.len() ==> {
                let a = #[trigger] run_from(s, evs)[i];
                &&& a !is LoadEnvFile
                &&& a !is ReadUrl
                &&& a !is Notify
            },
    decreases evs.len(),
{
    lemma_run_from_shape(s, evs);
    if evs.len() > 0 {
        lemma_quiet_run(step_spec(s, evs[0]).0, evs.drop_first());
    }
}

/// A dry run never loads a `.env` file, never reads the webhook variable and
/// never sends a notification, whatever it observes.
pub proof fn dry_run_resolves_and_sends_nothing(c: CliView, evs: Seq<EventView>)
    requires
        c.dry_run,
    ensures
        trace(c, evs).len() == evs.len() + 1,
        forall|i: int|
            0 <= i < trace(c, evs).len() ==> {
                let a = #[trigger] trace(c, evs)[i];
                &&& a !is LoadEnvFile
                &&& a !is ReadUrl
                &&& a !is Notify
            },
{
    lemma_quiet_run(begin_spec(c).0, evs);
    assert forall|i: int| 0 < i < trace(c, evs).len() implies #[trigger] trace(c, evs)[i]
        == run_from(begin_spec(c).0, evs)[i - 1] by {}
}

} // verus!
