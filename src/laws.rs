//! Properties of the engine that relate several of its steps or hold for
//! every input, proved from the contracts of `query` and `orchestrate`.
use vstd::prelude::*;
use crate::error::ErrorKind;
use crate::orchestrate::{ActionView, Event, PendingView, PhaseView, StatusView};
use crate::plan::Update;
use crate::query::{list_verdict, status_ok, version_verdict, HttpOutcome};
use crate::release::{NetResponse, ReleaseView, Soft};

verus! {

/// An envelope that reports no success means "no release", whatever its
/// content, for a list request and for a request by tag alike.
pub proof fn lemma_unsuccessful_envelope_is_not_found(
    status: u16,
    list: NetResponse<Vec<Soft>>,
    one: NetResponse<Soft>,
    root: Seq<char>,
    target: Option<Seq<char>>,
)
    requires
        status_ok(status),
        !list.is_success,
        !one.is_success,
    ensures
        list_verdict(HttpOutcome::Response { status, body: Ok(list) }, root, target)
            == Err::<Seq<ReleaseView>, ErrorKind>(ErrorKind::ReleaseNotFound),
        version_verdict(HttpOutcome::Response { status, body: Ok(one) }, root)
            == Err::<ReleaseView, ErrorKind>(ErrorKind::ReleaseNotFound),
{
}

/// With version comparison on, a resolved release whose version is the
/// installed one ends the run as up to date, and nothing is applied.
pub proof fn lemma_current_version_is_skipped(plan: Update, event: Event)
    requires
        !plan.ignore_ver_compare,
        plan.resolve_verdict(event) matches Ok(rel) && rel.version == plan.current_version@,
    ensures
        plan.next(PhaseView::Resolving, event) == (
            PhaseView::Finished,
            ActionView::Report(Ok(StatusView::UpToDate(plan.current_version@))),
        ),
        !(plan.next(PhaseView::Resolving, event).1 is Apply),
{
}

/// With version comparison off, a resolved release with a binary to fetch is
/// applied, whatever its version: at once, or right after the before-hook,
/// whatever that hook's outcome.
pub proof fn lemma_ignored_comparison_applies(plan: Update, event: Event, hook_succeeded: bool)
    requires
        plan.ignore_ver_compare,
        plan.resolve_verdict(event) is Ok,
        plan.asset_url(plan.resolve_verdict(event)->Ok_0) is Some,
    ensures
        ({
            let url = plan.asset_url(plan.resolve_verdict(event)->Ok_0)->Some_0;
            let first = plan.next(PhaseView::Resolving, event);
            &&& plan.before_cmd is None ==> first.1 == ActionView::Apply(url)
            &&& plan.before_cmd is Some ==> first.1 == ActionView::RunHook(plan.before_cmd->Some_0@)
                && plan.next(first.0, Event::HookDone { succeeded: hook_succeeded }).1
                == ActionView::Apply(url)
        }),
{
}

/// A failed apply step is followed by the after-hook, run once, and only
/// then is the failure reported, whatever the hook's outcome.
pub proof fn lemma_failed_apply_runs_after_hook(
    plan: Update,
    pending: PendingView,
    message: String,
    hook_succeeded: bool,
)
    requires
        plan.after_cmd is Some,
    ensures
        ({
            let first = plan.next(PhaseView::Applying(pending), Event::ApplyDone(Err(message)));
            &&& first == (
                PhaseView::AfterHook(pending.version, Err(message@)),
                ActionView::RunHook(plan.after_cmd->Some_0@),
            )
            &&& plan.next(first.0, Event::HookDone { succeeded: hook_succeeded }) == (
                PhaseView::Finished,
                ActionView::Report(Err(ErrorKind::Apply)),
            )
        }),
{
}

} // verus!
