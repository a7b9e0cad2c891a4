//! What holds of every run, stated over the machine's model and proved.

use crate::error::{kind_of, Ancestor, ErrorKind, LinkErrorView};
use crate::machine::{next, outcome_of, present, request_of, ActionView, EventView, StateView};
use crate::paths::path_parent;
use crate::plan::{install_dirs_of, link_for, InstallDirsView, LinkPlanView};
use crate::text::trimmed;
use vstd::prelude::*;
use vstd::utf8::{decode_utf8, valid_utf8};

verus! {

/// The state of a run that was told the executable's path and then what git
/// printed.
pub open spec fn derived(executable: Seq<char>, output: Seq<u8>) -> StateView {
    next(
        next(StateView::AwaitingExecutable, EventView::ExecutableResolved(executable)),
        EventView::ExecPathReported(output),
    )
}

/// An executable with two directories above it has the nearer one as its
/// binary directory and the farther one as its base directory, and the run
/// goes on from the base directory to ask git.
pub proof fn law_two_ancestors(executable: Seq<char>, binary_dir: Seq<char>, base_dir: Seq<char>)
    requires
        path_parent(executable) == Some(binary_dir),
        path_parent(binary_dir) == Some(base_dir),
    ensures
        install_dirs_of(executable) == Ok::<InstallDirsView, LinkErrorView>(
            InstallDirsView { binary_dir, base_dir },
        ),
        next(StateView::AwaitingExecutable, EventView::ExecutableResolved(executable))
            == (StateView::AwaitingExecPath { base_dir }),
{
}

/// Where git reports a path that has no parent, the run fails with the
/// path-derivation error, and asks for nothing more: no link is made.
pub proof fn law_exec_path_without_parent(base_dir: Seq<char>, output: Seq<u8>)
    requires
        valid_utf8(output),
        path_parent(trimmed(decode_utf8(output))) is None,
    ensures
        ({
            let failure = LinkErrorView::MissingParent(Ancestor::LibexecDirectory);
            let state = next(
                StateView::AwaitingExecPath { base_dir },
                EventView::ExecPathReported(output),
            );
            &&& state == StateView::Failed(failure)
            &&& kind_of(failure) == ErrorKind::PathDerivation
            &&& request_of(state) == ActionView::Stop
        }),
{
}

/// The two inputs decide the link. Whatever is found at the link's path, a
/// run that was given an executable's path and git's output is about to
/// probe for exactly the link derived from them, or has failed with the
/// failure of that derivation.
pub proof fn law_inputs_decide_link(executable: Seq<char>, output: Seq<u8>)
    ensures
        derived(executable, output) == match link_for(executable, output) {
            Ok(plan) => StateView::AwaitingProbe { plan },
            Err(error) => StateView::Failed(error),
        },
{
}

/// Removal is asked for exactly when something stands at the link's path.
/// Where nothing does, the link is asked for at once.
pub proof fn law_removal_iff_present(plan: LinkPlanView, resolves: bool, has_link_metadata: bool)
    ensures
        ({
            let state = next(
                StateView::AwaitingProbe { plan },
                EventView::Probed { resolves, has_link_metadata },
            );
            &&& present(resolves, has_link_metadata) ==> request_of(state) == (ActionView::Remove {
                path: plan.link,
            })
            &&& !present(resolves, has_link_metadata) ==> request_of(state) == (ActionView::Link {
                target: plan.target,
                path: plan.link,
            })
        }),
{
}

/// A link whose target is gone does not resolve, but has metadata of its
/// own: it is removed, and after the removal the same link is asked for.
pub proof fn law_dangling_link_is_replaced(plan: LinkPlanView)
    ensures
        ({
            let found = next(
                StateView::AwaitingProbe { plan },
                EventView::Probed { resolves: false, has_link_metadata: true },
            );
            let freed = next(found, EventView::Removed);
            &&& request_of(found) == ActionView::Remove { path: plan.link }
            &&& request_of(freed) == ActionView::Link { target: plan.target, path: plan.link }
            &&& next(freed, EventView::LinkCreated) == StateView::Linked
        }),
{
}

/// A removal that fails ends the run with a filesystem error: no link is
/// asked for.
pub proof fn law_failed_removal_fails_run(plan: LinkPlanView, report: Seq<char>)
    ensures
        ({
            let failure = LinkErrorView::Filesystem(report);
            let state = next(StateView::AwaitingRemoval { plan }, EventView::RemoveFailed(report));
            &&& state == StateView::Failed(failure)
            &&& kind_of(failure) == ErrorKind::Filesystem
            &&& outcome_of(state) == Some(Err::<(), LinkErrorView>(failure))
            &&& request_of(state) == ActionView::Stop
        }),
{
}

/// A run that is over stays over: no event changes its outcome, and its
/// only request is to stop. A run that is under way never asks to stop.
pub proof fn law_finished_run_stays(state: StateView, event: EventView)
    ensures
        outcome_of(state) is Some ==> next(state, event) == state,
        outcome_of(state) is Some <==> request_of(state) == ActionView::Stop,
{
}

/// Running twice on the same inputs leaves the same link. The first run
/// finds nothing and links at once. The second finds the link of the first,
/// removes it, and asks for a link with the same path and the same target.
pub proof fn law_second_run_links_alike(
    executable: Seq<char>,
    output: Seq<u8>,
    plan: LinkPlanView,
    resolves: bool,
)
    requires
        link_for(executable, output) == Ok::<LinkPlanView, LinkErrorView>(plan),
    ensures
        ({
            let first = next(
                derived(executable, output),
                EventView::Probed { resolves: false, has_link_metadata: false },
            );
            let second = next(
                derived(executable, output),
                EventView::Probed { resolves, has_link_metadata: true },
            );
            let freed = next(second, EventView::Removed);
            &&& request_of(first) == ActionView::Link { target: plan.target, path: plan.link }
            &&& next(first, EventView::LinkCreated) == StateView::Linked
            &&& request_of(second) == ActionView::Remove { path: plan.link }
            &&& request_of(freed) == request_of(first)
            &&& next(freed, EventView::LinkCreated) == StateView::Linked
        }),
{
}

} // verus!
