//! Planning for the external source-sync collaborator: which version
//! control steps bring a checkout to the requested revision, and how an
//! already-configured remote is reconciled with a desired URL. The plans
//! are decisions only; executing them is the caller's job.

use vstd::prelude::*;
use vstd::string::StringExecFns;

verus! {

/// One version-control step of a checkout plan.
#[derive(Debug)]
pub enum SyncStep {
    /// Refresh the existing checkout from its remote.
    Fetch,
    /// Clone the repository at this URL into the (new) checkout.
    CloneFrom { url: String },
    /// Check out this revision.
    Checkout { rev: String },
}

/// The mathematical shape of a sync step.
pub ghost enum SyncStepModel {
    Fetch,
    CloneFrom { url: Seq<char> },
    Checkout { rev: Seq<char> },
}

impl SyncStep {
    pub open spec fn model(self) -> SyncStepModel {
        match self {
            SyncStep::Fetch => SyncStepModel::Fetch,
            SyncStep::CloneFrom { url } => SyncStepModel::CloneFrom { url: url@ },
            SyncStep::Checkout { rev } => SyncStepModel::Checkout { rev: rev@ },
        }
    }
}

/// The models of a sequence of steps.
pub open spec fn steps_model(s: Seq<SyncStep>) -> Seq<SyncStepModel> {
    s.map_values(|st: SyncStep| st.model())
}

/// The checkout plan: an existing working tree is fetched, a missing one
/// is cloned from the given URL; either way the requested revision, if
/// any, is checked out afterwards. After the plan runs, the checkout path
/// holds the requested revision's file tree (or a step failed and the
/// grammar is skipped upstream).
pub open spec fn sync_plan_model(
    tree_present: bool,
    url: Seq<char>,
    rev: Option<Seq<char>>,
) -> Seq<SyncStepModel> {
    (if tree_present {
        seq![SyncStepModel::Fetch]
    } else {
        seq![SyncStepModel::CloneFrom { url }]
    }) + (match rev {
        Option::Some(rv) => seq![SyncStepModel::Checkout { rev: rv }],
        Option::None => Seq::empty(),
    })
}

/// Plan the steps that bring one grammar's checkout to the requested
/// revision.
pub fn plan_sync(tree_present: bool, url: &str, rev: &Option<String>) -> (r: Vec<SyncStep>)
    ensures
        steps_model(r@) == sync_plan_model(tree_present, url@, rev.deep_view()),
{
    let mut r: Vec<SyncStep> = Vec::new();
    if tree_present {
        r.push(SyncStep::Fetch);
    } else {
        r.push(SyncStep::CloneFrom { url: url.to_owned() });
    }
    match rev {
        Option::Some(rv) => r.push(SyncStep::Checkout { rev: rv.clone() }),
        Option::None => (),
    }
    assert(steps_model(r@) =~= sync_plan_model(tree_present, url@, rev.deep_view()));
    r
}

/// What a remote-query against the repository configuration returned:
/// the remote exists and has this URL (`None` when the URL is unreadable),
/// the remote does not exist, or the query itself failed.
#[derive(Debug)]
pub enum RemoteState {
    Found { url: Option<String> },
    Missing,
    QueryFailed,
}

/// How to reconcile one remote with its desired URL.
#[derive(Debug, Clone, Copy, PartialEq, Eq, Structural)]
pub enum RemoteAction {
    /// The remote already points at the desired URL: leave it.
    Keep,
    /// The remote exists with another URL: update it.
    SetUrl,
    /// The remote does not exist: create it.
    Create,
    /// The remote could not be queried: report and move on.
    Report,
}

/// An unreadable URL compares as the empty string.
pub open spec fn existing_url_view(url: Option<String>) -> Seq<char> {
    match url {
        Option::Some(s) => s@,
        Option::None => Seq::empty(),
    }
}

/// Decide how to reconcile a remote with the desired URL.
pub fn plan_remote(state: &RemoteState, url: &str) -> (r: RemoteAction)
    ensures
        (*state matches RemoteState::Found { url: existing } && existing_url_view(existing) == url@)
            ==> r == RemoteAction::Keep,
        (*state matches RemoteState::Found { url: existing } && existing_url_view(existing) != url@)
            ==> r == RemoteAction::SetUrl,
        state is Missing ==> r == RemoteAction::Create,
        state is QueryFailed ==> r == RemoteAction::Report,
{
    match state {
        RemoteState::Found { url: existing } => {
            let same = match existing {
                Option::Some(s) => *s == url.to_owned(),
                Option::None => {
                    let empty = url.is_empty();
                    proof {
                        if empty {
                            assert(url@ =~= Seq::<char>::empty());
                        }
                    }
                    empty
                },
            };
            if same {
                RemoteAction::Keep
            } else {
                RemoteAction::SetUrl
            }
        },
        RemoteState::Missing => RemoteAction::Create,
        RemoteState::QueryFailed => RemoteAction::Report,
    }
}

} // verus!
