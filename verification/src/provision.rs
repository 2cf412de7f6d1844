use vstd::prelude::*;

use crate::classify::{is_client_error, is_http_success, is_server_error};

verus! {

/// What to do with one configured index, decided from the status of its
/// existence probe (`HEAD /<index>`).
#[derive(Clone, Copy, Debug, PartialEq, Eq, Structural)]
pub enum ProbeAction {
    /// The index is already provisioned: skip it.
    AlreadyExists,
    /// The backend failed; skip this index and continue with the next.
    SkipServerError,
    /// A client-side failure other than "not found": indeterminate, not an
    /// absence signal, so skip rather than create.
    SkipClientError,
    /// True absence: issue a creation request with an empty body.
    Create,
}

/// The per-index provisioning policy, in priority order.
pub open spec fn probe_action_spec(status: u16) -> ProbeAction {
    if is_http_success(status) {
        ProbeAction::AlreadyExists
    } else if is_server_error(status) {
        ProbeAction::SkipServerError
    } else if is_client_error(status) && status != 404 {
        ProbeAction::SkipClientError
    } else {
        ProbeAction::Create
    }
}

/// Decides what to do with one index from its existence-probe status.
pub fn plan_index_probe(status: u16) -> (r: ProbeAction)
    ensures
        r == probe_action_spec(status),
{
    if 200 <= status && status <= 299 {
        ProbeAction::AlreadyExists
    } else if 500 <= status && status <= 599 {
        ProbeAction::SkipServerError
    } else if 400 <= status && status <= 499 && status != 404 {
        ProbeAction::SkipClientError
    } else {
        ProbeAction::Create
    }
}

/// Whether a creation request (`PUT /<index>`) provisioned the index.
pub fn creation_succeeded(status: u16) -> (r: bool)
    ensures
        r == is_http_success(status),
{
    200 <= status && status <= 299
}

/// The probe status an orderly backend reports: success when the index
/// exists, "not found" when it does not.
pub open spec fn probe_status_when(exists: bool) -> u16 {
    if exists {
        200
    } else {
        404
    }
}

/// The names for which one provisioning pass over `names` issues a creation
/// request, against a backend holding `existing`.
pub open spec fn creations_issued(existing: Set<Seq<char>>, names: Seq<Seq<char>>) -> Set<
    Seq<char>,
> {
    Set::new(
        |n: Seq<char>|
            names.contains(n) && probe_action_spec(probe_status_when(existing.contains(n)))
                is Create,
    )
}

/// What the backend holds after one provisioning pass whose creation
/// requests all succeed.
pub open spec fn backend_after_ensure(existing: Set<Seq<char>>, names: Seq<Seq<char>>) -> Set<
    Seq<char>,
> {
    existing.union(creations_issued(existing, names))
}

/// An index the backend reports present is never created again: the probe
/// succeeds and the plan skips it.
pub proof fn lemma_present_index_not_created(
    existing: Set<Seq<char>>,
    names: Seq<Seq<char>>,
    n: Seq<char>,
)
    requires
        existing.contains(n),
    ensures
        !creations_issued(existing, names).contains(n),
{
}

/// Provisioning is idempotent: a second pass over the same names, against
/// the state a first pass left behind, issues no creation request at all.
pub proof fn lemma_provision_idempotent(existing: Set<Seq<char>>, names: Seq<Seq<char>>)
    ensures
        creations_issued(backend_after_ensure(existing, names), names) == Set::<Seq<char>>::empty(),
{
    let after = backend_after_ensure(existing, names);
    assert forall|n: Seq<char>| !creations_issued(after, names).contains(n) by {
        if names.contains(n) && !after.contains(n) {
            assert(!existing.contains(n));
            assert(!creations_issued(existing, names).contains(n));
            assert(probe_status_when(existing.contains(n)) == 404u16);
            assert(probe_action_spec(404u16) is Create);
            assert(creations_issued(existing, names).contains(n));
        }
    }
    assert(creations_issued(after, names) =~= Set::<Seq<char>>::empty());
}

} // verus!
