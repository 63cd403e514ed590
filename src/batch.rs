//! Ordered batches of operations. Each request resolves to a command or to a
//! local failure; commands run one at a time, outside the library, and every
//! request gets its own result whatever happened to the others.

use vstd::prelude::*;
use crate::model::{
    check_unique_ids, find_entry, ids_unique, opt_view, CatalogEntry, CatalogError, CommandResult,
};
use crate::outcome::{outcome_result, outcome_view, ExecOutcome};

verus! {

/// Which command of an entry a request runs.
#[derive(Debug, Clone, Copy, PartialEq, Eq)]
pub enum Mode {
    Normal,
    Rollback,
}

/// One operation of a batch: an entry id and the command to run for it.
#[derive(Debug, Clone, PartialEq, Eq)]
pub struct OperationRequest {
    pub entry_id: String,
    pub mode: Mode,
}

/// Some entry of the catalog has this id.
pub open spec fn has_id(catalog: Seq<CatalogEntry>, id: Seq<char>) -> bool {
    exists|i: int| 0 <= i < catalog.len() && #[trigger] catalog[i].id@ == id
}

/// `i` is the first position of the catalog that holds this id.
pub open spec fn first_with_id(catalog: Seq<CatalogEntry>, id: Seq<char>, i: int) -> bool {
    &&& 0 <= i < catalog.len()
    &&& catalog[i].id@ == id
    &&& forall|j: int| 0 <= j < i ==> catalog[j].id@ != id
}

/// The entry that holds this id (the first one, should there be several).
pub open spec fn entry_with_id(catalog: Seq<CatalogEntry>, id: Seq<char>) -> CatalogEntry
    recommends
        has_id(catalog, id),
{
    catalog[choose|i: int| first_with_id(catalog, id, i)]
}

/// The command that a request runs, or `None` when it fails before running.
pub open spec fn command_for(catalog: Seq<CatalogEntry>, request: OperationRequest) -> Option<
    Seq<char>,
> {
    if !has_id(catalog, request.entry_id@) {
        None
    } else {
        let e = entry_with_id(catalog, request.entry_id@);
        match request.mode {
            Mode::Normal => Some(e.primary_action@),
            Mode::Rollback => opt_view(e.rollback_action),
        }
    }
}

/// Why a request that runs nothing failed.
pub open spec fn local_error(catalog: Seq<CatalogEntry>, request: OperationRequest) -> Seq<char> {
    if !has_id(catalog, request.entry_id@) {
        "entry not found"@
    } else {
        "no rollback available"@
    }
}

/// The result of one request, given the outcome of its command; the outcome
/// is ignored when the request runs nothing.
pub open spec fn request_view(
    catalog: Seq<CatalogEntry>,
    request: OperationRequest,
    outcome: ExecOutcome,
) -> (bool, Seq<char>, Option<Seq<char>>) {
    if command_for(catalog, request) is Some {
        outcome_view(outcome)
    } else {
        (false, Seq::empty(), Some(local_error(catalog, request)))
    }
}

/// `results` answers `requests` position by position: result `i` is what
/// request `i` gives with outcome `i`, and nothing else.
pub open spec fn batch_results(
    catalog: Seq<CatalogEntry>,
    requests: Seq<OperationRequest>,
    outcomes: Seq<ExecOutcome>,
    results: Seq<CommandResult>,
) -> bool {
    &&& results.len() == requests.len()
    &&& outcomes.len() == requests.len()
    &&& forall|i: int|
        0 <= i < requests.len() ==> (#[trigger] results[i])@ == request_view(
            catalog,
            requests[i],
            outcomes[i],
        )
}

proof fn lemma_first_with_id_unique(catalog: Seq<CatalogEntry>, id: Seq<char>, i: int, j: int)
    requires
        first_with_id(catalog, id, i),
        first_with_id(catalog, id, j),
    ensures
        i == j,
{
}

/// Resolves a request against the catalog: the command to run, or the
/// failed result of a request that runs nothing.
pub fn resolve_request(catalog: &Vec<CatalogEntry>, request: &OperationRequest) -> (r: Result<
    String,
    CommandResult,
>)
    ensures
        r matches Ok(c) ==> command_for(catalog@, *request) == Some(c@),
        r matches Err(f) ==> command_for(catalog@, *request) is None && f@ == (
            false,
            Seq::<char>::empty(),
            Some(local_error(catalog@, *request)),
        ),
{
    match find_entry(catalog, &request.entry_id) {
        None => {
            assert(!has_id(catalog@, request.entry_id@));
            Err(
                CommandResult {
                    success: false,
                    output: String::new(),
                    error: Some(String::from_str("entry not found")),
                },
            )
        },
        Some(i) => {
            let ghost id = request.entry_id@;
            proof {
                assert(first_with_id(catalog@, id, i as int));
                let c = choose|k: int| first_with_id(catalog@, id, k);
                lemma_first_with_id_unique(catalog@, id, i as int, c);
            }
            let entry = &catalog[i];
            match request.mode {
                Mode::Normal => Ok(entry.primary_action.clone()),
                Mode::Rollback => match &entry.rollback_action {
                    Some(a) => Ok(a.clone()),
                    None => Err(
                        CommandResult {
                            success: false,
                            output: String::new(),
                            error: Some(String::from_str("no rollback available")),
                        },
                    ),
                },
            }
        },
    }
}

/// A batch in progress. `next_command` hands out the command of the next
/// request that needs one, recording on the way the results of requests that
/// fail before running; the caller runs it and hands its outcome to
/// `record_outcome`. When `next_command` returns `None` every request has its
/// result, in request order, and `finish` returns them.
pub struct BatchExecutor {
    catalog: Vec<CatalogEntry>,
    requests: Vec<OperationRequest>,
    results: Vec<CommandResult>,
    pending: Option<String>,
    outcomes: Ghost<Seq<ExecOutcome>>,
}

impl BatchExecutor {
    pub closed spec fn catalog(&self) -> Seq<CatalogEntry> {
        self.catalog@
    }

    pub closed spec fn requests(&self) -> Seq<OperationRequest> {
        self.requests@
    }

    /// Results of the first requests, in order.
    pub closed spec fn results(&self) -> Seq<CommandResult> {
        self.results@
    }

    /// The command handed out and not yet answered.
    pub closed spec fn pending(&self) -> Option<Seq<char>> {
        opt_view(self.pending)
    }

    /// The outcome that stands behind each result so far (any value where the
    /// request ran nothing).
    pub closed spec fn outcomes(&self) -> Seq<ExecOutcome> {
        self.outcomes@
    }

    pub closed spec fn wf(&self) -> bool {
        &&& ids_unique(self.catalog@)
        &&& self.results@.len() <= self.requests@.len()
        &&& self.outcomes@.len() == self.results@.len()
        &&& forall|i: int|
            0 <= i < self.results@.len() ==> (#[trigger] self.results@[i])@ == request_view(
                self.catalog@,
                self.requests@[i],
                self.outcomes@[i],
            )
        &&& self.pending matches Some(c) ==> self.results@.len() < self.requests@.len()
            && command_for(self.catalog@, self.requests@[self.results@.len() as int]) == Some(c@)
    }

    /// Starts a batch; a catalog with a repeated id is refused.
    pub fn new(catalog: Vec<CatalogEntry>, requests: Vec<OperationRequest>) -> (r: Result<
        BatchExecutor,
        CatalogError,
    >)
        ensures
            r is Ok <==> ids_unique(catalog@),
            r matches Ok(b) ==> b.wf() && b.catalog() == catalog@ && b.requests() == requests@
                && b.results().len() == 0 && b.pending() is None,
            r matches Err(CatalogError::DuplicateId(d)) ==> exists|i: int, j: int|
                0 <= i < j < catalog@.len() && catalog@[i].id@ == d@ && catalog@[j].id@ == d@,
    {
        match check_unique_ids(&catalog) {
            Err(e) => Err(e),
            Ok(()) => Ok(
                BatchExecutor {
                    catalog,
                    requests,
                    results: Vec::new(),
                    pending: None,
                    outcomes: Ghost(Seq::empty()),
                },
            ),
        }
    }

    /// Records the results of the requests that fail before running, up to the
    /// next request that has a command, and returns that command; `None`
    /// once every request has its result.
    pub fn next_command(&mut self) -> (r: Option<String>)
        requires
            old(self).wf(),
            old(self).pending() is None,
        ensures
            final(self).wf(),
            final(self).catalog() == old(self).catalog(),
            final(self).requests() == old(self).requests(),
            old(self).results().len() <= final(self).results().len(),
            final(self).results().take(old(self).results().len() as int) == old(self).results(),
            final(self).outcomes().take(old(self).results().len() as int) == old(self).outcomes(),
            forall|i: int|
                old(self).results().len() <= i < final(self).results().len() ==> command_for(
                    final(self).catalog(),
                    #[trigger] final(self).requests()[i],
                ) is None,
            r matches Some(c) ==> final(self).pending() == Some(c@) && final(self).results().len()
                < final(self).requests().len() && command_for(
                final(self).catalog(),
                final(self).requests()[final(self).results().len() as int],
            ) == Some(c@),
            r is None ==> final(self).pending() is None && final(self).results().len()
                == final(self).requests().len(),
    {
        let ghost start = self.results@.len();
        assert(self.results@.take(start as int) =~= self.results@);
        assert(self.outcomes@.take(start as int) =~= self.outcomes@);
        while self.results.len() < self.requests.len()
            invariant
                self.wf(),
                self.pending is None,
                self.catalog@ == old(self).catalog@,
                self.requests@ == old(self).requests@,
                start == old(self).results@.len(),
                start <= self.results@.len(),
                self.results@.take(start as int) == old(self).results@,
                self.outcomes@.take(start as int) == old(self).outcomes@,
                forall|i: int|
                    start <= i < self.results@.len() ==> command_for(
                        self.catalog@,
                        #[trigger] self.requests@[i],
                    ) is None,
            decreases self.requests@.len() - self.results@.len(),
        {
            let i = self.results.len();
            match resolve_request(&self.catalog, &self.requests[i]) {
                Ok(c) => {
                    self.pending = Some(c.clone());
                    return Some(c);
                },
                Err(f) => {
                    self.results.push(f);
                    self.outcomes = Ghost(self.outcomes@.push(arbitrary()));
                    assert(self.results@.take(start as int) =~= old(self).results@);
                    assert(self.outcomes@.take(start as int) =~= old(self).outcomes@);
                },
            }
        }
        None
    }

    /// Records the outcome of the command that `next_command` handed out.
    pub fn record_outcome(&mut self, outcome: ExecOutcome)
        requires
            old(self).wf(),
            old(self).pending() is Some,
        ensures
            final(self).wf(),
            final(self).catalog() == old(self).catalog(),
            final(self).requests() == old(self).requests(),
            final(self).pending() is None,
            final(self).results().len() == old(self).results().len() + 1,
            final(self).results().take(old(self).results().len() as int) == old(self).results(),
            final(self).results().last()@ == outcome_view(outcome),
            final(self).outcomes() == old(self).outcomes().push(outcome),
    {
        let r = outcome_result(&outcome);
        self.results.push(r);
        self.outcomes = Ghost(self.outcomes@.push(outcome));
        self.pending = None;
        assert(self.results@.take(old(self).results@.len() as int) =~= old(self).results@);
    }

    /// The results of a finished batch, one per request, in request order.
    pub fn finish(self) -> (r: Vec<CommandResult>)
        requires
            self.wf(),
            self.results().len() == self.requests().len(),
        ensures
            r@ == self.results(),
            batch_results(self.catalog(), self.requests(), self.outcomes(), r@),
    {
        self.results
    }
}

/// A finished batch has exactly one result per request, in request order; an
/// empty batch has no result.
pub proof fn batch_preserves_length_and_order(
    catalog: Seq<CatalogEntry>,
    requests: Seq<OperationRequest>,
    outcomes: Seq<ExecOutcome>,
    results: Seq<CommandResult>,
)
    requires
        batch_results(catalog, requests, outcomes, results),
    ensures
        results.len() == requests.len(),
        requests.len() == 0 ==> results.len() == 0,
        forall|i: int|
            0 <= i < requests.len() ==> (#[trigger] results[i])@ == request_view(
                catalog,
                requests[i],
                outcomes[i],
            ),
{
}

/// No short-circuit: the result at a position depends on that position's
/// request and outcome alone. Two batches that agree there agree on the
/// result, whatever the other requests are and however they ended; and a
/// request with a command succeeds exactly when its command exited with 0.
pub proof fn batch_positions_independent(
    catalog: Seq<CatalogEntry>,
    requests1: Seq<OperationRequest>,
    outcomes1: Seq<ExecOutcome>,
    results1: Seq<CommandResult>,
    requests2: Seq<OperationRequest>,
    outcomes2: Seq<ExecOutcome>,
    results2: Seq<CommandResult>,
    i: int,
    j: int,
)
    requires
        batch_results(catalog, requests1, outcomes1, results1),
        batch_results(catalog, requests2, outcomes2, results2),
        0 <= i < requests1.len(),
        0 <= j < requests2.len(),
        requests1[i] == requests2[j],
        outcomes1[i] == outcomes2[j],
    ensures
        results1[i]@ == results2[j]@,
        command_for(catalog, requests1[i]) is Some ==> (results1[i].success <==> (
        outcomes1[i] matches ExecOutcome::Exited(o) && o.exit_code == Some(0i32))),
{
    assert(results1[i]@ == request_view(catalog, requests1[i], outcomes1[i]));
    assert(results2[j]@ == request_view(catalog, requests2[j], outcomes2[j]));
}

/// A rollback request for an entry without a rollback command fails with
/// "no rollback available", empty output, and runs nothing.
pub proof fn rollback_without_action_fails(
    catalog: Seq<CatalogEntry>,
    requests: Seq<OperationRequest>,
    outcomes: Seq<ExecOutcome>,
    results: Seq<CommandResult>,
    i: int,
)
    requires
        ids_unique(catalog),
        batch_results(catalog, requests, outcomes, results),
        0 <= i < requests.len(),
        requests[i].mode == Mode::Rollback,
        exists|k: int|
            0 <= k < catalog.len() && catalog[k].id@ == requests[i].entry_id@
                && #[trigger] catalog[k].rollback_action is None,
    ensures
        command_for(catalog, requests[i]) is None,
        results[i]@ == (false, Seq::<char>::empty(), Some("no rollback available"@)),
{
    let k = choose|k: int|
        0 <= k < catalog.len() && catalog[k].id@ == requests[i].entry_id@
            && #[trigger] catalog[k].rollback_action is None;
    let id = requests[i].entry_id@;
    assert forall|j: int| 0 <= j < k implies catalog[j].id@ != id by {
        assert(catalog[j].id@ != catalog[k].id@);
    }
    assert(first_with_id(catalog, id, k));
    assert(has_id(catalog, id));
    let c = choose|c: int| first_with_id(catalog, id, c);
    lemma_first_with_id_unique(catalog, id, c, k);
    assert(results[i]@ == request_view(catalog, requests[i], outcomes[i]));
}

/// A request whose entry id is not in the catalog fails with "entry not
/// found", empty output, and runs nothing.
pub proof fn unknown_id_fails(
    catalog: Seq<CatalogEntry>,
    requests: Seq<OperationRequest>,
    outcomes: Seq<ExecOutcome>,
    results: Seq<CommandResult>,
    i: int,
)
    requires
        batch_results(catalog, requests, outcomes, results),
        0 <= i < requests.len(),
        forall|k: int| 0 <= k < catalog.len() ==> #[trigger] catalog[k].id@ != requests[i].entry_id@,
    ensures
        command_for(catalog, requests[i]) is None,
        results[i]@ == (false, Seq::<char>::empty(), Some("entry not found"@)),
{
    assert(results[i]@ == request_view(catalog, requests[i], outcomes[i]));
}

/// A request with an unknown id changes only its own position: the batch
/// without it gives the same results at every other position, in the same
/// order.
pub proof fn unknown_id_affects_only_its_position(
    catalog: Seq<CatalogEntry>,
    requests: Seq<OperationRequest>,
    outcomes: Seq<ExecOutcome>,
    results: Seq<CommandResult>,
    results_without: Seq<CommandResult>,
    i: int,
)
    requires
        batch_results(catalog, requests, outcomes, results),
        0 <= i < requests.len(),
        forall|k: int| 0 <= k < catalog.len() ==> #[trigger] catalog[k].id@ != requests[i].entry_id@,
        batch_results(catalog, requests.remove(i), outcomes.remove(i), results_without),
    ensures
        results[i]@ == (false, Seq::<char>::empty(), Some("entry not found"@)),
        results_without.len() + 1 == results.len(),
        forall|k: int| 0 <= k < i ==> (#[trigger] results_without[k])@ == results[k]@,
        forall|k: int| i < k < results.len() ==> (#[trigger] results[k])@ == results_without[k - 1]@,
{
    unknown_id_fails(catalog, requests, outcomes, results, i);
    assert forall|k: int| 0 <= k < i implies (#[trigger] results_without[k])@ == results[k]@ by {
        assert(results_without[k]@ == request_view(catalog, requests.remove(i)[k], outcomes.remove(i)[k]));
        assert(results[k]@ == request_view(catalog, requests[k], outcomes[k]));
    }
    assert forall|k: int| i < k < results.len() implies (#[trigger] results[k])@ == results_without[k - 1]@ by {
        assert(results_without[k - 1]@ == request_view(
            catalog,
            requests.remove(i)[k - 1],
            outcomes.remove(i)[k - 1],
        ));
        assert(results[k]@ == request_view(catalog, requests[k], outcomes[k]));
    }
}

} // verus!
