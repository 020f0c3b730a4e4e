//! The poll-loop driver's decisions. The driver owns the token seen on
//! the previous cycle and a mirror of the freshness counter; given the
//! outcome of a fetch it decides what the cycle does, and it advances its
//! state only when a persist cycle has fully succeeded.

use vstd::prelude::*;

use crate::clock;
use crate::detect::{has_changed, spec_changed};
use crate::model::{FetchError, MarketSnapshot, PersistedRecord, items_view, records_view};
use crate::project::{project, spec_project};

verus! {

/// What one poll cycle does, decided from the fetch outcome alone.
#[derive(Debug)]
pub enum Decision {
    /// The fetch failed; the cycle is fatal to the agent.
    Fatal(FetchError),
    /// The snapshot bears the token seen last cycle: nothing is written.
    UpToDate,
    /// The snapshot is new: write these records, then bump the freshness
    /// counter and remember the token.
    Persist(Vec<PersistedRecord>, i64),
}

/// The loop's state across cycles.
pub struct Driver {
    last_seen: Option<i64>,
    cycles_committed: u64,
}

impl Driver {
    /// The version token of the most recently committed cycle, if any.
    pub closed spec fn spec_last_seen(self) -> Option<i64> {
        self.last_seen
    }

    /// How many persist cycles have fully succeeded: the driver's mirror
    /// of the freshness counter's growth since the agent started.
    pub closed spec fn spec_committed(self) -> u64 {
        self.cycles_committed
    }

    /// A fresh driver: no token seen, no cycle committed.
    pub fn new() -> (driver: Driver)
        ensures
            driver.spec_last_seen() is None,
            driver.spec_committed() == 0,
    {
        Driver { last_seen: None, cycles_committed: 0 }
    }

    pub fn last_seen(&self) -> (token: Option<i64>)
        ensures
            token == self.spec_last_seen(),
    {
        self.last_seen
    }

    pub fn committed_cycles(&self) -> (count: u64)
        ensures
            count == self.spec_committed(),
    {
        self.cycles_committed
    }

    /// Decides one cycle for a given timestamp: a failed fetch is fatal
    /// with the same error; an unchanged token writes nothing; a changed
    /// token persists exactly the snapshot's projection, stamped
    /// `observed_at`, under the snapshot's own token.
    pub fn plan_at(
        &self,
        fetched: &Result<MarketSnapshot, FetchError>,
        observed_at: i64,
    ) -> (decision: Decision)
        ensures
            (*fetched) matches Err(e) ==> (decision matches Decision::Fatal(f) && f == e),
            (*fetched) matches Ok(s) ==> (if spec_changed(s.version_token, self.spec_last_seen()) {
                decision matches Decision::Persist(records, token) && token == s.version_token
                    && records_view(records@) == spec_project(items_view(s.items@), observed_at)
            } else {
                decision is UpToDate
            }),
    {
        match fetched {
            Result::Err(e) => Decision::Fatal(*e),
            Result::Ok(snapshot) => {
                if !has_changed(snapshot.version_token, self.last_seen) {
                    Decision::UpToDate
                } else {
                    Decision::Persist(project(&snapshot.items, observed_at), snapshot.version_token)
                }
            },
        }
    }

    /// Decides one cycle, stamping any records with a fresh wall-clock
    /// reading, which is returned beside the decision.
    pub fn plan(&self, fetched: &Result<MarketSnapshot, FetchError>) -> (planned: (Decision, i64))
        ensures
            (*fetched) matches Err(e) ==> (planned.0 matches Decision::Fatal(f) && f == e),
            (*fetched) matches Ok(s) ==> (if spec_changed(s.version_token, self.spec_last_seen()) {
                planned.0 matches Decision::Persist(records, token) && token == s.version_token
                    && records_view(records@) == spec_project(items_view(s.items@), planned.1)
            } else {
                planned.0 is UpToDate
            }),
    {
        let observed_at = clock::now_millis();
        (self.plan_at(fetched, observed_at), observed_at)
    }

    /// Records that a persist cycle for `token` fully succeeded: the
    /// token becomes the one last seen, and the committed-cycle count —
    /// the freshness counter's mirror — grows by exactly one.
    pub fn commit(&mut self, token: i64)
        requires
            old(self).spec_committed() < u64::MAX,
        ensures
            final(self).spec_last_seen() == Some(token),
            final(self).spec_committed() == old(self).spec_committed() + 1,
    {
        self.last_seen = Some(token);
        self.cycles_committed = self.cycles_committed + 1;
    }
}

/// The driver state that a run of cycles leaves behind, at the model
/// level: each token that counts as changed commits a cycle (persist and
/// counter bump succeed) and becomes the token last seen; an unchanged
/// token leaves the state untouched.
pub open spec fn spec_run(last_seen: Option<i64>, committed: nat, tokens: Seq<i64>) -> (
    Option<i64>,
    nat,
)
    decreases tokens.len(),
{
    if tokens.len() == 0 {
        (last_seen, committed)
    } else if spec_changed(tokens.first(), last_seen) {
        spec_run(Some(tokens.first()), committed + 1, tokens.drop_first())
    } else {
        spec_run(last_seen, committed, tokens.drop_first())
    }
}

/// Every token of the run differs from the token seen just before it.
pub open spec fn all_fresh(last_seen: Option<i64>, tokens: Seq<i64>) -> bool
    decreases tokens.len(),
{
    tokens.len() == 0 || (spec_changed(tokens.first(), last_seen) && all_fresh(
        Some(tokens.first()),
        tokens.drop_first(),
    ))
}

/// Counter law: a run of cycles whose tokens are each fresh — every one
/// differing from the token seen just before it, as distinct tokens are —
/// grows the freshness counter's mirror by exactly the number of cycles.
pub proof fn lemma_counter_counts_fresh_tokens(
    last_seen: Option<i64>,
    committed: nat,
    tokens: Seq<i64>,
)
    requires
        all_fresh(last_seen, tokens),
    ensures
        spec_run(last_seen, committed, tokens).1 == committed + tokens.len(),
    decreases tokens.len(),
{
    if tokens.len() > 0 {
        lemma_counter_counts_fresh_tokens(Some(tokens.first()), committed + 1, tokens.drop_first());
    }
}

/// Counter law, in the form upstream tokens usually take: over pairwise
/// distinct tokens of which the first differs from the token initially
/// seen, every cycle persists, and the freshness counter's mirror grows
/// by exactly the number of cycles.
pub proof fn lemma_distinct_tokens_bump_counter(
    last_seen: Option<i64>,
    committed: nat,
    tokens: Seq<i64>,
)
    requires
        forall|i: int, j: int| 0 <= i < j < tokens.len() ==> tokens[i] != tokens[j],
        tokens.len() > 0 ==> last_seen != Some(tokens[0]),
    ensures
        all_fresh(last_seen, tokens),
        spec_run(last_seen, committed, tokens).1 == committed + tokens.len(),
    decreases tokens.len(),
{
    if tokens.len() > 0 {
        let rest = tokens.drop_first();
        assert forall|i: int, j: int| 0 <= i < j < rest.len() implies rest[i] != rest[j] by {
            assert(rest[i] == tokens[i + 1]);
            assert(rest[j] == tokens[j + 1]);
        }
        if rest.len() > 0 {
            assert(tokens[0] != tokens[1]);
            assert(rest[0] == tokens[1]);
        }
        lemma_distinct_tokens_bump_counter(Some(tokens.first()), committed + 1, rest);
    }
    lemma_counter_counts_fresh_tokens(last_seen, committed, tokens);
}

/// Staleness law: a snapshot that repeats the token of the cycle just
/// committed changes nothing — no commit happens and the counter's
/// mirror stands still.
pub proof fn lemma_repeated_token_leaves_state(last_seen: Option<i64>, committed: nat, token: i64)
    requires
        last_seen == Some(token),
    ensures
        spec_run(last_seen, committed, seq![token]) == (last_seen, committed),
{
    assert(seq![token].drop_first() =~= Seq::<i64>::empty());
    assert(spec_run(last_seen, committed, Seq::<i64>::empty()) == (last_seen, committed));
    assert(!spec_changed(seq![token].first(), last_seen));
}

} // verus!
