//! What a run does to a database: a model of the database that answers the
//! engine's actions, the run of the engine against it, and what holds of
//! every such run.
//!
//! The model is ghost: it is the yardstick for the engine, not a store.

use crate::engine::{
    lemma_advance_wf, notices, pending_before, Action, EngineView, EventView, FatalErrorView,
    Notice, Phase,
};
use crate::registry::fingerprints_of;
use crate::validator::{all_known, first_missing, lemma_first_missing};
use vstd::prelude::*;

verus! {

/// The ledger inside a database: no table yet, or the fingerprints that
/// its table records.
pub enum Ledger {
    Absent,
    Present(Set<Seq<char>>),
}

impl Ledger {
    /// The fingerprints recorded; none where there is no table.
    pub open spec fn entries(self) -> Set<Seq<char>> {
        match self {
            Ledger::Absent => Set::empty(),
            Ledger::Present(entries) => entries,
        }
    }
}

/// What a database holds: the ledger, and every statement batch that was
/// run against the schema, oldest first.
pub struct Store {
    pub ledger: Ledger,
    pub history: Seq<Seq<char>>,
}

/// A database with one transaction: what is durably committed, and what
/// the transaction sees.
pub struct Database {
    pub committed: Store,
    pub working: Store,
}

/// What is up to the database during one run: the order in which it lists
/// the ledger, and the positions of the scripts whose batch it rejects.
pub struct Conduct {
    pub listing: Seq<Seq<char>>,
    pub failing: Set<usize>,
}

impl Conduct {
    /// Whether the listing holds exactly what `ledger` records.
    pub open spec fn lists(self, ledger: Ledger) -> bool {
        self.listing.to_set() == ledger.entries()
    }
}

/// How the database answers `action` in the run that is in `state`, and
/// what it holds afterwards.
pub open spec fn answer(db: Database, action: Action, state: EngineView, conduct: Conduct) -> (
    EventView,
    Database,
) {
    match action {
        Action::Begin => (EventView::Done, Database { working: db.committed, ..db }),
        Action::ProbeLedger => (
            EventView::Count(
                if db.working.ledger is Present {
                    1
                } else {
                    0
                },
            ),
            db,
        ),
        Action::CreateLedger => match db.working.ledger {
            Ledger::Absent => (
                EventView::Done,
                Database {
                    working: Store { ledger: Ledger::Present(Set::empty()), ..db.working },
                    ..db
                },
            ),
            Ledger::Present(_) => (EventView::Failed, db),
        },
        Action::ListApplied => match db.working.ledger {
            Ledger::Absent => (EventView::Failed, db),
            Ledger::Present(_) => (EventView::Rows(conduct.listing), db),
        },
        Action::Execute { position } => if conduct.failing.contains(position) {
            (EventView::Failed, db)
        } else {
            (
                EventView::Done,
                Database {
                    working: Store {
                        history: db.working.history.push(state.texts[position as int]),
                        ..db.working
                    },
                    ..db
                },
            )
        },
        Action::Record { position } => match db.working.ledger {
            Ledger::Absent => (EventView::Failed, db),
            Ledger::Present(entries) => if entries.contains(state.known[position as int]) {
                (EventView::Failed, db)
            } else {
                (
                    EventView::Done,
                    Database {
                        working: Store {
                            ledger: Ledger::Present(
                                entries.insert(state.known[position as int]),
                            ),
                            ..db.working
                        },
                        ..db
                    },
                )
            },
        },
        Action::Commit => (EventView::Done, Database { committed: db.working, ..db }),
        Action::Finish | Action::Abort => (EventView::Done, db),
    }
}

/// The engine and the database after at most `fuel` actions, each answered
/// by the database, or fewer if the run is over before.
pub open spec fn drive(state: EngineView, db: Database, conduct: Conduct, fuel: nat) -> (
    EngineView,
    Database,
)
    decreases fuel,
{
    if fuel == 0 || state.phase is Committed || state.phase is Aborted {
        (state, db)
    } else {
        let (event, next) = answer(db, state.action(), state, conduct);
        drive(state.on(event), next, conduct, (fuel - 1) as nat)
    }
}

/// What a run leaves behind.
pub struct Run {
    /// The number of scripts applied, or the fault.
    pub outcome: Option<Result<usize, FatalErrorView>>,
    /// What the database durably holds afterwards.
    pub committed: Store,
    /// What the run reported.
    pub log: Seq<Notice>,
}

/// One run of the engine over `texts` against a database that durably
/// holds `committed`.
pub open spec fn run(texts: Seq<Seq<char>>, committed: Store, conduct: Conduct) -> Run {
    let (end, db) = drive(
        EngineView::initial(texts),
        Database { committed, working: committed },
        conduct,
        2 * texts.len() + 5,
    );
    Run { outcome: end.outcome(), committed: db.committed, log: end.log }
}

/// Whether a run comes to a halt at position `p`: the script there is
/// pending, and its batch is rejected or its fingerprint is that of an
/// earlier script, so that the ledger already holds it by then.
pub open spec fn stops(known: Seq<Seq<char>>, conduct: Conduct, p: int) -> bool {
    &&& !conduct.listing.contains(known[p])
    &&& conduct.failing.contains(p as usize) || known.take(p).contains(known[p])
}

/// The first position at or after `from` at which a run comes to a halt;
/// the length of the registry if there is none.
pub open spec fn first_stop(known: Seq<Seq<char>>, conduct: Conduct, from: int) -> int
    decreases known.len() - from,
{
    if from < 0 || from >= known.len() {
        known.len() as int
    } else if stops(known, conduct, from) {
        from
    } else {
        first_stop(known, conduct, from + 1)
    }
}

/// The texts of the pending scripts before position `upto`, in registry
/// order.
pub open spec fn pending_texts(
    texts: Seq<Seq<char>>,
    known: Seq<Seq<char>>,
    listing: Seq<Seq<char>>,
    upto: int,
) -> Seq<Seq<char>>
    decreases upto,
{
    if upto <= 0 {
        Seq::empty()
    } else if listing.contains(known[upto - 1]) {
        pending_texts(texts, known, listing, upto - 1)
    } else {
        pending_texts(texts, known, listing, upto - 1).push(texts[upto - 1])
    }
}

/// What a run over `texts` comes to, said outright.
///
/// If the listing holds a fingerprint that no script has, the run fails
/// on the first such, having reported and changed nothing. Otherwise it
/// applies the pending scripts in registry order. If it comes to a halt at
/// one of them, it fails there and nothing is committed. If not, it
/// commits: every pending batch has run, in registry order, and the ledger
/// records the fingerprint of every script.
pub open spec fn settled(texts: Seq<Seq<char>>, committed: Store, conduct: Conduct) -> Run {
    let known = fingerprints_of(texts);
    let listing = conduct.listing;
    let unknown = first_missing(listing, known, 0);
    let stop = first_stop(known, conduct, 0);
    if unknown < listing.len() {
        Run {
            outcome: Some(
                Err(
                    FatalErrorView::Integrity {
                        position: unknown as usize,
                        fingerprint: listing[unknown],
                    },
                ),
            ),
            committed,
            log: Seq::empty(),
        }
    } else if stop < known.len() {
        Run {
            outcome: Some(
                Err(
                    if conduct.failing.contains(stop as usize) {
                        FatalErrorView::Execution { position: stop as usize }
                    } else {
                        FatalErrorView::LedgerWrite { recording: Some(stop as usize) }
                    },
                ),
            ),
            committed,
            log: notices(known, listing, stop + 1),
        }
    } else {
        Run {
            outcome: Some(Ok(pending_before(known, listing, known.len() as int) as usize)),
            committed: Store {
                ledger: Ledger::Present(committed.ledger.entries().union(known.to_set())),
                history: committed.history + pending_texts(
                    texts,
                    known,
                    listing,
                    known.len() as int,
                ),
            },
            log: notices(known, listing, known.len() as int),
        }
    }
}

/// Positions whose fingerprints are all listed hold no pending text.
proof fn lemma_pending_texts_skips(
    texts: Seq<Seq<char>>,
    known: Seq<Seq<char>>,
    listing: Seq<Seq<char>>,
    from: int,
    upto: int,
)
    requires
        0 <= from <= upto <= known.len(),
        forall|i: int| from <= i < upto ==> listing.contains(#[trigger] known[i]),
    ensures
        pending_texts(texts, known, listing, upto) == pending_texts(texts, known, listing, from),
    decreases upto - from,
{
    if from < upto {
        lemma_pending_texts_skips(texts, known, listing, from, upto - 1);
    }
}

/// A run does not come to a halt at a position whose fingerprint is
/// listed.
proof fn lemma_first_stop_skips(known: Seq<Seq<char>>, conduct: Conduct, from: int, upto: int)
    requires
        0 <= from <= upto <= known.len(),
        forall|i: int| from <= i < upto ==> conduct.listing.contains(#[trigger] known[i]),
    ensures
        first_stop(known, conduct, from) == first_stop(known, conduct, upto),
    decreases upto - from,
{
    if from < upto {
        lemma_first_stop_skips(known, conduct, from + 1, upto);
    }
}

/// Listed fingerprints add nothing to what the listing and the scripts
/// before them hold together.
proof fn lemma_recorded_skips(
    known: Seq<Seq<char>>,
    listing: Seq<Seq<char>>,
    from: int,
    upto: int,
)
    requires
        0 <= from <= upto <= known.len(),
        forall|i: int| from <= i < upto ==> listing.contains(#[trigger] known[i]),
    ensures
        listing.to_set().union(known.take(upto).to_set()) == listing.to_set().union(
            known.take(from).to_set(),
        ),
{
    let a = listing.to_set().union(known.take(upto).to_set());
    let b = listing.to_set().union(known.take(from).to_set());
    assert forall|fp: Seq<char>| a.contains(fp) implies b.contains(fp) by {
        if !listing.to_set().contains(fp) {
            let i = choose|i: int| 0 <= i < known.take(upto).len() && known.take(upto)[i] == fp;
            assert(known[i] == fp);
            if i >= from {
                assert(listing.contains(known[i]));
            } else {
                assert(known.take(from)[i] == fp);
            }
        }
    }
    assert forall|fp: Seq<char>| b.contains(fp) implies a.contains(fp) by {
        if !listing.to_set().contains(fp) {
            let i = choose|i: int| 0 <= i < known.take(from).len() && known.take(from)[i] == fp;
            assert(known.take(upto)[i] == fp);
        }
    }
    assert(a =~= b);
}

/// Recording the fingerprint of the script at `p` makes the ledger hold
/// what the listing and the scripts up to and with `p` hold together.
proof fn lemma_recorded_grows(known: Seq<Seq<char>>, listing: Seq<Seq<char>>, p: int)
    requires
        0 <= p < known.len(),
    ensures
        listing.to_set().union(known.take(p).to_set()).insert(known[p]) == listing.to_set().union(
            known.take(p + 1).to_set(),
        ),
{
    let with_p = known.take(p + 1);
    let a = listing.to_set().union(known.take(p).to_set()).insert(known[p]);
    let b = listing.to_set().union(with_p.to_set());
    assert forall|fp: Seq<char>| a.contains(fp) implies b.contains(fp) by {
        if fp == known[p] {
            assert(with_p[p] == fp);
        } else if !listing.to_set().contains(fp) {
            let i = choose|i: int| 0 <= i < known.take(p).len() && known.take(p)[i] == fp;
            assert(with_p[i] == fp);
        }
    }
    assert forall|fp: Seq<char>| b.contains(fp) implies a.contains(fp) by {
        if !listing.to_set().contains(fp) {
            let i = choose|i: int| 0 <= i < with_p.len() && with_p[i] == fp;
            if i < p {
                assert(known.take(p)[i] == fp);
            }
        }
    }
    assert(a =~= b);
}

/// What a run has come to, read off the engine and the database at its
/// end.
spec fn summary(end: (EngineView, Database)) -> Run {
    Run { outcome: end.0.outcome(), committed: end.1.committed, log: end.0.log }
}

/// Whether the engine and the database are where a run stands just before
/// it runs the batch of the pending script at position `p`.
spec fn about_to_apply(
    state: EngineView,
    db: Database,
    conduct: Conduct,
    committed: Store,
    p: int,
) -> bool {
    &&& state.wf()
    &&& state.known.len() <= usize::MAX
    &&& 0 <= p < state.known.len()
    &&& state.phase == Phase::Applying { position: p as usize, executed: false }
    &&& state.listed == conduct.listing
    &&& conduct.lists(committed.ledger)
    &&& db.committed == committed
    &&& db.working.ledger == Ledger::Present(
        conduct.listing.to_set().union(state.known.take(p).to_set()),
    )
    &&& db.working.history == committed.history + pending_texts(
        state.texts,
        state.known,
        conduct.listing,
        p,
    )
    &&& first_stop(state.known, conduct, 0) == first_stop(state.known, conduct, p)
}

/// Whether the engine and the database are where a run stands once no
/// script is pending any more, just before the commit.
spec fn about_to_commit(
    state: EngineView,
    db: Database,
    conduct: Conduct,
    committed: Store,
) -> bool {
    &&& state.wf()
    &&& state.phase == Phase::Committing
    &&& state.listed == conduct.listing
    &&& conduct.lists(committed.ledger)
    &&& db.committed == committed
    &&& db.working.ledger == Ledger::Present(
        conduct.listing.to_set().union(state.known.to_set()),
    )
    &&& db.working.history == committed.history + pending_texts(
        state.texts,
        state.known,
        conduct.listing,
        state.known.len() as int,
    )
    &&& first_stop(state.known, conduct, 0) == state.known.len()
}

/// A run that is about to commit does commit, and comes to what `settled`
/// says.
proof fn lemma_drive_committing(
    state: EngineView,
    db: Database,
    conduct: Conduct,
    committed: Store,
    fuel: nat,
)
    requires
        about_to_commit(state, db, conduct, committed),
        fuel >= 1,
    ensures
        summary(drive(state, db, conduct, fuel)) == settled(state.texts, committed, conduct),
{
    let (event, after) = answer(db, state.action(), state, conduct);
    let end = state.on(event);
    assert(drive(state, db, conduct, fuel) == drive(end, after, conduct, (fuel - 1) as nat));
    assert(drive(end, after, conduct, (fuel - 1) as nat) == (end, after));
}

/// A run that is about to apply a pending script comes to what `settled`
/// says, given two actions for each script that is left and one for the
/// commit.
proof fn lemma_drive_applying(
    state: EngineView,
    db: Database,
    conduct: Conduct,
    committed: Store,
    p: int,
    fuel: nat,
)
    requires
        about_to_apply(state, db, conduct, committed, p),
        fuel >= 2 * (state.known.len() - p) + 1,
    ensures
        summary(drive(state, db, conduct, fuel)) == settled(state.texts, committed, conduct),
    decreases state.known.len() - p,
{
    let known = state.known;
    let listing = conduct.listing;
    let (e1, db1) = answer(db, state.action(), state, conduct);
    let s1 = state.on(e1);
    assert(drive(state, db, conduct, fuel) == drive(s1, db1, conduct, (fuel - 1) as nat));
    if conduct.failing.contains(p as usize) {
        assert(stops(known, conduct, p));
        assert(drive(s1, db1, conduct, (fuel - 1) as nat) == (s1, db1));
    } else {
        let (e2, db2) = answer(db1, s1.action(), s1, conduct);
        let s2 = s1.on(e2);
        assert(drive(s1, db1, conduct, (fuel - 1) as nat) == drive(
            s2,
            db2,
            conduct,
            (fuel - 2) as nat,
        ));
        assert(!listing.to_set().contains(known[p]));
        if known.take(p).contains(known[p]) {
            assert(known.take(p).to_set().contains(known[p]));
            assert(stops(known, conduct, p));
            assert(drive(s2, db2, conduct, (fuel - 2) as nat) == (s2, db2));
        } else {
            assert(!known.take(p).to_set().contains(known[p]));
            assert(!stops(known, conduct, p));
            let recorded = EngineView { applied: s1.applied + 1, ..s1 };
            let next = first_missing(known, listing, p + 1);
            lemma_advance_wf(recorded, p + 1);
            lemma_first_missing(known, listing, p + 1);
            lemma_recorded_grows(known, listing, p);
            lemma_recorded_skips(known, listing, p + 1, next);
            lemma_first_stop_skips(known, conduct, p + 1, next);
            lemma_pending_texts_skips(state.texts, known, listing, p + 1, next);
            assert(s2 == recorded.advance(p + 1));
            if next < known.len() {
                lemma_drive_applying(s2, db2, conduct, committed, next, (fuel - 2) as nat);
            } else {
                assert(known.take(next) =~= known);
                lemma_drive_committing(s2, db2, conduct, committed, (fuel - 2) as nat);
            }
        }
    }
}

/// A run against a database whose listing holds what its ledger records
/// comes to what `settled` says: that is all a run can do.
pub proof fn lemma_run_settles(texts: Seq<Seq<char>>, committed: Store, conduct: Conduct)
    requires
        texts.len() <= usize::MAX,
        conduct.lists(committed.ledger),
    ensures
        run(texts, committed, conduct) == settled(texts, committed, conduct),
{
    let known = fingerprints_of(texts);
    let listing = conduct.listing;
    let fuel: nat = 2 * texts.len() + 5;
    let s0 = EngineView::initial(texts);
    let db0 = Database { committed, working: committed };
    let (e1, db1) = answer(db0, s0.action(), s0, conduct);
    let s1 = s0.on(e1);
    assert(drive(s0, db0, conduct, fuel) == drive(s1, db1, conduct, (fuel - 1) as nat));
    let (e2, db2) = answer(db1, s1.action(), s1, conduct);
    let s2 = s1.on(e2);
    assert(drive(s1, db1, conduct, (fuel - 1) as nat) == drive(
        s2,
        db2,
        conduct,
        (fuel - 2) as nat,
    ));
    // From here on the table exists: it was there, or it is created.
    let (e3, db3) = answer(db2, s2.action(), s2, conduct);
    let s3 = s2.on(e3);
    let (table, db_t, fuel_t) = if committed.ledger is Present {
        (s2, db2, (fuel - 2) as nat)
    } else {
        (s3, db3, (fuel - 3) as nat)
    };
    if committed.ledger is Absent {
        assert(drive(s2, db2, conduct, (fuel - 2) as nat) == drive(
            s3,
            db3,
            conduct,
            (fuel - 3) as nat,
        ));
        assert(listing.to_set() =~= Set::empty());
        if listing.len() > 0 {
            assert(listing.to_set().contains(listing[0]));
        }
    }
    assert(table.phase == Phase::TableEnsured);
    assert(db_t.working.ledger == Ledger::Present(listing.to_set()));
    let (e4, db4) = answer(db_t, table.action(), table, conduct);
    let s4 = table.on(e4);
    assert(drive(table, db_t, conduct, fuel_t) == drive(s4, db4, conduct, (fuel_t - 1) as nat));
    assert(e4 == EventView::Rows(listing));
    let unknown = first_missing(listing, known, 0);
    lemma_first_missing(listing, known, 0);
    if unknown < listing.len() {
        assert(drive(s4, db4, conduct, (fuel_t - 1) as nat) == (s4, db4));
    } else {
        let listed = EngineView { listed: listing, ..table };
        let next = first_missing(known, listing, 0);
        lemma_advance_wf(listed, 0);
        lemma_first_missing(known, listing, 0);
        lemma_recorded_skips(known, listing, 0, next);
        lemma_first_stop_skips(known, conduct, 0, next);
        lemma_pending_texts_skips(texts, known, listing, 0, next);
        assert(known.take(0).to_set() =~= Set::empty());
        assert(listing.to_set().union(known.take(0).to_set()) =~= listing.to_set());
        assert(committed.history + Seq::<Seq<char>>::empty() =~= committed.history);
        if next < known.len() {
            lemma_drive_applying(s4, db4, conduct, committed, next, (fuel_t - 1) as nat);
        } else {
            assert(known.take(next) =~= known);
            lemma_drive_committing(s4, db4, conduct, committed, (fuel_t - 1) as nat);
        }
    }
}

/// Where every fingerprint of the registry is listed, nothing is pending
/// and no run comes to a halt.
proof fn lemma_nothing_pending(texts: Seq<Seq<char>>, conduct: Conduct, upto: int)
    requires
        0 <= upto <= texts.len(),
        forall|i: int|
            0 <= i < texts.len() ==> conduct.listing.contains(
                #[trigger] fingerprints_of(texts)[i],
            ),
    ensures
        pending_before(fingerprints_of(texts), conduct.listing, upto) == 0,
        pending_texts(texts, fingerprints_of(texts), conduct.listing, upto) == Seq::<
            Seq<char>,
        >::empty(),
        first_stop(fingerprints_of(texts), conduct, texts.len() - upto) == texts.len(),
    decreases upto,
{
    if upto > 0 {
        lemma_nothing_pending(texts, conduct, upto - 1);
        let known = fingerprints_of(texts);
        assert(conduct.listing.contains(known[texts.len() - upto]));
        assert(conduct.listing.contains(known[upto - 1]));
    }
}

/// Where no fingerprint of the registry is listed, every script is
/// pending.
proof fn lemma_all_pending(texts: Seq<Seq<char>>, listing: Seq<Seq<char>>, upto: int)
    requires
        0 <= upto <= texts.len(),
        listing.len() == 0,
    ensures
        pending_before(fingerprints_of(texts), listing, upto) == upto,
        pending_texts(texts, fingerprints_of(texts), listing, upto) == texts.take(upto),
    decreases upto,
{
    if upto > 0 {
        lemma_all_pending(texts, listing, upto - 1);
        assert(texts.take(upto - 1).push(texts[upto - 1]) =~= texts.take(upto));
    } else {
        assert(texts.take(0) =~= Seq::<Seq<char>>::empty());
    }
}

/// A run comes to a halt nowhere if no batch is rejected and no two
/// scripts have the same fingerprint.
proof fn lemma_no_stop(known: Seq<Seq<char>>, conduct: Conduct, from: int)
    requires
        0 <= from <= known.len(),
        known.no_duplicates(),
        forall|p: usize| p < known.len() ==> !conduct.failing.contains(p),
    ensures
        first_stop(known, conduct, from) == known.len(),
    decreases known.len() - from,
{
    if from < known.len() {
        lemma_no_stop(known, conduct, from + 1);
        if known.take(from).contains(known[from]) {
            let i = choose|i: int| 0 <= i < known.take(from).len() && known.take(from)[i] == known[from];
            assert(known[i] == known[from]);
        }
    }
}

/// Every run ends, and ends in one of two ways: committed, with the
/// number of scripts applied, or aborted, with a fault.
pub proof fn law_run_ends(texts: Seq<Seq<char>>, committed: Store, conduct: Conduct)
    requires
        texts.len() <= usize::MAX,
        conduct.lists(committed.ledger),
    ensures
        run(texts, committed, conduct).outcome is Some,
{
    lemma_run_settles(texts, committed, conduct);
}

/// Idempotence: after a run that succeeded, a second run over the same
/// registry against the database as the first left it applies nothing,
/// succeeds, and leaves the database as it found it, whatever the database
/// would have done to a batch.
pub proof fn law_second_run_applies_nothing(
    texts: Seq<Seq<char>>,
    committed: Store,
    first: Conduct,
    second: Conduct,
)
    requires
        texts.len() <= usize::MAX,
        first.lists(committed.ledger),
        run(texts, committed, first).outcome matches Some(Ok(_)),
        second.lists(run(texts, committed, first).committed.ledger),
    ensures
        run(texts, run(texts, committed, first).committed, second).outcome == Some(
            Ok::<usize, FatalErrorView>(0),
        ),
        run(texts, run(texts, committed, first).committed, second).committed == run(
            texts,
            committed,
            first,
        ).committed,
{
    let known = fingerprints_of(texts);
    let after = run(texts, committed, first).committed;
    lemma_run_settles(texts, committed, first);
    lemma_run_settles(texts, after, second);
    lemma_first_missing(first.listing, known, 0);
    assert(after.ledger.entries() == committed.ledger.entries().union(known.to_set()));
    assert forall|i: int| 0 <= i < known.len() implies second.listing.contains(
        #[trigger] known[i],
    ) by {
        assert(known.to_set().contains(known[i]));
        assert(second.listing.to_set().contains(known[i]));
    }
    assert forall|i: int| 0 <= i < second.listing.len() implies known.contains(
        #[trigger] second.listing[i],
    ) by {
        let fp = second.listing[i];
        assert(second.listing.to_set().contains(fp));
        if !known.to_set().contains(fp) {
            assert(first.listing.to_set().contains(fp));
            let j = choose|j: int| 0 <= j < first.listing.len() && first.listing[j] == fp;
            assert(known.contains(first.listing[j]));
        }
    }
    lemma_first_missing(second.listing, known, 0);
    lemma_nothing_pending(texts, second, texts.len() as int);
    assert(after.ledger.entries().union(known.to_set()) =~= after.ledger.entries());
    assert(after.history + Seq::<Seq<char>>::empty() =~= after.history);
}

/// Order preservation and resumption: a run that succeeds has run the
/// batch of every pending script, and of no other, in registry order; it
/// has reported each script in registry order, as already applied or as
/// being applied; and the ledger then records what it recorded before and
/// the fingerprint of every script of the registry.
pub proof fn law_applies_pending_in_order(
    texts: Seq<Seq<char>>,
    committed: Store,
    conduct: Conduct,
)
    requires
        texts.len() <= usize::MAX,
        conduct.lists(committed.ledger),
        run(texts, committed, conduct).outcome matches Some(Ok(_)),
    ensures
        run(texts, committed, conduct).outcome == Some(
            Ok::<usize, FatalErrorView>(
                pending_before(fingerprints_of(texts), conduct.listing, texts.len() as int) as usize,
            ),
        ),
        run(texts, committed, conduct).committed.history == committed.history + pending_texts(
            texts,
            fingerprints_of(texts),
            conduct.listing,
            texts.len() as int,
        ),
        run(texts, committed, conduct).committed.ledger == Ledger::Present(
            committed.ledger.entries().union(fingerprints_of(texts).to_set()),
        ),
        run(texts, committed, conduct).log == notices(
            fingerprints_of(texts),
            conduct.listing,
            texts.len() as int,
        ),
{
    lemma_run_settles(texts, committed, conduct);
}

/// Order preservation on an empty ledger: a run that succeeds against a
/// ledger that records nothing has run the batch of every script, in
/// registry order, has reported each as being applied, in that order, and
/// the ledger then records exactly the fingerprints of the registry.
pub proof fn law_applies_all_to_empty_ledger(
    texts: Seq<Seq<char>>,
    committed: Store,
    conduct: Conduct,
)
    requires
        texts.len() <= usize::MAX,
        conduct.lists(committed.ledger),
        committed.ledger.entries() == Set::<Seq<char>>::empty(),
        run(texts, committed, conduct).outcome matches Some(Ok(_)),
    ensures
        run(texts, committed, conduct).outcome == Some(
            Ok::<usize, FatalErrorView>(texts.len() as usize),
        ),
        run(texts, committed, conduct).committed.history == committed.history + texts,
        run(texts, committed, conduct).committed.ledger == Ledger::Present(
            fingerprints_of(texts).to_set(),
        ),
        run(texts, committed, conduct).log == Seq::new(
            texts.len(),
            |i: int| Notice::Applying(i as usize),
        ),
{
    let known = fingerprints_of(texts);
    lemma_run_settles(texts, committed, conduct);
    if conduct.listing.len() > 0 {
        assert(conduct.listing.to_set().contains(conduct.listing[0]));
    }
    lemma_all_pending(texts, conduct.listing, texts.len() as int);
    assert(texts.take(texts.len() as int) =~= texts);
    assert(committed.ledger.entries().union(known.to_set()) =~= known.to_set());
    assert(notices(known, conduct.listing, texts.len() as int) =~= Seq::new(
        texts.len(),
        |i: int| Notice::Applying(i as usize),
    ));
}

/// Tamper detection: where the ledger records a fingerprint that no
/// script of the registry has, the run fails with an integrity fault that
/// names such a fingerprint, before it has applied or reported anything,
/// and the database holds what it held.
pub proof fn law_unknown_fingerprint_aborts(
    texts: Seq<Seq<char>>,
    committed: Store,
    conduct: Conduct,
    stray: Seq<char>,
)
    requires
        texts.len() <= usize::MAX,
        conduct.lists(committed.ledger),
        conduct.listing.len() <= usize::MAX,
        committed.ledger.entries().contains(stray),
        !fingerprints_of(texts).contains(stray),
    ensures
        run(texts, committed, conduct).outcome matches Some(
            Err(FatalErrorView::Integrity { position, fingerprint }),
        ) && position < conduct.listing.len() && fingerprint == conduct.listing[position as int]
            && committed.ledger.entries().contains(fingerprint) && !fingerprints_of(
            texts,
        ).contains(fingerprint),
        run(texts, committed, conduct).committed == committed,
        run(texts, committed, conduct).log.len() == 0,
{
    let known = fingerprints_of(texts);
    lemma_run_settles(texts, committed, conduct);
    lemma_first_missing(conduct.listing, known, 0);
    assert(conduct.listing.to_set().contains(stray));
    let unknown = first_missing(conduct.listing, known, 0);
    if unknown >= conduct.listing.len() {
        let j = choose|j: int| 0 <= j < conduct.listing.len() && conduct.listing[j] == stray;
        assert(known.contains(conduct.listing[j]));
    }
    assert(conduct.listing.to_set().contains(conduct.listing[unknown]));
}

/// Atomicity: a run that fails, for whatever reason and however far it
/// got, leaves the database holding exactly what it held before: no batch
/// of the run, no fingerprint, and no ledger table that the run created.
pub proof fn law_failed_run_changes_nothing(
    texts: Seq<Seq<char>>,
    committed: Store,
    conduct: Conduct,
)
    requires
        texts.len() <= usize::MAX,
        conduct.lists(committed.ledger),
        run(texts, committed, conduct).outcome matches Some(Err(_)),
    ensures
        run(texts, committed, conduct).committed == committed,
{
    lemma_run_settles(texts, committed, conduct);
}

/// A run fails on a rejected batch exactly where `settled` says: at the
/// first pending script whose batch the database rejects, if the run gets
/// that far.
pub proof fn law_rejected_batch_aborts(
    texts: Seq<Seq<char>>,
    committed: Store,
    conduct: Conduct,
    p: int,
)
    requires
        texts.len() <= usize::MAX,
        conduct.lists(committed.ledger),
        all_known(conduct.listing, fingerprints_of(texts)),
        0 <= p < texts.len(),
        first_stop(fingerprints_of(texts), conduct, 0) == p,
        conduct.failing.contains(p as usize),
    ensures
        run(texts, committed, conduct).outcome == Some(
            Err::<usize, FatalErrorView>(FatalErrorView::Execution { position: p as usize }),
        ),
        run(texts, committed, conduct).committed == committed,
{
    let known = fingerprints_of(texts);
    lemma_run_settles(texts, committed, conduct);
    lemma_first_missing(conduct.listing, known, 0);
    let unknown = first_missing(conduct.listing, known, 0);
    if unknown < conduct.listing.len() {
        assert(known.contains(conduct.listing[unknown]));
    }
}

/// Fresh install: against a database without a ledger, a run over scripts
/// with distinct fingerprints, none of whose batches is rejected, creates
/// the ledger, applies every script in registry order and records each.
pub proof fn law_fresh_install(texts: Seq<Seq<char>>, committed: Store, conduct: Conduct)
    requires
        texts.len() <= usize::MAX,
        conduct.lists(committed.ledger),
        committed.ledger is Absent,
        fingerprints_of(texts).no_duplicates(),
        forall|p: usize| p < texts.len() ==> !conduct.failing.contains(p),
    ensures
        run(texts, committed, conduct).outcome == Some(
            Ok::<usize, FatalErrorView>(texts.len() as usize),
        ),
        run(texts, committed, conduct).committed.ledger == Ledger::Present(
            fingerprints_of(texts).to_set(),
        ),
        run(texts, committed, conduct).committed.history == committed.history + texts,
{
    let known = fingerprints_of(texts);
    lemma_run_settles(texts, committed, conduct);
    if conduct.listing.len() > 0 {
        assert(conduct.listing.to_set().contains(conduct.listing[0]));
    }
    lemma_no_stop(known, conduct, 0);
    law_applies_all_to_empty_ledger(texts, committed, conduct);
}

} // verus!
