//! The apply engine: one run of the migrations, as a machine that names the
//! next thing to do to the database and is told how it went.
//!
//! The caller owns the connection. It performs each [`Action`] inside one
//! transaction and hands the answer back as an [`Event`]; the engine
//! decides everything else. A run ends in [`Action::Finish`] after a
//! commit, or in [`Action::Abort`], on which the caller drops the
//! transaction uncommitted.

use crate::registry::{fingerprints_of, Registry};
use crate::validator::{first_missing, holds, lemma_first_missing, validate, IntegrityFault};
use vstd::prelude::*;

verus! {

/// Where a run stands. Each phase but the last two waits for the answer to
/// one action.
#[derive(Clone, Copy, PartialEq, Eq, Structural, Debug)]
pub enum Phase {
    /// Waiting for the transaction to open.
    Start,
    /// Waiting to learn whether the ledger's table exists.
    Probing,
    /// Waiting for the ledger's table to be created.
    Creating,
    /// The table exists; waiting for the listing of what it records.
    TableEnsured,
    /// The listing passed the integrity check and the script at `position`
    /// is pending: waiting for its batch to run (`executed` is false) or
    /// for its fingerprint to be recorded (`executed` is true).
    Applying { position: usize, executed: bool },
    /// Nothing is pending any more; waiting for the commit.
    Committing,
    /// The run is over and its changes are committed.
    Committed,
    /// The run is over and nothing of it may be committed.
    Aborted,
}

/// What the caller is to do next.
#[derive(Clone, Copy, PartialEq, Eq, Structural, Debug)]
pub enum Action {
    /// Open the transaction.
    Begin,
    /// Count the tables that bear the ledger's name.
    ProbeLedger,
    /// Create the ledger's table.
    CreateLedger,
    /// List every fingerprint that the ledger records.
    ListApplied,
    /// Run the statement batch of the script at `position`.
    Execute { position: usize },
    /// Record the fingerprint of the script at `position` in the ledger.
    Record { position: usize },
    /// Commit the transaction.
    Commit,
    /// Nothing more: the run has succeeded.
    Finish,
    /// Nothing more: the run has failed; leave the transaction uncommitted.
    Abort,
}

/// How the last action went.
#[derive(Debug, PartialEq, Eq)]
pub enum Event {
    /// It succeeded, with nothing to report.
    Done,
    /// It succeeded and counted this many rows.
    Count(u64),
    /// It succeeded and listed these fingerprints.
    Rows(Vec<String>),
    /// It failed.
    Failed,
}

/// An [`Event`] with its strings as sequences of characters.
pub enum EventView {
    Done,
    Count(u64),
    Rows(Seq<Seq<char>>),
    Failed,
}

impl View for Event {
    type V = EventView;

    open spec fn view(&self) -> EventView {
        match self {
            Event::Done => EventView::Done,
            Event::Count(n) => EventView::Count(*n),
            Event::Rows(rows) => EventView::Rows(rows.deep_view()),
            Event::Failed => EventView::Failed,
        }
    }
}

/// Why a run was aborted. None of these is recovered from within the run.
#[derive(Debug, PartialEq, Eq)]
pub enum FatalError {
    /// The ledger records a fingerprint that no script of the registry
    /// has: the one at `position` of the listing.
    Integrity { position: usize, fingerprint: String },
    /// The batch of the script at `position` failed.
    Execution { position: usize },
    /// A write to the ledger failed: the recording of the fingerprint of
    /// the script at that position, or with `None` the creation of the
    /// table.
    LedgerWrite { recording: Option<usize> },
    /// The transaction could not be opened or committed, or the ledger
    /// could not be read.
    Connectivity,
}

/// A [`FatalError`] with its strings as sequences of characters.
pub enum FatalErrorView {
    Integrity { position: usize, fingerprint: Seq<char> },
    Execution { position: usize },
    LedgerWrite { recording: Option<usize> },
    Connectivity,
}

impl View for FatalError {
    type V = FatalErrorView;

    open spec fn view(&self) -> FatalErrorView {
        match self {
            FatalError::Integrity { position, fingerprint } => FatalErrorView::Integrity {
                position: *position,
                fingerprint: fingerprint@,
            },
            FatalError::Execution { position } => FatalErrorView::Execution {
                position: *position,
            },
            FatalError::LedgerWrite { recording } => FatalErrorView::LedgerWrite {
                recording: *recording,
            },
            FatalError::Connectivity => FatalErrorView::Connectivity,
        }
    }
}

/// What a run reports of one script, in registry order.
#[derive(Clone, Copy, PartialEq, Eq, Structural, Debug)]
pub enum Notice {
    /// The ledger already records the script at this position.
    AlreadyApplied(usize),
    /// The script at this position is being applied.
    Applying(usize),
}

/// The notice for the script at position `i`.
pub open spec fn notice_at(known: Seq<Seq<char>>, listed: Seq<Seq<char>>, i: int) -> Notice {
    if listed.contains(known[i]) {
        Notice::AlreadyApplied(i as usize)
    } else {
        Notice::Applying(i as usize)
    }
}

/// The notices for the scripts before position `upto`, in registry order.
pub open spec fn notices(known: Seq<Seq<char>>, listed: Seq<Seq<char>>, upto: int) -> Seq<Notice> {
    Seq::new(upto as nat, |i: int| notice_at(known, listed, i))
}

/// How many scripts before position `upto` the listing does not hold.
pub open spec fn pending_before(known: Seq<Seq<char>>, listed: Seq<Seq<char>>, upto: int) -> nat
    decreases upto,
{
    if upto <= 0 {
        0
    } else {
        pending_before(known, listed, upto - 1) + if listed.contains(known[upto - 1]) {
            0nat
        } else {
            1nat
        }
    }
}

/// The state of a run.
pub struct EngineView {
    /// The texts of the registry's scripts.
    pub texts: Seq<Seq<char>>,
    /// Their fingerprints.
    pub known: Seq<Seq<char>>,
    pub phase: Phase,
    /// The fingerprints that the ledger listed; empty until it has.
    pub listed: Seq<Seq<char>>,
    /// How many scripts this run has applied and recorded.
    pub applied: nat,
    /// What the run has reported so far.
    pub log: Seq<Notice>,
    /// Why the run was aborted, once it has been.
    pub fault: Option<FatalErrorView>,
}

impl EngineView {
    /// The state in which a run over `texts` begins.
    pub open spec fn initial(texts: Seq<Seq<char>>) -> EngineView {
        EngineView {
            texts,
            known: fingerprints_of(texts),
            phase: Phase::Start,
            listed: Seq::empty(),
            applied: 0,
            log: Seq::empty(),
            fault: None,
        }
    }

    /// What holds of every state that a run can reach.
    pub open spec fn wf(self) -> bool {
        &&& self.known == fingerprints_of(self.texts)
        &&& self.phase is Aborted <==> self.fault is Some
        &&& match self.phase {
            Phase::Start | Phase::Probing | Phase::Creating | Phase::TableEnsured => {
                &&& self.listed.len() == 0
                &&& self.applied == 0
                &&& self.log.len() == 0
            },
            Phase::Applying { position, executed } => {
                &&& position < self.known.len()
                &&& first_missing(self.listed, self.known, 0) == self.listed.len()
                &&& !self.listed.contains(self.known[position as int])
                &&& self.applied == pending_before(self.known, self.listed, position as int)
                &&& self.log == notices(self.known, self.listed, position + 1)
            },
            Phase::Committing | Phase::Committed => {
                &&& first_missing(self.listed, self.known, 0) == self.listed.len()
                &&& self.applied == pending_before(
                    self.known,
                    self.listed,
                    self.known.len() as int,
                )
                &&& self.log == notices(self.known, self.listed, self.known.len() as int)
            },
            Phase::Aborted => true,
        }
    }

    /// The action that the state waits for.
    pub open spec fn action(self) -> Action {
        match self.phase {
            Phase::Start => Action::Begin,
            Phase::Probing => Action::ProbeLedger,
            Phase::Creating => Action::CreateLedger,
            Phase::TableEnsured => Action::ListApplied,
            Phase::Applying { position, executed } => if executed {
                Action::Record { position }
            } else {
                Action::Execute { position }
            },
            Phase::Committing => Action::Commit,
            Phase::Committed => Action::Finish,
            Phase::Aborted => Action::Abort,
        }
    }

    /// The state after a failure: aborted for the reason given, all else
    /// as it was.
    pub open spec fn abort(self, fault: FatalErrorView) -> EngineView {
        EngineView { phase: Phase::Aborted, fault: Some(fault), ..self }
    }

    /// The state once every script before `from` is dealt with: on to the
    /// first pending script at or after `from`, or to the commit if there
    /// is none, with a notice for each script passed on the way.
    pub open spec fn advance(self, from: int) -> EngineView {
        let next = first_missing(self.known, self.listed, from);
        if next < self.known.len() {
            EngineView {
                phase: Phase::Applying { position: next as usize, executed: false },
                log: notices(self.known, self.listed, next + 1),
                ..self
            }
        } else {
            EngineView {
                phase: Phase::Committing,
                log: notices(self.known, self.listed, self.known.len() as int),
                ..self
            }
        }
    }

    /// The state after `event` has answered the action that this state
    /// waited for. An event of a kind that the action cannot have counts
    /// as its failure. A run that is over stays as it is.
    pub open spec fn on(self, event: EventView) -> EngineView {
        match self.phase {
            Phase::Start => match event {
                EventView::Done => EngineView { phase: Phase::Probing, ..self },
                _ => self.abort(FatalErrorView::Connectivity),
            },
            Phase::Probing => match event {
                EventView::Count(n) => if n == 0 {
                    EngineView { phase: Phase::Creating, ..self }
                } else {
                    EngineView { phase: Phase::TableEnsured, ..self }
                },
                _ => self.abort(FatalErrorView::Connectivity),
            },
            Phase::Creating => match event {
                EventView::Done => EngineView { phase: Phase::TableEnsured, ..self },
                _ => self.abort(FatalErrorView::LedgerWrite { recording: None }),
            },
            Phase::TableEnsured => match event {
                EventView::Rows(rows) => {
                    let unknown = first_missing(rows, self.known, 0);
                    if unknown < rows.len() {
                        EngineView { listed: rows, ..self }.abort(
                            FatalErrorView::Integrity {
                                position: unknown as usize,
                                fingerprint: rows[unknown],
                            },
                        )
                    } else {
                        EngineView { listed: rows, ..self }.advance(0)
                    }
                },
                _ => self.abort(FatalErrorView::Connectivity),
            },
            Phase::Applying { position, executed } => match event {
                EventView::Done => if executed {
                    EngineView { applied: self.applied + 1, ..self }.advance(position + 1)
                } else {
                    EngineView { phase: Phase::Applying { position, executed: true }, ..self }
                },
                _ => if executed {
                    self.abort(FatalErrorView::LedgerWrite { recording: Some(position) })
                } else {
                    self.abort(FatalErrorView::Execution { position })
                },
            },
            Phase::Committing => match event {
                EventView::Done => EngineView { phase: Phase::Committed, ..self },
                _ => self.abort(FatalErrorView::Connectivity),
            },
            Phase::Committed | Phase::Aborted => self,
        }
    }

    /// What the run has come to: nothing while it is under way, the number
    /// of scripts applied once it is committed, the fault once it is
    /// aborted.
    pub open spec fn outcome(self) -> Option<Result<usize, FatalErrorView>> {
        match self.phase {
            Phase::Committed => Some(Ok(self.applied as usize)),
            Phase::Aborted => match self.fault {
                Some(fault) => Some(Err(fault)),
                None => None,
            },
            _ => None,
        }
    }
}

/// A run of the migrations of one registry.
pub struct Engine {
    registry: Registry,
    known: Vec<String>,
    phase: Phase,
    listed: Vec<String>,
    applied: usize,
    log: Vec<Notice>,
    fault: Option<FatalError>,
}

impl View for Engine {
    type V = EngineView;

    closed spec fn view(&self) -> EngineView {
        EngineView {
            texts: self.registry@,
            known: self.known.deep_view(),
            phase: self.phase,
            listed: self.listed.deep_view(),
            applied: self.applied as nat,
            log: self.log@,
            fault: match self.fault {
                Some(fault) => Some(fault@),
                None => None,
            },
        }
    }
}

/// Counting the pending scripts up to a later position counts at least as
/// many, and at most one per position.
pub proof fn lemma_pending_before_bounds(
    known: Seq<Seq<char>>,
    listed: Seq<Seq<char>>,
    upto: int,
)
    requires
        0 <= upto,
    ensures
        pending_before(known, listed, upto) <= upto,
    decreases upto,
{
    if upto > 0 {
        lemma_pending_before_bounds(known, listed, upto - 1);
    }
}

/// Positions whose fingerprints are all listed add nothing to the count of
/// pending scripts.
pub proof fn lemma_pending_before_skips(
    known: Seq<Seq<char>>,
    listed: Seq<Seq<char>>,
    from: int,
    upto: int,
)
    requires
        0 <= from <= upto <= known.len(),
        forall|i: int| from <= i < upto ==> listed.contains(#[trigger] known[i]),
    ensures
        pending_before(known, listed, upto) == pending_before(known, listed, from),
    decreases upto - from,
{
    if from < upto {
        lemma_pending_before_skips(known, listed, from, upto - 1);
    }
}

/// Moving on from `from` keeps a state well formed, where every script
/// before `from` is dealt with.
pub proof fn lemma_advance_wf(state: EngineView, from: int)
    requires
        state.known == fingerprints_of(state.texts),
        state.known.len() <= usize::MAX,
        state.fault is None,
        0 <= from <= state.known.len(),
        first_missing(state.listed, state.known, 0) == state.listed.len(),
        state.applied == pending_before(state.known, state.listed, from),
    ensures
        state.advance(from).wf(),
        from <= first_missing(state.known, state.listed, from) <= state.known.len(),
{
    let next = first_missing(state.known, state.listed, from);
    lemma_first_missing(state.known, state.listed, from);
    lemma_pending_before_skips(state.known, state.listed, from, next);
}

/// Every state that a run can reach is well formed: the first is, and
/// each event leads from a well-formed state to a well-formed state.
pub proof fn law_events_keep_well_formed(state: EngineView, event: EventView)
    requires
        state.wf(),
        state.known.len() <= usize::MAX,
    ensures
        state.on(event).wf(),
        EngineView::initial(state.texts).wf(),
{
    match state.phase {
        Phase::TableEnsured => {
            if let EventView::Rows(rows) = event {
                if first_missing(rows, state.known, 0) >= rows.len() {
                    lemma_first_missing(rows, state.known, 0);
                    lemma_advance_wf(EngineView { listed: rows, ..state }, 0);
                }
            }
        },
        Phase::Applying { position, executed } => {
            if event is Done && executed {
                lemma_advance_wf(
                    EngineView { applied: state.applied + 1, ..state },
                    position + 1,
                );
            }
        },
        _ => {},
    }
}

impl Engine {
    /// A run over `registry`, about to open its transaction. The
    /// fingerprints are computed here, afresh for this run.
    pub fn new(registry: Registry) -> (engine: Engine)
        ensures
            engine@ == EngineView::initial(registry@),
            engine@.wf(),
    {
        let known = registry.fingerprints();
        let engine = Engine {
            registry,
            known,
            phase: Phase::Start,
            listed: Vec::new(),
            applied: 0,
            log: Vec::new(),
            fault: None,
        };
        assert(engine@.listed =~= Seq::empty());
        assert(engine@.log =~= Seq::empty());
        engine
    }

    /// Where the run stands.
    pub fn phase(&self) -> (phase: Phase)
        ensures
            phase == self@.phase,
    {
        self.phase
    }

    /// The action that the run waits for.
    pub fn action(&self) -> (action: Action)
        ensures
            action == self@.action(),
    {
        match self.phase {
            Phase::Start => Action::Begin,
            Phase::Probing => Action::ProbeLedger,
            Phase::Creating => Action::CreateLedger,
            Phase::TableEnsured => Action::ListApplied,
            Phase::Applying { position, executed } => if executed {
                Action::Record { position }
            } else {
                Action::Execute { position }
            },
            Phase::Committing => Action::Commit,
            Phase::Committed => Action::Finish,
            Phase::Aborted => Action::Abort,
        }
    }

    /// The number of scripts in the registry.
    pub fn len(&self) -> (n: usize)
        requires
            self@.wf(),
        ensures
            n == self@.texts.len(),
            n == self@.known.len(),
    {
        self.registry.len()
    }

    /// The statement batch of the script at `position`, or `None` past the
    /// end of the registry.
    pub fn text(&self, position: usize) -> (text: Option<&String>)
        ensures
            position < self@.texts.len() <==> text is Some,
            text matches Some(t) ==> t@ == self@.texts[position as int],
    {
        self.registry.text(position)
    }

    /// The fingerprint of the script at `position`, or `None` past the end
    /// of the registry.
    pub fn fingerprint(&self, position: usize) -> (fp: Option<&String>)
        ensures
            position < self@.known.len() <==> fp is Some,
            fp matches Some(f) ==> f@ == self@.known[position as int],
    {
        if position < self.known.len() {
            Some(&self.known[position])
        } else {
            None
        }
    }

    /// What the run has reported so far, oldest first.
    pub fn notices(&self) -> (log: &Vec<Notice>)
        ensures
            log@ == self@.log,
    {
        &self.log
    }

    /// How many scripts the run has applied and recorded so far.
    pub fn applied(&self) -> (n: usize)
        ensures
            n == self@.applied,
    {
        self.applied
    }

    /// What the run has come to: `None` while it is under way, the number
    /// of scripts it applied once it is committed, the fault once it is
    /// aborted.
    pub fn outcome(&self) -> (outcome: Option<Result<usize, FatalError>>)
        requires
            self@.wf(),
        ensures
            outcome is Some <==> self@.phase is Committed || self@.phase is Aborted,
            match outcome {
                Some(Ok(n)) => self@.outcome() == Some(
                    Ok::<usize, FatalErrorView>(n),
                ),
                Some(Err(fault)) => self@.outcome() == Some(
                    Err::<usize, FatalErrorView>(fault@),
                ),
                None => self@.outcome() is None,
            },
    {
        match self.phase {
            Phase::Committed => Some(Ok(self.applied)),
            Phase::Aborted => match &self.fault {
                Some(FatalError::Integrity { position, fingerprint }) => Some(
                    Err(
                        FatalError::Integrity {
                            position: *position,
                            fingerprint: fingerprint.clone(),
                        },
                    ),
                ),
                Some(FatalError::Execution { position }) => Some(
                    Err(FatalError::Execution { position: *position }),
                ),
                Some(FatalError::LedgerWrite { recording }) => Some(
                    Err(FatalError::LedgerWrite { recording: *recording }),
                ),
                Some(FatalError::Connectivity) => Some(Err(FatalError::Connectivity)),
                None => None,
            },
            _ => None,
        }
    }

    /// Ends the run for the reason given.
    fn abort(&mut self, fault: FatalError)
        ensures
            final(self)@ == old(self)@.abort(fault@),
    {
        self.phase = Phase::Aborted;
        self.fault = Some(fault);
    }

    /// Moves on to the first pending script at or after `from`, or to the
    /// commit, noting each script on the way.
    fn advance(&mut self, from: usize)
        requires
            old(self)@.known == fingerprints_of(old(self)@.texts),
            old(self)@.fault is None,
            from <= old(self)@.known.len(),
            first_missing(old(self)@.listed, old(self)@.known, 0) == old(self)@.listed.len(),
            old(self)@.applied == pending_before(
                old(self)@.known,
                old(self)@.listed,
                from as int,
            ),
            old(self)@.log == notices(old(self)@.known, old(self)@.listed, from as int),
        ensures
            final(self)@ == old(self)@.advance(from as int),
            final(self)@.wf(),
    {
        let ghost known = self.known.deep_view();
        let ghost listed = self.listed.deep_view();
        let ghost before = self@;
        let n = self.known.len();
        let mut i: usize = from;
        while i < n
            invariant
                from <= i <= n,
                n == self.known.len(),
                known == self.known.deep_view(),
                listed == self.listed.deep_view(),
                self@ == (EngineView { log: self@.log, ..before }),
                before == old(self)@,
                before.known == known,
                before.listed == listed,
                before.known == fingerprints_of(before.texts),
                before.fault is None,
                first_missing(listed, known, 0) == listed.len(),
                before.applied == pending_before(known, listed, from as int),
                self.log@ == notices(known, listed, i as int),
                first_missing(known, listed, from as int) == first_missing(
                    known,
                    listed,
                    i as int,
                ),
                forall|j: int| from <= j < i ==> listed.contains(#[trigger] known[j]),
            decreases n - i,
        {
            assert(known[i as int] == self.known[i as int]@);
            if holds(&self.listed, &self.known[i]) {
                self.log.push(Notice::AlreadyApplied(i));
                assert(self.log@ =~= notices(known, listed, i + 1));
                i += 1;
            } else {
                self.log.push(Notice::Applying(i));
                assert(self.log@ =~= notices(known, listed, i + 1));
                self.phase = Phase::Applying { position: i, executed: false };
                proof {
                    lemma_pending_before_skips(known, listed, from as int, i as int);
                }
                return ;
            }
        }
        self.phase = Phase::Committing;
        proof {
            lemma_pending_before_skips(known, listed, from as int, n as int);
        }
    }

    /// Takes the answer to the action that the run waited for, and names
    /// the next one.
    pub fn step(&mut self, event: Event) -> (action: Action)
        requires
            old(self)@.wf(),
        ensures
            final(self)@ == old(self)@.on(event@),
            final(self)@.wf(),
            action == final(self)@.action(),
    {
        match self.phase {
            Phase::Start => match event {
                Event::Done => {
                    self.phase = Phase::Probing;
                },
                _ => {
                    self.abort(FatalError::Connectivity);
                },
            },
            Phase::Probing => match event {
                Event::Count(n) => {
                    if n == 0 {
                        self.phase = Phase::Creating;
                    } else {
                        self.phase = Phase::TableEnsured;
                    }
                },
                _ => {
                    self.abort(FatalError::Connectivity);
                },
            },
            Phase::Creating => match event {
                Event::Done => {
                    self.phase = Phase::TableEnsured;
                },
                _ => {
                    self.abort(FatalError::LedgerWrite { recording: None });
                },
            },
            Phase::TableEnsured => match event {
                Event::Rows(rows) => {
                    let checked = validate(&rows, &self.known);
                    self.listed = rows;
                    match checked {
                        Err(IntegrityFault { position, fingerprint }) => {
                            self.abort(FatalError::Integrity { position, fingerprint });
                        },
                        Ok(()) => {
                            assert(self.log@ =~= notices(
                                self.known.deep_view(),
                                self.listed.deep_view(),
                                0,
                            ));
                            self.advance(0);
                        },
                    }
                },
                _ => {
                    self.abort(FatalError::Connectivity);
                },
            },
            Phase::Applying { position, executed } => match event {
                Event::Done => {
                    if executed {
                        assert(self.known.deep_view().len() == self.known.len());
                        proof {
                            lemma_pending_before_bounds(
                                self.known.deep_view(),
                                self.listed.deep_view(),
                                position as int,
                            );
                        }
                        self.applied = self.applied + 1;
                        self.advance(position + 1);
                    } else {
                        self.phase = Phase::Applying { position, executed: true };
                    }
                },
                _ => {
                    if executed {
                        self.abort(FatalError::LedgerWrite { recording: Some(position) });
                    } else {
                        self.abort(FatalError::Execution { position });
                    }
                },
            },
            Phase::Committing => match event {
                Event::Done => {
                    self.phase = Phase::Committed;
                },
                _ => {
                    self.abort(FatalError::Connectivity);
                },
            },
            Phase::Committed => {},
            Phase::Aborted => {},
        }
        self.action()
    }
}

} // verus!
