//! The query log: a bounded record of the queries that were received, each with
//! the phase that it has reached.

use vstd::prelude::*;

verus! {

/// The phase that a query has reached. `Success` and `Failed` are final.
#[derive(Clone, Copy, Debug, PartialEq, Eq, Structural)]
pub enum QueryPhase {
    Received,
    Planned,
    Permitted,
    Success,
    Failed,
}

/// The language of a query.
#[derive(Clone, Copy, Debug, PartialEq, Eq, Structural)]
pub enum QueryKind {
    Sql,
    InfluxQl,
}

/// One entry of the log, as a mathematical value.
pub ghost struct QueryLogEntryView {
    pub id: u64,
    pub kind: QueryKind,
    pub text: Seq<char>,
    pub params: Seq<(String, String)>,
    pub trace_id: Option<u128>,
    pub phase: QueryPhase,
}

/// The log, as a mathematical value: its capacity, its entries from the oldest
/// to the newest, and the id that the next query gets.
pub ghost struct QueryLogView {
    pub capacity: usize,
    pub entries: Seq<QueryLogEntryView>,
    pub next_id: u64,
}

/// One entry of the log.
#[derive(Debug)]
pub struct QueryLogEntry {
    pub id: u64,
    pub kind: QueryKind,
    pub text: String,
    pub params: Vec<(String, String)>,
    pub trace_id: Option<u128>,
    pub phase: QueryPhase,
}

/// A bounded log of queries. When it is full, a new entry takes the place of
/// the oldest one.
#[derive(Debug)]
pub struct QueryLog {
    capacity: usize,
    entries: Vec<QueryLogEntry>,
    next_id: u64,
}

/// The handle of a query that was received.
#[derive(Debug)]
pub struct ReceivedToken {
    id: u64,
}

/// The handle of a query that has a plan.
#[derive(Debug)]
pub struct PlannedToken {
    id: u64,
}

/// The handle of a query that may run.
#[derive(Debug)]
pub struct PermittedToken {
    id: u64,
}

/// The position of a phase in the life of a query. Both final phases stand last.
pub open spec fn phase_rank(phase: QueryPhase) -> int {
    match phase {
        QueryPhase::Received => 0,
        QueryPhase::Planned => 1,
        QueryPhase::Permitted => 2,
        QueryPhase::Success => 3,
        QueryPhase::Failed => 3,
    }
}

/// Whether a phase is final.
pub open spec fn is_terminal(phase: QueryPhase) -> bool {
    phase == QueryPhase::Success || phase == QueryPhase::Failed
}

/// Whether a query may pass from `from` to `to`: to the next phase, or from any
/// phase that is not final to `Failed`.
pub open spec fn may_advance(from: QueryPhase, to: QueryPhase) -> bool {
    !is_terminal(from) && (to == QueryPhase::Failed || (to != QueryPhase::Received && phase_rank(to)
        == phase_rank(from) + 1))
}

/// A query goes forward only: a step leads to a later phase, skips none on the
/// way to `Success`, and leaves no final phase.
pub proof fn lemma_steps_go_forward(from: QueryPhase, to: QueryPhase)
    requires
        may_advance(from, to),
    ensures
        phase_rank(from) < phase_rank(to),
        !is_terminal(from),
        to != QueryPhase::Failed ==> phase_rank(to) == phase_rank(from) + 1,
        is_terminal(to) ==> forall|next: QueryPhase| !may_advance(to, next),
{
}

/// The values of a sequence of entries.
pub open spec fn entry_views(v: Seq<QueryLogEntry>) -> Seq<QueryLogEntryView> {
    Seq::new(v.len(), |i: int| v[i]@)
}

/// The entries with the phase of the query `id` set to `phase`.
pub open spec fn with_phase(
    entries: Seq<QueryLogEntryView>,
    id: u64,
    phase: QueryPhase,
) -> Seq<QueryLogEntryView> {
    Seq::new(
        entries.len(),
        |i: int|
            if entries[i].id == id {
                QueryLogEntryView { phase: phase, ..entries[i] }
            } else {
                entries[i]
            },
    )
}

/// Whether the entries hold the query `id`.
pub open spec fn holds_query(entries: Seq<QueryLogEntryView>, id: u64) -> bool {
    exists|i: int| 0 <= i < entries.len() && (#[trigger] entries[i]).id == id
}

/// The number of entries of the query `id` that are in the phase `phase`.
pub open spec fn count_in_phase(entries: Seq<QueryLogEntryView>, id: u64, phase: QueryPhase) -> nat
    decreases entries.len(),
{
    if entries.len() == 0 {
        0
    } else {
        let rest = count_in_phase(entries.drop_last(), id, phase);
        if entries.last().id == id && entries.last().phase == phase {
            rest + 1
        } else {
            rest
        }
    }
}

/// Whether the ids of the entries grow from each entry to the next and stay
/// below `next_id`.
pub open spec fn ids_ascend(entries: Seq<QueryLogEntryView>, next_id: u64) -> bool {
    &&& forall|i: int, j: int|
        0 <= i < j < entries.len() ==> (#[trigger] entries[i]).id < (#[trigger] entries[j]).id
    &&& forall|i: int| 0 <= i < entries.len() ==> (#[trigger] entries[i]).id < next_id
}

/// A log that holds at most its capacity, with ascending ids.
pub open spec fn log_wf(log: QueryLogView) -> bool {
    &&& log.entries.len() <= log.capacity
    &&& ids_ascend(log.entries, log.next_id)
}

/// The log after a new query was received. The query gets the id `next_id` and
/// the phase `Received`. A full log drops its oldest entry first. A log of
/// capacity 0 keeps nothing, and neither does one whose ids are used up.
pub open spec fn pushed(
    log: QueryLogView,
    kind: QueryKind,
    text: Seq<char>,
    params: Seq<(String, String)>,
    trace_id: Option<u128>,
) -> QueryLogView {
    if log.next_id == u64::MAX {
        log
    } else if log.capacity == 0 {
        QueryLogView { next_id: (log.next_id + 1) as u64, ..log }
    } else {
        let kept = if log.entries.len() >= log.capacity {
            log.entries.drop_first()
        } else {
            log.entries
        };
        let entry = QueryLogEntryView {
            id: log.next_id,
            kind,
            text,
            params,
            trace_id,
            phase: QueryPhase::Received,
        };
        QueryLogView { entries: kept.push(entry), next_id: (log.next_id + 1) as u64, ..log }
    }
}

/// The log after the query `id` passed to `phase`.
pub open spec fn advanced(log: QueryLogView, id: u64, phase: QueryPhase) -> QueryLogView {
    QueryLogView { entries: with_phase(log.entries, id, phase), ..log }
}

/// A well-formed log stays so when a query is received, and the new query is
/// then its newest entry, unless the log keeps nothing.
pub proof fn lemma_pushed(
    log: QueryLogView,
    kind: QueryKind,
    text: Seq<char>,
    params: Seq<(String, String)>,
    trace_id: Option<u128>,
)
    requires
        log_wf(log),
    ensures
        log_wf(pushed(log, kind, text, params, trace_id)),
        log.capacity > 0 && log.next_id < u64::MAX ==> {
            let after = pushed(log, kind, text, params, trace_id);
            &&& after.entries.len() > 0
            &&& after.entries.last().id == log.next_id
            &&& after.entries.last().phase == QueryPhase::Received
            &&& holds_query(after.entries, log.next_id)
        },
        !holds_query(log.entries, log.next_id),
{
    let after = pushed(log, kind, text, params, trace_id);
    if log.capacity > 0 && log.next_id < u64::MAX {
        assert(after.entries[after.entries.len() - 1].id == log.next_id);
    }
}

/// A well-formed log stays so when a query passes to another phase. The entry
/// of that query, if the log still holds it, is then in that phase, and no
/// other entry has changed.
pub proof fn lemma_advanced(log: QueryLogView, id: u64, phase: QueryPhase)
    requires
        log_wf(log),
    ensures
        log_wf(advanced(log, id, phase)),
        advanced(log, id, phase).entries.len() == log.entries.len(),
        holds_query(advanced(log, id, phase).entries, id) == holds_query(log.entries, id),
        forall|i: int|
            0 <= i < log.entries.len() ==> {
                let before = #[trigger] log.entries[i];
                let after = advanced(log, id, phase).entries[i];
                if before.id == id {
                    after == (QueryLogEntryView { phase: phase, ..before })
                } else {
                    after == before
                }
            },
{
    let after = advanced(log, id, phase);
    if holds_query(log.entries, id) {
        let i = choose|i: int| 0 <= i < log.entries.len() && (#[trigger] log.entries[i]).id == id;
        assert(after.entries[i].id == id);
    }
    if holds_query(after.entries, id) {
        let i = choose|i: int|
            0 <= i < after.entries.len() && (#[trigger] after.entries[i]).id == id;
        assert(log.entries[i].id == id);
    }
}

/// In a well-formed log a query has at most one entry: the number of its
/// entries in a phase is 1 if the log holds the query in that phase, else 0.
pub proof fn lemma_count_in_phase(entries: Seq<QueryLogEntryView>, next_id: u64, id: u64, phase: QueryPhase)
    requires
        ids_ascend(entries, next_id),
    ensures
        count_in_phase(entries, id, phase) <= 1,
        count_in_phase(entries, id, phase) == 1 <==> exists|i: int|
            0 <= i < entries.len() && (#[trigger] entries[i]).id == id && entries[i].phase == phase,
        !holds_query(entries, id) ==> count_in_phase(entries, id, phase) == 0,
    decreases entries.len(),
{
    if entries.len() > 0 {
        let rest = entries.drop_last();
        let last = entries.last();
        assert forall|i: int| 0 <= i < rest.len() implies (#[trigger] rest[i]) == entries[i] by {}
        assert(ids_ascend(rest, next_id)) by {
            assert forall|i: int, j: int| 0 <= i < j < rest.len() implies (#[trigger] rest[i]).id < (
            #[trigger] rest[j]).id by {
                assert(entries[i].id < entries[j].id);
            }
            assert forall|i: int| 0 <= i < rest.len() implies (#[trigger] rest[i]).id < next_id by {
                assert(entries[i].id < next_id);
            }
        }
        lemma_count_in_phase(rest, next_id, id, phase);
        if last.id == id {
            assert(!holds_query(rest, id)) by {
                if holds_query(rest, id) {
                    let i = choose|i: int| 0 <= i < rest.len() && (#[trigger] rest[i]).id == id;
                    assert(entries[i].id < entries[entries.len() - 1].id);
                }
            }
            if last.phase == phase {
                assert(entries[entries.len() - 1].id == id && entries[entries.len() - 1].phase
                    == phase);
            } else {
                if exists|i: int|
                    0 <= i < entries.len() && (#[trigger] entries[i]).id == id && entries[i].phase
                        == phase {
                    let i = choose|i: int|
                        0 <= i < entries.len() && (#[trigger] entries[i]).id == id
                            && entries[i].phase == phase;
                    assert(i < rest.len());
                    assert(rest[i].id == id);
                }
            }
        } else {
            if count_in_phase(rest, id, phase) == 1 {
                let i = choose|i: int|
                    0 <= i < rest.len() && (#[trigger] rest[i]).id == id && rest[i].phase == phase;
                assert(entries[i].id == id && entries[i].phase == phase);
            }
            if exists|i: int|
                0 <= i < entries.len() && (#[trigger] entries[i]).id == id && entries[i].phase
                    == phase {
                let i = choose|i: int|
                    0 <= i < entries.len() && (#[trigger] entries[i]).id == id && entries[i].phase
                        == phase;
                assert(rest[i].id == id && rest[i].phase == phase);
            }
            if holds_query(rest, id) {
                let i = choose|i: int| 0 <= i < rest.len() && (#[trigger] rest[i]).id == id;
                assert(entries[i].id == id);
            }
        }
    }
}

/// In a well-formed log the entry of a query is in one phase only: the query
/// has no entry in any other phase.
pub proof fn lemma_single_phase(log: QueryLogView, id: u64, at: int, phase: QueryPhase)
    requires
        log_wf(log),
        0 <= at < log.entries.len(),
        log.entries[at].id == id,
        log.entries[at].phase != phase,
    ensures
        count_in_phase(log.entries, id, phase) == 0,
{
    lemma_count_in_phase(log.entries, log.next_id, id, phase);
    if count_in_phase(log.entries, id, phase) == 1 {
        let i = choose|i: int|
            0 <= i < log.entries.len() && (#[trigger] log.entries[i]).id == id
                && log.entries[i].phase == phase;
        if i < at {
            assert(log.entries[i].id < log.entries[at].id);
        }
        if at < i {
            assert(log.entries[at].id < log.entries[i].id);
        }
    }
}

/// When a query that the log holds passes to a final phase, the log holds
/// exactly one final entry of it: one in that phase, none in the other.
pub proof fn lemma_terminal_step(log: QueryLogView, id: u64, phase: QueryPhase)
    requires
        log_wf(log),
        holds_query(log.entries, id),
        is_terminal(phase),
    ensures
        count_in_phase(advanced(log, id, phase).entries, id, QueryPhase::Success) + count_in_phase(
            advanced(log, id, phase).entries,
            id,
            QueryPhase::Failed,
        ) == 1,
        count_in_phase(advanced(log, id, phase).entries, id, phase) == 1,
        count_in_phase(advanced(log, id, phase).entries, id, QueryPhase::Received) == 0,
        count_in_phase(advanced(log, id, phase).entries, id, QueryPhase::Planned) == 0,
        count_in_phase(advanced(log, id, phase).entries, id, QueryPhase::Permitted) == 0,
{
    let after = advanced(log, id, phase);
    lemma_advanced(log, id, phase);
    let at = choose|i: int| 0 <= i < log.entries.len() && (#[trigger] log.entries[i]).id == id;
    assert(after.entries[at].id == id && after.entries[at].phase == phase);
    lemma_count_in_phase(after.entries, after.next_id, id, phase);
    if phase == QueryPhase::Success {
        lemma_single_phase(after, id, at, QueryPhase::Failed);
    } else {
        lemma_single_phase(after, id, at, QueryPhase::Success);
    }
    lemma_single_phase(after, id, at, QueryPhase::Received);
    lemma_single_phase(after, id, at, QueryPhase::Planned);
    lemma_single_phase(after, id, at, QueryPhase::Permitted);
}

/// A copy of `v`, pair by pair.
pub fn copy_params(v: &Vec<(String, String)>) -> (res: Vec<(String, String)>)
    ensures
        res@ == v@,
{
    let mut out: Vec<(String, String)> = Vec::new();
    let mut i: usize = 0;
    while i < v.len()
        invariant
            i <= v.len(),
            out@ == v@.take(i as int),
        decreases v.len() - i,
    {
        out.push((v[i].0.clone(), v[i].1.clone()));
        assert(out@ =~= v@.take(i + 1));
        i = i + 1;
    }
    assert(v@.take(v.len() as int) =~= v@);
    out
}

impl QueryKind {
    /// The name of the language, as the log shows it.
    pub fn query_type(&self) -> (name: &'static str)
        ensures
            name@ == (match *self {
                QueryKind::Sql => "sql"@,
                QueryKind::InfluxQl => "influxql"@,
            }),
    {
        match self {
            QueryKind::Sql => "sql",
            QueryKind::InfluxQl => "influxql",
        }
    }
}

impl View for QueryLogEntry {
    type V = QueryLogEntryView;

    open spec fn view(&self) -> QueryLogEntryView {
        QueryLogEntryView {
            id: self.id,
            kind: self.kind,
            text: self.text@,
            params: self.params@,
            trace_id: self.trace_id,
            phase: self.phase,
        }
    }
}

impl QueryLogEntry {
    /// A copy of this entry.
    pub fn snapshot(&self) -> (res: QueryLogEntry)
        ensures
            res@ == self@,
    {
        QueryLogEntry {
            id: self.id,
            kind: self.kind,
            text: self.text.clone(),
            params: copy_params(&self.params),
            trace_id: self.trace_id,
            phase: self.phase,
        }
    }
}

impl View for QueryLog {
    type V = QueryLogView;

    closed spec fn view(&self) -> QueryLogView {
        QueryLogView {
            capacity: self.capacity,
            entries: entry_views(self.entries@),
            next_id: self.next_id,
        }
    }
}

impl QueryLog {
    /// Whether the log is well-formed.
    pub open spec fn wf(&self) -> bool {
        log_wf(self@)
    }

    /// An empty log that keeps the newest `capacity` queries.
    pub fn new(capacity: usize) -> (log: QueryLog)
        ensures
            log.wf(),
            log@ == (QueryLogView { capacity, entries: Seq::empty(), next_id: 0 }),
    {
        let log = QueryLog { capacity, entries: Vec::new(), next_id: 0 };
        assert(log@.entries =~= Seq::empty());
        log
    }

    /// The number of queries that the log keeps at most.
    pub fn capacity(&self) -> (n: usize)
        ensures
            n == self@.capacity,
    {
        self.capacity
    }

    /// The number of entries.
    pub fn len(&self) -> (n: usize)
        ensures
            n == self@.entries.len(),
    {
        self.entries.len()
    }

    /// A copy of the entries, from the oldest to the newest.
    pub fn entries(&self) -> (res: Vec<QueryLogEntry>)
        ensures
            entry_views(res@) == self@.entries,
    {
        let mut out: Vec<QueryLogEntry> = Vec::new();
        let mut i: usize = 0;
        while i < self.entries.len()
            invariant
                i <= self.entries.len(),
                out@.len() == i,
                forall|j: int| 0 <= j < i ==> (#[trigger] out@[j])@ == self.entries@[j]@,
            decreases self.entries.len() - i,
        {
            out.push(self.entries[i].snapshot());
            i = i + 1;
        }
        assert(entry_views(out@) =~= self@.entries);
        out
    }

    /// Records a query that was received and gives out its handle.
    pub fn push(
        &mut self,
        kind: QueryKind,
        text: String,
        params: Vec<(String, String)>,
        trace_id: Option<u128>,
    ) -> (token: ReceivedToken)
        requires
            old(self).wf(),
        ensures
            final(self).wf(),
            final(self)@ == pushed(old(self)@, kind, text@, params@, trace_id),
            token.id() == old(self)@.next_id,
    {
        let id = self.next_id;
        proof {
            lemma_pushed(self@, kind, text@, params@, trace_id);
        }
        if id == u64::MAX {
            return ReceivedToken { id };
        }
        self.next_id = id + 1;
        if self.capacity == 0 {
            return ReceivedToken { id };
        }
        let ghost before = self@.entries;
        if self.entries.len() >= self.capacity {
            self.entries.remove(0);
            assert(entry_views(self.entries@) =~= before.drop_first());
        }
        let ghost kept = entry_views(self.entries@);
        let entry = QueryLogEntry { id, kind, text, params, trace_id, phase: QueryPhase::Received };
        self.entries.push(entry);
        assert(entry_views(self.entries@) =~= kept.push(entry@));
        ReceivedToken { id }
    }

    /// Sets the phase of the query `id`, if the log still holds it.
    fn set_phase(&mut self, id: u64, phase: QueryPhase)
        requires
            old(self).wf(),
        ensures
            final(self).wf(),
            final(self)@ == advanced(old(self)@, id, phase),
    {
        proof {
            lemma_advanced(self@, id, phase);
        }
        let ghost before = self@.entries;
        let mut i: usize = 0;
        while i < self.entries.len()
            invariant
                i <= self.entries.len(),
                *self == *old(self),
                old(self).wf(),
                log_wf(advanced(old(self)@, id, phase)),
                before == self@.entries,
                forall|j: int| 0 <= j < i ==> (#[trigger] before[j]).id != id,
            decreases self.entries.len() - i,
        {
            if self.entries[i].id == id {
                let mut entry = self.entries.remove(i);
                entry.phase = phase;
                self.entries.insert(i, entry);
                assert(entry_views(self.entries@) =~= with_phase(before, id, phase)) by {
                    assert forall|k: int| 0 <= k < before.len() && k != i implies (
                    #[trigger] before[k]).id != id by {
                        if k > i {
                            assert(before[i as int].id < before[k].id);
                        }
                    }
                }
                return ;
            }
            i = i + 1;
        }
        assert(entry_views(self.entries@) =~= with_phase(before, id, phase));
    }
}

impl ReceivedToken {
    /// The id of the query.
    pub closed spec fn id(&self) -> u64 {
        self.id
    }

    /// The phase that this handle stands for.
    pub open spec fn phase() -> QueryPhase {
        QueryPhase::Received
    }

    /// The id of the query.
    pub fn query_id(&self) -> (id: u64)
        ensures
            id == self.id(),
    {
        self.id
    }

    /// The query has a plan: its entry passes to `Planned`.
    pub fn planned(self, log: &mut QueryLog) -> (token: PlannedToken)
        requires
            old(log).wf(),
        ensures
            final(log).wf(),
            final(log)@ == advanced(old(log)@, self.id(), PlannedToken::phase()),
            may_advance(ReceivedToken::phase(), PlannedToken::phase()),
            token.id() == self.id(),
    {
        log.set_phase(self.id, QueryPhase::Planned);
        PlannedToken { id: self.id }
    }

    /// The query failed: its entry passes to `Failed`.
    pub fn fail(self, log: &mut QueryLog)
        requires
            old(log).wf(),
        ensures
            final(log).wf(),
            final(log)@ == advanced(old(log)@, self.id(), QueryPhase::Failed),
    {
        log.set_phase(self.id, QueryPhase::Failed);
    }
}

impl PlannedToken {
    /// The id of the query.
    pub closed spec fn id(&self) -> u64 {
        self.id
    }

    /// The phase that this handle stands for.
    pub open spec fn phase() -> QueryPhase {
        QueryPhase::Planned
    }

    /// The id of the query.
    pub fn query_id(&self) -> (id: u64)
        ensures
            id == self.id(),
    {
        self.id
    }

    /// The query may run: its entry passes to `Permitted`.
    pub fn permit(self, log: &mut QueryLog) -> (token: PermittedToken)
        requires
            old(log).wf(),
        ensures
            final(log).wf(),
            final(log)@ == advanced(old(log)@, self.id(), PermittedToken::phase()),
            may_advance(PlannedToken::phase(), PermittedToken::phase()),
            token.id() == self.id(),
    {
        log.set_phase(self.id, QueryPhase::Permitted);
        PermittedToken { id: self.id }
    }

    /// The query failed: its entry passes to `Failed`.
    pub fn fail(self, log: &mut QueryLog)
        requires
            old(log).wf(),
        ensures
            final(log).wf(),
            final(log)@ == advanced(old(log)@, self.id(), QueryPhase::Failed),
    {
        log.set_phase(self.id, QueryPhase::Failed);
    }
}

impl PermittedToken {
    /// The id of the query.
    pub closed spec fn id(&self) -> u64 {
        self.id
    }

    /// The phase that this handle stands for.
    pub open spec fn phase() -> QueryPhase {
        QueryPhase::Permitted
    }

    /// The id of the query.
    pub fn query_id(&self) -> (id: u64)
        ensures
            id == self.id(),
    {
        self.id
    }

    /// The query gave a stream of results: its entry passes to `Success`.
    pub fn success(self, log: &mut QueryLog)
        requires
            old(log).wf(),
        ensures
            final(log).wf(),
            final(log)@ == advanced(old(log)@, self.id(), QueryPhase::Success),
            may_advance(PermittedToken::phase(), QueryPhase::Success),
    {
        log.set_phase(self.id, QueryPhase::Success);
    }

    /// The query failed: its entry passes to `Failed`.
    pub fn fail(self, log: &mut QueryLog)
        requires
            old(log).wf(),
        ensures
            final(log).wf(),
            final(log)@ == advanced(old(log)@, self.id(), QueryPhase::Failed),
    {
        log.set_phase(self.id, QueryPhase::Failed);
    }
}

} // verus!
