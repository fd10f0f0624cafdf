use vstd::prelude::*;

use crate::forecast::{begin_fetch, result_model, url_for, FetchError, FetchStep};
use crate::temperature::Celsius;

verus! {

/// The state of a fetch, as the view layer sees it.
#[derive(Clone, Debug)]
pub enum FetchOutcome {
    /// Nothing was ever asked for.
    Idle,
    /// The latest request has not been answered yet.
    Pending,
    /// The latest request failed.
    Failed(FetchError),
    /// The latest request brought these daily maxima.
    Succeeded(Vec<Celsius>),
}

/// The mathematical value of a `FetchOutcome`.
pub enum OutcomeModel {
    Idle,
    Pending,
    Failed(FetchError),
    Succeeded(Seq<Celsius>),
}

impl View for FetchOutcome {
    type V = OutcomeModel;

    open spec fn view(&self) -> OutcomeModel {
        match self {
            FetchOutcome::Idle => OutcomeModel::Idle,
            FetchOutcome::Pending => OutcomeModel::Pending,
            FetchOutcome::Failed(e) => OutcomeModel::Failed(*e),
            FetchOutcome::Succeeded(v) => OutcomeModel::Succeeded(v@),
        }
    }
}

/// The terminal state that a fetch result leads to.
pub open spec fn outcome_of(result: Result<Seq<Celsius>, FetchError>) -> OutcomeModel {
    match result {
        Ok(s) => OutcomeModel::Succeeded(s),
        Err(e) => OutcomeModel::Failed(e),
    }
}

/// Names one request: the generation it was issued in and its key.
#[derive(Clone, Copy, Debug, PartialEq, Eq, Structural)]
pub struct Ticket {
    pub generation: u64,
    pub days: u8,
}

/// A request that the host must carry out: send the GET, or hand the
/// rejection back without any I/O. Its result goes back with the ticket.
#[derive(Clone, Debug)]
pub struct FetchRequest {
    pub ticket: Ticket,
    pub step: FetchStep,
}

/// The mathematical value of a `ResourceCell`.
pub struct CellModel {
    /// The key of the latest request, if any was made.
    pub key: Option<u8>,
    /// The generation of the latest request; it grows by one per request.
    pub generation: u64,
    pub outcome: OutcomeModel,
}

/// The cell after a request for `days` has been issued.
pub open spec fn started(m: CellModel, days: u8) -> CellModel {
    CellModel {
        key: Some(days),
        generation: (m.generation + 1) as u64,
        outcome: OutcomeModel::Pending,
    }
}

/// The cell after the parameter was observed at `days`: a new request only
/// where the key differs from that of the latest request.
pub open spec fn observed(m: CellModel, days: u8) -> CellModel {
    if m.key == Some(days) { m } else { started(m, days) }
}

/// The cell after the result of `ticket` came in: only the result of the
/// latest request, while it is still pending, is taken.
pub open spec fn completed(
    m: CellModel,
    ticket: Ticket,
    result: Result<Seq<Celsius>, FetchError>,
) -> CellModel {
    if ticket.generation == m.generation && m.outcome is Pending {
        CellModel { outcome: outcome_of(result), ..m }
    } else {
        m
    }
}

/// The request issued by `started(m, days)`: zero days are rejected
/// without I/O, any other count is one GET to the service.
pub open spec fn issued(m: CellModel, days: u8, r: FetchRequest) -> bool {
    &&& r.ticket == (Ticket { generation: (m.generation + 1) as u64, days })
    &&& days == 0 ==> r.step == FetchStep::Reject(FetchError::NonZeroDays)
    &&& days != 0 ==> (r.step is Get && r.step->Get_0@ == url_for(days))
}

/// A resource keyed by a day count: it issues one request per change of key,
/// and takes only the answer to the latest request.
pub struct ResourceCell {
    key: Option<u8>,
    generation: u64,
    outcome: FetchOutcome,
}

impl View for ResourceCell {
    type V = CellModel;

    closed spec fn view(&self) -> CellModel {
        CellModel { key: self.key, generation: self.generation, outcome: self.outcome@ }
    }
}

impl CellModel {
    /// Before the first request the cell is idle, and only then.
    pub open spec fn wf(self) -> bool {
        &&& (self.key is None <==> self.outcome is Idle)
        &&& (self.key is None ==> self.generation == 0)
    }
}

impl ResourceCell {
    /// An idle cell.
    pub fn new() -> (r: ResourceCell)
        ensures
            r@ == (CellModel { key: None, generation: 0, outcome: OutcomeModel::Idle }),
            r@.wf(),
    {
        ResourceCell { key: None, generation: 0, outcome: FetchOutcome::Idle }
    }

    /// The generation of the latest request.
    pub fn generation(&self) -> (r: u64)
        ensures
            r == self@.generation,
    {
        self.generation
    }

    /// The key of the latest request.
    pub fn key(&self) -> (r: Option<u8>)
        ensures
            r == self@.key,
    {
        self.key
    }

    /// The current state, borrowed.
    pub fn outcome(&self) -> (r: &FetchOutcome)
        ensures
            r@ == self@.outcome,
    {
        &self.outcome
    }

    /// A snapshot of the current state; reading changes nothing.
    pub fn read(&self) -> (r: FetchOutcome)
        ensures
            r@ == self@.outcome,
    {
        match &self.outcome {
            FetchOutcome::Idle => FetchOutcome::Idle,
            FetchOutcome::Pending => FetchOutcome::Pending,
            FetchOutcome::Failed(e) => FetchOutcome::Failed(*e),
            FetchOutcome::Succeeded(v) => {
                let mut copy: Vec<Celsius> = Vec::new();
                let mut i: usize = 0;
                while i < v.len()
                    invariant
                        i <= v@.len(),
                        copy@ == v@.take(i as int),
                    decreases v@.len() - i,
                {
                    copy.push(v[i]);
                    assert(v@.take(i + 1) == v@.take(i as int).push(v@[i as int]));
                    i = i + 1;
                }
                assert(v@.take(v@.len() as int) == v@);
                FetchOutcome::Succeeded(copy)
            },
        }
    }

    /// Issues a new request for `days`, whatever the current key; the data or
    /// error of earlier requests is dropped and the cell is pending.
    pub fn start(&mut self, days: u8) -> (r: FetchRequest)
        requires
            old(self)@.wf(),
            old(self)@.generation < u64::MAX,
        ensures
            final(self)@ == started(old(self)@, days),
            final(self)@.wf(),
            issued(old(self)@, days, r),
    {
        self.generation = self.generation + 1;
        self.key = Some(days);
        self.outcome = FetchOutcome::Pending;
        FetchRequest { ticket: Ticket { generation: self.generation, days }, step: begin_fetch(days) }
    }

    /// Reacts to the parameter being `days`: a request is issued only where
    /// `days` differs from the key of the latest request.
    pub fn observe(&mut self, days: u8) -> (r: Option<FetchRequest>)
        requires
            old(self)@.wf(),
            old(self)@.generation < u64::MAX,
        ensures
            final(self)@ == observed(old(self)@, days),
            final(self)@.wf(),
            old(self)@.key == Some(days) ==> r is None,
            old(self)@.key != Some(days) ==> r is Some && issued(old(self)@, days, r->0),
    {
        if self.key == Some(days) {
            None
        } else {
            Some(self.start(days))
        }
    }

    /// Takes the result of `ticket`. It changes the state only where the
    /// ticket names the latest request and that request is still pending;
    /// the returned flag says whether it did.
    pub fn complete(&mut self, ticket: Ticket, result: Result<Vec<Celsius>, FetchError>) -> (applied: bool)
        requires
            old(self)@.wf(),
        ensures
            final(self)@ == completed(old(self)@, ticket, result_model(result)),
            final(self)@.wf(),
            applied == (ticket.generation == old(self)@.generation && old(self)@.outcome is Pending),
    {
        let pending = match &self.outcome {
            FetchOutcome::Pending => true,
            _ => false,
        };
        if ticket.generation == self.generation && pending {
            self.outcome = match result {
                Ok(v) => FetchOutcome::Succeeded(v),
                Err(e) => FetchOutcome::Failed(e),
            };
            true
        } else {
            false
        }
    }
}

/// Reading twice, with no request or answer in between, gives the same
/// value: each read is the state of the cell, which reading leaves alone.
pub proof fn lemma_reread_identical(cell: &ResourceCell, first: FetchOutcome, second: FetchOutcome)
    requires
        first@ == cell@.outcome,
        second@ == cell@.outcome,
    ensures
        first@ == second@,
{
}

/// Once a request for `b` has followed one for `a`, the result of `a` is
/// ignored, whether it comes before or after the result of `b`; the cell
/// ends in the outcome of the result of `b`.
pub proof fn lemma_stale_response_suppressed(
    m: CellModel,
    a: u8,
    b: u8,
    first: Result<Seq<Celsius>, FetchError>,
    second: Result<Seq<Celsius>, FetchError>,
)
    requires
        m.wf(),
        m.generation + 2 <= u64::MAX,
        m.key != Some(a),
        a != b,
    ensures
        ({
            let m1 = observed(m, a);
            let t1 = Ticket { generation: m1.generation, days: a };
            let m2 = observed(m1, b);
            let t2 = Ticket { generation: m2.generation, days: b };
            let m3 = completed(m2, t2, second);
            &&& m1.outcome is Pending
            &&& m2.outcome is Pending
            &&& completed(m2, t1, first) == m2
            &&& completed(m3, t1, first) == m3
            &&& m3.outcome == outcome_of(second)
        }),
{
}

} // verus!
