use vstd::prelude::*;

use crate::boundary::{message_of, recorded, ErrorBoundary, ErrorEntry};
use crate::forecast::{settle, settled, FetchError, Response};
use crate::temperature::Celsius;
use crate::resource::{
    completed, issued, observed, started, CellModel, FetchOutcome, FetchRequest, OutcomeModel,
    ResourceCell, Ticket,
};
use crate::temperature::{facts_of, project, DisplayFact};

verus! {

/// The day count the widget starts with.
pub const DEFAULT_DAYS: u8 = 1;

/// What the widget shows.
#[derive(Debug)]
pub enum Screen {
    /// The placeholder while nothing has arrived.
    Loading,
    /// The messages of the failures on display.
    Errors(Vec<&'static str>),
    /// One card per daily maximum.
    Cards(Vec<DisplayFact>),
}

/// The mathematical value of a `WeatherWidget`.
pub struct WidgetModel {
    /// The parameter signal: the day count asked for.
    pub days: u8,
    pub cell: CellModel,
    pub errors: Option<ErrorEntry>,
}

impl WidgetModel {
    /// The cell follows the parameter, a failure is on display exactly
    /// while the cell holds it, and a success leaves no failure on display.
    pub open spec fn wf(self) -> bool {
        &&& self.cell.wf()
        &&& self.cell.key == Some(self.days)
        &&& (self.cell.outcome matches OutcomeModel::Failed(e) ==> self.errors == Some(
            ErrorEntry { id: self.cell.generation, error: e },
        ))
        &&& (self.cell.outcome is Succeeded ==> self.errors is None)
    }
}

/// The widget after its cell moved to `cell`: the boundary notes the new state.
pub open spec fn with_cell(w: WidgetModel, days: u8, cell: CellModel) -> WidgetModel {
    WidgetModel { days, cell, errors: recorded(w.errors, cell.generation, cell.outcome) }
}

/// The widget after the parameter was set to `days`.
pub open spec fn set_to(w: WidgetModel, days: u8) -> WidgetModel {
    with_cell(w, days, observed(w.cell, days))
}

/// The widget after a forced new request for the current parameter.
pub open spec fn reloaded(w: WidgetModel) -> WidgetModel {
    with_cell(w, w.days, started(w.cell, w.days))
}

/// The widget after the result of `ticket` came in.
pub open spec fn delivered(
    w: WidgetModel,
    ticket: Ticket,
    result: Result<Seq<Celsius>, FetchError>,
) -> WidgetModel {
    with_cell(w, w.days, completed(w.cell, ticket, result))
}

/// The forecast widget: a day-count parameter, the resource cell that
/// follows it, and the boundary that shows its failures.
pub struct WeatherWidget {
    days: u8,
    cell: ResourceCell,
    errors: ErrorBoundary,
}

impl View for WeatherWidget {
    type V = WidgetModel;

    closed spec fn view(&self) -> WidgetModel {
        WidgetModel { days: self.days, cell: self.cell@, errors: self.errors@ }
    }
}

impl WeatherWidget {
    fn note_cell(&mut self)
        ensures
            final(self)@ == with_cell(old(self)@, old(self)@.days, old(self)@.cell),
    {
        let generation = self.cell.generation();
        self.errors.record(generation, self.cell.outcome());
    }

    /// A widget for the default day count, with its first request.
    pub fn new() -> (r: (WeatherWidget, FetchRequest))
        ensures
            r.0@.wf(),
            r.0@ == with_cell(
                WidgetModel {
                    days: DEFAULT_DAYS,
                    cell: CellModel { key: None, generation: 0, outcome: OutcomeModel::Idle },
                    errors: None,
                },
                DEFAULT_DAYS,
                CellModel { key: Some(DEFAULT_DAYS), generation: 1, outcome: OutcomeModel::Pending },
            ),
            issued(CellModel { key: None, generation: 0, outcome: OutcomeModel::Idle }, DEFAULT_DAYS, r.1),
    {
        let mut widget = WeatherWidget {
            days: DEFAULT_DAYS,
            cell: ResourceCell::new(),
            errors: ErrorBoundary::new(),
        };
        let request = widget.cell.start(DEFAULT_DAYS);
        widget.note_cell();
        (widget, request)
    }

    /// The day count asked for.
    pub fn days(&self) -> (r: u8)
        ensures
            r == self@.days,
    {
        self.days
    }

    /// Sets the parameter to `days`; the cell issues a request where the
    /// day count changed.
    pub fn set_days(&mut self, days: u8) -> (r: Option<FetchRequest>)
        requires
            old(self)@.wf(),
            old(self)@.cell.generation < u64::MAX,
        ensures
            final(self)@ == set_to(old(self)@, days),
            final(self)@.wf(),
            old(self)@.days == days ==> r is None,
            old(self)@.days != days ==> r is Some && issued(old(self)@.cell, days, r->0),
    {
        self.days = days;
        let request = self.cell.observe(days);
        self.note_cell();
        request
    }

    /// Issues a new request for the current day count, as a retry.
    pub fn reload(&mut self) -> (r: FetchRequest)
        requires
            old(self)@.wf(),
            old(self)@.cell.generation < u64::MAX,
        ensures
            final(self)@ == reloaded(old(self)@),
            final(self)@.wf(),
            issued(old(self)@.cell, old(self)@.days, r),
    {
        let request = self.cell.start(self.days);
        self.note_cell();
        request
    }

    /// Takes the answer of the service to the GET of `ticket`; answers to
    /// superseded requests change nothing. The result says whether the
    /// answer was taken.
    pub fn deliver(&mut self, ticket: Ticket, response: Response) -> (applied: bool)
        requires
            old(self)@.wf(),
        ensures
            final(self)@ == delivered(old(self)@, ticket, settled(response)),
            final(self)@.wf(),
            applied == (ticket.generation == old(self)@.cell.generation
                && old(self)@.cell.outcome is Pending),
    {
        let applied = self.cell.complete(ticket, settle(response));
        self.note_cell();
        applied
    }

    /// Completes `ticket` with the rejection its request carried, for a
    /// request that needs no I/O. The result says whether it was taken.
    pub fn reject(&mut self, ticket: Ticket, error: FetchError) -> (applied: bool)
        requires
            old(self)@.wf(),
        ensures
            final(self)@ == delivered(old(self)@, ticket, Err(error)),
            final(self)@.wf(),
            applied == (ticket.generation == old(self)@.cell.generation
                && old(self)@.cell.outcome is Pending),
    {
        let applied = self.cell.complete(ticket, Err(error));
        self.note_cell();
        applied
    }

    /// A snapshot of the resource's state.
    pub fn read(&self) -> (r: FetchOutcome)
        ensures
            r@ == self@.cell.outcome,
    {
        self.cell.read()
    }

    /// The messages of the failures on display.
    pub fn error_messages(&self) -> (r: Vec<&'static str>)
        ensures
            r@.len() == (if self@.errors is Some { 1int } else { 0int }),
            forall|i: int|
                0 <= i < r@.len() ==> (#[trigger] r@[i])@ == message_of(self@.errors->0.error),
    {
        self.errors.messages()
    }

    /// What the widget shows: the failures while any is on display, else
    /// the cards of a successful fetch, else the loading placeholder.
    pub fn screen(&self) -> (r: Screen)
        ensures
            self@.errors matches Some(entry) ==> r matches Screen::Errors(m) && m@.len() == 1
                && m@[0]@ == message_of(entry.error),
            self@.errors is None ==> match self@.cell.outcome {
                OutcomeModel::Succeeded(s) => r matches Screen::Cards(c) && c@ == facts_of(s),
                _ => r is Loading,
            },
    {
        if !self.errors.is_empty() {
            Screen::Errors(self.errors.messages())
        } else {
            match self.cell.outcome() {
                FetchOutcome::Succeeded(v) => Screen::Cards(project(v)),
                _ => Screen::Loading,
            }
        }
    }
}

/// After a failure, a successful answer to a request for a new day count
/// empties the error display.
pub proof fn lemma_success_clears_errors(w: WidgetModel, days: u8, response: Response)
    requires
        w.wf(),
        w.cell.outcome is Failed,
        w.cell.generation < u64::MAX,
        days != w.days,
        response is Forecast,
    ensures
        ({
            let w1 = set_to(w, days);
            let w2 = delivered(
                w1,
                Ticket { generation: w1.cell.generation, days },
                settled(response),
            );
            &&& w1.errors == w.errors
            &&& w2.cell.outcome is Succeeded
            &&& w2.errors is None
        }),
{
}

} // verus!
