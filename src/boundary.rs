use vstd::prelude::*;

use crate::forecast::FetchError;
use crate::resource::OutcomeModel;

verus! {

/// The text shown for an error.
pub open spec fn message_of(e: FetchError) -> Seq<char> {
    match e {
        FetchError::NonZeroDays => "Please request more than zero days."@,
        FetchError::Request => "Error loading data."@,
        FetchError::Json => "Error deserializaing data from request."@,
    }
}

/// The text shown for an error.
pub fn error_message(e: FetchError) -> (r: &'static str)
    ensures
        r@ == message_of(e),
{
    match e {
        FetchError::NonZeroDays => "Please request more than zero days.",
        FetchError::Request => "Error loading data.",
        FetchError::Json => "Error deserializaing data from request.",
    }
}

/// One failure on display: the request it came from, and the error.
#[derive(Clone, Copy, Debug, PartialEq, Eq, Structural)]
pub struct ErrorEntry {
    pub id: u64,
    pub error: FetchError,
}

/// The live error slot after the cell moved to `outcome` in request `id`: a
/// failure takes the slot, a success clears it, anything else leaves it.
pub open spec fn recorded(slot: Option<ErrorEntry>, id: u64, outcome: OutcomeModel) -> Option<ErrorEntry> {
    match outcome {
        OutcomeModel::Failed(e) => Some(ErrorEntry { id, error: e }),
        OutcomeModel::Succeeded(_) => None,
        _ => slot,
    }
}

/// Collects the failures of one resource cell for display: at most one
/// entry lives at a time.
pub struct ErrorBoundary {
    slot: Option<ErrorEntry>,
}

impl View for ErrorBoundary {
    type V = Option<ErrorEntry>;

    closed spec fn view(&self) -> Option<ErrorEntry> {
        self.slot
    }
}

impl ErrorBoundary {
    /// A boundary with nothing to show.
    pub fn new() -> (r: ErrorBoundary)
        ensures
            r@ is None,
    {
        ErrorBoundary { slot: None }
    }

    /// Notes that the cell moved to `outcome` in request `id`.
    pub fn record(&mut self, id: u64, outcome: &crate::resource::FetchOutcome)
        ensures
            final(self)@ == recorded(old(self)@, id, outcome@),
    {
        match outcome {
            crate::resource::FetchOutcome::Failed(e) => {
                self.slot = Some(ErrorEntry { id, error: *e });
            },
            crate::resource::FetchOutcome::Succeeded(_) => {
                self.slot = None;
            },
            _ => {},
        }
    }

    /// Whether no error is on display.
    pub fn is_empty(&self) -> (r: bool)
        ensures
            r == self@ is None,
    {
        self.slot.is_none()
    }

    /// The live entries, in no particular order.
    pub fn entries(&self) -> (r: Vec<ErrorEntry>)
        ensures
            r@ == match self@ {
                Some(entry) => seq![entry],
                None => Seq::<ErrorEntry>::empty(),
            },
    {
        let mut r: Vec<ErrorEntry> = Vec::new();
        if let Some(entry) = self.slot {
            r.push(entry);
        }
        r
    }

    /// The messages of the live entries, in no particular order.
    pub fn messages(&self) -> (r: Vec<&'static str>)
        ensures
            r@.len() == (if self@ is Some { 1int } else { 0int }),
            forall|i: int| 0 <= i < r@.len() ==> (#[trigger] r@[i])@ == message_of(self@->0.error),
    {
        let mut r: Vec<&'static str> = Vec::new();
        if let Some(entry) = self.slot {
            r.push(error_message(entry.error));
        }
        r
    }
}

} // verus!
