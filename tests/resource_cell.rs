use polo_weather::{Celsius, FetchError, FetchOutcome, FetchStep, ResourceCell, Ticket};

fn c(v: f32) -> Celsius {
    Celsius { bits: v.to_bits() }
}

fn forecast(max: &[f32]) -> Result<Vec<Celsius>, FetchError> {
    Ok(max.iter().map(|v| c(*v)).collect())
}

fn url_of(step: &FetchStep) -> &str {
    match step {
        FetchStep::Get(url) => url,
        FetchStep::Reject(e) => panic!("unexpected rejection {:?}", e),
    }
}

fn succeeded(outcome: &FetchOutcome) -> Vec<Celsius> {
    match outcome {
        FetchOutcome::Succeeded(v) => v.clone(),
        other => panic!("not a success: {:?}", other),
    }
}

#[test]
fn new_cell_is_idle() {
    let cell = ResourceCell::new();
    assert!(matches!(cell.read(), FetchOutcome::Idle));
    assert_eq!(cell.key(), None);
    assert_eq!(cell.generation(), 0);
}

#[test]
fn observe_new_key_issues_request() {
    let mut cell = ResourceCell::new();
    let request = cell.observe(2).expect("a request");
    assert_eq!(request.ticket, Ticket { generation: 1, days: 2 });
    assert!(url_of(&request.step).ends_with("&forecast_days=2"));
    assert!(matches!(cell.read(), FetchOutcome::Pending));
}

#[test]
fn observe_same_key_issues_nothing() {
    let mut cell = ResourceCell::new();
    let request = cell.observe(2).unwrap();
    assert!(cell.observe(2).is_none());
    assert_eq!(cell.generation(), 1);
    assert!(cell.complete(request.ticket, forecast(&[20.0, 21.0])));
    assert!(cell.observe(2).is_none());
    assert_eq!(succeeded(&cell.read()), vec![c(20.0), c(21.0)]);
}

#[test]
fn observe_zero_days_is_pending_then_rejected() {
    let mut cell = ResourceCell::new();
    let request = cell.observe(0).expect("a request");
    assert_eq!(request.ticket, Ticket { generation: 1, days: 0 });
    match request.step {
        FetchStep::Reject(e) => assert_eq!(e, FetchError::NonZeroDays),
        FetchStep::Get(url) => panic!("unexpected request to {}", url),
    }
    assert!(matches!(cell.read(), FetchOutcome::Pending));
    assert_eq!(cell.key(), Some(0));
    assert!(cell.complete(request.ticket, Err(FetchError::NonZeroDays)));
    assert!(matches!(cell.read(), FetchOutcome::Failed(FetchError::NonZeroDays)));
}

#[test]
fn stale_answer_after_fresh_one_is_discarded() {
    let mut cell = ResourceCell::new();
    let first = cell.observe(1).unwrap();
    let second = cell.observe(2).unwrap();
    assert!(cell.complete(second.ticket, forecast(&[18.0, 19.0])));
    assert!(!cell.complete(first.ticket, forecast(&[30.0])));
    assert_eq!(succeeded(&cell.read()), vec![c(18.0), c(19.0)]);
}

#[test]
fn stale_answer_before_fresh_one_is_discarded() {
    let mut cell = ResourceCell::new();
    let first = cell.observe(1).unwrap();
    let second = cell.observe(2).unwrap();
    assert!(!cell.complete(first.ticket, Err(FetchError::Request)));
    assert!(matches!(cell.read(), FetchOutcome::Pending));
    assert!(cell.complete(second.ticket, forecast(&[18.0, 19.0])));
    assert_eq!(succeeded(&cell.read()), vec![c(18.0), c(19.0)]);
}

#[test]
fn second_answer_to_settled_request_is_ignored() {
    let mut cell = ResourceCell::new();
    let request = cell.observe(1).unwrap();
    assert!(cell.complete(request.ticket, Err(FetchError::Json)));
    assert!(!cell.complete(request.ticket, forecast(&[25.0])));
    assert!(matches!(cell.read(), FetchOutcome::Failed(FetchError::Json)));
}

#[test]
fn reads_are_identical() {
    let mut cell = ResourceCell::new();
    let request = cell.observe(3).unwrap();
    cell.complete(request.ticket, forecast(&[1.0, 2.0, 3.0]));
    let a = succeeded(&cell.read());
    let b = succeeded(&cell.read());
    assert_eq!(a, b);
    assert_eq!(a, vec![c(1.0), c(2.0), c(3.0)]);
}

#[test]
fn start_forces_request_for_same_key() {
    let mut cell = ResourceCell::new();
    let first = cell.observe(1).unwrap();
    cell.complete(first.ticket, Err(FetchError::Request));
    assert!(matches!(cell.read(), FetchOutcome::Failed(FetchError::Request)));
    let retry = cell.start(1);
    assert_eq!(retry.ticket, Ticket { generation: 2, days: 1 });
    assert!(matches!(cell.read(), FetchOutcome::Pending));
    assert!(cell.complete(retry.ticket, forecast(&[22.0])));
    assert_eq!(succeeded(&cell.read()), vec![c(22.0)]);
}
