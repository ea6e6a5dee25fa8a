use iflypen_api_rs::error::is_retryable;
use iflypen_api_rs::retry::backoff_delay;
use iflypen_api_rs::{IflyrecError, RetryDriver, RetryStep};

fn computing() -> IflyrecError {
    IflyrecError::ApiError { code: "100001".to_string(), desc: "提交失败：订单音频时长计算中，请稍后".to_string() }
}

/// Feeds the driver the outcomes in order, as a caller would, and reports how
/// many attempts it took and how it ended.
fn drive(outcomes: Vec<Result<String, IflyrecError>>) -> (u32, Result<String, IflyrecError>, Vec<u64>) {
    let mut driver = RetryDriver::new();
    let mut waits = Vec::new();
    for outcome in outcomes {
        match driver.record(outcome) {
            RetryStep::Done(v) => return (driver.attempts(), Ok(v), waits),
            RetryStep::GiveUp(e) => return (driver.attempts(), Err(e), waits),
            RetryStep::Wait(ms) => waits.push(ms),
        }
    }
    panic!("the driver asked for more attempts than were given");
}

#[test]
fn succeeds_on_attempt_n_after_computing_errors() {
    for n in 1..=5usize {
        let mut outcomes: Vec<Result<String, IflyrecError>> = Vec::new();
        for _ in 0..n - 1 {
            outcomes.push(Err(computing()));
        }
        outcomes.push(Ok("order-9".to_string()));
        let (attempts, result, _) = drive(outcomes);
        assert_eq!(attempts as usize, n);
        assert_eq!(result, Ok("order-9".to_string()));
    }
}

#[test]
fn non_matching_api_error_fails_after_one_attempt() {
    let err = IflyrecError::ApiError { code: "200".to_string(), desc: "余额不足".to_string() };
    let (attempts, result, waits) = drive(vec![Err(err.clone()), Ok("never".to_string())]);
    assert_eq!(attempts, 1);
    assert_eq!(result, Err(err));
    assert!(waits.is_empty());
}

#[test]
fn transport_error_is_not_retried() {
    let err = IflyrecError::RequestError("connection reset".to_string());
    let (attempts, result, _) = drive(vec![Err(err.clone()), Ok("x".to_string())]);
    assert_eq!(attempts, 1);
    assert_eq!(result, Err(err));
}

#[test]
fn computing_errors_exhaust_after_five_attempts() {
    let outcomes = (0..7).map(|_| Err(computing())).collect();
    let (attempts, result, waits) = drive(outcomes);
    assert_eq!(attempts, 5);
    assert_eq!(result, Err(computing()));
    assert_eq!(waits, vec![500, 1000, 2000, 4000]);
}

#[test]
fn backoff_doubles_up_to_ten_seconds() {
    assert_eq!(backoff_delay(1), 500);
    assert_eq!(backoff_delay(2), 1000);
    assert_eq!(backoff_delay(3), 2000);
    assert_eq!(backoff_delay(4), 4000);
    assert_eq!(backoff_delay(5), 8000);
    assert_eq!(backoff_delay(6), 10000);
    assert_eq!(backoff_delay(40), 10000);
}

#[test]
fn classification_of_errors() {
    assert!(is_retryable(&computing()));
    assert!(is_retryable(&IflyrecError::OrderProcessing("wait".to_string())));
    assert!(!is_retryable(&IflyrecError::ApiError { code: "1".to_string(), desc: "时长".to_string() }));
    assert!(!is_retryable(&IflyrecError::JsonError("bad".to_string())));
    assert!(!is_retryable(&IflyrecError::IoError("gone".to_string())));
    assert!(!is_retryable(&IflyrecError::OrderIdUnavailable));
}

#[test]
fn new_driver_has_no_attempts() {
    assert_eq!(RetryDriver::new().attempts(), 0);
}
