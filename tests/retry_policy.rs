use vupdaters::api::ErrorKind;
use vupdaters::retry::{backoff_error, decide, ErrorClass, RetryDecision};

const ALL: [ErrorKind; 6] = [
    ErrorKind::BuildRequest,
    ErrorKind::BuildUrl,
    ErrorKind::Request,
    ErrorKind::DecodeJson,
    ErrorKind::ServerHttp,
    ErrorKind::Server,
];

#[test]
fn build_errors_are_permanent_others_transient() {
    for k in ALL {
        let expected = matches!(k, ErrorKind::BuildRequest | ErrorKind::BuildUrl);
        assert_eq!(backoff_error(k) == ErrorClass::Permanent, expected);
    }
}

#[test]
fn permanent_error_gives_up_whatever_the_backoff() {
    assert_eq!(decide(ErrorKind::BuildUrl, Some(500)), RetryDecision::GiveUp);
    assert_eq!(decide(ErrorKind::BuildRequest, None), RetryDecision::GiveUp);
}

#[test]
fn transient_error_sleeps_the_offered_delay() {
    assert_eq!(decide(ErrorKind::Request, Some(750)), RetryDecision::RetryAfter(750));
    assert_eq!(decide(ErrorKind::Server, Some(0)), RetryDecision::RetryAfter(0));
}

#[test]
fn transient_error_stops_when_budget_spent() {
    assert_eq!(decide(ErrorKind::ServerHttp, None), RetryDecision::GiveUp);
}

/// Drives the decisions the way a retrying caller does: `outcomes` are the
/// attempts' results, `delays` the backoff's offers.
fn run(outcomes: &[Result<(), ErrorKind>], delays: &[Option<u64>]) -> (usize, Result<(), ErrorKind>, Vec<u64>) {
    let mut slept = Vec::new();
    for (i, o) in outcomes.iter().enumerate() {
        match o {
            Ok(()) => return (i + 1, Ok(()), slept),
            Err(k) => match decide(*k, delays[i]) {
                RetryDecision::GiveUp => return (i + 1, Err(*k), slept),
                RetryDecision::RetryAfter(d) => slept.push(d),
            },
        }
    }
    panic!("outcomes ran out")
}

#[test]
fn one_attempt_on_permanent_error() {
    let (attempts, result, slept) = run(&[Err(ErrorKind::BuildUrl), Ok(())], &[Some(100), Some(200)]);
    assert_eq!(attempts, 1);
    assert_eq!(result, Err(ErrorKind::BuildUrl));
    assert!(slept.is_empty());
}

#[test]
fn n_transient_failures_then_success_take_n_plus_one_attempts() {
    let outcomes = [Err(ErrorKind::Request), Err(ErrorKind::Server), Err(ErrorKind::ServerHttp), Ok(())];
    let (attempts, result, slept) = run(&outcomes, &[Some(100), Some(150), Some(225), Some(300)]);
    assert_eq!(attempts, 4);
    assert_eq!(result, Ok(()));
    assert_eq!(slept, vec![100, 150, 225]);
}
