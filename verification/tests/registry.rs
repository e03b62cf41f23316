use mcagent::errors::AgentError;
use mcagent::registry::CorrelationRegistry;

#[test]
fn out_of_order_completion_delivers_to_the_right_originators() {
    let mut reg = CorrelationRegistry::new();
    let a: u128 = 0xa;
    let b: u128 = 0xb;
    assert!(reg.register(a, 1).is_ok());
    assert!(reg.register(b, 2).is_ok());
    // the response for B arrives first, then A
    assert_eq!(reg.complete(b), Ok(2));
    assert_eq!(reg.complete(a), Ok(1));
    assert_eq!(reg.pending_count(), 0);
}

#[test]
fn each_identifier_is_completed_at_most_once() {
    let mut reg = CorrelationRegistry::new();
    assert!(reg.register(7, 70).is_ok());
    assert_eq!(reg.complete(7), Ok(70));
    assert_eq!(reg.complete(7), Err(AgentError::UnknownCorrelationId));
}

#[test]
fn an_orphan_never_disturbs_other_requests() {
    let mut reg = CorrelationRegistry::new();
    assert!(reg.register(1, 10).is_ok());
    assert_eq!(reg.complete(99), Err(AgentError::UnknownCorrelationId));
    assert_eq!(reg.pending_count(), 1);
    assert_eq!(reg.complete(1), Ok(10));
}

#[test]
fn registering_a_duplicate_identifier_fails_distinctly() {
    let mut reg = CorrelationRegistry::new();
    assert!(reg.register(5, 50).is_ok());
    assert_eq!(reg.register(5, 51), Err(AgentError::DuplicateCorrelationId));
    // the original entry is untouched
    assert_eq!(reg.complete(5), Ok(50));
}

#[test]
fn many_identifiers_complete_in_any_permutation() {
    let mut reg = CorrelationRegistry::new();
    for i in 0..8u128 {
        assert!(reg.register(i, 100 + i as u64).is_ok());
    }
    for &i in &[3u128, 0, 7, 1, 6, 2, 5, 4] {
        assert_eq!(reg.complete(i), Ok(100 + i as u64));
    }
    assert_eq!(reg.pending_count(), 0);
}

#[test]
fn begin_request_mints_fresh_identifiers() {
    let mut reg = CorrelationRegistry::new();
    let first = reg.begin_request(1).unwrap();
    let second = reg.begin_request(2).unwrap();
    assert_ne!(first, second);
    assert_eq!(reg.complete(second), Ok(2));
    assert_eq!(reg.complete(first), Ok(1));
}
