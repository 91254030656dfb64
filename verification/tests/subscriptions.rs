use dojo_uniffi::error::DojoError;
use dojo_uniffi::registry::SubscriptionRegistry;
use dojo_uniffi::subscription::{
    begin_entity_updates, begin_token_balance_updates, begin_token_updates, complete_subscription,
};
type StarkFelt = starknet::core::types::Felt;
use std::time::{Duration, Instant};

fn runtime() -> tokio::runtime::Runtime {
    tokio::runtime::Runtime::new().unwrap()
}

fn idle_task(rt: &tokio::runtime::Runtime) -> tokio::task::JoinHandle<()> {
    rt.spawn(std::future::pending::<()>())
}

fn wait_finished(handle: &tokio::task::AbortHandle) -> bool {
    let start = Instant::now();
    while start.elapsed() < Duration::from_secs(5) {
        if handle.is_finished() {
            return true;
        }
        std::hint::spin_loop();
    }
    false
}

#[test]
fn ids_are_handed_out_in_order() {
    let mut reg = SubscriptionRegistry::new();
    assert_eq!(reg.allocate_id(), 0);
    assert_eq!(reg.allocate_id(), 1);
    assert_eq!(reg.allocate_id(), 2);
    assert_eq!(reg.next_id(), 3);
}

#[test]
fn cancel_unknown_id_is_an_error() {
    let mut reg = SubscriptionRegistry::new();
    assert_eq!(reg.cancel(0), Err(DojoError::SubscriptionError));
    assert_eq!(reg.cancel(42), Err(DojoError::SubscriptionError));
}

#[test]
fn cancel_aborts_the_task_once() {
    let rt = runtime();
    let mut reg = SubscriptionRegistry::new();
    let id = reg.allocate_id();
    let task = idle_task(&rt);
    let abort = task.abort_handle();
    assert_eq!(complete_subscription(&mut reg, id, task), id);
    assert!(reg.is_active(id));
    assert_eq!(reg.cancel(id), Ok(()));
    assert!(!reg.is_active(id));
    assert!(wait_finished(&abort));
    assert_eq!(reg.cancel(id), Err(DojoError::SubscriptionError));
}

#[test]
fn cancel_leaves_other_subscriptions_running() {
    let rt = runtime();
    let mut reg = SubscriptionRegistry::new();
    let a = reg.allocate_id();
    let b = reg.allocate_id();
    let task_a = idle_task(&rt);
    let task_b = idle_task(&rt);
    let abort_b = task_b.abort_handle();
    reg.register(a, task_a);
    reg.register(b, task_b);
    assert_eq!(reg.cancel(a), Ok(()));
    assert!(reg.is_active(b));
    let pause = Instant::now();
    while pause.elapsed() < Duration::from_millis(20) {
        std::hint::spin_loop();
    }
    assert!(!abort_b.is_finished());
    assert_eq!(reg.cancel(b), Ok(()));
    assert!(wait_finished(&abort_b));
}

#[test]
fn entity_subscription_consumes_an_id_even_when_refused() {
    let mut reg = SubscriptionRegistry::new();
    let bad = vec!["not hex".to_string()];
    assert_eq!(begin_entity_updates(&mut reg, &bad), Err(DojoError::InvalidInput));
    assert_eq!(reg.next_id(), 1);
    let good = vec!["0x1".to_string()];
    assert_eq!(begin_entity_updates(&mut reg, &good), Ok((1, vec![StarkFelt::ONE])));
    assert_eq!(reg.next_id(), 2);
    assert!(!reg.is_active(1));
}

#[test]
fn token_balance_subscription_parses_all_filters() {
    let mut reg = SubscriptionRegistry::new();
    let contracts = vec!["0x1".to_string()];
    let accounts = vec!["0x2".to_string(), "0x3".to_string()];
    let ids = vec!["0x4".to_string()];
    let r = begin_token_balance_updates(&mut reg, &contracts, &accounts, &ids).unwrap();
    assert_eq!(r.0, 0);
    assert_eq!(r.1, vec![StarkFelt::ONE]);
    assert_eq!(r.2, vec![StarkFelt::from(2u64), StarkFelt::from(3u64)]);
    assert_eq!(r.3, vec![crypto_bigint::U256::from_u64(4)]);
    let bad_ids = vec!["0xq".to_string()];
    assert_eq!(
        begin_token_balance_updates(&mut reg, &contracts, &accounts, &bad_ids),
        Err(DojoError::InvalidInput)
    );
    assert_eq!(reg.next_id(), 2);
}

#[test]
fn token_subscription_parses_filters() {
    let mut reg = SubscriptionRegistry::new();
    let contracts = vec!["ff".to_string()];
    let ids: Vec<String> = vec![];
    assert_eq!(
        begin_token_updates(&mut reg, &contracts, &ids),
        Ok((0, vec![StarkFelt::from(255u64)], vec![]))
    );
    let bad_contracts = vec!["".to_string()];
    assert_eq!(
        begin_token_updates(&mut reg, &bad_contracts, &ids),
        Err(DojoError::InvalidInput)
    );
}
