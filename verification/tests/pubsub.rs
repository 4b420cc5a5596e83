use aleo_mining_protocol::pubsub::PubSub;
use aleo_mining_protocol::{EpochChallenge, Error, NewTask};

fn task(difficulty: u64) -> NewTask {
    NewTask { epoch_challenge: EpochChallenge::new(1, "ab1".to_string(), 15), difficulty }
}

#[test]
fn a_fresh_hub_has_no_task_and_no_subscriber() {
    let hub = PubSub::new(3);
    assert_eq!(hub.limit(), 3);
    assert_eq!(hub.subscribers(), 0);
    assert_eq!(hub.current_task(), None);
}

#[test]
fn a_new_subscriber_takes_the_current_task_first() {
    let mut hub = PubSub::new(1);
    hub.task_pub(task(1));
    let handle = hub.add_sub().unwrap();
    assert_eq!(hub.next_task(handle), Ok(Some(task(1))));
    assert_eq!(hub.next_task(handle), Ok(None));
    assert_eq!(hub.current_task(), Some(&task(1)));
}

#[test]
fn a_subscriber_of_an_empty_hub_has_nothing_to_take() {
    let mut hub = PubSub::new(1);
    let handle = hub.add_sub().unwrap();
    assert_eq!(hub.next_task(handle), Ok(None));
    hub.task_pub(task(2));
    assert_eq!(hub.next_task(handle), Ok(Some(task(2))));
}

#[test]
fn the_hub_admits_no_more_than_its_limit() {
    let mut hub = PubSub::new(2);
    let first = hub.add_sub();
    let second = hub.add_sub();
    let third = hub.add_sub();
    assert_eq!(first, Ok(0));
    assert_eq!(second, Ok(1));
    assert_eq!(third, Err(Error::AdmissionExhausted));
    assert_eq!(hub.subscribers(), 2);
    assert!(hub.remove_sub(0));
    assert_eq!(hub.subscribers(), 1);
    assert_eq!(hub.add_sub(), Ok(0));
    assert_eq!(hub.add_sub(), Err(Error::AdmissionExhausted));
}

#[test]
fn a_hub_without_slots_admits_nobody() {
    let mut hub = PubSub::new(0);
    assert_eq!(hub.add_sub(), Err(Error::AdmissionExhausted));
    hub.task_pub(task(1));
    assert_eq!(hub.current_task(), Some(&task(1)));
}

#[test]
fn a_lagging_subscriber_takes_the_latest_task() {
    let mut hub = PubSub::new(2);
    let slow = hub.add_sub().unwrap();
    let quick = hub.add_sub().unwrap();
    hub.task_pub(task(1));
    assert_eq!(hub.next_task(quick), Ok(Some(task(1))));
    hub.task_pub(task(2));
    assert_eq!(hub.next_task(quick), Ok(Some(task(2))));
    hub.task_pub(task(3));
    assert_eq!(hub.next_task(slow), Ok(Some(task(3))));
    assert_eq!(hub.next_task(slow), Ok(None));
    assert_eq!(hub.next_task(quick), Ok(Some(task(3))));
}

#[test]
fn a_handle_that_is_no_subscribers_is_closed() {
    let mut hub = PubSub::new(2);
    assert_eq!(hub.next_task(0), Err(Error::ChannelClosed));
    assert!(!hub.remove_sub(0));
    let handle = hub.add_sub().unwrap();
    assert!(hub.remove_sub(handle));
    assert!(!hub.remove_sub(handle));
    assert_eq!(hub.next_task(handle), Err(Error::ChannelClosed));
    hub.task_pub(task(1));
    assert_eq!(hub.next_task(handle), Err(Error::ChannelClosed));
    assert_eq!(hub.subscribers(), 0);
}

#[test]
fn a_freed_slot_is_taken_before_a_new_one() {
    let mut hub = PubSub::new(3);
    assert_eq!(hub.add_sub(), Ok(0));
    assert_eq!(hub.add_sub(), Ok(1));
    assert!(hub.remove_sub(0));
    hub.task_pub(task(9));
    assert_eq!(hub.add_sub(), Ok(0));
    assert_eq!(hub.add_sub(), Ok(2));
    assert_eq!(hub.next_task(0), Ok(Some(task(9))));
    assert_eq!(hub.next_task(1), Ok(Some(task(9))));
    assert_eq!(hub.next_task(2), Ok(Some(task(9))));
}
