use key_relay::poller::ChangeDetectingPoller;
use key_relay::raw_key::RawKey;
use key_relay::snapshot::KeySnapshot;

fn snapshot(names: &[&str]) -> KeySnapshot {
    let keys: Vec<RawKey> = names.iter().map(|name| RawKey::from_name(name).unwrap()).collect();
    KeySnapshot::from_keys(&keys)
}

fn tokens_of_message(message: &str) -> Vec<String> {
    let combo = message.strip_prefix("KEYPRESS:").unwrap();
    let mut tokens: Vec<String> = combo.split('+').map(|token| token.to_string()).collect();
    tokens.sort();
    tokens
}

#[test]
fn a_new_poller_remembers_no_key() {
    let poller = ChangeDetectingPoller::new();
    assert!(poller.last_snapshot().is_empty());
}

#[test]
fn the_first_empty_sample_is_silent() {
    let mut poller = ChangeDetectingPoller::new();
    assert_eq!(poller.tick(KeySnapshot::new()), None);
    assert!(poller.last_snapshot().is_empty());
}

#[test]
fn a_changed_sample_is_announced_and_remembered() {
    let mut poller = ChangeDetectingPoller::new();
    assert_eq!(poller.tick(snapshot(&["Key1"])), Some("KEYPRESS:1".to_string()));
    assert!(poller.last_snapshot().same_keys(&snapshot(&["Key1"])));
}

#[test]
fn the_same_sample_twice_is_announced_once() {
    let mut poller = ChangeDetectingPoller::new();
    assert_eq!(poller.tick(snapshot(&["A", "B"])), Some("KEYPRESS:A+B".to_string()));
    assert_eq!(poller.tick(snapshot(&["A", "B"])), None);
    assert_eq!(poller.tick(snapshot(&["A", "B"])), None);
}

#[test]
fn the_same_keys_in_another_order_are_no_change() {
    let mut poller = ChangeDetectingPoller::new();
    assert_eq!(poller.tick(snapshot(&["A", "B"])), Some("KEYPRESS:A+B".to_string()));
    assert_eq!(poller.tick(snapshot(&["B", "A"])), None);
    assert_eq!(poller.tick(snapshot(&["B", "A", "B"])), None);
}

#[test]
fn releasing_every_key_is_silent_but_remembered() {
    let mut poller = ChangeDetectingPoller::new();
    assert_eq!(poller.tick(snapshot(&["A"])), Some("KEYPRESS:A".to_string()));
    assert_eq!(poller.tick(KeySnapshot::new()), None);
    assert!(poller.last_snapshot().is_empty());
    assert_eq!(poller.tick(snapshot(&["A"])), Some("KEYPRESS:A".to_string()));
}

#[test]
fn releasing_one_key_of_two_announces_the_rest() {
    let mut poller = ChangeDetectingPoller::new();
    assert_eq!(poller.tick(snapshot(&["ShiftLeft", "A"])), Some("KEYPRESS:LShift+A".to_string()));
    assert_eq!(poller.tick(snapshot(&["A"])), Some("KEYPRESS:A".to_string()));
}

#[test]
fn six_samples_give_three_messages() {
    let mut poller = ChangeDetectingPoller::new();
    let samples = vec![
        snapshot(&[]),
        snapshot(&["A"]),
        snapshot(&["A", "B"]),
        snapshot(&["A", "B"]),
        snapshot(&[]),
        snapshot(&["B"]),
    ];
    let mut by_tick: Vec<Option<String>> = Vec::new();
    for sample in samples {
        by_tick.push(poller.tick(sample));
    }
    assert_eq!(by_tick.len(), 6);
    assert_eq!(by_tick[0], None);
    assert_eq!(by_tick[1], Some("KEYPRESS:A".to_string()));
    assert_eq!(tokens_of_message(by_tick[2].as_ref().unwrap()), vec!["A", "B"]);
    assert_eq!(by_tick[3], None);
    assert_eq!(by_tick[4], None);
    assert_eq!(by_tick[5], Some("KEYPRESS:B".to_string()));
    let messages: Vec<String> = by_tick.into_iter().flatten().collect();
    assert_eq!(messages.len(), 3);
}
