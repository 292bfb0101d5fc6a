use whisperkeys::listener::RepeatFilter;

fn feed(filter: &mut RepeatFilter, events: &[Option<&str>]) -> Vec<String> {
    let mut lines = Vec::new();
    for event in events {
        match event {
            Some(key) => {
                if filter.accepts(key) {
                    lines.push(key.to_string());
                    filter.record_press(key.to_string());
                }
            }
            None => filter.record_other(),
        }
    }
    lines
}

#[test]
fn the_first_press_passes() {
    let filter = RepeatFilter::new();
    assert!(filter.accepts("KeyA"));
    assert!(filter.accepts(""));
}

#[test]
fn a_held_key_passes_once() {
    let mut filter = RepeatFilter::new();
    let lines = feed(&mut filter, &[Some("KeyA"), Some("KeyA"), Some("KeyA"), Some("KeyA")]);
    assert_eq!(lines, vec!["KeyA"]);
    assert!(!filter.accepts("KeyA"));
    assert!(filter.accepts("KeyB"));
}

#[test]
fn a_release_between_two_presses_lets_both_pass() {
    let mut filter = RepeatFilter::new();
    let lines = feed(&mut filter, &[Some("KeyA"), None, Some("KeyA"), None, Some("KeyA")]);
    assert_eq!(lines, vec!["KeyA", "KeyA", "KeyA"]);
}

#[test]
fn different_keys_pass_one_after_the_other() {
    let mut filter = RepeatFilter::new();
    let lines = feed(
        &mut filter,
        &[Some("ShiftLeft"), Some("KeyA"), Some("KeyA"), Some("ShiftLeft"), Some("KeyA")],
    );
    assert_eq!(lines, vec!["ShiftLeft", "KeyA", "ShiftLeft", "KeyA"]);
}

#[test]
fn other_events_alone_pass_nothing() {
    let mut filter = RepeatFilter::new();
    assert!(feed(&mut filter, &[None, None, None]).is_empty());
    assert!(filter.accepts("KeyA"));
}

#[test]
fn a_press_that_was_not_recorded_may_pass_again() {
    let mut filter = RepeatFilter::new();
    assert!(filter.accepts("KeyA"));
    assert!(filter.accepts("KeyA"));
    filter.record_press("KeyA".to_string());
    assert!(!filter.accepts("KeyA"));
}
