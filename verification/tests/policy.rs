use framepace::policy::{PresentationMode, PresentationPolicy};

#[test]
fn startup_requests_fifo() {
    let policy = PresentationPolicy::new(true);
    assert_eq!(policy.mode(), PresentationMode::Fifo);
    assert!(policy.pacing_available());
}

#[test]
fn toggling_twice_returns_to_the_original_mode() {
    let mut policy = PresentationPolicy::new(true);
    let original = policy.mode();
    policy.toggle();
    assert_eq!(policy.mode(), PresentationMode::Mailbox);
    policy.toggle();
    assert_eq!(policy.mode(), original);
}

#[test]
fn status_text_names_the_effective_mode() {
    let mut with_pacing = PresentationPolicy::new(true);
    assert_eq!(with_pacing.status_text(), "fifo");
    with_pacing.toggle();
    assert_eq!(with_pacing.status_text(), "mailbox");

    let without_pacing = PresentationPolicy::new(false);
    assert_eq!(without_pacing.status_text(), "fifo (unavailable)");
}

#[test]
fn status_differs_between_pacing_cases() {
    let with_pacing = PresentationPolicy::new(true);
    let without_pacing = PresentationPolicy::new(false);
    assert_ne!(with_pacing.status_text(), without_pacing.status_text());
    assert!(without_pacing.status_text().contains("(unavailable)"));
}

#[test]
fn pacing_needs_fifo_and_the_capability() {
    let mut both = PresentationPolicy::new(true);
    assert!(both.should_pace());
    both.toggle();
    assert!(!both.should_pace());

    let mut no_capability = PresentationPolicy::new(false);
    assert!(!no_capability.should_pace());
    no_capability.toggle();
    assert!(!no_capability.should_pace());
}
