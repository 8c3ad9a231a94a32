use valens::{display_name, truncate};

#[test]
fn display_name_uses_fallback_for_empty_name() {
    assert_eq!(display_name("", "Unnamed job"), "Unnamed job");
    assert_eq!(display_name("Checkout", "Unnamed job"), "Checkout");
}

#[test]
fn truncate_keeps_short_names() {
    assert_eq!(truncate("Payments", 18), "Payments");
}

#[test]
fn truncate_shortens_long_names_with_ellipsis() {
    assert_eq!(truncate("Embedded payment processing", 10), "Embedded \u{2026}");
}

#[test]
fn truncate_with_zero_max_leaves_only_ellipsis() {
    assert_eq!(truncate("abc", 0), "\u{2026}");
    assert_eq!(truncate("", 0), "");
}

#[test]
fn truncate_counts_characters_not_bytes() {
    assert_eq!(truncate("Pains \u{00d7} Gains", 13), "Pains \u{00d7} Gains");
    assert_eq!(truncate("Pains \u{00d7} Gains", 12), "Pains \u{00d7} Gai\u{2026}");
    assert_eq!(truncate("\u{00e9}\u{00e9}\u{00e9}\u{00e9}", 3), "\u{00e9}\u{00e9}\u{2026}");
}
