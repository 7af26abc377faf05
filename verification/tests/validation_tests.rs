use agstash::commands::parse_confirmation;
use agstash::validation::{basic_validation, is_valid_agents};

#[test]
fn test_is_valid_agents() {
    // Valid cases
    assert!(is_valid_agents("# AGENTS"));
    assert!(is_valid_agents("# AGENTS\n"));
    assert!(is_valid_agents("  # AGENTS")); // Leading spaces
    assert!(is_valid_agents("# AGENTS\n\n- content"));

    // Invalid cases
    assert!(!is_valid_agents(""));
    assert!(!is_valid_agents("# AGENT")); // Wrong header
    assert!(!is_valid_agents("- content")); // No header
    assert!(!is_valid_agents(" # AGENT")); // Space before #
    assert!(!is_valid_agents("AGENTS"));  // Missing #
}

#[test]
fn validation_accepts_any_leading_whitespace_mix() {
    assert!(basic_validation("\n\r\t # AGENTS"));
    assert!(basic_validation("\t# AGENTS and more"));
    assert!(basic_validation("# AGENTSx")); // prefix rule: anything may follow
}

#[test]
fn validation_rejects_whitespace_only_and_interrupted_headers() {
    assert!(!basic_validation("   "));
    assert!(!basic_validation("\n\n"));
    assert!(!basic_validation("x # AGENTS"));
    assert!(!basic_validation("#  AGENTS")); // two spaces inside the marker
    assert!(!basic_validation("# agents")); // case-sensitive
    assert!(!basic_validation("# AGENT\nS"));
}

#[test]
fn validation_is_not_fooled_by_short_content() {
    assert!(!basic_validation("#"));
    assert!(!basic_validation("# AGENT"));
    assert!(!basic_validation(" \t\n\r"));
}

#[test]
fn confirmation_accepts_case_insensitive_y() {
    assert!(parse_confirmation("y"));
    assert!(parse_confirmation("Y"));
    assert!(parse_confirmation("y\n"));
    assert!(parse_confirmation("  Y \r\n"));
}

#[test]
fn confirmation_declines_everything_else() {
    assert!(!parse_confirmation(""));
    assert!(!parse_confirmation("\n"));
    assert!(!parse_confirmation("n"));
    assert!(!parse_confirmation("n\n"));
    assert!(!parse_confirmation("yes"));
    assert!(!parse_confirmation("yy"));
    assert!(!parse_confirmation("y n"));
    assert!(!parse_confirmation("q\n"));
}
