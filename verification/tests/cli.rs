use fungai::cli::Args;
use fungai::config::{default_seed, LaunchConfig, DEVELOPMENT_SEED};

#[test]
fn cli_parses_seed_flag() {
    let args = Args::try_parse_from(&["fungai", "--seed", "999"]).unwrap();
    assert_eq!(args.seed, Some(999));
}

#[test]
fn cli_no_seed_flag_yields_none() {
    let args = Args::try_parse_from(&["fungai"]).unwrap();
    assert_eq!(args.seed, None);
}

#[test]
fn cli_equals_form_is_accepted() {
    let args = Args::try_parse_from(&["fungai", "--seed=7"]).unwrap();
    assert_eq!(args.seed, Some(7));
}

#[test]
fn cli_rejects_non_numeric_seed() {
    let res = Args::try_parse_from(&["fungai", "--seed", "abc"]);
    assert!(res.is_err());
    let err = res.unwrap_err();
    assert!(!err.message.is_empty());
}

#[test]
fn cli_rejects_negative_and_unknown() {
    assert!(Args::try_parse_from(&["fungai", "--seed", "-1"]).is_err());
    assert!(Args::try_parse_from(&["fungai", "--colour"]).is_err());
    assert!(Args::try_parse_from(&["fungai", "--seed"]).is_err());
}

#[test]
fn launch_config_default_seed_is_420_in_debug() {
    assert_eq!(LaunchConfig::for_build(true).seed, 420);
    assert_eq!(DEVELOPMENT_SEED, 420);
}

#[test]
fn launch_config_explicit_seed_wins() {
    assert_eq!(LaunchConfig::with_seed(Some(999), true).seed, 999);
    assert_eq!(LaunchConfig::with_seed(Some(5), false).seed, 5);
    assert_eq!(LaunchConfig::with_seed(None, true).seed, 420);
    assert_eq!(default_seed(true), 420);
}
