use git_vmr::analytics::{AnalyticsState, CommandEvent, Moment, StateLoad, record_with_sink};
use git_vmr::config::analytics::{Analytics, MAJOR_VERSION};
use git_vmr::config::frequency::{Frequency, Span};
use git_vmr::config::schema::Core;
use git_vmr::config::updates::Updates;
use git_vmr::config::vmr::find_vmr_root;
use git_vmr::config::{Config, ConfigLoad, FileRead, GlobalConfig};

#[test]
fn config_default_has_default_values() {
    let config = Config::default();
    assert_eq!(config.core, Core::default());
    let global = GlobalConfig::default();
    assert_eq!(global.core, Core::default());
    assert_eq!(global.updates, Updates::default());
}

#[test]
fn default_has_version_zero() {
    assert_eq!(Config::default().core.version, 0);
}

#[test]
fn core_default_has_default_values() {
    assert_eq!(Core::default().version, 0);
}

#[test]
fn updates_default_has_default_values() {
    assert_eq!(Updates::default().check_frequency, Frequency::from_days(1));
}

#[test]
fn analytics_default_has_default_values() {
    assert_eq!(Analytics::default().enabled, None);
}

#[test]
fn analytics_missing_enabled_follows_version_default() {
    let analytics = Analytics::default();
    assert!(analytics.enabled_for_major_version("0"));
    assert!(!analytics.enabled_for_major_version("1"));
}

#[test]
fn analytics_default_follows_this_release() {
    assert_eq!(MAJOR_VERSION, "0");
    assert!(Analytics::default().enabled());
    assert!(!Analytics { enabled: Some(false) }.enabled());
}

#[test]
fn analytics_explicit_enabled_overrides_version_default() {
    assert!(!Analytics { enabled: Some(false) }.enabled_for_major_version("0"));
    assert!(Analytics { enabled: Some(true) }.enabled_for_major_version("1"));
}

fn every_secs(secs: u64) -> Frequency {
    Frequency::Every(Span { secs, nanos: 0 })
}

#[test]
fn parse_supported_duration_frequencies() {
    let cases = [
        ("1h", every_secs(60 * 60)),
        ("1 day", every_secs(60 * 60 * 24)),
        ("7 days", every_secs(60 * 60 * 24 * 7)),
        ("30 days", every_secs(60 * 60 * 24 * 30)),
        ("never", Frequency::Never),
    ];
    for (value, expected) in cases {
        assert_eq!(Frequency::parse(value).unwrap(), expected);
    }
}

#[test]
fn parse_rejects_unsupported_frequency() {
    let err = Frequency::parse("daily").unwrap_err();
    assert!(err.contains("unsupported update check frequency"));
}

#[test]
fn display_formats_duration_with_humantime() {
    assert_eq!(every_secs(60 * 60 * 24 * 30).display(), "30days");
    assert_eq!(Frequency::Never.display(), "never");
}

#[test]
fn frequency_interval_and_days() {
    assert_eq!(Frequency::from_days(7).interval(), Some(Span { secs: 604800, nanos: 0 }));
    assert_eq!(Frequency::Never.interval(), None);
}

#[test]
fn load_missing_file_returns_default() {
    let ConfigLoad::Loaded(config) = GlobalConfig::load("/tmp/missing.toml", FileRead::NotFound) else {
        panic!("expected defaults");
    };
    assert_eq!(config, GlobalConfig::default());
}

#[test]
fn load_rejects_malformed_file() {
    let ConfigLoad::Parse(contents) = GlobalConfig::load("/tmp/c.toml", FileRead::Contents("x".to_owned())) else {
        panic!("expected a parse");
    };
    assert_eq!(contents, "x");
    let err = GlobalConfig::parsed("/tmp/c.toml", Err("bad".to_owned())).unwrap_err();
    assert!(err.contains("failed to parse"));
    let ConfigLoad::Failed(e) = GlobalConfig::load("/tmp/c.toml", FileRead::Failed("denied".to_owned())) else {
        panic!("expected a failure");
    };
    assert_eq!(e, "failed to read /tmp/c.toml: denied");
}

#[test]
fn config_root_prefers_the_given_directory() {
    assert_eq!(GlobalConfig::resolve_root(Some("/a".to_owned()), Some("/b".to_owned())).unwrap(), "/a");
    assert_eq!(GlobalConfig::resolve_root(None, Some("/b".to_owned())).unwrap(), "/b");
}

#[test]
fn finds_marker_in_start_dir() {
    let ancestors = vec!["/tmp/vmr".to_owned(), "/tmp".to_owned(), "/".to_owned()];
    assert_eq!(find_vmr_root(&ancestors, &vec![true, false, false]).unwrap(), "/tmp/vmr");
}

#[test]
fn finds_marker_in_ancestor() {
    let ancestors = vec!["/tmp/vmr/repo/src".to_owned(), "/tmp/vmr/repo".to_owned(), "/tmp/vmr".to_owned()];
    assert_eq!(find_vmr_root(&ancestors, &vec![false, false, true]).unwrap(), "/tmp/vmr");
}

#[test]
fn errors_when_marker_is_missing() {
    let err = find_vmr_root(&vec!["/tmp".to_owned()], &vec![false]).unwrap_err();
    assert!(err.contains("not a virtual monorepo"));
}

fn moment(secs: i64) -> Moment {
    Moment { secs, nanos: 0 }
}

fn event(name: &str) -> CommandEvent {
    CommandEvent { name: name.to_owned(), success: true, duration_ms: 1, flags: Vec::new(), global_flags: Vec::new() }
}

const NOW: i64 = 1_780_747_200;
const HOUR: i64 = 3600;

#[test]
fn disabled_record_does_not_update_state_or_emit() {
    let analytics = Analytics { enabled: Some(false) };
    let mut state = AnalyticsState { session_id: Some("session-1".to_owned()), last_activity: Some(moment(NOW - 4 * HOUR)) };
    let original = state.clone();
    assert!(record_with_sink(&analytics, &mut state, event("list"), moment(NOW), "fresh-1".to_owned()).is_none());
    assert_eq!(state, original);
}

#[test]
fn props_carry_name_success_and_duration() {
    let mut state = AnalyticsState::default();
    let (_, props) = record_with_sink(&Analytics { enabled: Some(true) }, &mut state, event("status.list"), moment(NOW), "fresh-1".to_owned()).unwrap();
    assert_eq!(props.name, "status.list");
    assert!(props.success);
    assert_eq!(props.duration_ms, 1);
}

#[test]
fn explicit_flags_are_suffixed() {
    let mut state = AnalyticsState::default();
    let ev = CommandEvent { flags: vec!["all".to_owned()], global_flags: vec!["directory".to_owned()], ..event("add") };
    let (_, props) = record_with_sink(&Analytics { enabled: Some(true) }, &mut state, ev, moment(NOW), "fresh-1".to_owned()).unwrap();
    assert_eq!(props.flag_keys, vec!["all_flag", "directory_global_flag"]);
}

#[test]
fn missing_session_selects_new_id() {
    let mut state = AnalyticsState::default();
    let (session_id, _) = record_with_sink(&Analytics { enabled: Some(true) }, &mut state, event("list"), moment(NOW), "fresh-1".to_owned()).unwrap();
    assert!(!session_id.is_empty());
    assert_eq!(state.session_id, Some(session_id));
    assert_eq!(state.last_activity, Some(moment(NOW)));
}

#[test]
fn active_session_reuses_id() {
    let mut state = AnalyticsState::default();
    let enabled = Analytics { enabled: Some(true) };
    let (first, _) = record_with_sink(&enabled, &mut state, event("list"), moment(NOW), "fresh-1".to_owned()).unwrap();
    let (second, _) = record_with_sink(&enabled, &mut state, event("list"), moment(NOW + 3 * HOUR), "fresh-2".to_owned()).unwrap();
    assert_eq!(second, first);
    assert_eq!(state.last_activity, Some(moment(NOW + 3 * HOUR)));
}

#[test]
fn expired_session_rotates_id() {
    let mut state = AnalyticsState::default();
    let enabled = Analytics { enabled: Some(true) };
    let (first, _) = record_with_sink(&enabled, &mut state, event("list"), moment(NOW), "fresh-1".to_owned()).unwrap();
    let (second, _) = record_with_sink(&enabled, &mut state, event("list"), moment(NOW + 4 * HOUR), "fresh-2".to_owned()).unwrap();
    assert_ne!(second, first);
    assert_eq!(state.session_id, Some(second));
}

#[test]
fn eval_session_id_keeps_active_session() {
    let mut state = AnalyticsState { session_id: Some("session-1".to_owned()), last_activity: Some(moment(NOW - 3 * HOUR)) };
    assert_eq!(state.eval_session_id(moment(NOW), "fresh".to_owned()), "session-1");
    assert_eq!(state.session_id, Some("session-1".to_owned()));
    assert_eq!(state.last_activity, Some(moment(NOW)));
}

#[test]
fn eval_session_id_rotates_expired_session() {
    let mut state = AnalyticsState { session_id: Some("session-1".to_owned()), last_activity: Some(moment(NOW - 4 * HOUR)) };
    assert_eq!(state.eval_session_id(moment(NOW), "fresh".to_owned()), "fresh");
    assert_eq!(state.session_id, Some("fresh".to_owned()));
    assert_eq!(state.last_activity, Some(moment(NOW)));
}

#[test]
fn eval_session_id_starts_session_when_none() {
    let mut state = AnalyticsState::default();
    assert_eq!(state.eval_session_id(moment(NOW), "fresh".to_owned()), "fresh");
    assert_eq!(state.session_id, Some("fresh".to_owned()));
}

#[test]
fn parse_refuses_frequency_with_too_many_digits() {
    let err = Frequency::parse("18446744073709551615s 1000000000ns").unwrap_err();
    assert!(err.contains("too many digits"));
    assert_eq!(Frequency::parse("1000000000000000s").unwrap(), every_secs(1_000_000_000_000_000));
    assert_eq!(Frequency::parse("00000000000000001d").unwrap(), every_secs(60 * 60 * 24));
}

#[test]
fn state_load_parses_contents_and_defaults_quietly_when_missing() {
    assert!(matches!(AnalyticsState::load("/cfg/state.toml", FileRead::Contents("x = 1".to_owned())), StateLoad::Parse(c) if c == "x = 1"));
    let StateLoad::Loaded(state, warning) = AnalyticsState::load("/cfg/state.toml", FileRead::NotFound) else {
        panic!("expected defaults");
    };
    assert_eq!(state, AnalyticsState::default());
    assert_eq!(warning, None);
}

#[test]
fn state_load_warns_and_uses_defaults_on_read_failure() {
    let StateLoad::Loaded(state, warning) = AnalyticsState::load("/cfg/state.toml", FileRead::Failed("denied".to_owned())) else {
        panic!("expected defaults");
    };
    assert_eq!(state, AnalyticsState::default());
    assert_eq!(warning, Some("failed to read /cfg/state.toml: denied; using defaults".to_owned()));
}

#[test]
fn malformed_state_warns_and_uses_defaults() {
    let (state, warning) = AnalyticsState::parsed("/cfg/state.toml", Err("expected `=`".to_owned()));
    assert_eq!(state, AnalyticsState::default());
    assert!(warning.unwrap().contains("using defaults"));
    let kept = AnalyticsState { session_id: Some("s".to_owned()), last_activity: Some(moment(NOW)) };
    assert_eq!(AnalyticsState::parsed("/cfg/state.toml", Ok(kept.clone())), (kept, None));
}
