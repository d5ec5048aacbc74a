use agent_of_empires::session::Status;
use agent_of_empires::sound::{
    pick, play_for_transition, resolve_sound_name, sound_for_transition, Sound, SoundConfig,
    SoundMode,
};

fn specific(name: &str) -> SoundConfig {
    SoundConfig { mode: SoundMode::Specific(name.to_string()), ..Default::default() }
}

fn none() -> Vec<String> {
    Vec::new()
}

#[test]
fn test_resolve_sound_name_override() {
    let config = specific("default_sound");
    let result = resolve_sound_name(Some("alarm"), &config, &none());
    assert_eq!(result, Some("alarm".to_string()));
}

#[test]
fn test_resolve_sound_name_specific_mode() {
    let config = specific("wololo");
    let result = resolve_sound_name(None, &config, &none());
    assert_eq!(result, Some("wololo".to_string()));
}

#[test]
fn test_resolve_sound_name_empty_override_uses_mode() {
    let config = specific("wololo");
    let result = resolve_sound_name(Some(""), &config, &none());
    assert_eq!(result, Some("wololo".to_string()));
}

#[test]
fn test_play_for_transition_disabled() {
    let config = SoundConfig::default();
    // Should not panic even when disabled
    assert_eq!(play_for_transition(Status::Idle, Status::Running, &config, &none()), None);
}

#[test]
fn test_play_for_transition_same_status() {
    let config = SoundConfig { enabled: true, ..specific("wololo") };
    // Same status - should be a no-op
    assert_eq!(play_for_transition(Status::Running, Status::Running, &config, &none()), None);
}

#[test]
fn test_play_for_transition_deleting_skipped() {
    let config = SoundConfig { enabled: true, ..specific("wololo") };
    // Deleting transitions should be skipped
    assert_eq!(play_for_transition(Status::Running, Status::Deleting, &config, &none()), None);
}

#[test]
fn statuses_without_a_sound_are_silent() {
    let config = SoundConfig { enabled: true, ..specific("wololo") };
    for new in [
        Status::Unknown,
        Status::Stopped,
        Status::Hibernated,
        Status::Deleting,
        Status::Creating,
    ] {
        assert!(matches!(sound_for_transition(Status::Running, new, &config), Sound::Silence));
    }
}

#[test]
fn every_status_has_its_own_sound() {
    let config = SoundConfig {
        enabled: true,
        mode: SoundMode::Specific("wololo".to_string()),
        on_start: Some("start".to_string()),
        on_running: Some("rogan".to_string()),
        on_waiting: Some("alarm".to_string()),
        on_idle: Some("monk".to_string()),
        on_error: Some("".to_string()),
    };
    for (new, name) in [
        (Status::Starting, "start"),
        (Status::Running, "rogan"),
        (Status::Waiting, "alarm"),
        (Status::Idle, "monk"),
        (Status::Error, "wololo"),
    ] {
        assert_eq!(
            play_for_transition(Status::Unknown, new, &config, &none()),
            Some(name.to_string())
        );
    }
}

#[test]
fn random_picks_one_that_is_available() {
    let config = SoundConfig { enabled: true, ..Default::default() };
    let available = vec!["a".to_string(), "b".to_string(), "c".to_string()];
    let mut seen: Vec<String> = Vec::new();
    for _ in 0..200 {
        let name =
            play_for_transition(Status::Running, Status::Idle, &config, &available).unwrap();
        assert!(available.contains(&name));
        if !seen.contains(&name) {
            seen.push(name);
        }
    }
    assert!(seen.len() > 1);
    assert_eq!(play_for_transition(Status::Running, Status::Idle, &config, &none()), None);
}

#[test]
fn a_named_sound_needs_no_list() {
    assert_eq!(pick(Sound::Silence, &vec!["a".to_string()]), None);
    assert_eq!(pick(Sound::Named("x".to_string()), &none()), Some("x".to_string()));
    assert_eq!(pick(Sound::AnyAvailable, &vec!["a".to_string()]), Some("a".to_string()));
}
