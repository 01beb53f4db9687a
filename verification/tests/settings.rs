use projectm_sdl::config::{default_resource_dir, DEFAULT_FRAME_RATE};
use projectm_sdl::dummy_audio::{generate_random_audio_data, DUMMY_FRAMES, DUMMY_SAMPLES};
use projectm_sdl::settings::{
    check_config_file, config_extension_supported, overridden, ConfigFileError,
};
use projectm_sdl::video::{fullscreen_after_toggle, FullscreenType};

#[test]
fn override_wins_where_present() {
    assert_eq!(overridden(Some(30u32), Some(60)), Some(60));
    assert_eq!(overridden(None, Some(60u32)), Some(60));
    assert_eq!(overridden(Some(30u32), None), Some(30));
    assert_eq!(overridden::<u32>(None, None), None);
    assert_eq!(overridden(Some(1.0f32), Some(2.5)), Some(2.5));
    assert_eq!(
        overridden(Some("/a".to_string()), Some("/b".to_string())),
        Some("/b".to_string())
    );
}

#[test]
fn known_config_extensions() {
    assert!(config_extension_supported("toml"));
    assert!(config_extension_supported("json"));
    assert!(config_extension_supported("yaml)"));
    assert!(!config_extension_supported("yaml"));
    assert!(!config_extension_supported("yml"));
    assert!(!config_extension_supported("TOML"));
    assert!(!config_extension_supported(""));
    assert!(!config_extension_supported("toml "));
    assert!(!config_extension_supported("ini"));
}

#[test]
fn missing_path_is_reported_first() {
    assert_eq!(check_config_file(false, Some("toml")), Err(ConfigFileError::PathInvalid));
    assert_eq!(check_config_file(false, Some("exe")), Err(ConfigFileError::PathInvalid));
    assert_eq!(check_config_file(false, None), Err(ConfigFileError::PathInvalid));
}

#[test]
fn existing_file_needs_known_extension() {
    assert_eq!(check_config_file(true, Some("toml")), Ok(()));
    assert_eq!(check_config_file(true, Some("json")), Ok(()));
    assert_eq!(check_config_file(true, Some("txt")), Err(ConfigFileError::InvalidExtension));
    assert_eq!(check_config_file(true, None), Err(ConfigFileError::InvalidExtension));
}

#[test]
fn resource_dir_default() {
    assert_eq!(default_resource_dir(), "/usr/local/share/projectM");
    assert_eq!(DEFAULT_FRAME_RATE, 60);
}

#[test]
fn stand_in_audio_is_silence() {
    let data = generate_random_audio_data();
    assert_eq!(DUMMY_FRAMES, 512);
    assert_eq!(DUMMY_SAMPLES, 1024);
    assert_eq!(data.len(), 1024);
    assert!(data.iter().all(|&s| s == 0));
}

#[test]
fn only_true_fullscreen_toggles_off() {
    assert!(fullscreen_after_toggle(FullscreenType::Off));
    assert!(fullscreen_after_toggle(FullscreenType::Desktop));
    assert!(!fullscreen_after_toggle(FullscreenType::True));
}
