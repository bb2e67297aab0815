use lib_core::validation::{Error, Validation};

#[test]
fn bitrates_must_be_numbers() {
    let mut v = Validation::new();
    assert_eq!(v.validate_audio_bitrate(Some("320".to_string())), Some(320));
    assert_eq!(v.audio_bitrate_error(), None);
    assert_eq!(v.validate_audio_bitrate(Some("32o".to_string())), None);
    assert_eq!(v.audio_bitrate_error(), Some(Error::AudioBitrateParseError));
    assert_eq!(v.validate_audio_bitrate(Some("".to_string())), Some(0));
    assert_eq!(v.audio_bitrate_error(), Some(Error::AudioBitrateParseError));
    assert_eq!(v.validate_audio_bitrate(Some("+7".to_string())), Some(7));
    assert_eq!(v.audio_bitrate_error(), None);
    assert_eq!(v.validate_audio_bitrate(None), None);
    assert_eq!(v.audio_bitrate_error(), None);

    assert_eq!(v.validate_video_bitrate(Some("4294967295".to_string())), Some(4294967295));
    assert_eq!(v.validate_video_bitrate(Some("4294967296".to_string())), None);
    assert_eq!(v.video_bitrate_error(), Some(Error::VideoBitrateParseError));
    assert_eq!(v.validate_video_bitrate(Some("-1".to_string())), None);
    assert_eq!(v.validate_video_bitrate(Some(" 1".to_string())), None);
    assert_eq!(v.validate_video_bitrate(Some("10000".to_string())), Some(10000));
    assert_eq!(v.video_bitrate_error(), None);
}

#[test]
fn directories_must_be_chosen() {
    let mut v = Validation::new();
    assert_eq!(v.validate_input_dir(Some("/in".to_string())), Some("/in".to_string()));
    assert_eq!(v.input_dir_error(), None);
    assert_eq!(v.validate_input_dir(None), None);
    assert_eq!(v.input_dir_error(), Some(Error::InputDirEmpty));
    assert_eq!(v.validate_output_dir(None), None);
    assert_eq!(v.output_dir_error(), Some(Error::OutputDirEmpty));
    assert_eq!(v.validate_output_dir(Some("/out".to_string())), Some("/out".to_string()));
    assert_eq!(v.output_dir_error(), Some(Error::OutputDirEmpty));
}

#[test]
fn validation_messages() {
    assert_eq!(Error::AudioBitrateParseError.message(), "Only numbers are allowed");
    assert_eq!(Error::VideoBitrateParseError.message(), "Only numbers are allowed");
    assert_eq!(Error::InputDirEmpty.message(), "Internal Error");
}
