use window_recorder::{AudioSource, RecorderConfig, RecorderConfigBuilder, VideoEncoderType};

#[test]
fn default_config_values() {
    let c = RecorderConfig::default();
    assert_eq!(c.fps_numerator, 30);
    assert_eq!(c.fps_denominator, 1);
    assert_eq!(c.input_width, None);
    assert_eq!(c.input_height, None);
    assert_eq!(c.output_width, 1920);
    assert_eq!(c.output_height, 1080);
    assert!(c.capture_audio);
    assert!(!c.capture_microphone);
    assert_eq!(c.audio_source, AudioSource::Desktop);
    assert_eq!(c.microphone_volume, None);
    assert_eq!(c.system_volume, None);
    assert_eq!(c.microphone_device, None);
    assert_eq!(c.video_encoder_type, None);
    assert_eq!(c.video_encoder_name, None);
    assert!(c.capture_cursor);
    assert_eq!(c.output_path, "recording.mp4");
    assert!(!c.debug_mode);
    assert!(!c.enable_replay_buffer);
    assert_eq!(c.replay_buffer_seconds, None);
}

#[test]
fn new_builder_holds_the_default_config() {
    let b = RecorderConfigBuilder::new();
    let c = b.build();
    assert_eq!(c.fps_numerator, 30);
    assert_eq!(c.output_width, 1920);
    assert_eq!(c.output_path, "recording.mp4");
    assert_eq!(c.audio_source, AudioSource::Desktop);
}

#[test]
fn builder_sets_every_field() {
    let mut b = RecorderConfigBuilder::new();
    b.fps(60, 1);
    b.input_dimensions(640, 480);
    b.output_dimensions(1280, 720);
    b.capture_audio(false);
    b.capture_microphone(true);
    b.audio_source(AudioSource::ActiveWindow);
    b.microphone_volume(0.5f64.to_bits());
    b.system_volume(0.25f64.to_bits());
    b.microphone_device(Some("mic-0".to_string()));
    b.video_encoder(VideoEncoderType::HEVC);
    b.video_encoder_name("hevc_hw".to_string());
    b.capture_cursor(false);
    b.output_path("out.mp4".to_string());
    b.debug_mode(true);
    b.enable_replay_buffer(true);
    b.replay_buffer_seconds(30);
    let c = b.build();
    assert_eq!(c.fps_numerator, 60);
    assert_eq!(c.fps_denominator, 1);
    assert_eq!(c.input_width, Some(640));
    assert_eq!(c.input_height, Some(480));
    assert_eq!(c.output_width, 1280);
    assert_eq!(c.output_height, 720);
    assert!(!c.capture_audio);
    assert!(c.capture_microphone);
    assert_eq!(c.audio_source, AudioSource::ActiveWindow);
    assert_eq!(c.microphone_volume, Some(0.5f64.to_bits()));
    assert_eq!(f64::from_bits(c.system_volume.unwrap()), 0.25);
    assert_eq!(c.microphone_device.as_deref(), Some("mic-0"));
    assert_eq!(c.video_encoder_type, Some(VideoEncoderType::HEVC));
    assert_eq!(c.video_encoder_name.as_deref(), Some("hevc_hw"));
    assert!(!c.capture_cursor);
    assert_eq!(c.output_path, "out.mp4");
    assert!(c.debug_mode);
    assert!(c.enable_replay_buffer);
    assert_eq!(c.replay_buffer_seconds, Some(30));
}

#[test]
fn builder_can_clear_the_microphone_device() {
    let mut b = RecorderConfigBuilder::new();
    b.microphone_device(Some("mic-0".to_string()));
    b.microphone_device(None);
    assert_eq!(b.build().microphone_device, None);
}

#[test]
fn build_returns_a_snapshot_not_a_live_view() {
    let mut b = RecorderConfigBuilder::new();
    b.fps(60, 1);
    let first = b.build();
    b.fps(24, 1);
    let second = b.build();
    assert_eq!(first.fps_numerator, 60);
    assert_eq!(second.fps_numerator, 24);
}
