//! Recorder configuration: plain value types and a builder.
//!
//! The capture engine itself (audio/video capture, encoding, replay buffer)
//! is an external collaborator; this module holds only the configuration
//! surface handed to it and the small value types its enumeration helpers
//! report, so that building a configuration is itself verified.

use vstd::prelude::*;

verus! {

/// An audio input device the capture engine can record from.
#[derive(Clone, Debug)]
pub struct AudioInputDevice {
    pub id: String,
    pub name: String,
}

/// A video encoder the capture engine offers.
#[derive(Clone, Debug)]
pub struct VideoEncoder {
    pub name: String,
    pub encoder_type: String,
}

/// The video encoder families a configuration can request.
#[derive(Clone, Copy, PartialEq, Eq, Structural, Debug)]
pub enum VideoEncoderType {
    H264,
    HEVC,
}

/// Which audio the engine captures.
#[derive(Clone, Copy, PartialEq, Eq, Structural, Debug)]
pub enum AudioSource {
    Desktop,
    ActiveWindow,
}

/// The full configuration handed to the capture engine.
///
/// The two volume fields hold the IEEE-754 bit pattern of a 64-bit volume
/// (a value expected in the 0.0–1.0 range, not enforced here); this library
/// never interprets the pattern, it only carries it through.
#[derive(Clone, Debug)]
pub struct RecorderConfig {
    pub fps_numerator: u32,
    pub fps_denominator: u32,
    pub input_width: Option<u32>,
    pub input_height: Option<u32>,
    pub output_width: u32,
    pub output_height: u32,
    pub capture_audio: bool,
    pub capture_microphone: bool,
    pub audio_source: AudioSource,
    pub microphone_volume: Option<u64>,
    pub system_volume: Option<u64>,
    pub microphone_device: Option<String>,
    pub video_encoder_type: Option<VideoEncoderType>,
    pub video_encoder_name: Option<String>,
    pub capture_cursor: bool,
    pub output_path: String,
    pub debug_mode: bool,
    pub enable_replay_buffer: bool,
    pub replay_buffer_seconds: Option<u32>,
}

/// The default configuration: 30/1 fps, no input dimensions, 1920x1080
/// output, desktop audio captured, no microphone, cursor captured, output
/// file `recording.mp4`, nothing else set.
pub open spec fn is_default_config(c: RecorderConfig) -> bool {
    c.fps_numerator == 30 && c.fps_denominator == 1 && c.input_width is None && c.input_height
        is None && c.output_width == 1920 && c.output_height == 1080 && c.capture_audio == true
        && c.capture_microphone == false && c.audio_source == AudioSource::Desktop
        && c.microphone_volume is None && c.system_volume is None && c.microphone_device is None
        && c.video_encoder_type is None && c.video_encoder_name is None && c.capture_cursor
        == true && c.output_path@ == "recording.mp4"@ && c.debug_mode == false
        && c.enable_replay_buffer == false && c.replay_buffer_seconds is None
}

impl Default for RecorderConfig {
    fn default() -> (c: RecorderConfig)
        ensures
            is_default_config(c),
    {
        RecorderConfig {
            fps_numerator: 30,
            fps_denominator: 1,
            input_width: None,
            input_height: None,
            output_width: 1920,
            output_height: 1080,
            capture_audio: true,
            capture_microphone: false,
            audio_source: AudioSource::Desktop,
            microphone_volume: None,
            system_volume: None,
            microphone_device: None,
            video_encoder_type: None,
            video_encoder_name: None,
            capture_cursor: true,
            output_path: "recording.mp4".to_owned(),
            debug_mode: false,
            enable_replay_buffer: false,
            replay_buffer_seconds: None,
        }
    }
}

fn clone_opt_string(s: &Option<String>) -> (r: Option<String>)
    ensures
        r == *s,
{
    match s {
        None => None,
        Some(x) => Some(x.clone()),
    }
}

/// Step-by-step construction of a [`RecorderConfig`], starting from the
/// default configuration. Its view is the configuration built so far.
pub struct RecorderConfigBuilder {
    config: RecorderConfig,
}

impl View for RecorderConfigBuilder {
    type V = RecorderConfig;

    closed spec fn view(&self) -> RecorderConfig {
        self.config
    }
}

impl RecorderConfigBuilder {
    /// A builder holding the default configuration.
    pub fn new() -> (b: RecorderConfigBuilder)
        ensures
            is_default_config(b@),
    {
        RecorderConfigBuilder { config: RecorderConfig::default() }
    }

    /// Set the frame rate as a numerator/denominator pair.
    pub fn fps(&mut self, numerator: u32, denominator: u32)
        ensures
            final(self)@ == (RecorderConfig {
                fps_numerator: numerator,
                fps_denominator: denominator,
                ..old(self)@
            }),
    {
        self.config.fps_numerator = numerator;
        self.config.fps_denominator = denominator;
    }

    /// Set both input dimensions.
    pub fn input_dimensions(&mut self, width: u32, height: u32)
        ensures
            final(self)@ == (RecorderConfig {
                input_width: Some(width),
                input_height: Some(height),
                ..old(self)@
            }),
    {
        self.config.input_width = Some(width);
        self.config.input_height = Some(height);
    }

    /// Set both output dimensions.
    pub fn output_dimensions(&mut self, width: u32, height: u32)
        ensures
            final(self)@ == (RecorderConfig {
                output_width: width,
                output_height: height,
                ..old(self)@
            }),
    {
        self.config.output_width = width;
        self.config.output_height = height;
    }

    /// Set whether system audio is captured.
    pub fn capture_audio(&mut self, capture: bool)
        ensures
            final(self)@ == (RecorderConfig { capture_audio: capture, ..old(self)@ }),
    {
        self.config.capture_audio = capture;
    }

    /// Set whether the microphone is captured.
    pub fn capture_microphone(&mut self, capture: bool)
        ensures
            final(self)@ == (RecorderConfig {
                capture_microphone: capture,
                ..old(self)@
            }),
    {
        self.config.capture_microphone = capture;
    }

    /// Set which audio the engine captures.
    pub fn audio_source(&mut self, source: AudioSource)
        ensures
            final(self)@ == (RecorderConfig { audio_source: source, ..old(self)@ }),
    {
        self.config.audio_source = source;
    }

    /// Set the microphone volume, given as the bit pattern of a 64-bit
    /// floating-point value in the 0.0–1.0 range.
    pub fn microphone_volume(&mut self, volume_bits: u64)
        ensures
            final(self)@ == (RecorderConfig {
                microphone_volume: Some(volume_bits),
                ..old(self)@
            }),
    {
        self.config.microphone_volume = Some(volume_bits);
    }

    /// Set the system volume, given as the bit pattern of a 64-bit
    /// floating-point value in the 0.0–1.0 range.
    pub fn system_volume(&mut self, volume_bits: u64)
        ensures
            final(self)@ == (RecorderConfig {
                system_volume: Some(volume_bits),
                ..old(self)@
            }),
    {
        self.config.system_volume = Some(volume_bits);
    }

    /// Set, or clear, the microphone device identifier.
    pub fn microphone_device(&mut self, device_name: Option<String>)
        ensures
            final(self)@ == (RecorderConfig {
                microphone_device: device_name,
                ..old(self)@
            }),
    {
        self.config.microphone_device = device_name;
    }

    /// Request a video encoder family.
    pub fn video_encoder(&mut self, encoder_type: VideoEncoderType)
        ensures
            final(self)@ == (RecorderConfig {
                video_encoder_type: Some(encoder_type),
                ..old(self)@
            }),
    {
        self.config.video_encoder_type = Some(encoder_type);
    }

    /// Request a video encoder by explicit name.
    pub fn video_encoder_name(&mut self, name: String)
        ensures
            final(self)@ == (RecorderConfig {
                video_encoder_name: Some(name),
                ..old(self)@
            }),
    {
        self.config.video_encoder_name = Some(name);
    }

    /// Set whether the cursor is captured.
    pub fn capture_cursor(&mut self, capture: bool)
        ensures
            final(self)@ == (RecorderConfig { capture_cursor: capture, ..old(self)@ }),
    {
        self.config.capture_cursor = capture;
    }

    /// Set the output file path.
    pub fn output_path(&mut self, path: String)
        ensures
            final(self)@ == (RecorderConfig { output_path: path, ..old(self)@ }),
    {
        self.config.output_path = path;
    }

    /// Set the engine's debug mode.
    pub fn debug_mode(&mut self, debug: bool)
        ensures
            final(self)@ == (RecorderConfig { debug_mode: debug, ..old(self)@ }),
    {
        self.config.debug_mode = debug;
    }

    /// Enable or disable the replay buffer.
    pub fn enable_replay_buffer(&mut self, enable: bool)
        ensures
            final(self)@ == (RecorderConfig {
                enable_replay_buffer: enable,
                ..old(self)@
            }),
    {
        self.config.enable_replay_buffer = enable;
    }

    /// Set the replay buffer length in seconds.
    pub fn replay_buffer_seconds(&mut self, seconds: u32)
        ensures
            final(self)@ == (RecorderConfig {
                replay_buffer_seconds: Some(seconds),
                ..old(self)@
            }),
    {
        self.config.replay_buffer_seconds = Some(seconds);
    }

    /// The configuration built so far, as an exact copy.
    pub fn build(&self) -> (c: RecorderConfig)
        ensures
            c == self@,
    {
        RecorderConfig {
            fps_numerator: self.config.fps_numerator,
            fps_denominator: self.config.fps_denominator,
            input_width: self.config.input_width,
            input_height: self.config.input_height,
            output_width: self.config.output_width,
            output_height: self.config.output_height,
            capture_audio: self.config.capture_audio,
            capture_microphone: self.config.capture_microphone,
            audio_source: self.config.audio_source,
            microphone_volume: self.config.microphone_volume,
            system_volume: self.config.system_volume,
            microphone_device: clone_opt_string(&self.config.microphone_device),
            video_encoder_type: self.config.video_encoder_type,
            video_encoder_name: clone_opt_string(&self.config.video_encoder_name),
            capture_cursor: self.config.capture_cursor,
            output_path: self.config.output_path.clone(),
            debug_mode: self.config.debug_mode,
            enable_replay_buffer: self.config.enable_replay_buffer,
            replay_buffer_seconds: self.config.replay_buffer_seconds,
        }
    }
}

} // verus!
