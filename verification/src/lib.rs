//! Desktop window enumeration and recorder configuration.
//!
//! The heart of the crate is the window/monitor correlation engine: given a
//! snapshot of what the operating system reports about its displays and
//! top-level windows, it builds a monitor directory, filters the window list
//! down to user-visible windows with a resolvable owning process, resolves
//! each window's executable path and primary monitor, and flags the focused
//! window. A thin recorder-configuration layer (a plain value type with a
//! builder) accompanies it.

mod recorder;
mod window_info;

pub use window_info::{
    build_monitor_directory, build_window_info, get_all_windows, get_process_executable_path,
    get_window_monitor_info, DesktopSnapshot, EnumerationError, MonitorDimensions, MonitorEntry,
    MonitorProbe, MonitorRect, WindowInfo, WindowProbe,
};

pub use recorder::{
    AudioInputDevice, AudioSource, RecorderConfig, RecorderConfigBuilder, VideoEncoder,
    VideoEncoderType,
};
