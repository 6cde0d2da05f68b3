//! The device platform a tool call drives, chosen by the `DEVICE_PLATFORM` setting.
use vstd::prelude::*;

use crate::error::DeviceError;
use crate::text::{lowercased, to_ascii_lowercase};

verus! {

/// The kind of device that the tools drive.
#[derive(Clone, Copy, Debug, PartialEq, Eq, Structural)]
pub enum Platform {
    /// A booted iOS Simulator, driven through `serve-sim` and `xcrun`.
    Ios,
    /// An Android Emulator, driven through `adb`.
    Android,
}

/// The platform that a setting names, compared without regard to ASCII case;
/// `None` when it names neither.
pub open spec fn platform_named(name: Seq<char>) -> Option<Platform> {
    if lowercased(name) == "ios"@ {
        Some(Platform::Ios)
    } else if lowercased(name) == "android"@ {
        Some(Platform::Android)
    } else {
        None
    }
}

/// The outcome of reading the platform setting `name`.
pub open spec fn parsed_platform(name: Seq<char>, r: Result<Platform, DeviceError>) -> bool {
    match platform_named(name) {
        Some(p) => r == Ok::<Platform, DeviceError>(p),
        None => r matches Err(DeviceError::UnsupportedPlatform { setting }) && setting@
            == lowercased(name),
    }
}

/// Reads a platform setting: `ios` or `android` in any ASCII case.
pub fn parse_platform(platform: &str) -> (r: Result<Platform, DeviceError>)
    ensures
        parsed_platform(platform@, r),
{
    let lower = to_ascii_lowercase(platform);
    let ios = String::from_str("ios");
    let android = String::from_str("android");
    if lower == ios {
        Ok(Platform::Ios)
    } else if lower == android {
        Ok(Platform::Android)
    } else {
        Err(DeviceError::UnsupportedPlatform { setting: lower })
    }
}

/// The platform for a `DEVICE_PLATFORM` setting; an absent setting means iOS.
pub fn configured_platform(setting: Option<&str>) -> (r: Result<Platform, DeviceError>)
    ensures
        setting is None ==> r == Ok::<Platform, DeviceError>(Platform::Ios),
        setting matches Some(name) ==> parsed_platform(name@, r),
{
    match setting {
        Some(name) => parse_platform(name),
        None => Ok(Platform::Ios),
    }
}


/// The platform setting is read without regard to ASCII case: settings that
/// lowercase alike select the same platform.
pub proof fn platform_ignores_ascii_case(a: Seq<char>, b: Seq<char>)
    requires
        lowercased(a) == lowercased(b),
    ensures
        platform_named(a) == platform_named(b),
{
}

} // verus!
