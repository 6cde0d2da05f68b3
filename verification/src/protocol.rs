//! What each step of a tool call does, stated over the sequence views of
//! sessions, events and actions.
use vstd::prelude::*;

use crate::command::{
    CommandOutput, adb_args, capture_failure_message, device_target_text, failure_message,
    gesture_json, output_text, serve_sim_args,
};
use crate::display::{display_size_in, preview_host, size_parts};
use crate::error::{DeviceError, error_message};
use crate::escape::escaped;
use crate::platform::{Platform, platform_named};
use crate::reply::{image_reply, text_reply};
use crate::screenshot::{screenshot_file, valid_screenshot_name};
use crate::session::{ActionModel, EventModel, Gesture, PhaseModel, SettingsModel, ToolModel};
use crate::text::lowercased;

verus! {

/// The preview URL used when `SERVE_SIM_URL` is not set.
pub open spec fn default_preview_url() -> Seq<char> {
    "http://127.0.0.1:3100"@
}

/// Ending the call with a successful reply showing `message`.
pub open spec fn finish_ok(message: Seq<char>) -> ActionModel {
    ActionModel::Finish(text_reply(false, message))
}

/// Ending the call with an error reply showing `message`.
pub open spec fn finish_error(message: Seq<char>) -> ActionModel {
    ActionModel::Finish(text_reply(true, message))
}

/// Running `npx serve-sim` with `arguments`.
pub open spec fn serve_sim_run(settings: SettingsModel, arguments: Seq<Seq<char>>) -> ActionModel {
    ActionModel::Run {
        program: "npx"@,
        arguments: serve_sim_args(arguments, settings.ios_udid),
        limited: false,
    }
}

/// Running `adb` with `arguments` on the configured device.
pub open spec fn adb_run(settings: SettingsModel, arguments: Seq<Seq<char>>, limited: bool) -> ActionModel {
    ActionModel::Run {
        program: "adb"@,
        arguments: adb_args(settings.android_serial, arguments),
        limited,
    }
}

/// Asking `adb` for the display size.
pub open spec fn measure_run(settings: SettingsModel) -> ActionModel {
    adb_run(settings, seq!["shell"@, "wm"@, "size"@], false)
}

/// Capturing the simulator display into the file at `path`.
pub open spec fn screenshot_run(settings: SettingsModel, path: Seq<char>) -> ActionModel {
    ActionModel::Run {
        program: "xcrun"@,
        arguments: seq![
            "simctl"@,
            "io"@,
            device_target_text(settings.ios_udid),
            "screenshot"@,
            path,
        ],
        limited: false,
    }
}

/// The message refusing a call before any platform is chosen, if any.
pub open spec fn refusal(tool: ToolModel) -> Option<Seq<char>> {
    match tool {
        ToolModel::Capture { name } => if valid_screenshot_name(capture_name(name)) {
            None
        } else {
            Some(error_message(DeviceError::InvalidScreenshotName))
        },
        ToolModel::Type { text } => if text.len() == 0 {
            Some(error_message(DeviceError::EmptyText))
        } else {
            None
        },
        _ => None,
    }
}

/// The screenshot name used when the call gives none.
pub open spec fn capture_name(name: Option<Seq<char>>) -> Seq<char> {
    match name {
        Some(n) => n,
        None => "device"@,
    }
}

/// The platform a `DEVICE_PLATFORM` setting selects; iOS when it is absent.
pub open spec fn selected_platform(setting: Option<Seq<char>>) -> Option<Platform> {
    match setting {
        Some(name) => platform_named(name),
        None => Some(Platform::Ios),
    }
}

/// The message for a setting that selects no platform.
pub open spec fn unsupported_message(setting: Seq<char>) -> Seq<char> {
    "unsupported DEVICE_PLATFORM '"@ + lowercased(setting) + "'; use ios or android"@
}

/// The three gesture events of an iOS swipe: begin at the start point, then
/// move to and end at the end point.
pub open spec fn swipe_payloads(x1: Seq<char>, y1: Seq<char>, x2: Seq<char>, y2: Seq<char>) -> Seq<
    Seq<char>,
> {
    seq![gesture_json("begin"@, x1, y1), gesture_json("move"@, x2, y2), gesture_json("end"@, x2, y2)]
}

/// The first step of a call of `tool` on `platform`.
pub open spec fn first_step(tool: ToolModel, platform: Platform, settings: SettingsModel) -> (
    PhaseModel,
    ActionModel,
) {
    match platform {
        Platform::Ios => match tool {
            ToolModel::Start => (
                PhaseModel::Serving,
                serve_sim_run(settings, seq!["--detach"@, "--quiet"@, "--fit"@]),
            ),
            ToolModel::Stop => (
                PhaseModel::Replying { program: "npx"@ },
                serve_sim_run(settings, seq!["--kill"@]),
            ),
            ToolModel::Status => (
                PhaseModel::Replying { program: "npx"@ },
                serve_sim_run(settings, seq!["--list"@]),
            ),
            ToolModel::Capture { name } => (
                PhaseModel::Locating,
                ActionModel::LocateScreenshot { file_name: screenshot_file(capture_name(name)) },
            ),
            ToolModel::Tap { x, y } => (
                PhaseModel::Replying { program: "npx"@ },
                serve_sim_run(settings, seq!["tap"@, x, y]),
            ),
            ToolModel::Swipe { x1, y1, x2, y2 } => (
                PhaseModel::Gesturing { payloads: swipe_payloads(x1, y1, x2, y2), next: 1 },
                serve_sim_run(settings, seq!["gesture"@, gesture_json("begin"@, x1, y1)]),
            ),
            ToolModel::Type { text } => (
                PhaseModel::Replying { program: "npx"@ },
                serve_sim_run(settings, seq!["type"@, text]),
            ),
        },
        Platform::Android => match tool {
            ToolModel::Start => (
                PhaseModel::StartingServer,
                ActionModel::Run {
                    program: "adb"@,
                    arguments: seq!["start-server"@],
                    limited: false,
                },
            ),
            ToolModel::Stop => (
                PhaseModel::Finished,
                finish_ok(
                    "Android emulator lifecycle is managed externally; no emulator was stopped."@,
                ),
            ),
            ToolModel::Status => (
                PhaseModel::Replying { program: "adb"@ },
                adb_run(settings, seq!["devices"@], false),
            ),
            ToolModel::Capture { .. } => (
                PhaseModel::Grabbing,
                adb_run(settings, seq!["exec-out"@, "screencap"@, "-p"@], false),
            ),
            ToolModel::Tap { .. } => (
                PhaseModel::Measuring { gesture: Gesture::Tap, pixels: Seq::empty() },
                measure_run(settings),
            ),
            ToolModel::Swipe { .. } => (
                PhaseModel::Measuring { gesture: Gesture::Swipe, pixels: Seq::empty() },
                measure_run(settings),
            ),
            ToolModel::Type { text } => (
                PhaseModel::Replying { program: "adb"@ },
                adb_run(settings, seq!["shell"@, "input"@, "text"@, escaped(text)], false),
            ),
        },
    }
}

/// How a call of `tool` opens: it is refused, or its platform setting is
/// refused, or its first step runs.
pub open spec fn opening(
    tool: ToolModel,
    platform_setting: Option<Seq<char>>,
    settings: SettingsModel,
) -> (PhaseModel, ActionModel) {
    match refusal(tool) {
        Some(message) => (PhaseModel::Finished, finish_error(message)),
        None => match selected_platform(platform_setting) {
            Some(platform) => first_step(tool, platform, settings),
            None => (
                PhaseModel::Finished,
                finish_error(unsupported_message(platform_setting.unwrap())),
            ),
        },
    }
}

/// The program a phase waits on, for failure messages.
pub open spec fn awaited_program(phase: PhaseModel) -> Seq<char> {
    match phase {
        PhaseModel::Serving => "npx"@,
        PhaseModel::Replying { program } => program,
        PhaseModel::Gesturing { .. } => "npx"@,
        PhaseModel::Capturing { .. } => "xcrun"@,
        _ => "adb"@,
    }
}

/// Whether a phase waits on a program run.
pub open spec fn awaits_run(phase: PhaseModel) -> bool {
    ||| phase is Serving
    ||| phase is StartingServer
    ||| phase is AwaitingDevice
    ||| phase is Replying
    ||| phase is Capturing
    ||| phase is Grabbing
    ||| phase is Measuring
    ||| phase is Gesturing
}

/// The number of points an Android gesture converts.
pub open spec fn points_needed(gesture: Gesture) -> nat {
    match gesture {
        Gesture::Tap => 1,
        Gesture::Swipe => 2,
    }
}

/// The command that performs an Android gesture once its pixel coordinates
/// are known.
pub open spec fn gesture_run(settings: SettingsModel, gesture: Gesture, pixels: Seq<Seq<char>>) -> ActionModel {
    match gesture {
        Gesture::Tap => adb_run(
            settings,
            seq!["shell"@, "input"@, "tap"@, pixels[0], pixels[1]],
            false,
        ),
        Gesture::Swipe => adb_run(
            settings,
            seq!["shell"@, "input"@, "swipe"@, pixels[0], pixels[1], pixels[2], pixels[3], "300"@],
            false,
        ),
    }
}

/// The next step after a program that the phase waits on ran successfully.
pub open spec fn after_success(settings: SettingsModel, phase: PhaseModel, output: CommandOutput) -> (
    PhaseModel,
    ActionModel,
) {
    match phase {
        PhaseModel::Serving => {
            let url = match settings.preview_url {
                Some(u) => u,
                None => default_preview_url(),
            };
            match preview_host(url) {
                Some(address) => (PhaseModel::Previewing { url }, ActionModel::AwaitPreview { address }),
                None => (
                    PhaseModel::Finished,
                    finish_error(error_message(DeviceError::InvalidPreviewUrl)),
                ),
            }
        },
        PhaseModel::StartingServer => (
            PhaseModel::AwaitingDevice,
            adb_run(settings, seq!["wait-for-device"@], true),
        ),
        PhaseModel::AwaitingDevice => (PhaseModel::Finished, finish_ok("Android Emulator is ready"@)),
        PhaseModel::Capturing { path } => if output.stdout@.len() == 0 {
            (PhaseModel::Reading { path }, ActionModel::ReadFile { path })
        } else {
            (PhaseModel::Cleaning { image: output.stdout@ }, ActionModel::RemoveFile { path })
        },
        PhaseModel::Grabbing => (
            PhaseModel::Finished,
            ActionModel::Finish(image_reply("Captured Android Emulator display"@, output.stdout@)),
        ),
        PhaseModel::Measuring { gesture, pixels } => match display_size_in(output_text(output)) {
            Some(dimensions) => match size_parts(dimensions) {
                Some((width, height)) => (
                    PhaseModel::Scaling { gesture, pixels },
                    ActionModel::Scale { point: pixels.len() / 2, width, height },
                ),
                None => (
                    PhaseModel::Finished,
                    finish_error("invalid Android display size: "@ + dimensions),
                ),
            },
            None => (
                PhaseModel::Finished,
                finish_error(error_message(DeviceError::UnknownDisplaySize)),
            ),
        },
        PhaseModel::Gesturing { payloads, next } => if next < payloads.len() {
            (
                PhaseModel::Gesturing { payloads, next: next + 1 },
                serve_sim_run(settings, seq!["gesture"@, payloads[next as int]]),
            )
        } else {
            (PhaseModel::Finished, finish_ok("Swipe completed"@))
        },
        _ => (PhaseModel::Finished, finish_ok(output_text(output))),
    }
}

/// The error reply for an unsuccessful run that `phase` waited on.
pub open spec fn run_failure(phase: PhaseModel, output: CommandOutput) -> ActionModel {
    if phase is Grabbing {
        finish_error(capture_failure_message(output))
    } else {
        finish_error(failure_message(awaited_program(phase), output))
    }
}

/// The next step of a call in `phase` once `event` arrives.
pub open spec fn advance(settings: SettingsModel, phase: PhaseModel, event: EventModel) -> (
    PhaseModel,
    ActionModel,
) {
    let unexpected = (PhaseModel::Finished, finish_error(error_message(DeviceError::UnexpectedEvent)));
    if phase is Finished {
        unexpected
    } else {
        match event {
            EventModel::Failed(message) => (PhaseModel::Finished, finish_error(message)),
            EventModel::Completed(output) => if awaits_run(phase) {
                if output.success {
                    after_success(settings, phase, output)
                } else {
                    (PhaseModel::Finished, run_failure(phase, output))
                }
            } else {
                unexpected
            },
            EventModel::TimedOut => match phase {
                PhaseModel::AwaitingDevice => (
                    PhaseModel::Finished,
                    finish_error(error_message(DeviceError::EmulatorNotReady)),
                ),
                PhaseModel::Previewing { url } => (
                    PhaseModel::Finished,
                    finish_error("preview did not become available at "@ + url),
                ),
                _ => unexpected,
            },
            EventModel::Ready => match phase {
                PhaseModel::Previewing { url } => (PhaseModel::Finished, finish_ok(url)),
                _ => unexpected,
            },
            EventModel::Located(path) => match phase {
                PhaseModel::Locating => (
                    PhaseModel::Capturing { path },
                    screenshot_run(settings, path),
                ),
                _ => unexpected,
            },
            EventModel::Loaded(bytes) => match phase {
                PhaseModel::Reading { path } => (
                    PhaseModel::Cleaning { image: bytes },
                    ActionModel::RemoveFile { path },
                ),
                _ => unexpected,
            },
            EventModel::Removed => match phase {
                PhaseModel::Cleaning { image } => (
                    PhaseModel::Finished,
                    ActionModel::Finish(image_reply("Captured iOS Simulator display"@, image)),
                ),
                _ => unexpected,
            },
            EventModel::Scaled(x, y) => match phase {
                PhaseModel::Scaling { gesture, pixels } => {
                    let converted = pixels.push(x).push(y);
                    if converted.len() >= 2 * points_needed(gesture) {
                        (PhaseModel::Replying { program: "adb"@ }, gesture_run(settings, gesture, converted))
                    } else {
                        (PhaseModel::Measuring { gesture, pixels: converted }, measure_run(settings))
                    }
                },
                _ => unexpected,
            },
        }
    }
}

} // verus!
