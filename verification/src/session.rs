//! One tool call as a sequence of steps. The library decides, from what the
//! last piece of outside work produced, what the caller does next: run a
//! program, wait for the preview, handle the screenshot file, turn a point
//! into display pixels, or finish with a reply. The caller performs each
//! action and hands back what came of it as an event.
use vstd::prelude::*;

use crate::command::{
    CommandOutput, adb_arguments, capture_failure, command_failure, command_text, device_target,
    device_target_text, gesture_payload, push_text, serve_sim_arguments,
};
use crate::display::{display_dimensions, parse_display_size, preview_address};
use crate::error::{DeviceError, error_message};
use crate::escape::{escape_android_text, escaped};
use crate::platform::{Platform, configured_platform};
use crate::protocol::{
    adb_run, advance, after_success, awaits_run, capture_name, finish_error, finish_ok,
    first_step, gesture_run, measure_run, opening, points_needed, refusal, run_failure,
    screenshot_run, serve_sim_run, swipe_payloads,
};
use crate::reply::{ReplyModel, ToolReply, failure, image, success};
use crate::screenshot::{screenshot_file_name, validate_screenshot_name};

verus! {

/// Where the tools find the devices; each value comes from the setting of
/// the same meaning in the environment.
pub struct Settings {
    /// `IOS_SIMULATOR_UDID`: the iOS Simulator to address instead of the booted one.
    pub ios_udid: Option<String>,
    /// `ANDROID_SERIAL`: the Android device `adb` addresses.
    pub android_serial: Option<String>,
    /// `SERVE_SIM_URL`: where the `serve-sim` preview listens.
    pub preview_url: Option<String>,
}

/// The tool being called, with its arguments. Coordinates are the decimal
/// text of normalized numbers between 0 and 1 (checked by the caller).
pub enum Tool {
    Start,
    Stop,
    Status,
    Capture { name: Option<String> },
    Tap { x: String, y: String },
    Swipe { x1: String, y1: String, x2: String, y2: String },
    Type { text: String },
}

/// Which Android gesture is being built.
#[derive(Clone, Copy, Debug, PartialEq, Eq, Structural)]
pub enum Gesture {
    Tap,
    Swipe,
}

/// What the tool call is waiting for.
pub enum Phase {
    /// The call has finished.
    Finished,
    /// iOS start: the detached `serve-sim` launch.
    Serving,
    /// iOS start: the preview at `url` becoming reachable.
    Previewing { url: String },
    /// Android start: `adb start-server`.
    StartingServer,
    /// Android start: `adb wait-for-device`.
    AwaitingDevice,
    /// `program`, whose reported text is the reply.
    Replying { program: String },
    /// iOS capture: the path for the screenshot file.
    Locating,
    /// iOS capture: `xcrun simctl io ... screenshot` writing to `path`.
    Capturing { path: String },
    /// iOS capture: the contents of the screenshot file at `path`.
    Reading { path: String },
    /// iOS capture: removal of the screenshot file; `image` is the capture.
    Cleaning { image: Vec<u8> },
    /// Android capture: `adb exec-out screencap -p`.
    Grabbing,
    /// Android gesture: `adb shell wm size`; `pixels` holds the pixel
    /// coordinates of the points converted so far.
    Measuring { gesture: Gesture, pixels: Vec<String> },
    /// Android gesture: pixel coordinates of the next point.
    Scaling { gesture: Gesture, pixels: Vec<String> },
    /// iOS swipe: the gesture event sent last; `payloads[next..]` are still to send.
    Gesturing { payloads: Vec<String>, next: usize },
}

/// What came of the last action.
pub enum Event {
    /// The program ran to its end.
    Completed(CommandOutput),
    /// The work failed, with this message (the program could not be run, a
    /// file could not be read, a number could not be read).
    Failed(String),
    /// A time-limited run, or the wait for the preview, ran out of time.
    TimedOut,
    /// The preview became reachable.
    Ready,
    /// The path where the screenshot file goes.
    Located(String),
    /// The pixel coordinates of the requested point.
    Scaled(String, String),
    /// The contents of the file that was read.
    Loaded(Vec<u8>),
    /// Removal of the file was attempted (its outcome does not matter).
    Removed,
}

/// What the caller does next.
pub enum Action {
    /// Run `program` with `arguments`; when `limited`, give up after the
    /// time limit and report `TimedOut`.
    Run { program: String, arguments: Vec<String>, limited: bool },
    /// Wait, within the time limit, until a connection to `address` succeeds.
    AwaitPreview { address: String },
    /// Report the path of `file_name` in the temporary directory.
    LocateScreenshot { file_name: String },
    /// Read the file at `path`.
    ReadFile { path: String },
    /// Remove the file at `path`.
    RemoveFile { path: String },
    /// Turn point `point` of the gesture (the first is 0) into pixel
    /// coordinates on a display of the given width and height text.
    Scale { point: usize, width: String, height: String },
    /// The call is over; this is its reply.
    Finish(ToolReply),
}

/// A tool call in progress.
pub struct Session {
    pub settings: Settings,
    pub phase: Phase,
}

/// `Settings` as character sequences.
pub struct SettingsModel {
    pub ios_udid: Option<Seq<char>>,
    pub android_serial: Option<Seq<char>>,
    pub preview_url: Option<Seq<char>>,
}

/// `Tool` as character sequences.
pub enum ToolModel {
    Start,
    Stop,
    Status,
    Capture { name: Option<Seq<char>> },
    Tap { x: Seq<char>, y: Seq<char> },
    Swipe { x1: Seq<char>, y1: Seq<char>, x2: Seq<char>, y2: Seq<char> },
    Type { text: Seq<char> },
}

/// `Phase` as sequences.
pub enum PhaseModel {
    Finished,
    Serving,
    Previewing { url: Seq<char> },
    StartingServer,
    AwaitingDevice,
    Replying { program: Seq<char> },
    Locating,
    Capturing { path: Seq<char> },
    Reading { path: Seq<char> },
    Cleaning { image: Seq<u8> },
    Grabbing,
    Measuring { gesture: Gesture, pixels: Seq<Seq<char>> },
    Scaling { gesture: Gesture, pixels: Seq<Seq<char>> },
    Gesturing { payloads: Seq<Seq<char>>, next: nat },
}

/// `Event` as sequences.
pub enum EventModel {
    Completed(CommandOutput),
    Failed(Seq<char>),
    TimedOut,
    Ready,
    Located(Seq<char>),
    Scaled(Seq<char>, Seq<char>),
    Loaded(Seq<u8>),
    Removed,
}

/// `Action` as sequences.
pub enum ActionModel {
    Run { program: Seq<char>, arguments: Seq<Seq<char>>, limited: bool },
    AwaitPreview { address: Seq<char> },
    LocateScreenshot { file_name: Seq<char> },
    ReadFile { path: Seq<char> },
    RemoveFile { path: Seq<char> },
    Scale { point: nat, width: Seq<char>, height: Seq<char> },
    Finish(ReplyModel),
}

impl View for Settings {
    type V = SettingsModel;

    open spec fn view(&self) -> SettingsModel {
        SettingsModel {
            ios_udid: self.ios_udid.deep_view(),
            android_serial: self.android_serial.deep_view(),
            preview_url: self.preview_url.deep_view(),
        }
    }
}

impl View for Tool {
    type V = ToolModel;

    open spec fn view(&self) -> ToolModel {
        match self {
            Tool::Start => ToolModel::Start,
            Tool::Stop => ToolModel::Stop,
            Tool::Status => ToolModel::Status,
            Tool::Capture { name } => ToolModel::Capture { name: name.deep_view() },
            Tool::Tap { x, y } => ToolModel::Tap { x: x@, y: y@ },
            Tool::Swipe { x1, y1, x2, y2 } => ToolModel::Swipe { x1: x1@, y1: y1@, x2: x2@, y2: y2@ },
            Tool::Type { text } => ToolModel::Type { text: text@ },
        }
    }
}

impl View for Phase {
    type V = PhaseModel;

    open spec fn view(&self) -> PhaseModel {
        match self {
            Phase::Finished => PhaseModel::Finished,
            Phase::Serving => PhaseModel::Serving,
            Phase::Previewing { url } => PhaseModel::Previewing { url: url@ },
            Phase::StartingServer => PhaseModel::StartingServer,
            Phase::AwaitingDevice => PhaseModel::AwaitingDevice,
            Phase::Replying { program } => PhaseModel::Replying { program: program@ },
            Phase::Locating => PhaseModel::Locating,
            Phase::Capturing { path } => PhaseModel::Capturing { path: path@ },
            Phase::Reading { path } => PhaseModel::Reading { path: path@ },
            Phase::Cleaning { image } => PhaseModel::Cleaning { image: image@ },
            Phase::Grabbing => PhaseModel::Grabbing,
            Phase::Measuring { gesture, pixels } => PhaseModel::Measuring {
                gesture: *gesture,
                pixels: pixels.deep_view(),
            },
            Phase::Scaling { gesture, pixels } => PhaseModel::Scaling {
                gesture: *gesture,
                pixels: pixels.deep_view(),
            },
            Phase::Gesturing { payloads, next } => PhaseModel::Gesturing {
                payloads: payloads.deep_view(),
                next: *next as nat,
            },
        }
    }
}

impl View for Event {
    type V = EventModel;

    open spec fn view(&self) -> EventModel {
        match self {
            Event::Completed(output) => EventModel::Completed(*output),
            Event::Failed(message) => EventModel::Failed(message@),
            Event::TimedOut => EventModel::TimedOut,
            Event::Ready => EventModel::Ready,
            Event::Located(path) => EventModel::Located(path@),
            Event::Scaled(x, y) => EventModel::Scaled(x@, y@),
            Event::Loaded(bytes) => EventModel::Loaded(bytes@),
            Event::Removed => EventModel::Removed,
        }
    }
}

impl View for Action {
    type V = ActionModel;

    open spec fn view(&self) -> ActionModel {
        match self {
            Action::Run { program, arguments, limited } => ActionModel::Run {
                program: program@,
                arguments: arguments.deep_view(),
                limited: *limited,
            },
            Action::AwaitPreview { address } => ActionModel::AwaitPreview { address: address@ },
            Action::LocateScreenshot { file_name } => ActionModel::LocateScreenshot {
                file_name: file_name@,
            },
            Action::ReadFile { path } => ActionModel::ReadFile { path: path@ },
            Action::RemoveFile { path } => ActionModel::RemoveFile { path: path@ },
            Action::Scale { point, width, height } => ActionModel::Scale {
                point: *point as nat,
                width: width@,
                height: height@,
            },
            Action::Finish(reply) => ActionModel::Finish(reply@),
        }
    }
}


/// Ends the call with the error reply for `error`.
fn finish_with_error(error: DeviceError) -> (action: Action)
    ensures
        action@ == finish_error(error_message(error)),
{
    Action::Finish(failure(&error))
}

/// Ends the call with a successful reply showing `message`.
fn finish_with(message: String) -> (action: Action)
    ensures
        action@ == finish_ok(message@),
{
    Action::Finish(success(message))
}

/// Runs `npx serve-sim` with `arguments`.
fn serve_sim_action(settings: &Settings, arguments: Vec<String>) -> (action: Action)
    ensures
        action@ == serve_sim_run(settings@, arguments.deep_view()),
{
    Action::Run {
        program: String::from_str("npx"),
        arguments: serve_sim_arguments(&arguments, &settings.ios_udid),
        limited: false,
    }
}

/// Runs `adb` with `arguments` on the configured device.
fn adb_action(settings: &Settings, arguments: Vec<String>, limited: bool) -> (action: Action)
    ensures
        action@ == adb_run(settings@, arguments.deep_view(), limited),
{
    Action::Run {
        program: String::from_str("adb"),
        arguments: adb_arguments(&settings.android_serial, &arguments),
        limited,
    }
}

/// The texts `items`, owned.
fn owned_texts(items: &[&str]) -> (texts: Vec<String>)
    ensures
        texts.deep_view() == items@.map_values(|item: &str| item@),
{
    let mut texts: Vec<String> = Vec::new();
    let mut i: usize = 0;
    while i < items.len()
        invariant
            i <= items@.len(),
            texts.deep_view() == items@.take(i as int).map_values(|item: &str| item@),
        decreases items.len() - i,
    {
        push_text(&mut texts, items[i].to_owned());
        assert(items@.take(i + 1).map_values(|item: &str| item@) =~= items@.take(
            i as int,
        ).map_values(|item: &str| item@).push(items@[i as int]@));
        i = i + 1;
    }
    assert(items@.take(items@.len() as int) =~= items@);
    texts
}

/// Asks `adb` for the display size.
fn measure_action(settings: &Settings) -> (action: Action)
    ensures
        action@ == measure_run(settings@),
{
    let arguments = owned_texts(&["shell", "wm", "size"]);
    assert(arguments.deep_view() =~= seq!["shell"@, "wm"@, "size"@]);
    adb_action(settings, arguments, false)
}

/// The error for a call that is refused before a platform is chosen.
fn refuse(tool: &Tool) -> (refused: Option<DeviceError>)
    ensures
        match refusal(tool@) {
            Some(message) => refused matches Some(error) && error_message(error) == message,
            None => refused is None,
        },
{
    match tool {
        Tool::Capture { name } => {
            let chosen: &str = match name {
                Some(n) => n.as_str(),
                None => "device",
            };
            assert(chosen@ == capture_name(name.deep_view()));
            match validate_screenshot_name(chosen) {
                Ok(()) => None,
                Err(error) => Some(error),
            }
        },
        Tool::Type { text } => if text.as_str().is_empty() {
            Some(DeviceError::EmptyText)
        } else {
            None
        },
        _ => None,
    }
}

/// The first step of a call of `tool` on iOS.
fn open_ios_step(tool: Tool, settings: &Settings) -> (opened: (Phase, Action))
    ensures
        (opened.0@, opened.1@) == first_step(tool@, Platform::Ios, settings@),
{
    match tool {
            Tool::Start => {
                let arguments = owned_texts(&["--detach", "--quiet", "--fit"]);
                assert(arguments.deep_view() =~= seq!["--detach"@, "--quiet"@, "--fit"@]);
                (Phase::Serving, serve_sim_action(settings, arguments))
            },
            Tool::Stop => {
                let arguments = owned_texts(&["--kill"]);
                assert(arguments.deep_view() =~= seq!["--kill"@]);
                (Phase::Replying { program: String::from_str("npx") }, serve_sim_action(settings, arguments))
            },
            Tool::Status => {
                let arguments = owned_texts(&["--list"]);
                assert(arguments.deep_view() =~= seq!["--list"@]);
                (Phase::Replying { program: String::from_str("npx") }, serve_sim_action(settings, arguments))
            },
            Tool::Capture { name } => {
                let chosen: &str = match &name {
                    Some(n) => n.as_str(),
                    None => "device",
                };
                assert(chosen@ == capture_name(name.deep_view()));
                (Phase::Locating, Action::LocateScreenshot { file_name: screenshot_file_name(chosen) })
            },
            Tool::Tap { x, y } => {
                let mut arguments = owned_texts(&["tap"]);
                push_text(&mut arguments, x);
                push_text(&mut arguments, y);
                assert(arguments.deep_view() =~= seq!["tap"@, x@, y@]);
                (Phase::Replying { program: String::from_str("npx") }, serve_sim_action(settings, arguments))
            },
            Tool::Swipe { x1, y1, x2, y2 } => {
                let mut payloads: Vec<String> = Vec::new();
                let begin = gesture_payload("begin", x1.as_str(), y1.as_str());
                push_text(&mut payloads, begin.clone());
                push_text(&mut payloads, gesture_payload("move", x2.as_str(), y2.as_str()));
                push_text(&mut payloads, gesture_payload("end", x2.as_str(), y2.as_str()));
                let mut arguments = owned_texts(&["gesture"]);
                push_text(&mut arguments, begin);
                assert(arguments.deep_view() =~= seq!["gesture"@, payloads.deep_view()[0]]);
                assert(payloads.deep_view() =~= swipe_payloads(
                    x1@,
                    y1@,
                    x2@,
                    y2@,
                ));
                (Phase::Gesturing { payloads, next: 1 }, serve_sim_action(settings, arguments))
            },
            Tool::Type { text } => {
                let mut arguments = owned_texts(&["type"]);
                push_text(&mut arguments, text);
                assert(arguments.deep_view() =~= seq!["type"@, text@]);
                (Phase::Replying { program: String::from_str("npx") }, serve_sim_action(settings, arguments))
            },
    }
}

/// The first step of a call of `tool` on Android.
fn open_android_step(tool: Tool, settings: &Settings) -> (opened: (Phase, Action))
    ensures
        (opened.0@, opened.1@) == first_step(tool@, Platform::Android, settings@),
{
    match tool {
            Tool::Start => {
                let arguments = owned_texts(&["start-server"]);
                assert(arguments.deep_view() =~= seq!["start-server"@]);
                (
                    Phase::StartingServer,
                    Action::Run { program: String::from_str("adb"), arguments, limited: false },
                )
            },
            Tool::Stop => (
                Phase::Finished,
                finish_with(
                    String::from_str(
                        "Android emulator lifecycle is managed externally; no emulator was stopped.",
                    ),
                ),
            ),
            Tool::Status => {
                let arguments = owned_texts(&["devices"]);
                assert(arguments.deep_view() =~= seq!["devices"@]);
                (Phase::Replying { program: String::from_str("adb") }, adb_action(settings, arguments, false))
            },
            Tool::Capture { .. } => {
                let arguments = owned_texts(&["exec-out", "screencap", "-p"]);
                assert(arguments.deep_view() =~= seq!["exec-out"@, "screencap"@, "-p"@]);
                (Phase::Grabbing, adb_action(settings, arguments, false))
            },
            Tool::Tap { .. } => {
                let pixels: Vec<String> = Vec::new();
                assert(pixels.deep_view() =~= Seq::<Seq<char>>::empty());
                (Phase::Measuring { gesture: Gesture::Tap, pixels }, measure_action(settings))
            },
            Tool::Swipe { .. } => {
                let pixels: Vec<String> = Vec::new();
                assert(pixels.deep_view() =~= Seq::<Seq<char>>::empty());
                (Phase::Measuring { gesture: Gesture::Swipe, pixels }, measure_action(settings))
            },
            Tool::Type { text } => {
                let mut arguments = owned_texts(&["shell", "input", "text"]);
                let escaped_text = escape_android_text(text.as_str());
                push_text(&mut arguments, escaped_text);
                assert(arguments.deep_view() =~= seq!["shell"@, "input"@, "text"@, escaped(text@)]);
                (Phase::Replying { program: String::from_str("adb") }, adb_action(settings, arguments, false))
            },
    }
}

/// The first step of a call of `tool` on `platform`.
fn open_step(tool: Tool, platform: Platform, settings: &Settings) -> (opened: (Phase, Action))
    ensures
        (opened.0@, opened.1@) == first_step(tool@, platform, settings@),
{
    match platform {
        Platform::Ios => open_ios_step(tool, settings),
        Platform::Android => open_android_step(tool, settings),
    }
}

/// Ends the call because the event does not fit the current step.
fn unexpected() -> (next: (Phase, Action))
    ensures
        next.0@ == PhaseModel::Finished,
        next.1@ == finish_error(error_message(DeviceError::UnexpectedEvent)),
{
    (Phase::Finished, finish_with_error(DeviceError::UnexpectedEvent))
}

/// Whether `phase` waits on a program run.
fn waits_on_run(phase: &Phase) -> (waits: bool)
    ensures
        waits == awaits_run(phase@),
{
    match phase {
        Phase::Serving | Phase::StartingServer | Phase::AwaitingDevice | Phase::Replying { .. }
        | Phase::Capturing { .. } | Phase::Grabbing | Phase::Measuring { .. }
        | Phase::Gesturing { .. } => true,
        _ => false,
    }
}

/// Ends the call after the run that `phase` waited on ended unsuccessfully.
fn run_failure_action(phase: &Phase, output: &CommandOutput) -> (action: Action)
    ensures
        action@ == run_failure(phase@, *output),
{
    match phase {
        Phase::Grabbing => finish_with_error(capture_failure(output)),
        Phase::Serving | Phase::Gesturing { .. } => finish_with_error(command_failure("npx", output)),
        Phase::Capturing { .. } => finish_with_error(command_failure("xcrun", output)),
        Phase::Replying { program } => finish_with_error(command_failure(program.as_str(), output)),
        _ => finish_with_error(command_failure("adb", output)),
    }
}

/// Captures the simulator display into the file at `path`.
fn screenshot_action(settings: &Settings, path: String) -> (action: Action)
    ensures
        action@ == screenshot_run(settings@, path@),
{
    let mut arguments = owned_texts(&["simctl", "io"]);
    push_text(&mut arguments, device_target(&settings.ios_udid));
    push_text(&mut arguments, String::from_str("screenshot"));
    push_text(&mut arguments, path);
    assert(arguments.deep_view() =~= seq![
        "simctl"@,
        "io"@,
        device_target_text(settings@.ios_udid),
        "screenshot"@,
        path@,
    ]);
    Action::Run { program: String::from_str("xcrun"), arguments, limited: false }
}

/// Performs an Android gesture at the pixel coordinates `pixels`.
fn gesture_action(settings: &Settings, gesture: Gesture, pixels: &Vec<String>) -> (action: Action)
    requires
        pixels.len() >= 2 * points_needed(gesture),
    ensures
        action@ == gesture_run(settings@, gesture, pixels.deep_view()),
{
    match gesture {
        Gesture::Tap => {
            let mut arguments = owned_texts(&["shell", "input", "tap"]);
            push_text(&mut arguments, pixels[0].clone());
            push_text(&mut arguments, pixels[1].clone());
            assert(arguments.deep_view() =~= seq![
                "shell"@,
                "input"@,
                "tap"@,
                pixels.deep_view()[0],
                pixels.deep_view()[1],
            ]);
            adb_action(settings, arguments, false)
        },
        Gesture::Swipe => {
            let mut arguments = owned_texts(&["shell", "input", "swipe"]);
            push_text(&mut arguments, pixels[0].clone());
            push_text(&mut arguments, pixels[1].clone());
            push_text(&mut arguments, pixels[2].clone());
            push_text(&mut arguments, pixels[3].clone());
            push_text(&mut arguments, String::from_str("300"));
            assert(arguments.deep_view() =~= seq![
                "shell"@,
                "input"@,
                "swipe"@,
                pixels.deep_view()[0],
                pixels.deep_view()[1],
                pixels.deep_view()[2],
                pixels.deep_view()[3],
                "300"@,
            ]);
            adb_action(settings, arguments, false)
        },
    }
}

/// The next step of an Android gesture once `wm size` printed `output`.
fn measured(settings: &Settings, gesture: Gesture, pixels: Vec<String>, output: &CommandOutput) -> (next: (Phase, Action))
    ensures
        (next.0@, next.1@) == after_success(
            settings@,
            PhaseModel::Measuring { gesture, pixels: pixels.deep_view() },
            *output,
        ),
{
    let text = command_text(output);
    match display_dimensions(text.as_str()) {
        Some(dimensions) => match parse_display_size(dimensions.as_str()) {
            Ok((width, height)) => {
                let point = pixels.len() / 2;
                (Phase::Scaling { gesture, pixels }, Action::Scale { point, width, height })
            },
            Err(error) => (Phase::Finished, finish_with_error(error)),
        },
        None => (Phase::Finished, finish_with_error(DeviceError::UnknownDisplaySize)),
    }
}

/// The next step after the run that `phase` waited on ended successfully.
fn succeeded(settings: &Settings, phase: Phase, output: CommandOutput) -> (next: (Phase, Action))
    requires
        awaits_run(phase@),
    ensures
        (next.0@, next.1@) == after_success(settings@, phase@, output),
{
    match phase {
        Phase::Serving => {
            let url = match &settings.preview_url {
                Some(u) => u.clone(),
                None => String::from_str("http://127.0.0.1:3100"),
            };
            match preview_address(url.as_str()) {
                Some(address) => (Phase::Previewing { url }, Action::AwaitPreview { address }),
                None => (Phase::Finished, finish_with_error(DeviceError::InvalidPreviewUrl)),
            }
        },
        Phase::StartingServer => {
            let arguments = owned_texts(&["wait-for-device"]);
            assert(arguments.deep_view() =~= seq!["wait-for-device"@]);
            (Phase::AwaitingDevice, adb_action(settings, arguments, true))
        },
        Phase::AwaitingDevice => (
            Phase::Finished,
            finish_with(String::from_str("Android Emulator is ready")),
        ),
        Phase::Capturing { path } => if output.stdout.len() == 0 {
            (Phase::Reading { path: path.clone() }, Action::ReadFile { path })
        } else {
            (Phase::Cleaning { image: output.stdout }, Action::RemoveFile { path })
        },
        Phase::Grabbing => (
            Phase::Finished,
            Action::Finish(
                image(String::from_str("Captured Android Emulator display"), &output.stdout),
            ),
        ),
        Phase::Measuring { gesture, pixels } => measured(settings, gesture, pixels, &output),
        Phase::Gesturing { payloads, next } => if next < payloads.len() {
            let mut arguments = owned_texts(&["gesture"]);
            push_text(&mut arguments, payloads[next].clone());
            assert(arguments.deep_view() =~= seq!["gesture"@, payloads.deep_view()[next as int]]);
            let action = serve_sim_action(settings, arguments);
            (Phase::Gesturing { payloads, next: next + 1 }, action)
        } else {
            (Phase::Finished, finish_with(String::from_str("Swipe completed")))
        },
        _ => (Phase::Finished, finish_with(command_text(&output))),
    }
}

/// The next step of an Android gesture once point coordinates `x`, `y` arrived.
fn scaled(settings: &Settings, gesture: Gesture, pixels: Vec<String>, x: String, y: String) -> (next: (Phase, Action))
    ensures
        (next.0@, next.1@) == advance(
            settings@,
            PhaseModel::Scaling { gesture, pixels: pixels.deep_view() },
            EventModel::Scaled(x@, y@),
        ),
{
    let ghost before = pixels.deep_view();
    let mut pixels = pixels;
    push_text(&mut pixels, x);
    push_text(&mut pixels, y);
    let needed: usize = match gesture {
        Gesture::Tap => 2,
        Gesture::Swipe => 4,
    };
    if pixels.len() >= needed {
        (Phase::Replying { program: String::from_str("adb") }, gesture_action(settings, gesture, &pixels))
    } else {
        (Phase::Measuring { gesture, pixels }, measure_action(settings))
    }
}

/// The next step of a call in `phase` once `event` arrives.
fn next_step(settings: &Settings, phase: Phase, event: Event) -> (next: (Phase, Action))
    ensures
        (next.0@, next.1@) == advance(settings@, phase@, event@),
{
    if let Phase::Finished = phase {
        return unexpected();
    }
    match event {
        Event::Failed(message) => (
            Phase::Finished,
            finish_with_error(DeviceError::Reported { message }),
        ),
        Event::Completed(output) => if waits_on_run(&phase) {
            if output.success {
                succeeded(settings, phase, output)
            } else {
                (Phase::Finished, run_failure_action(&phase, &output))
            }
        } else {
            unexpected()
        },
        Event::TimedOut => match phase {
            Phase::AwaitingDevice => (
                Phase::Finished,
                finish_with_error(DeviceError::EmulatorNotReady),
            ),
            Phase::Previewing { url } => (
                Phase::Finished,
                finish_with_error(DeviceError::PreviewUnavailable { url }),
            ),
            _ => unexpected(),
        },
        Event::Ready => match phase {
            Phase::Previewing { url } => (Phase::Finished, finish_with(url)),
            _ => unexpected(),
        },
        Event::Located(path) => match phase {
            Phase::Locating => (
                Phase::Capturing { path: path.clone() },
                screenshot_action(settings, path),
            ),
            _ => unexpected(),
        },
        Event::Loaded(bytes) => match phase {
            Phase::Reading { path } => (Phase::Cleaning { image: bytes }, Action::RemoveFile { path }),
            _ => unexpected(),
        },
        Event::Removed => match phase {
            Phase::Cleaning { image: bytes } => (
                Phase::Finished,
                Action::Finish(image(String::from_str("Captured iOS Simulator display"), &bytes)),
            ),
            _ => unexpected(),
        },
        Event::Scaled(x, y) => match phase {
            Phase::Scaling { gesture, pixels } => scaled(settings, gesture, pixels, x, y),
            _ => unexpected(),
        },
    }
}

impl Session {
    /// Opens a call of `tool`, given the `DEVICE_PLATFORM` setting and the
    /// device settings: refuses it, or returns its first action.
    pub fn begin(tool: Tool, platform_setting: Option<&str>, settings: Settings) -> (opened: (
        Session,
        Action,
    ))
        ensures
            opened.0.settings == settings,
            (opened.0.phase@, opened.1@) == opening(tool@, platform_setting.deep_view(), settings@),
    {
        if let Some(error) = refuse(&tool) {
            return (Session { settings, phase: Phase::Finished }, finish_with_error(error));
        }
        match configured_platform(platform_setting) {
            Ok(platform) => {
                let (phase, action) = open_step(tool, platform, &settings);
                (Session { settings, phase }, action)
            },
            Err(error) => (Session { settings, phase: Phase::Finished }, finish_with_error(error)),
        }
    }

    /// Hands the call what came of its last action and returns the action
    /// that follows.
    pub fn step(self, event: Event) -> (next: (Session, Action))
        ensures
            next.0.settings == self.settings,
            (next.0.phase@, next.1@) == advance(self.settings@, self.phase@, event@),
    {
        let Session { settings, phase } = self;
        let (phase, action) = next_step(&settings, phase, event);
        (Session { settings, phase }, action)
    }

    /// Whether the call has finished.
    pub fn is_finished(&self) -> (finished: bool)
        ensures
            finished == (self.phase@ is Finished),
    {
        match self.phase {
            Phase::Finished => true,
            _ => false,
        }
    }
}

} // verus!

