use std::collections::VecDeque;

use device_simulator_mcp::command::{
    adb_arguments, command_failure, command_output, command_text, gesture_payload,
    serve_sim_arguments, CommandOutput,
};
use device_simulator_mcp::display::{display_dimensions, parse_display_size, preview_address};
use device_simulator_mcp::error::DeviceError;
use device_simulator_mcp::escape::escape_android_text;
use device_simulator_mcp::platform::{configured_platform, parse_platform, Platform};
use device_simulator_mcp::reply::{Content, ToolReply};
use device_simulator_mcp::screenshot::{screenshot_file_name, validate_screenshot_name};
use device_simulator_mcp::session::{Action, Event, Session, Settings, Tool};
use device_simulator_mcp::text::{to_ascii_lowercase, trim};

fn successful_output(stdout: &str) -> CommandOutput {
    CommandOutput {
        success: true,
        status: "exit status: 0".to_owned(),
        stdout: stdout.as_bytes().to_vec(),
        stderr: Vec::new(),
    }
}

fn successful_bytes(stdout: &[u8]) -> CommandOutput {
    CommandOutput {
        success: true,
        status: "exit status: 0".to_owned(),
        stdout: stdout.to_vec(),
        stderr: Vec::new(),
    }
}

fn no_settings() -> Settings {
    Settings {
        ios_udid: None,
        android_serial: None,
        preview_url: None,
    }
}

/// Plays the part of the caller: performs each action with scripted program
/// outputs and records the programs run.
struct FakeDevice {
    outputs: VecDeque<CommandOutput>,
    calls: Vec<(String, Vec<String>)>,
    timeouts: bool,
    file: Vec<u8>,
    removed: Vec<String>,
}

impl FakeDevice {
    fn with_outputs(outputs: Vec<CommandOutput>) -> Self {
        FakeDevice {
            outputs: outputs.into(),
            calls: Vec::new(),
            timeouts: false,
            file: b"file-png".to_vec(),
            removed: Vec::new(),
        }
    }

    fn call(&mut self, tool: Tool, platform: Option<&str>, settings: Settings, points: &[(f64, f64)]) -> ToolReply {
        let (mut session, mut action) = Session::begin(tool, platform, settings);
        loop {
            let event = match action {
                Action::Finish(reply) => {
                    assert!(session.is_finished());
                    return reply;
                }
                Action::Run { program, arguments, limited } => {
                    self.calls.push((program, arguments));
                    if limited && self.timeouts {
                        Event::TimedOut
                    } else {
                        match self.outputs.pop_front() {
                            Some(output) => Event::Completed(output),
                            None => Event::Failed("fake command output was not configured".to_owned()),
                        }
                    }
                }
                Action::AwaitPreview { .. } => {
                    if self.timeouts {
                        Event::TimedOut
                    } else {
                        Event::Ready
                    }
                }
                Action::LocateScreenshot { file_name } => Event::Located(format!("/tmp/{file_name}")),
                Action::ReadFile { .. } => Event::Loaded(self.file.clone()),
                Action::RemoveFile { path } => {
                    self.removed.push(path);
                    Event::Removed
                }
                Action::Scale { point, width, height } => {
                    let (x, y) = points[point];
                    match (width.parse::<f64>(), height.parse::<f64>()) {
                        (Ok(w), Ok(h)) => Event::Scaled((x * w).round().to_string(), (y * h).round().to_string()),
                        (Err(e), _) | (_, Err(e)) => Event::Failed(e.to_string()),
                    }
                }
            };
            assert!(!session.is_finished());
            let (next, next_action) = session.step(event);
            session = next;
            action = next_action;
        }
    }
}

fn reply_text(reply: &ToolReply) -> String {
    match &reply.content[0] {
        Content::Text(text) => text.clone(),
        Content::Image { .. } => panic!("the reply starts with an image"),
    }
}

fn strings(items: &[&str]) -> Vec<String> {
    items.iter().map(|item| (*item).to_owned()).collect()
}

fn display_size(dimensions: &str) -> Result<(f64, f64), String> {
    let (width, height) = parse_display_size(dimensions).map_err(|e| e.message())?;
    Ok((
        width.parse::<f64>().map_err(|e| e.to_string())?,
        height.parse::<f64>().map_err(|e| e.to_string())?,
    ))
}

#[test]
fn rejects_screenshot_path_traversal() {
    assert!(validate_screenshot_name("../screenshot").is_err());
    assert!(validate_screenshot_name("nested/screenshot").is_err());
}

#[test]
fn rejects_invalid_screenshot_names() {
    assert!(validate_screenshot_name("").is_err());
    assert!(validate_screenshot_name(".").is_err());
    assert!(validate_screenshot_name("..").is_err());
    assert!(validate_screenshot_name("nested\\screenshot").is_err());
}

#[test]
fn accepts_safe_screenshot_names() {
    assert!(validate_screenshot_name("checkout-01").is_ok());
    assert!(validate_screenshot_name("screen_2.final").is_ok());
}

#[test]
fn creates_serve_sim_gesture_payload() {
    assert_eq!(
        gesture_payload("begin", &0.5f64.to_string(), &0.25f64.to_string()),
        r#"{"type":"begin","x":0.5,"y":0.25}"#
    );
}

#[test]
fn preserves_gesture_payload_precision_and_sign() {
    assert_eq!(
        gesture_payload("move", &(-0.125f64).to_string(), &1.0f64.to_string()),
        r#"{"type":"move","x":-0.125,"y":1}"#
    );
}

#[test]
fn parses_android_display_size() {
    assert_eq!(display_size("1080x2400").unwrap(), (1080.0, 2400.0));
}

#[test]
fn rejects_invalid_android_display_sizes() {
    assert!(display_size("1080").is_err());
    assert!(display_size("1080x").is_err());
    assert!(display_size("widthx2400").is_err());
}

#[test]
fn parses_decimal_android_display_size() {
    assert_eq!(display_size("1080.5x2400.25").unwrap(), (1080.5, 2400.25));
}

#[test]
fn escapes_android_text_for_adb_shell() {
    assert_eq!(escape_android_text("hello world!"), "hello%sworld\\!");
}

#[test]
fn escapes_all_android_shell_sensitive_characters() {
    assert_eq!(
        escape_android_text("\\&;|<>()[~*?!#$'\""),
        "\\\\\\&\\;\\|\\<\\>\\(\\)[\\~\\*\\?\\!\\#\\$\\'\\\""
    );
}

#[test]
fn preserves_android_text_without_sensitive_characters() {
    assert_eq!(escape_android_text("hello-world_42"), "hello-world_42");
    assert_eq!(escape_android_text(""), "");
}

#[test]
fn rejects_unknown_platforms() {
    assert!(parse_platform("windows").is_err());
    assert_eq!(parse_platform("ANDROID").unwrap(), Platform::Android);
}

#[test]
fn parses_platform_case_insensitively() {
    assert_eq!(parse_platform("IOS").unwrap(), Platform::Ios);
    assert_eq!(parse_platform("Android").unwrap(), Platform::Android);
}

#[test]
fn rejects_platform_with_whitespace() {
    assert!(parse_platform(" ios ").is_err());
}

#[test]
fn prefers_standard_output_when_command_succeeds() {
    assert_eq!(command_output("  success  ", "warning"), "success");
}

#[test]
fn uses_standard_error_when_standard_output_is_empty() {
    assert_eq!(command_output("  ", "  warning  "), "warning");
}

#[test]
fn returns_empty_command_output_when_both_streams_are_empty() {
    assert_eq!(command_output("  ", "\n"), "");
}

#[test]
fn creates_temporary_screenshot_path() {
    let path = std::path::PathBuf::from("tmp").join(screenshot_file_name("checkout"));
    assert_eq!(
        path.file_name().and_then(|name| name.to_str()),
        Some("device-simulator-mcp-checkout.png")
    );
}

#[test]
fn reports_android_device_status_from_runner_output() {
    let mut device = FakeDevice::with_outputs(vec![successful_output(
        "List of devices attached\nemulator-5554\tdevice",
    )]);

    let status = device.call(Tool::Status, Some("android"), no_settings(), &[]);

    assert!(!status.is_error);
    assert_eq!(reply_text(&status), "List of devices attached\nemulator-5554\tdevice");
    assert_eq!(device.calls, vec![("adb".to_owned(), vec!["devices".to_owned()])]);
}

#[test]
fn taps_android_device_using_normalized_pixels() {
    let mut device = FakeDevice::with_outputs(vec![
        successful_output("Physical size: 1080x2400"),
        successful_output("tap completed"),
    ]);

    let result = device.call(
        Tool::Tap { x: 0.5f64.to_string(), y: 0.25f64.to_string() },
        Some("android"),
        no_settings(),
        &[(0.5, 0.25)],
    );

    assert_eq!(reply_text(&result), "tap completed");
    assert_eq!(
        device.calls,
        vec![
            ("adb".to_owned(), strings(&["shell", "wm", "size"])),
            ("adb".to_owned(), strings(&["shell", "input", "tap", "540", "600"])),
        ]
    );
}

#[test]
fn swipes_ios_device_with_begin_move_and_end_events() {
    let mut device = FakeDevice::with_outputs(vec![
        successful_output("begin"),
        successful_output("move"),
        successful_output("end"),
    ]);

    let result = device.call(
        Tool::Swipe {
            x1: 0.1f64.to_string(),
            y1: 0.2f64.to_string(),
            x2: 0.8f64.to_string(),
            y2: 0.9f64.to_string(),
        },
        Some("ios"),
        no_settings(),
        &[],
    );

    assert_eq!(reply_text(&result), "Swipe completed");
    let calls = device.calls;
    assert_eq!(calls.len(), 3);
    assert_eq!(calls[0].0, "npx");
    assert!(calls[0].1[3].contains(r#""type":"begin""#));
    assert!(calls[1].1[3].contains(r#""type":"move""#));
    assert!(calls[2].1[3].contains(r#""type":"end""#));
}

#[test]
fn types_android_text_after_escaping_it() {
    let mut device = FakeDevice::with_outputs(vec![successful_output("")]);

    let reply = device.call(Tool::Type { text: "hello world!".to_owned() }, Some("android"), no_settings(), &[]);

    assert!(!reply.is_error);
    assert_eq!(device.calls[0].1, strings(&["shell", "input", "text", "hello%sworld\\!"]));
}

#[test]
fn captures_android_bytes_without_decoding_them() {
    let mut device = FakeDevice::with_outputs(vec![successful_bytes(&[0, 1, 2, 255])]);

    let reply = device.call(Tool::Capture { name: Some("screen".to_owned()) }, Some("android"), no_settings(), &[]);

    assert!(!reply.is_error);
    assert_eq!(reply_text(&reply), "Captured Android Emulator display");
    match &reply.content[1] {
        Content::Image { data, mime_type } => {
            assert_eq!(data, "AAEC/w==");
            assert_eq!(mime_type, "image/png");
        }
        Content::Text(_) => panic!("expected the image"),
    }
}

#[test]
fn returns_runner_error_for_failed_android_command() {
    let mut device = FakeDevice::with_outputs(vec![CommandOutput {
        success: false,
        status: "exit status: 1".to_owned(),
        stdout: Vec::new(),
        stderr: b"device unavailable".to_vec(),
    }]);

    let result = device.call(Tool::Status, Some("android"), no_settings(), &[]);

    assert!(result.is_error);
    assert_eq!(reply_text(&result), "adb failed with exit status: 1: device unavailable");
}

#[test]
fn delegates_android_tool_handlers_to_the_command_runner() {
    let mut device = FakeDevice::with_outputs(vec![
        successful_output("Android Emulator is ready"),
        successful_output("waited"),
        successful_output("List of devices attached"),
        successful_output("Physical size: 1080x2400"),
        successful_output("tap"),
        successful_output("Physical size: 1080x2400"),
        successful_output("Physical size: 1080x2400"),
        successful_output("swipe"),
        successful_output("type"),
        successful_bytes(b"png"),
    ]);
    let android = Some("android");

    let start_result = device.call(Tool::Start, android, no_settings(), &[]);
    let status_result = device.call(Tool::Status, android, no_settings(), &[]);
    let tap_result = device.call(
        Tool::Tap { x: "0.5".to_owned(), y: "0.25".to_owned() },
        android,
        no_settings(),
        &[(0.5, 0.25)],
    );
    let swipe_result = device.call(
        Tool::Swipe { x1: "0.1".to_owned(), y1: "0.2".to_owned(), x2: "0.8".to_owned(), y2: "0.9".to_owned() },
        android,
        no_settings(),
        &[(0.1, 0.2), (0.8, 0.9)],
    );
    let type_result = device.call(Tool::Type { text: "test".to_owned() }, android, no_settings(), &[]);
    let capture_result = device.call(Tool::Capture { name: Some("handler".to_owned()) }, android, no_settings(), &[]);
    let stop_result = device.call(Tool::Stop, android, no_settings(), &[]);

    assert!(!start_result.is_error);
    assert!(!status_result.is_error);
    assert!(!tap_result.is_error);
    assert!(!swipe_result.is_error);
    assert!(!type_result.is_error);
    assert!(!capture_result.is_error);
    assert!(!stop_result.is_error);
    assert_eq!(device.calls.len(), 10);
}

#[test]
fn rejects_empty_text_before_calling_external_commands() {
    let mut device = FakeDevice::with_outputs(Vec::new());

    let result = device.call(Tool::Type { text: String::new() }, Some("android"), no_settings(), &[]);

    assert!(result.is_error);
    assert_eq!(reply_text(&result), "text must not be empty");
    assert!(device.calls.is_empty());
}

fn udid_settings() -> Settings {
    Settings {
        ios_udid: Some("SIM-1".to_owned()),
        android_serial: None,
        preview_url: None,
    }
}

fn serial_settings() -> Settings {
    Settings {
        ios_udid: None,
        android_serial: Some("emulator-5556".to_owned()),
        preview_url: None,
    }
}

/// Reads escaped text back the way the device does: a backslash keeps the
/// next character and `%s` is a space.
fn unescape(text: &str) -> String {
    let chars: Vec<char> = text.chars().collect();
    let mut out = String::new();
    let mut i = 0;
    while i < chars.len() {
        if chars[i] == '\\' && i + 1 < chars.len() {
            out.push(chars[i + 1]);
            i += 2;
        } else if chars[i] == '%' && i + 1 < chars.len() && chars[i + 1] == 's' {
            out.push(' ');
            i += 2;
        } else {
            out.push(chars[i]);
            i += 1;
        }
    }
    out
}

#[test]
fn trim_removes_unicode_whitespace() {
    assert_eq!(trim("\u{3000}\t a b \u{a0}\n"), "a b");
    assert_eq!(trim("\u{2028}"), "");
    assert_eq!(trim("x\u{200b}"), "x\u{200b}");
}

#[test]
fn lowercases_only_ascii_letters() {
    assert_eq!(to_ascii_lowercase("\u{c4}bC-IOS"), "\u{c4}bc-ios");
}

#[test]
fn absent_platform_setting_means_ios() {
    assert_eq!(configured_platform(None).unwrap(), Platform::Ios);
    let error = configured_platform(Some("Windows")).unwrap_err();
    assert_eq!(error.message(), "unsupported DEVICE_PLATFORM 'windows'; use ios or android");
}

#[test]
fn serve_sim_arguments_place_the_simulator() {
    let udid = Some("SIM-1".to_owned());
    assert_eq!(
        serve_sim_arguments(&strings(&["tap", "0.5", "0.25"]), &udid),
        strings(&["--yes", "serve-sim", "tap", "--device", "SIM-1", "0.5", "0.25"])
    );
    assert_eq!(
        serve_sim_arguments(&strings(&["--kill"]), &udid),
        strings(&["--yes", "serve-sim", "--kill", "SIM-1"])
    );
    assert_eq!(
        serve_sim_arguments(&strings(&[]), &udid),
        strings(&["--yes", "serve-sim", "SIM-1"])
    );
    assert_eq!(
        serve_sim_arguments(&strings(&["--list"]), &None),
        strings(&["--yes", "serve-sim", "--list"])
    );
}

#[test]
fn adb_arguments_select_the_serial() {
    assert_eq!(
        adb_arguments(&Some("emulator-5556".to_owned()), &strings(&["devices"])),
        strings(&["-s", "emulator-5556", "devices"])
    );
    assert_eq!(adb_arguments(&None, &strings(&["devices"])), strings(&["devices"]));
}

#[test]
fn command_text_decodes_invalid_bytes_lossily() {
    let output = CommandOutput {
        success: true,
        status: "exit status: 0".to_owned(),
        stdout: vec![0xff, b'a', b' '],
        stderr: Vec::new(),
    };
    assert_eq!(command_text(&output), "\u{fffd}a");
}

#[test]
fn command_failure_names_program_status_and_output() {
    let output = CommandOutput {
        success: false,
        status: "exit status: 2".to_owned(),
        stdout: b"  \n".to_vec(),
        stderr: b" boom \n".to_vec(),
    };
    assert_eq!(command_failure("npx", &output).message(), "npx failed with exit status: 2: boom");
}

#[test]
fn display_dimensions_come_from_the_first_line_with_a_space() {
    assert_eq!(
        display_dimensions("Physical size: 1080x2400\nOverride size: 720x1280").as_deref(),
        Some("1080x2400")
    );
    assert_eq!(
        display_dimensions("no-space\n  Override size:  720x1280\r\n").as_deref(),
        Some("720x1280")
    );
    assert_eq!(display_dimensions("Physical size: 720x1280 \n").as_deref(), Some(""));
    assert_eq!(display_dimensions(""), None);
    assert_eq!(display_dimensions("abc\ndef\n"), None);
}

#[test]
fn preview_address_needs_http_host_and_port() {
    assert_eq!(preview_address("http://127.0.0.1:3100").as_deref(), Some("127.0.0.1:3100"));
    assert_eq!(preview_address("http://localhost:3100/path").as_deref(), Some("localhost:3100"));
    assert_eq!(preview_address("https://localhost:3100"), None);
    assert_eq!(preview_address("http://localhost/x:1"), None);
}

#[test]
fn escaped_text_reads_back_as_typed() {
    for text in ["say \"hi\" & go!", "a\\b (c) ~*?", "100% sure", ""] {
        let escaped = escape_android_text(text);
        assert!(!escaped.contains(' '));
        assert_eq!(unescape(&escaped), text);
    }
    assert_ne!(unescape(&escape_android_text("%s")), "%s");
}

#[test]
fn screenshot_file_name_has_no_separator() {
    let file_name = screenshot_file_name("shot");
    assert_eq!(file_name, "device-simulator-mcp-shot.png");
    assert!(!file_name.contains('/') && !file_name.contains('\\'));
}

#[test]
fn error_messages_match_their_kind() {
    assert_eq!(DeviceError::InvalidScreenshotName.message(), "name must be a non-empty file name without path separators");
    assert_eq!(DeviceError::UnknownDisplaySize.message(), "could not determine Android display size");
    assert_eq!(
        DeviceError::InvalidDisplaySize { dimensions: "1080".to_owned() }.message(),
        "invalid Android display size: 1080"
    );
    assert_eq!(DeviceError::EmulatorNotReady.message(), "Android Emulator did not become ready");
}

#[test]
fn ios_start_waits_for_the_preview_and_reports_its_url() {
    let mut device = FakeDevice::with_outputs(vec![successful_output("started")]);

    let reply = device.call(Tool::Start, None, no_settings(), &[]);

    assert!(!reply.is_error);
    assert_eq!(reply_text(&reply), "http://127.0.0.1:3100");
    assert_eq!(
        device.calls,
        vec![("npx".to_owned(), strings(&["--yes", "serve-sim", "--detach", "--quiet", "--fit"]))]
    );
}

#[test]
fn ios_start_rejects_a_preview_url_without_port() {
    let mut device = FakeDevice::with_outputs(vec![successful_output("started")]);
    let settings = Settings {
        ios_udid: None,
        android_serial: None,
        preview_url: Some("http://localhost/preview".to_owned()),
    };

    let reply = device.call(Tool::Start, Some("ios"), settings, &[]);

    assert!(reply.is_error);
    assert_eq!(reply_text(&reply), "preview URL must use http://host:port");
    assert_eq!(device.calls.len(), 1);
}

#[test]
fn ios_start_reports_an_unavailable_preview() {
    let mut device = FakeDevice::with_outputs(vec![successful_output("started")]);
    device.timeouts = true;

    let reply = device.call(Tool::Start, Some("ios"), no_settings(), &[]);

    assert!(reply.is_error);
    assert_eq!(reply_text(&reply), "preview did not become available at http://127.0.0.1:3100");
}

#[test]
fn android_start_reports_an_emulator_that_is_not_ready() {
    let mut device = FakeDevice::with_outputs(vec![successful_output("")]);
    device.timeouts = true;

    let reply = device.call(Tool::Start, Some("android"), serial_settings(), &[]);

    assert!(reply.is_error);
    assert_eq!(reply_text(&reply), "Android Emulator did not become ready");
    assert_eq!(
        device.calls,
        vec![
            ("adb".to_owned(), strings(&["start-server"])),
            ("adb".to_owned(), strings(&["-s", "emulator-5556", "wait-for-device"])),
        ]
    );
}

#[test]
fn android_serial_addresses_adb_commands() {
    let mut device = FakeDevice::with_outputs(vec![
        successful_output("Physical size: 1080x2400"),
        successful_output("Physical size: 1080x2400"),
        successful_output("swiped"),
    ]);

    let reply = device.call(
        Tool::Swipe { x1: "0.1".to_owned(), y1: "0.2".to_owned(), x2: "0.8".to_owned(), y2: "0.9".to_owned() },
        Some("Android"),
        serial_settings(),
        &[(0.1, 0.2), (0.8, 0.9)],
    );

    assert_eq!(reply_text(&reply), "swiped");
    assert_eq!(
        device.calls,
        vec![
            ("adb".to_owned(), strings(&["-s", "emulator-5556", "shell", "wm", "size"])),
            ("adb".to_owned(), strings(&["-s", "emulator-5556", "shell", "wm", "size"])),
            (
                "adb".to_owned(),
                strings(&["-s", "emulator-5556", "shell", "input", "swipe", "108", "480", "864", "2160", "300"])
            ),
        ]
    );
}

#[test]
fn ios_udid_addresses_serve_sim_and_xcrun() {
    let mut device = FakeDevice::with_outputs(vec![successful_output("tapped"), successful_output("")]);

    let tap = device.call(Tool::Tap { x: "0.5".to_owned(), y: "0.25".to_owned() }, Some("ios"), udid_settings(), &[]);
    let capture = device.call(Tool::Capture { name: None }, Some("ios"), udid_settings(), &[]);

    assert_eq!(reply_text(&tap), "tapped");
    assert!(!capture.is_error);
    assert_eq!(
        device.calls,
        vec![
            ("npx".to_owned(), strings(&["--yes", "serve-sim", "tap", "--device", "SIM-1", "0.5", "0.25"])),
            (
                "xcrun".to_owned(),
                strings(&["simctl", "io", "SIM-1", "screenshot", "/tmp/device-simulator-mcp-device.png"])
            ),
        ]
    );
}

#[test]
fn ios_capture_reads_the_file_when_stdout_is_empty() {
    let mut device = FakeDevice::with_outputs(vec![successful_output("")]);

    let reply = device.call(Tool::Capture { name: Some("shot".to_owned()) }, Some("ios"), no_settings(), &[]);

    assert_eq!(reply_text(&reply), "Captured iOS Simulator display");
    match &reply.content[1] {
        Content::Image { data, .. } => assert_eq!(data, "ZmlsZS1wbmc="),
        Content::Text(_) => panic!("expected the image"),
    }
    assert_eq!(device.removed, vec!["/tmp/device-simulator-mcp-shot.png".to_owned()]);
    assert_eq!(device.calls[0].1, strings(&["simctl", "io", "booted", "screenshot", "/tmp/device-simulator-mcp-shot.png"]));
}

#[test]
fn ios_capture_uses_stdout_when_present() {
    let mut device = FakeDevice::with_outputs(vec![successful_output("png")]);

    let reply = device.call(Tool::Capture { name: None }, Some("ios"), no_settings(), &[]);

    match &reply.content[1] {
        Content::Image { data, .. } => assert_eq!(data, "cG5n"),
        Content::Text(_) => panic!("expected the image"),
    }
    assert_eq!(device.removed.len(), 1);
}

#[test]
fn unsafe_name_is_refused_before_the_platform_is_read() {
    let mut device = FakeDevice::with_outputs(Vec::new());

    let reply = device.call(Tool::Capture { name: Some("../x".to_owned()) }, Some("windows"), no_settings(), &[]);

    assert!(reply.is_error);
    assert_eq!(reply_text(&reply), "name must be a non-empty file name without path separators");
    assert!(device.calls.is_empty());
}

#[test]
fn unsupported_platform_is_refused() {
    let mut device = FakeDevice::with_outputs(Vec::new());

    let reply = device.call(Tool::Status, Some("Windows"), no_settings(), &[]);

    assert!(reply.is_error);
    assert_eq!(reply_text(&reply), "unsupported DEVICE_PLATFORM 'windows'; use ios or android");
    assert!(device.calls.is_empty());
}

#[test]
fn android_stop_runs_nothing() {
    let mut device = FakeDevice::with_outputs(Vec::new());

    let reply = device.call(Tool::Stop, Some("android"), no_settings(), &[]);

    assert!(!reply.is_error);
    assert_eq!(reply_text(&reply), "Android emulator lifecycle is managed externally; no emulator was stopped.");
    assert!(device.calls.is_empty());
}

#[test]
fn ios_stop_kills_the_stream() {
    let mut device = FakeDevice::with_outputs(vec![successful_output(" stopped \n")]);

    let reply = device.call(Tool::Stop, None, udid_settings(), &[]);

    assert_eq!(reply_text(&reply), "stopped");
    assert_eq!(device.calls[0].1, strings(&["--yes", "serve-sim", "--kill", "SIM-1"]));
}

#[test]
fn unreadable_display_sizes_end_the_tap() {
    let tap = || Tool::Tap { x: "0.5".to_owned(), y: "0.5".to_owned() };
    let cases = [
        ("garbage", "could not determine Android display size"),
        ("Physical size: 1080", "invalid Android display size: 1080"),
        ("Physical size: widex2400", "invalid float literal"),
    ];
    for (output, message) in cases {
        let mut device = FakeDevice::with_outputs(vec![successful_output(output)]);
        let reply = device.call(tap(), Some("android"), no_settings(), &[(0.5, 0.5)]);
        assert!(reply.is_error);
        assert_eq!(reply_text(&reply), message);
        assert_eq!(device.calls.len(), 1);
    }
}

#[test]
fn runner_errors_end_the_call_with_their_message() {
    let mut device = FakeDevice::with_outputs(Vec::new());

    let reply = device.call(Tool::Status, Some("ios"), no_settings(), &[]);

    assert!(reply.is_error);
    assert_eq!(reply_text(&reply), "fake command output was not configured");
}

#[test]
fn failed_gesture_stops_an_ios_swipe() {
    let mut device = FakeDevice::with_outputs(vec![
        successful_output("begin"),
        CommandOutput {
            success: false,
            status: "exit status: 3".to_owned(),
            stdout: b"no stream".to_vec(),
            stderr: Vec::new(),
        },
    ]);

    let reply = device.call(
        Tool::Swipe { x1: "0.1".to_owned(), y1: "0.2".to_owned(), x2: "0.8".to_owned(), y2: "0.9".to_owned() },
        Some("ios"),
        no_settings(),
        &[],
    );

    assert!(reply.is_error);
    assert_eq!(reply_text(&reply), "npx failed with exit status: 3: no stream");
    assert_eq!(device.calls.len(), 2);
}

#[test]
fn unexpected_event_ends_the_call() {
    let (session, action) = Session::begin(Tool::Status, Some("ios"), no_settings());
    assert!(matches!(action, Action::Run { .. }));

    let (session, action) = session.step(Event::Ready);

    assert!(session.is_finished());
    match action {
        Action::Finish(reply) => {
            assert!(reply.is_error);
            assert_eq!(reply_text(&reply), "unexpected event for the current step of the tool call");
        }
        _ => panic!("expected the call to finish"),
    }
}

#[test]
fn failed_ios_serve_sim_runs_are_reported_as_npx() {
    let tools = || {
        vec![
            Tool::Stop,
            Tool::Status,
            Tool::Tap { x: "0.5".to_owned(), y: "0.25".to_owned() },
            Tool::Type { text: "hi".to_owned() },
        ]
    };
    for tool in tools() {
        let mut device = FakeDevice::with_outputs(vec![CommandOutput {
            success: false,
            status: "exit status: 1".to_owned(),
            stdout: Vec::new(),
            stderr: b" no simulator \n".to_vec(),
        }]);

        let reply = device.call(tool, Some("ios"), no_settings(), &[]);

        assert!(reply.is_error);
        assert_eq!(reply_text(&reply), "npx failed with exit status: 1: no simulator");
        assert_eq!(device.calls.len(), 1);
        assert_eq!(device.calls[0].0, "npx");
    }
}

#[test]
fn failed_android_type_run_is_reported_as_adb() {
    let mut device = FakeDevice::with_outputs(vec![CommandOutput {
        success: false,
        status: "exit status: 1".to_owned(),
        stdout: b"error: no devices".to_vec(),
        stderr: Vec::new(),
    }]);

    let reply = device.call(Tool::Type { text: "hi".to_owned() }, Some("android"), no_settings(), &[]);

    assert!(reply.is_error);
    assert_eq!(reply_text(&reply), "adb failed with exit status: 1: error: no devices");
}
