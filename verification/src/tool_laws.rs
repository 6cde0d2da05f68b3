//! What each device tool does, stated with the literal programs, arguments
//! and replies a call produces, for every input.
use vstd::prelude::*;

use crate::escape::{escaped_text_has_no_space, holds_percent_s, unescaped, unescaped_escaped};
use crate::command::{CommandOutput, utf8_lossy};
use crate::display::{last_position_of, lemma_last_position_of, lemma_position_of, position_of, preview_host};
use crate::protocol::{advance, opening};
use crate::reply::base64_standard;
use crate::session::EventModel;
use crate::text::{is_unicode_whitespace, trimmed};
use crate::reply::{ContentModel, ReplyModel};
use crate::screenshot::valid_screenshot_name;
use crate::session::{ActionModel, Gesture, PhaseModel, SettingsModel, ToolModel};
use crate::text::lowercased;

verus! {

proof fn lemma_android_is_not_ios()
    ensures
        "android"@ != "ios"@,
{
    reveal_strlit("android");
    reveal_strlit("ios");
    assert("android"@.len() != "ios"@.len());
}

/// A `DEVICE_PLATFORM` setting that selects iOS: absent, or `ios` in any case.
pub open spec fn selects_ios(setting: Option<Seq<char>>) -> bool {
    setting is None || lowercased(setting->0) == "ios"@
}

/// A `DEVICE_PLATFORM` setting that selects Android: `android` in any case.
pub open spec fn selects_android(setting: Option<Seq<char>>) -> bool {
    setting is Some && lowercased(setting->0) == "android"@
}

/// A name that is not empty, not `.` or `..`, and holds no `/` or `\`.
pub open spec fn is_plain_file_name(name: Seq<char>) -> bool {
    &&& name.len() > 0
    &&& name != "."@
    &&& name != ".."@
    &&& forall|i: int| 0 <= i < name.len() ==> name[i] != '/' && name[i] != '\\'
}

/// Running `program` with `arguments`, without a time limit.
pub open spec fn plain_run(program: Seq<char>, arguments: Seq<Seq<char>>) -> ActionModel {
    ActionModel::Run { program, arguments, limited: false }
}

/// Every plain file name is accepted as a screenshot name, and no other name is.
pub proof fn plain_names_are_exactly_the_accepted_ones(name: Seq<char>)
    ensures
        valid_screenshot_name(name) <==> is_plain_file_name(name),
        is_plain_file_name(name) ==> crate::protocol::refusal(ToolModel::Capture { name: Some(name) }) is None,
{
    if is_plain_file_name(name) {
        assert(!name.contains('/'));
        assert(!name.contains('\\'));
    }
    if valid_screenshot_name(name) {
        assert forall|i: int| 0 <= i < name.len() implies name[i] != '/' && name[i] != '\\' by {
            if name[i] == '/' {
                assert(name.contains('/'));
            }
            if name[i] == '\\' {
                assert(name.contains('\\'));
            }
        }
    }
}

/// iOS start launches the detached, quiet, fitted `serve-sim` stream.
pub proof fn ios_start_launches_serve_sim(setting: Option<Seq<char>>, settings: SettingsModel)
    requires
        selects_ios(setting),
        settings.ios_udid is None,
    ensures
        opening(ToolModel::Start, setting, settings) == (
            PhaseModel::Serving,
            plain_run("npx"@, seq!["--yes"@, "serve-sim"@, "--detach"@, "--quiet"@, "--fit"@]),
        ),
{
    assert(crate::command::serve_sim_args(seq!["--detach"@, "--quiet"@, "--fit"@], None) =~= seq!["--yes"@, "serve-sim"@, "--detach"@, "--quiet"@, "--fit"@]);

}

/// iOS stop kills the `serve-sim` stream and replies with what it reports.
pub proof fn ios_stop_kills_serve_sim(setting: Option<Seq<char>>, settings: SettingsModel)
    requires
        selects_ios(setting),
        settings.ios_udid is None,
    ensures
        opening(ToolModel::Stop, setting, settings) == (
            PhaseModel::Replying { program: "npx"@ },
            plain_run("npx"@, seq!["--yes"@, "serve-sim"@, "--kill"@]),
        ),
{
    assert(crate::command::serve_sim_args(seq!["--kill"@], None) =~= seq!["--yes"@, "serve-sim"@, "--kill"@]);

}

/// iOS status lists the simulators through `serve-sim --list`.
pub proof fn ios_status_lists_simulators(setting: Option<Seq<char>>, settings: SettingsModel)
    requires
        selects_ios(setting),
        settings.ios_udid is None,
    ensures
        opening(ToolModel::Status, setting, settings) == (
            PhaseModel::Replying { program: "npx"@ },
            plain_run("npx"@, seq!["--yes"@, "serve-sim"@, "--list"@]),
        ),
{
    assert(crate::command::serve_sim_args(seq!["--list"@], None) =~= seq!["--yes"@, "serve-sim"@, "--list"@]);

}

/// iOS capture first asks where `device-simulator-mcp-<name>.png` goes in
/// the temporary directory; `device` is the name when none is given.
pub proof fn ios_capture_locates_named_file(
    name: Option<Seq<char>>,
    setting: Option<Seq<char>>,
    settings: SettingsModel,
)
    requires
        selects_ios(setting),
        is_plain_file_name(match name {
            Some(n) => n,
            None => "device"@,
        }),
    ensures
        opening(ToolModel::Capture { name }, setting, settings) == (
            PhaseModel::Locating,
            ActionModel::LocateScreenshot {
                file_name: "device-simulator-mcp-"@ + (match name {
                    Some(n) => n,
                    None => "device"@,
                }) + ".png"@,
            },
        ),
{
    plain_names_are_exactly_the_accepted_ones(
        match name {
            Some(n) => n,
            None => "device"@,
        },
    );
}

/// iOS tap hands the coordinate text to `serve-sim tap` unchanged.
pub proof fn ios_tap_passes_coordinates(
    x: Seq<char>,
    y: Seq<char>,
    setting: Option<Seq<char>>,
    settings: SettingsModel,
)
    requires
        selects_ios(setting),
        settings.ios_udid is None,
    ensures
        opening(ToolModel::Tap { x, y }, setting, settings) == (
            PhaseModel::Replying { program: "npx"@ },
            plain_run("npx"@, seq!["--yes"@, "serve-sim"@, "tap"@, x, y]),
        ),
{
    assert(crate::command::serve_sim_args(seq!["tap"@, x, y], None) =~= seq!["--yes"@, "serve-sim"@, "tap"@, x, y]);

}

/// iOS typing hands the text to `serve-sim type` unchanged.
pub proof fn ios_type_passes_text_unchanged(
    text: Seq<char>,
    setting: Option<Seq<char>>,
    settings: SettingsModel,
)
    requires
        selects_ios(setting),
        settings.ios_udid is None,
        text.len() > 0,
    ensures
        opening(ToolModel::Type { text }, setting, settings) == (
            PhaseModel::Replying { program: "npx"@ },
            plain_run("npx"@, seq!["--yes"@, "serve-sim"@, "type"@, text]),
        ),
{
    assert(crate::command::serve_sim_args(seq!["type"@, text], None) =~= seq!["--yes"@, "serve-sim"@, "type"@, text]);

}

/// An iOS swipe starts with the `begin` gesture event at the start point.
pub proof fn ios_swipe_begins_at_start_point(
    x1: Seq<char>,
    y1: Seq<char>,
    x2: Seq<char>,
    y2: Seq<char>,
    setting: Option<Seq<char>>,
    settings: SettingsModel,
)
    requires
        selects_ios(setting),
        settings.ios_udid is None,
    ensures
        opening(ToolModel::Swipe { x1, y1, x2, y2 }, setting, settings).1 == plain_run(
            "npx"@,
            seq![
                "--yes"@,
                "serve-sim"@,
                "gesture"@,
                "{\"type\":\""@ + "begin"@ + "\",\"x\":"@ + x1 + ",\"y\":"@ + y1 + "}"@,
            ],
        ),
{
    assert(crate::command::serve_sim_args(seq!["gesture"@, crate::command::gesture_json("begin"@, x1, y1)], None) =~= seq!["--yes"@, "serve-sim"@, "gesture"@, crate::command::gesture_json("begin"@, x1, y1)]);

}

/// Android start starts the `adb` server, without addressing a device.
pub proof fn android_start_starts_adb_server(setting: Option<Seq<char>>, settings: SettingsModel)
    requires
        selects_android(setting),
    ensures
        opening(ToolModel::Start, setting, settings) == (
            PhaseModel::StartingServer,
            plain_run("adb"@, seq!["start-server"@]),
        ),
{
    lemma_android_is_not_ios();
}

/// Android status lists the devices `adb` sees.
pub proof fn android_status_lists_devices(setting: Option<Seq<char>>, settings: SettingsModel)
    requires
        selects_android(setting),
        settings.android_serial is None,
    ensures
        opening(ToolModel::Status, setting, settings) == (
            PhaseModel::Replying { program: "adb"@ },
            plain_run("adb"@, seq!["devices"@]),
        ),
{
    lemma_android_is_not_ios();
}

/// Android capture asks `screencap` for a PNG (`-p`) on standard output.
pub proof fn android_capture_asks_for_png(
    name: Option<Seq<char>>,
    setting: Option<Seq<char>>,
    settings: SettingsModel,
)
    requires
        selects_android(setting),
        settings.android_serial is None,
        is_plain_file_name(match name {
            Some(n) => n,
            None => "device"@,
        }),
    ensures
        opening(ToolModel::Capture { name }, setting, settings) == (
            PhaseModel::Grabbing,
            plain_run("adb"@, seq!["exec-out"@, "screencap"@, "-p"@]),
        ),
{
    lemma_android_is_not_ios();
    plain_names_are_exactly_the_accepted_ones(
        match name {
            Some(n) => n,
            None => "device"@,
        },
    );
}

/// An Android tap or swipe first asks `adb` for the display size.
pub proof fn android_gestures_measure_the_display(
    x: Seq<char>,
    y: Seq<char>,
    x2: Seq<char>,
    y2: Seq<char>,
    setting: Option<Seq<char>>,
    settings: SettingsModel,
)
    requires
        selects_android(setting),
        settings.android_serial is None,
    ensures
        opening(ToolModel::Tap { x, y }, setting, settings) == (
            PhaseModel::Measuring { gesture: Gesture::Tap, pixels: Seq::empty() },
            plain_run("adb"@, seq!["shell"@, "wm"@, "size"@]),
        ),
        opening(ToolModel::Swipe { x1: x, y1: y, x2, y2 }, setting, settings) == (
            PhaseModel::Measuring { gesture: Gesture::Swipe, pixels: Seq::empty() },
            plain_run("adb"@, seq!["shell"@, "wm"@, "size"@]),
        ),
{
    lemma_android_is_not_ios();
}

/// Android typing hands `adb shell input text` one argument that holds no
/// space and that the device reads back as the typed text (unless the text
/// itself holds `%s`).
pub proof fn android_type_sends_text_readably(
    text: Seq<char>,
    setting: Option<Seq<char>>,
    settings: SettingsModel,
)
    requires
        selects_android(setting),
        settings.android_serial is None,
        text.len() > 0,
    ensures
        opening(ToolModel::Type { text }, setting, settings).0 == (PhaseModel::Replying {
            program: "adb"@,
        }),
        opening(ToolModel::Type { text }, setting, settings).1 matches ActionModel::Run {
            program,
            arguments,
            limited,
        } && program == "adb"@ && !limited && arguments.len() == 4 && arguments.take(3) == seq![
            "shell"@,
            "input"@,
            "text"@,
        ] && !arguments[3].contains(' ') && (!holds_percent_s(text) ==> unescaped(arguments[3])
            == text),
{
    lemma_android_is_not_ios();
    let sent = crate::escape::escaped(text);
    escaped_text_has_no_space(text);
    if !holds_percent_s(text) {
        unescaped_escaped(text);
    }
    assert(seq!["shell"@, "input"@, "text"@, sent].take(3) =~= seq!["shell"@, "input"@, "text"@]);
}

/// The preview URL an iOS start waits on: `SERVE_SIM_URL`, or
/// `http://127.0.0.1:3100` when it is not set.
pub open spec fn configured_preview_url(settings: SettingsModel) -> Seq<char> {
    match settings.preview_url {
        Some(url) => url,
        None => "http://127.0.0.1:3100"@,
    }
}

/// A reply that shows one message.
pub open spec fn message_reply(is_error: bool, message: Seq<char>) -> ActionModel {
    ActionModel::Finish(ReplyModel { is_error, content: seq![ContentModel::Text(message)] })
}

/// `position_of` is the index of the first `c`: the only index with `c`
/// there and none before.
proof fn lemma_first_position(s: Seq<char>, c: char, k: int)
    requires
        0 <= k <= s.len(),
        k < s.len() ==> s[k] == c,
        forall|j: int| 0 <= j < k ==> s[j] != c,
    ensures
        position_of(s, c) == k,
{
    lemma_position_of(s, c);
    let p = position_of(s, c);
    if p < k {
        assert(s[p] != c);
    }
    if k < p {
        assert(s[k] != c);
    }
}

/// `last_position_of` is the index of the last `c`.
proof fn lemma_final_position(s: Seq<char>, c: char, k: int)
    requires
        -1 <= k < s.len(),
        k >= 0 ==> s[k] == c,
        forall|j: int| k < j < s.len() ==> s[j] != c,
    ensures
        last_position_of(s, c) == k,
{
    lemma_last_position_of(s, c);
    let p = last_position_of(s, c);
    if p > k {
        assert(s[p] != c);
    }
    if k > p {
        assert(s[k] != c);
    }
}

/// The address of an `http://host:port` URL, with or without a path, is its
/// `host:port` part.
pub proof fn preview_address_is_host_and_port(host: Seq<char>, path: Seq<char>)
    requires
        host.contains(':'),
        !host.contains('/'),
        path.len() == 0 || path[0] == '/',
    ensures
        preview_host("http://"@ + host + path) == Some(host),
{
    reveal_strlit("http://");
    let url = "http://"@ + host + path;
    assert(url.take(7) =~= "http://"@);
    let rest = url.skip(7);
    assert(rest =~= host + path);
    assert forall|j: int| 0 <= j < host.len() implies rest[j] != '/' by {
        assert(rest[j] == host[j]);
        if host[j] == '/' {
            assert(host.contains('/'));
        }
    }
    lemma_first_position(rest, '/', host.len() as int);
    assert(rest.take(host.len() as int) =~= host);
}

/// Once the iOS `serve-sim` launch succeeds, the start waits for the
/// configured preview URL and replies with that URL, or reports that it
/// never became available.
pub proof fn ios_start_reports_configured_preview(
    settings: SettingsModel,
    output: CommandOutput,
    host: Seq<char>,
    path: Seq<char>,
)
    requires
        output.success,
        configured_preview_url(settings) == "http://"@ + host + path,
        host.contains(':'),
        !host.contains('/'),
        path.len() == 0 || path[0] == '/',
    ensures
        ({
            let url = configured_preview_url(settings);
            let (waiting, wait) = advance(settings, PhaseModel::Serving, EventModel::Completed(output));
            &&& wait == ActionModel::AwaitPreview { address: host }
            &&& advance(settings, waiting, EventModel::Ready) == (
                PhaseModel::Finished,
                message_reply(false, url),
            )
            &&& advance(settings, waiting, EventModel::TimedOut) == (
                PhaseModel::Finished,
                message_reply(true, "preview did not become available at "@ + url),
            )
        }),
{
    preview_address_is_host_and_port(host, path);
}

/// Whenever the configured preview URL names an address to wait on, a
/// successful iOS start that finds the preview ready replies with exactly
/// that URL.
pub proof fn ios_start_replies_with_the_url_it_waited_on(settings: SettingsModel, output: CommandOutput)
    requires
        output.success,
        preview_host(configured_preview_url(settings)) is Some,
    ensures
        ({
            let url = configured_preview_url(settings);
            let (waiting, wait) = advance(settings, PhaseModel::Serving, EventModel::Completed(output));
            &&& wait == ActionModel::AwaitPreview { address: preview_host(url)->0 }
            &&& advance(settings, waiting, EventModel::Ready) == (
                PhaseModel::Finished,
                message_reply(false, url),
            )
        }),
{
    reveal_strlit("http://");
    let url = configured_preview_url(settings);
    let rest = url.skip(7);
    let p = position_of(rest, '/');
    lemma_position_of(rest, '/');
    let host = rest.take(p);
    let path = rest.skip(p);
    assert(url =~= "http://"@ + host + path) by {
        assert(url =~= url.take(7) + rest);
        assert(rest =~= host + path);
    }
    assert(!host.contains('/')) by {
        if host.contains('/') {
            let j = choose|j: int| 0 <= j < host.len() && host[j] == '/';
            assert(rest[j] == '/');
        }
    }
    ios_start_reports_configured_preview(settings, output, host, path);
}

/// Without `SERVE_SIM_URL`, the iOS start waits on `127.0.0.1:3100` and
/// replies with `http://127.0.0.1:3100`.
pub proof fn ios_start_defaults_to_local_preview(settings: SettingsModel, output: CommandOutput)
    requires
        output.success,
        settings.preview_url is None,
    ensures
        ({
            let (waiting, wait) = advance(settings, PhaseModel::Serving, EventModel::Completed(output));
            &&& wait == ActionModel::AwaitPreview { address: "127.0.0.1:3100"@ }
            &&& advance(settings, waiting, EventModel::Ready) == (
                PhaseModel::Finished,
                message_reply(false, "http://127.0.0.1:3100"@),
            )
        }),
{
    reveal_strlit("http://127.0.0.1:3100");
    reveal_strlit("http://");
    reveal_strlit("127.0.0.1:3100");
    assert("http://127.0.0.1:3100"@ =~= "http://"@ + "127.0.0.1:3100"@ + Seq::<char>::empty());
    assert("127.0.0.1:3100"@[9] == ':');
    assert("127.0.0.1:3100"@.contains(':'));
    ios_start_reports_configured_preview(settings, output, "127.0.0.1:3100"@, Seq::empty());
}

/// Once `adb start-server` succeeds, the Android start waits, within the
/// time limit, for the device, and then reports the emulator ready or not.
pub proof fn android_start_waits_for_device(settings: SettingsModel, output: CommandOutput, waited: CommandOutput)
    requires
        output.success,
        waited.success,
        settings.android_serial is None,
    ensures
        advance(settings, PhaseModel::StartingServer, EventModel::Completed(output)) == (
            PhaseModel::AwaitingDevice,
            ActionModel::Run { program: "adb"@, arguments: seq!["wait-for-device"@], limited: true },
        ),
        advance(settings, PhaseModel::AwaitingDevice, EventModel::Completed(waited)) == (
            PhaseModel::Finished,
            message_reply(false, "Android Emulator is ready"@),
        ),
        advance(settings, PhaseModel::AwaitingDevice, EventModel::TimedOut) == (
            PhaseModel::Finished,
            message_reply(true, "Android Emulator did not become ready"@),
        ),
{
}

/// A successful run whose text is the reply replies with its standard
/// output without surrounding whitespace, or, when that is empty, with its
/// trimmed standard error.
pub proof fn reply_is_trimmed_stdout_else_stderr(
    settings: SettingsModel,
    program: Seq<char>,
    output: CommandOutput,
)
    requires
        output.success,
    ensures
        advance(settings, PhaseModel::Replying { program }, EventModel::Completed(output)) == (
            PhaseModel::Finished,
            message_reply(
                false,
                if trimmed(utf8_lossy(output.stdout@)).len() > 0 {
                    trimmed(utf8_lossy(output.stdout@))
                } else {
                    trimmed(utf8_lossy(output.stderr@))
                },
            ),
        ),
{
}

/// An image reply: the description, then the Base64 of exactly `bytes` as PNG.
pub open spec fn png_reply(description: Seq<char>, bytes: Seq<u8>) -> ActionModel {
    ActionModel::Finish(
        ReplyModel {
            is_error: false,
            content: seq![
                ContentModel::Text(description),
                ContentModel::Image { data: base64_standard(bytes), mime_type: "image/png"@ },
            ],
        },
    )
}

/// iOS capture: `xcrun simctl io booted screenshot <path>` writes the file;
/// the capture is its standard output when there is any, otherwise the
/// file's contents; the file is removed and the capture returned as PNG.
pub proof fn ios_capture_returns_the_screenshot(
    settings: SettingsModel,
    path: Seq<char>,
    written: CommandOutput,
    printed: CommandOutput,
    contents: Seq<u8>,
)
    requires
        settings.ios_udid is None,
        written.success,
        written.stdout@.len() == 0,
        printed.success,
        printed.stdout@.len() > 0,
    ensures
        advance(settings, PhaseModel::Locating, EventModel::Located(path)) == (
            PhaseModel::Capturing { path },
            plain_run("xcrun"@, seq!["simctl"@, "io"@, "booted"@, "screenshot"@, path]),
        ),
        advance(settings, PhaseModel::Capturing { path }, EventModel::Completed(written)) == (
            PhaseModel::Reading { path },
            ActionModel::ReadFile { path },
        ),
        advance(settings, PhaseModel::Reading { path }, EventModel::Loaded(contents)) == (
            PhaseModel::Cleaning { image: contents },
            ActionModel::RemoveFile { path },
        ),
        advance(settings, PhaseModel::Capturing { path }, EventModel::Completed(printed)) == (
            PhaseModel::Cleaning { image: printed.stdout@ },
            ActionModel::RemoveFile { path },
        ),
        advance(settings, PhaseModel::Cleaning { image: contents }, EventModel::Removed) == (
            PhaseModel::Finished,
            png_reply("Captured iOS Simulator display"@, contents),
        ),
{
}

/// Android capture returns exactly the bytes `screencap` wrote, as PNG.
pub proof fn android_capture_returns_screencap_bytes(settings: SettingsModel, output: CommandOutput)
    requires
        output.success,
    ensures
        advance(settings, PhaseModel::Grabbing, EventModel::Completed(output)) == (
            PhaseModel::Finished,
            png_reply("Captured Android Emulator display"@, output.stdout@),
        ),
{
}

/// The display size on a line `<label> <size>` is `size`.
proof fn lemma_size_on_line(label: Seq<char>, size: Seq<char>)
    requires
        !label.contains('\n'),
        !size.contains('\n'),
        !size.contains(' '),
        size.len() > 0,
        !is_unicode_whitespace(size[0]),
        !is_unicode_whitespace(size.last()),
    ensures
        crate::display::display_size_in(label + " "@ + size) == Some(size),
{
    reveal_strlit(" ");
    let text = label + " "@ + size;
    assert(text.len() == label.len() + 1 + size.len());
    assert forall|j: int| 0 <= j < text.len() implies text[j] != '\n' by {
        if j < label.len() {
            assert(text[j] == label[j]);
            if label[j] == '\n' {
                assert(label.contains('\n'));
            }
        } else if j > label.len() {
            assert(text[j] == size[j - label.len() - 1]);
            if size[j - label.len() - 1] == '\n' {
                assert(size.contains('\n'));
            }
        }
    }
    lemma_first_position(text, '\n', text.len() as int);
    assert(text.take(text.len() as int) =~= text);
    assert forall|j: int| label.len() < j < text.len() implies text[j] != ' ' by {
        assert(text[j] == size[j - label.len() - 1]);
        if size[j - label.len() - 1] == ' ' {
            assert(size.contains(' '));
        }
    }
    lemma_final_position(text, ' ', label.len() as int);
    assert(text.skip(label.len() as int + 1) =~= size);
}

/// A size `<width>x<height>` splits into its width and height text.
proof fn lemma_size_splits(width: Seq<char>, height: Seq<char>)
    requires
        !width.contains('x'),
    ensures
        crate::display::size_parts(width + "x"@ + height) == Some((width, height)),
{
    reveal_strlit("x");
    let size = width + "x"@ + height;
    assert forall|j: int| 0 <= j < width.len() implies size[j] != 'x' by {
        assert(size[j] == width[j]);
        if width[j] == 'x' {
            assert(width.contains('x'));
        }
    }
    assert(size[width.len() as int] == 'x');
    lemma_first_position(size, 'x', width.len() as int);
    assert(size.take(width.len() as int) =~= width);
    assert(size.skip(width.len() as int + 1) =~= height);
}

/// Once the display size is known, an Android gesture asks for the pixels
/// of its next point on a display of that width and height.
pub proof fn android_gesture_scales_to_reported_size(
    settings: SettingsModel,
    gesture: Gesture,
    pixels: Seq<Seq<char>>,
    output: CommandOutput,
    label: Seq<char>,
    width: Seq<char>,
    height: Seq<char>,
)
    requires
        output.success,
        crate::command::output_text(output) == label + " "@ + (width + "x"@ + height),
        !label.contains('\n'),
        !width.contains('\n') && !width.contains(' ') && !width.contains('x'),
        !height.contains('\n') && !height.contains(' '),
        width.len() > 0 && !is_unicode_whitespace(width[0]),
        height.len() > 0 && !is_unicode_whitespace(height.last()),
    ensures
        advance(settings, PhaseModel::Measuring { gesture, pixels }, EventModel::Completed(output)) == (
            PhaseModel::Scaling { gesture, pixels },
            ActionModel::Scale { point: pixels.len() / 2, width, height },
        ),
{
    reveal_strlit("x");
    let size = width + "x"@ + height;
    assert(size.len() == width.len() + 1 + height.len());
    assert forall|j: int| 0 <= j < size.len() implies size[j] != '\n' && size[j] != ' ' by {
        if j < width.len() {
            assert(size[j] == width[j]);
            if width[j] == '\n' {
                assert(width.contains('\n'));
            }
            if width[j] == ' ' {
                assert(width.contains(' '));
            }
        } else if j > width.len() {
            assert(size[j] == height[j - width.len() - 1]);
            if height[j - width.len() - 1] == '\n' {
                assert(height.contains('\n'));
            }
            if height[j - width.len() - 1] == ' ' {
                assert(height.contains(' '));
            }
        }
    }
    assert(size[0] == width[0]);
    assert(size.last() == height.last());
    lemma_size_on_line(label, size);
    lemma_size_splits(width, height);
}

/// With the pixels of its points known, an Android tap taps there and an
/// Android swipe measures again for its end point, then swipes from the
/// start to the end point over 300 ms.
pub proof fn android_gestures_use_the_scaled_pixels(
    settings: SettingsModel,
    x: Seq<char>,
    y: Seq<char>,
    start_x: Seq<char>,
    start_y: Seq<char>,
)
    requires
        settings.android_serial is None,
    ensures
        advance(settings, PhaseModel::Scaling { gesture: Gesture::Tap, pixels: Seq::empty() }, EventModel::Scaled(x, y)) == (
            PhaseModel::Replying { program: "adb"@ },
            plain_run("adb"@, seq!["shell"@, "input"@, "tap"@, x, y]),
        ),
        advance(settings, PhaseModel::Scaling { gesture: Gesture::Swipe, pixels: Seq::empty() }, EventModel::Scaled(x, y)) == (
            PhaseModel::Measuring { gesture: Gesture::Swipe, pixels: seq![x, y] },
            plain_run("adb"@, seq!["shell"@, "wm"@, "size"@]),
        ),
        advance(settings, PhaseModel::Scaling { gesture: Gesture::Swipe, pixels: seq![start_x, start_y] }, EventModel::Scaled(x, y)) == (
            PhaseModel::Replying { program: "adb"@ },
            plain_run("adb"@, seq!["shell"@, "input"@, "swipe"@, start_x, start_y, x, y, "300"@]),
        ),
{
    assert(Seq::<Seq<char>>::empty().push(x).push(y) =~= seq![x, y]);
    assert(seq![start_x, start_y].push(x).push(y) =~= seq![start_x, start_y, x, y]);
}

/// The `serve-sim gesture` event of type `kind` at `(x, y)`.
pub open spec fn gesture_event(kind: Seq<char>, x: Seq<char>, y: Seq<char>) -> Seq<char> {
    "{\"type\":\""@ + kind + "\",\"x\":"@ + x + ",\"y\":"@ + y + "}"@
}

/// An iOS swipe sends `begin` at the start point, then `move` and `end` at
/// the end point, each through its own `serve-sim gesture` run, and replies
/// that the swipe completed.
pub proof fn ios_swipe_runs_begin_move_end(
    settings: SettingsModel,
    setting: Option<Seq<char>>,
    x1: Seq<char>,
    y1: Seq<char>,
    x2: Seq<char>,
    y2: Seq<char>,
    first: CommandOutput,
    second: CommandOutput,
    third: CommandOutput,
)
    requires
        selects_ios(setting),
        settings.ios_udid is None,
        first.success,
        second.success,
        third.success,
    ensures
        ({
            let gesture = |event: Seq<char>| plain_run("npx"@, seq!["--yes"@, "serve-sim"@, "gesture"@, event]);
            let (p0, a0) = opening(ToolModel::Swipe { x1, y1, x2, y2 }, setting, settings);
            let (p1, a1) = advance(settings, p0, EventModel::Completed(first));
            let (p2, a2) = advance(settings, p1, EventModel::Completed(second));
            let (p3, a3) = advance(settings, p2, EventModel::Completed(third));
            &&& a0 == gesture(gesture_event("begin"@, x1, y1))
            &&& a1 == gesture(gesture_event("move"@, x2, y2))
            &&& a2 == gesture(gesture_event("end"@, x2, y2))
            &&& p3 is Finished
            &&& a3 == message_reply(false, "Swipe completed"@)
        }),
{
    let payloads = crate::protocol::swipe_payloads(x1, y1, x2, y2);
    assert(crate::command::serve_sim_args(seq!["gesture"@, payloads[0]], None) =~= seq!["--yes"@, "serve-sim"@, "gesture"@, payloads[0]]);
    assert(crate::command::serve_sim_args(seq!["gesture"@, payloads[1]], None) =~= seq!["--yes"@, "serve-sim"@, "gesture"@, payloads[1]]);
    assert(crate::command::serve_sim_args(seq!["gesture"@, payloads[2]], None) =~= seq!["--yes"@, "serve-sim"@, "gesture"@, payloads[2]]);
}

/// The settings with `ANDROID_SERIAL` set to `serial`.
pub open spec fn with_serial(settings: SettingsModel, serial: Seq<char>) -> SettingsModel {
    SettingsModel {
        ios_udid: settings.ios_udid,
        android_serial: Some(serial),
        preview_url: settings.preview_url,
    }
}

/// How setting `ANDROID_SERIAL` changes an action: `adb` commands other
/// than `start-server` gain `-s <serial>` in front; nothing else changes.
pub open spec fn serial_added(plain: ActionModel, chosen: ActionModel, serial: Seq<char>) -> bool {
    match plain {
        ActionModel::Run { program, arguments, limited } => if program == "adb"@ && arguments
            != seq!["start-server"@] {
            chosen == ActionModel::Run { program, arguments: seq!["-s"@, serial] + arguments, limited }
        } else {
            chosen == plain
        },
        _ => chosen == plain,
    }
}

/// Setting `ANDROID_SERIAL` only puts `-s <serial>` in front of the `adb`
/// commands that address a device; every step is otherwise the same.
pub proof fn serial_only_selects_the_device(
    tool: ToolModel,
    setting: Option<Seq<char>>,
    settings: SettingsModel,
    serial: Seq<char>,
    phase: PhaseModel,
    event: EventModel,
)
    requires
        settings.android_serial is None,
    ensures
        opening(tool, setting, with_serial(settings, serial)).0 == opening(tool, setting, settings).0,
        serial_added(
            opening(tool, setting, settings).1,
            opening(tool, setting, with_serial(settings, serial)).1,
            serial,
        ),
        advance(with_serial(settings, serial), phase, event).0 == advance(settings, phase, event).0,
        serial_added(
            advance(settings, phase, event).1,
            advance(with_serial(settings, serial), phase, event).1,
            serial,
        ),
{
    reveal_strlit("adb");
    reveal_strlit("npx");
    reveal_strlit("xcrun");
    assert("npx"@ != "adb"@) by {
        assert("npx"@[0] != "adb"@[0]);
    }
    assert("xcrun"@ != "adb"@) by {
        assert("xcrun"@.len() != "adb"@.len());
    }
    reveal_strlit("start-server");
    reveal_strlit("devices");
    reveal_strlit("wait-for-device");
    assert(seq!["devices"@] != seq!["start-server"@]) by {
        assert(seq!["devices"@][0].len() != seq!["start-server"@][0].len());
    }
    assert(seq!["wait-for-device"@] != seq!["start-server"@]) by {
        assert(seq!["wait-for-device"@][0].len() != seq!["start-server"@][0].len());
    }
}

/// The settings with `IOS_SIMULATOR_UDID` set to `udid`.
pub open spec fn with_udid(settings: SettingsModel, udid: Seq<char>) -> SettingsModel {
    SettingsModel {
        ios_udid: Some(udid),
        android_serial: settings.android_serial,
        preview_url: settings.preview_url,
    }
}

/// The `npx serve-sim` arguments `arguments` once a simulator is chosen:
/// `--device <udid>` right after a leading subcommand, or the udid last.
pub open spec fn udid_placed(arguments: Seq<Seq<char>>, udid: Seq<char>) -> Seq<Seq<char>> {
    if arguments.len() > 2 && !(arguments[2].len() > 0 && arguments[2][0] == '-') {
        arguments.take(3) + seq!["--device"@, udid] + arguments.skip(3)
    } else {
        arguments.push(udid)
    }
}

/// How setting `IOS_SIMULATOR_UDID` changes an action: `serve-sim` runs
/// name the simulator, `xcrun simctl` targets it instead of `booted`, and
/// nothing else changes.
pub open spec fn udid_added(plain: ActionModel, chosen: ActionModel, udid: Seq<char>) -> bool {
    match plain {
        ActionModel::Run { program, arguments, limited } => if program == "npx"@ {
            chosen == ActionModel::Run { program, arguments: udid_placed(arguments, udid), limited }
        } else if program == "xcrun"@ {
            arguments.len() >= 3 && arguments[2] == "booted"@ && chosen == ActionModel::Run {
                program,
                arguments: arguments.update(2, udid),
                limited,
            }
        } else {
            chosen == plain
        },
        _ => chosen == plain,
    }
}

proof fn lemma_udid_placed(arguments: Seq<Seq<char>>, udid: Seq<char>)
    ensures
        crate::command::serve_sim_args(arguments, Some(udid)) == udid_placed(
            crate::command::serve_sim_args(arguments, None),
            udid,
        ),
{
    let plain = crate::command::serve_sim_args(arguments, None);
    assert(plain =~= seq!["--yes"@, "serve-sim"@] + arguments);
    if arguments.len() > 0 {
        assert(plain[2] == arguments[0]);
    }
    if arguments.len() > 0 && !crate::command::is_option(arguments[0]) {
        assert(plain.take(3) + seq!["--device"@, udid] + plain.skip(3) =~= seq![
            "--yes"@,
            "serve-sim"@,
        ] + (seq![arguments[0], "--device"@, udid] + arguments.skip(1)));
    } else {
        assert(plain.push(udid) =~= seq!["--yes"@, "serve-sim"@] + arguments.push(udid));
    }
}

/// Setting `IOS_SIMULATOR_UDID` only makes `serve-sim` and `xcrun simctl`
/// address that simulator; every step is otherwise the same.
pub proof fn udid_only_selects_the_simulator(
    tool: ToolModel,
    setting: Option<Seq<char>>,
    settings: SettingsModel,
    udid: Seq<char>,
    phase: PhaseModel,
    event: EventModel,
)
    requires
        settings.ios_udid is None,
    ensures
        opening(tool, setting, with_udid(settings, udid)).0 == opening(tool, setting, settings).0,
        udid_added(
            opening(tool, setting, settings).1,
            opening(tool, setting, with_udid(settings, udid)).1,
            udid,
        ),
        advance(with_udid(settings, udid), phase, event).0 == advance(settings, phase, event).0,
        udid_added(
            advance(settings, phase, event).1,
            advance(with_udid(settings, udid), phase, event).1,
            udid,
        ),
{
    reveal_strlit("adb");
    reveal_strlit("npx");
    reveal_strlit("xcrun");
    assert("npx"@ != "adb"@) by {
        assert("npx"@[0] != "adb"@[0]);
    }
    assert("xcrun"@ != "adb"@) by {
        assert("xcrun"@.len() != "adb"@.len());
    }
    assert("xcrun"@ != "npx"@) by {
        assert("xcrun"@.len() != "npx"@.len());
    }
    match tool {
        ToolModel::Start => lemma_udid_placed(seq!["--detach"@, "--quiet"@, "--fit"@], udid),
        ToolModel::Stop => lemma_udid_placed(seq!["--kill"@], udid),
        ToolModel::Status => lemma_udid_placed(seq!["--list"@], udid),
        ToolModel::Tap { x, y } => lemma_udid_placed(seq!["tap"@, x, y], udid),
        ToolModel::Swipe { x1, y1, .. } => lemma_udid_placed(
            seq!["gesture"@, crate::command::gesture_json("begin"@, x1, y1)],
            udid,
        ),
        ToolModel::Type { text } => lemma_udid_placed(seq!["type"@, text], udid),
        _ => {},
    }
    if let PhaseModel::Gesturing { payloads, next } = phase {
        if next < payloads.len() {
            lemma_udid_placed(seq!["gesture"@, payloads[next as int]], udid);
        }
    }
    if let EventModel::Located(path) = event {
        let plain = seq!["simctl"@, "io"@, "booted"@, "screenshot"@, path];
        assert(plain.update(2, udid) =~= seq!["simctl"@, "io"@, udid, "screenshot"@, path]);
    }
}

/// The escaped form of a text is the escaped forms of its pieces, joined.
pub proof fn escaping_works_piece_by_piece(first: Seq<char>, second: Seq<char>)
    ensures
        crate::escape::escaped(first + second) == crate::escape::escaped(first)
            + crate::escape::escaped(second),
    decreases first.len(),
{
    if first.len() > 0 {
        escaping_works_piece_by_piece(first.drop_first(), second);
        assert((first + second).drop_first() =~= first.drop_first() + second);
        assert((first + second)[0] == first[0]);
    } else {
        assert(first + second =~= second);
    }
}

/// What each character becomes for `adb shell input text`: a space becomes
/// `%s`; each of `\ & ; | < > ( ) ~ * ? ! # $ ' "` is sent after a
/// backslash; every other character is sent as it is.
pub proof fn escaping_of_each_character(c: char)
    ensures
        c == ' ' ==> crate::escape::escaped(seq![c]) == seq!['%', 's'],
        (c == '\\' || c == '&' || c == ';' || c == '|' || c == '<' || c == '>' || c == '('
            || c == ')' || c == '~' || c == '*' || c == '?' || c == '!' || c == '#' || c == '$'
            || c == '\'' || c == '"') ==> crate::escape::escaped(seq![c]) == seq!['\\', c],
        !(c == ' ' || c == '\\' || c == '&' || c == ';' || c == '|' || c == '<' || c == '>' || c
            == '(' || c == ')' || c == '~' || c == '*' || c == '?' || c == '!' || c == '#' || c
            == '$' || c == '\'' || c == '"') ==> crate::escape::escaped(seq![c]) == seq![c],
{
    assert(seq![c].drop_first() =~= Seq::<char>::empty());
    let e = crate::escape::escaped(seq![c]);
    assert(e == crate::escape::escaped_char(c) + crate::escape::escaped(Seq::<char>::empty()));
    assert(e =~= crate::escape::escaped_char(c));
}

/// A setting selects iOS exactly when it spells `ios` in any letter case,
/// and Android exactly when it spells `android` in any letter case.
pub proof fn platform_names_in_any_case(name: Seq<char>)
    ensures
        crate::platform::platform_named(name) == Some(crate::platform::Platform::Ios) <==> (
        name.len() == 3 && (name[0] == 'i' || name[0] == 'I') && (name[1] == 'o' || name[1]
            == 'O') && (name[2] == 's' || name[2] == 'S')),
        crate::platform::platform_named(name) == Some(crate::platform::Platform::Android) <==> (
        name.len() == 7 && (name[0] == 'a' || name[0] == 'A') && (name[1] == 'n' || name[1]
            == 'N') && (name[2] == 'd' || name[2] == 'D') && (name[3] == 'r' || name[3] == 'R')
            && (name[4] == 'o' || name[4] == 'O') && (name[5] == 'i' || name[5] == 'I') && (
        name[6] == 'd' || name[6] == 'D')),
{
    reveal_strlit("ios");
    reveal_strlit("android");
    let low = lowercased(name);
    if name.len() == 3 && (name[0] == 'i' || name[0] == 'I') && (name[1] == 'o' || name[1] == 'O')
        && (name[2] == 's' || name[2] == 'S') {
        assert(low =~= "ios"@);
    }
    if low == "ios"@ {
        assert(low[0] == 'i' && low[1] == 'o' && low[2] == 's');
    }
    if name.len() == 7 && (name[0] == 'a' || name[0] == 'A') && (name[1] == 'n' || name[1] == 'N')
        && (name[2] == 'd' || name[2] == 'D') && (name[3] == 'r' || name[3] == 'R') && (name[4]
        == 'o' || name[4] == 'O') && (name[5] == 'i' || name[5] == 'I') && (name[6] == 'd' || name[6]
        == 'D') {
        assert(low =~= "android"@);
    }
    if low == "android"@ {
        assert(low[0] == 'a' && low[1] == 'n' && low[2] == 'd' && low[3] == 'r' && low[4] == 'o'
            && low[5] == 'i' && low[6] == 'd');
    }
    assert("android"@.len() != "ios"@.len());
}

proof fn lemma_trim_start_bound(s: Seq<char>) -> (start: int)
    ensures
        0 <= start <= s.len(),
        crate::text::trim_start(s) == s.skip(start),
        forall|j: int| 0 <= j < start ==> is_unicode_whitespace(s[j]),
        start < s.len() ==> !is_unicode_whitespace(s[start]),
    decreases s.len(),
{
    if s.len() > 0 && is_unicode_whitespace(s[0]) {
        let rest = lemma_trim_start_bound(s.drop_first());
        assert(s.drop_first().skip(rest) =~= s.skip(rest + 1));
        assert forall|j: int| 0 <= j < rest + 1 implies is_unicode_whitespace(s[j]) by {
            if j > 0 {
                assert(s[j] == s.drop_first()[j - 1]);
            }
        }
        rest + 1
    } else {
        assert(s.skip(0) =~= s);
        0
    }
}

proof fn lemma_trim_end_bound(s: Seq<char>) -> (end: int)
    ensures
        0 <= end <= s.len(),
        crate::text::trim_end(s) == s.take(end),
        forall|j: int| end <= j < s.len() ==> is_unicode_whitespace(s[j]),
        end > 0 ==> !is_unicode_whitespace(s[end - 1]),
    decreases s.len(),
{
    if s.len() > 0 && is_unicode_whitespace(s.last()) {
        let rest = lemma_trim_end_bound(s.drop_last());
        assert(s.drop_last().take(rest) =~= s.take(rest));
        assert forall|j: int| rest <= j < s.len() implies is_unicode_whitespace(s[j]) by {
            if j < s.len() - 1 {
                assert(s[j] == s.drop_last()[j]);
            }
        }
        rest
    } else {
        assert(s.take(s.len() as int) =~= s);
        s.len() as int
    }
}

/// Trimming keeps exactly the text between the leading and the trailing
/// whitespace: what it drops is whitespace, and what it keeps neither starts
/// nor ends with whitespace.
pub proof fn trimming_drops_exactly_the_surrounding_whitespace(s: Seq<char>)
    ensures
        exists|start: int, end: int|
            {
                &&& 0 <= start <= end <= s.len()
                &&& trimmed(s) == s.subrange(start, end)
                &&& forall|j: int| 0 <= j < start ==> is_unicode_whitespace(#[trigger] s[j])
                &&& forall|j: int| end <= j < s.len() ==> is_unicode_whitespace(#[trigger] s[j])
                &&& start < end ==> !is_unicode_whitespace(s[start]) && !is_unicode_whitespace(
                    s[end - 1],
                )
            },
{
    let start = lemma_trim_start_bound(s);
    let middle = s.skip(start);
    let length = lemma_trim_end_bound(middle);
    let end = start + length;
    assert(middle.take(length) =~= s.subrange(start, end));
    assert forall|j: int| end <= j < s.len() implies is_unicode_whitespace(s[j]) by {
        assert(s[j] == middle[j - start]);
    }
    if start < end {
        assert(s[start] == middle[0]);
        assert(s[end - 1] == middle[length - 1]);
    }
}

proof fn lemma_no_space_no_size(text: Seq<char>)
    requires
        !text.contains(' '),
    ensures
        crate::display::display_size_in(text) is None,
    decreases text.len(),
{
    lemma_position_of(text, '\n');
    let end = position_of(text, '\n');
    let line = text.take(end);
    assert forall|j: int| -1 < j < line.len() implies line[j] != ' ' by {
        assert(line[j] == text[j]);
        if text[j] == ' ' {
            assert(text.contains(' '));
        }
    }
    lemma_final_position(line, ' ', -1);
    if 0 <= end < text.len() {
        let rest = text.skip(end + 1);
        assert forall|j: int| 0 <= j < rest.len() implies rest[j] != ' ' by {
            assert(rest[j] == text[j + end + 1]);
            if text[j + end + 1] == ' ' {
                assert(text.contains(' '));
            }
        }
        assert(!rest.contains(' '));
        lemma_no_space_no_size(rest);
    }
}

/// An Android gesture whose `wm size` output holds no space cannot find the
/// display size, and ends the call saying so.
pub proof fn android_gesture_needs_a_display_size(
    settings: SettingsModel,
    gesture: Gesture,
    pixels: Seq<Seq<char>>,
    output: CommandOutput,
)
    requires
        output.success,
        !crate::command::output_text(output).contains(' '),
    ensures
        advance(settings, PhaseModel::Measuring { gesture, pixels }, EventModel::Completed(output)) == (
            PhaseModel::Finished,
            message_reply(true, "could not determine Android display size"@),
        ),
{
    lemma_no_space_no_size(crate::command::output_text(output));
}

/// An Android gesture whose display size holds no `x` ends the call
/// reporting that size as invalid.
pub proof fn android_gesture_needs_width_and_height(
    settings: SettingsModel,
    gesture: Gesture,
    pixels: Seq<Seq<char>>,
    output: CommandOutput,
    label: Seq<char>,
    size: Seq<char>,
)
    requires
        output.success,
        crate::command::output_text(output) == label + " "@ + size,
        !label.contains('\n'),
        !size.contains('\n') && !size.contains(' ') && !size.contains('x'),
        size.len() > 0 && !is_unicode_whitespace(size[0]) && !is_unicode_whitespace(size.last()),
    ensures
        advance(settings, PhaseModel::Measuring { gesture, pixels }, EventModel::Completed(output)) == (
            PhaseModel::Finished,
            message_reply(true, "invalid Android display size: "@ + size),
        ),
{
    lemma_size_on_line(label, size);
    assert forall|j: int| 0 <= j < size.len() implies size[j] != 'x' by {
        if size[j] == 'x' {
            assert(size.contains('x'));
        }
    }
    lemma_first_position(size, 'x', size.len() as int);
}

/// An iOS start whose preview URL names no port ends the call, after the
/// launch, saying the URL must be `http://host:port`.
pub proof fn ios_start_needs_a_preview_port(
    settings: SettingsModel,
    output: CommandOutput,
    host: Seq<char>,
    path: Seq<char>,
)
    requires
        output.success,
        configured_preview_url(settings) == "http://"@ + host + path,
        !host.contains(':'),
        !host.contains('/'),
        path.len() == 0 || path[0] == '/',
    ensures
        advance(settings, PhaseModel::Serving, EventModel::Completed(output)) == (
            PhaseModel::Finished,
            message_reply(true, "preview URL must use http://host:port"@),
        ),
{
    reveal_strlit("http://");
    let url = "http://"@ + host + path;
    assert(url.take(7) =~= "http://"@);
    let rest = url.skip(7);
    assert(rest =~= host + path);
    assert forall|j: int| 0 <= j < host.len() implies rest[j] != '/' by {
        assert(rest[j] == host[j]);
        if host[j] == '/' {
            assert(host.contains('/'));
        }
    }
    lemma_first_position(rest, '/', host.len() as int);
    assert(rest.take(host.len() as int) =~= host);
}

/// The display size comes from the first line that holds a space: lines
/// before it without a space are passed over, and lines after it do not
/// matter.
pub proof fn display_size_comes_from_first_line_with_space(
    skipped: Seq<char>,
    label: Seq<char>,
    size: Seq<char>,
    rest: Seq<char>,
)
    requires
        !skipped.contains(' ') && !skipped.contains('\n'),
        !label.contains('\n'),
        !size.contains('\n') && !size.contains(' '),
        size.len() > 0 && !is_unicode_whitespace(size[0]) && !is_unicode_whitespace(size.last()),
    ensures
        crate::display::display_size_in(skipped + "\n"@ + rest) == crate::display::display_size_in(rest),
        crate::display::display_size_in(label + " "@ + size + "\n"@ + rest) == Some(size),
{
    reveal_strlit("\n");
    reveal_strlit(" ");
    let text = skipped + "\n"@ + rest;
    assert forall|j: int| 0 <= j < skipped.len() implies text[j] != '\n' by {
        assert(text[j] == skipped[j]);
        if skipped[j] == '\n' {
            assert(skipped.contains('\n'));
        }
    }
    assert(text[skipped.len() as int] == '\n');
    lemma_first_position(text, '\n', skipped.len() as int);
    let line = text.take(skipped.len() as int);
    assert(line =~= skipped);
    assert forall|j: int| -1 < j < line.len() implies line[j] != ' ' by {
        if line[j] == ' ' {
            assert(skipped.contains(' '));
        }
    }
    lemma_final_position(line, ' ', -1);
    assert(text.skip(skipped.len() as int + 1) =~= rest);
    let first = label + " "@ + size;
    let whole = first + "\n"@ + rest;
    assert forall|j: int| 0 <= j < first.len() implies whole[j] != '\n' by {
        assert(whole[j] == first[j]);
        if j < label.len() {
            assert(first[j] == label[j]);
            if label[j] == '\n' {
                assert(label.contains('\n'));
            }
        } else if j > label.len() {
            assert(first[j] == size[j - label.len() - 1]);
            if size[j - label.len() - 1] == '\n' {
                assert(size.contains('\n'));
            }
        }
    }
    assert(whole[first.len() as int] == '\n');
    lemma_first_position(whole, '\n', first.len() as int);
    assert(whole.take(first.len() as int) =~= first);
    assert forall|j: int| label.len() < j < first.len() implies first[j] != ' ' by {
        assert(first[j] == size[j - label.len() - 1]);
        if size[j - label.len() - 1] == ' ' {
            assert(size.contains(' '));
        }
    }
    lemma_final_position(first, ' ', label.len() as int);
    assert(first.skip(label.len() as int + 1) =~= size);
}

/// Work that failed on the call's behalf ends any unfinished call with an
/// error reply showing exactly that work's message.
pub proof fn failed_work_is_reported_verbatim(settings: SettingsModel, phase: PhaseModel, message: Seq<char>)
    requires
        !(phase is Finished),
    ensures
        advance(settings, phase, EventModel::Failed(message)) == (
            PhaseModel::Finished,
            message_reply(true, message),
        ),
{
}

} // verus!
