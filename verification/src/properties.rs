//! Properties that hold of every tool call: how calls are refused, how they
//! end, and which device each command addresses.
use vstd::prelude::*;

use crate::command::{
    CommandOutput, gesture_json, is_option, output_text, serve_sim_args, utf8_lossy,
};
use crate::text::trimmed;
use crate::tool_laws::message_reply;
use crate::screenshot::valid_screenshot_name;
use crate::platform::{Platform, platform_named};
use crate::protocol::{
    advance, awaited_program, awaits_run, capture_name, first_step, opening, points_needed,
    refusal, selected_platform, serve_sim_run,
};
use crate::reply::image_reply;
use crate::session::{ActionModel, EventModel, PhaseModel, SettingsModel, ToolModel};
use crate::text::lowercased;

verus! {

/// How many more actions a call in `phase` can ask for at most, not
/// counting its final reply.
pub open spec fn remaining_steps(phase: PhaseModel) -> nat {
    match phase {
        PhaseModel::Finished => 0,
        PhaseModel::Serving => 2,
        PhaseModel::Previewing { .. } => 1,
        PhaseModel::StartingServer => 2,
        PhaseModel::AwaitingDevice => 1,
        PhaseModel::Replying { .. } => 1,
        PhaseModel::Locating => 4,
        PhaseModel::Capturing { .. } => 3,
        PhaseModel::Reading { .. } => 2,
        PhaseModel::Cleaning { .. } => 1,
        PhaseModel::Grabbing => 1,
        PhaseModel::Measuring { gesture, pixels } => if pixels.len() + 2 >= 2 * points_needed(
            gesture,
        ) {
            3
        } else {
            5
        },
        PhaseModel::Scaling { gesture, pixels } => if pixels.len() + 2 >= 2 * points_needed(
            gesture,
        ) {
            2
        } else {
            4
        },
        PhaseModel::Gesturing { payloads, next } => if next < payloads.len() {
            (payloads.len() - next + 1) as nat
        } else {
            1
        },
    }
}

/// Whether `action` ends the call.
pub open spec fn is_finish(action: ActionModel) -> bool {
    action is Finish
}

/// Every step of an unfinished call either finishes it or brings it closer
/// to its end, so no call goes on forever.
pub proof fn every_step_progresses(settings: SettingsModel, phase: PhaseModel, event: EventModel)
    requires
        !(phase is Finished),
    ensures
        advance(settings, phase, event).0 is Finished || remaining_steps(advance(
            settings,
            phase,
            event,
        ).0) < remaining_steps(phase),
{
}

/// A step ends the call exactly when the call is finished after it.
pub proof fn step_finishes_exactly_when_finished(
    settings: SettingsModel,
    phase: PhaseModel,
    event: EventModel,
)
    ensures
        is_finish(advance(settings, phase, event).1) <==> advance(settings, phase, event).0 is Finished,
{
}

/// Opening a call ends it exactly when the call is finished at once, and an
/// opened call has at most five more steps to go.
pub proof fn opening_is_bounded(
    tool: ToolModel,
    platform_setting: Option<Seq<char>>,
    settings: SettingsModel,
)
    ensures
        is_finish(opening(tool, platform_setting, settings).1) <==> opening(
            tool,
            platform_setting,
            settings,
        ).0 is Finished,
        remaining_steps(opening(tool, platform_setting, settings).0) <= 5,
{
}

/// Empty text is refused before any program runs, whatever the settings.
pub proof fn empty_text_is_refused(platform_setting: Option<Seq<char>>, settings: SettingsModel)
    ensures
        opening(ToolModel::Type { text: Seq::empty() }, platform_setting, settings) == (
            PhaseModel::Finished,
            message_reply(true, "text must not be empty"@),
        ),
{
}

/// A screenshot name that is not a plain file name is refused before any
/// program runs, whatever the settings.
pub proof fn unsafe_screenshot_name_is_refused(
    name: Option<Seq<char>>,
    platform_setting: Option<Seq<char>>,
    settings: SettingsModel,
)
    requires
        !valid_screenshot_name(capture_name(name)),
    ensures
        opening(ToolModel::Capture { name }, platform_setting, settings) == (
            PhaseModel::Finished,
            message_reply(true, "name must be a non-empty file name without path separators"@),
        ),
{
}

/// A platform setting that names neither platform refuses every call that
/// passed its own checks, before any program runs.
pub proof fn unsupported_platform_is_refused(
    tool: ToolModel,
    setting: Seq<char>,
    settings: SettingsModel,
)
    requires
        refusal(tool) is None,
        platform_named(setting) is None,
    ensures
        opening(tool, Some(setting), settings) == (
            PhaseModel::Finished,
            message_reply(true,
                "unsupported DEVICE_PLATFORM '"@ + lowercased(setting) + "'; use ios or android"@,
            ),
        ),
{
}

/// Stopping on Android runs nothing: the emulator's lifecycle is left alone.
pub proof fn android_stop_runs_nothing(platform_setting: Option<Seq<char>>, settings: SettingsModel)
    requires
        selected_platform(platform_setting) == Some(Platform::Android),
    ensures
        opening(ToolModel::Stop, platform_setting, settings) == (
            PhaseModel::Finished,
            message_reply(false,
                "Android emulator lifecycle is managed externally; no emulator was stopped."@,
            ),
        ),
{
}

/// Whether `action`, if it runs `adb` for anything but `start-server`,
/// addresses the device with the configured serial.
pub open spec fn addresses_configured_device(settings: SettingsModel, action: ActionModel) -> bool {
    match action {
        ActionModel::Run { program, arguments, .. } => (program == "adb"@ && arguments
            != seq!["start-server"@]) ==> match settings.android_serial {
            Some(serial) => arguments.len() >= 2 && arguments[0] == "-s"@ && arguments[1] == serial,
            None => true,
        },
        _ => true,
    }
}

/// With `ANDROID_SERIAL` set, every `adb` command of a call but
/// `start-server` addresses that device, from the first step on.
pub proof fn adb_commands_address_configured_device(
    tool: ToolModel,
    platform_setting: Option<Seq<char>>,
    settings: SettingsModel,
    phase: PhaseModel,
    event: EventModel,
)
    ensures
        addresses_configured_device(settings, opening(tool, platform_setting, settings).1),
        addresses_configured_device(settings, advance(settings, phase, event).1),
{
    reveal_strlit("adb");
    reveal_strlit("npx");
    reveal_strlit("xcrun");
    assert("npx"@ != "adb"@) by {
        assert("npx"@[0] != "adb"@[0]);
    }
    assert("xcrun"@ != "adb"@) by {
        assert("xcrun"@.len() != "adb"@.len());
    }
}

/// A program that the call waits on and that ends unsuccessfully ends the
/// call with an error reply naming that program, its exit status and what it
/// reported; nothing runs after it.
pub proof fn failed_run_ends_call(settings: SettingsModel, phase: PhaseModel, output: CommandOutput)
    requires
        awaits_run(phase),
        !output.success,
    ensures
        advance(settings, phase, EventModel::Completed(output)) == (
            PhaseModel::Finished,
            message_reply(true,
                awaited_program(phase) + " failed with "@ + output.status@ + ": "@ + (if phase is Grabbing {
                    trimmed(utf8_lossy(output.stderr@))
                } else {
                    output_text(output)
                }),
            ),
        ),
{
}

/// Whether `phase` waits on the program that `action` runs, when it runs one.
pub open spec fn awaits_program_run(phase: PhaseModel, action: ActionModel) -> bool {
    action matches ActionModel::Run { program, .. } ==> awaits_run(phase) && awaited_program(
        phase,
    ) == program
}

/// Whenever a step runs a program, the call then waits on exactly that
/// program, so a failure of the run is reported under the program's name.
pub proof fn waiting_phase_names_the_program(
    tool: ToolModel,
    platform_setting: Option<Seq<char>>,
    settings: SettingsModel,
    phase: PhaseModel,
    event: EventModel,
)
    ensures
        awaits_program_run(
            opening(tool, platform_setting, settings).0,
            opening(tool, platform_setting, settings).1,
        ),
        awaits_program_run(advance(settings, phase, event).0, advance(settings, phase, event).1),
{
}

/// Work that failed on the call's behalf ends the call with an error reply
/// showing that work's message.
pub proof fn reported_failure_ends_call(settings: SettingsModel, phase: PhaseModel, message: Seq<char>)
    requires
        !(phase is Finished),
    ensures
        advance(settings, phase, EventModel::Failed(message)) == (
            PhaseModel::Finished,
            message_reply(true, message),
        ),
{
}

/// An Android capture replies with exactly the bytes `screencap` wrote, as
/// Base64, without decoding them as text.
pub proof fn android_capture_keeps_bytes(settings: SettingsModel, output: CommandOutput)
    requires
        output.success,
    ensures
        advance(settings, PhaseModel::Grabbing, EventModel::Completed(output)) == (
            PhaseModel::Finished,
            ActionModel::Finish(image_reply("Captured Android Emulator display"@, output.stdout@)),
        ),
{
}

/// An iOS swipe sends the begin, move and end gesture events in that order,
/// one `serve-sim gesture` run each, and then reports the swipe completed.
pub proof fn ios_swipe_sends_begin_move_end(
    settings: SettingsModel,
    x1: Seq<char>,
    y1: Seq<char>,
    x2: Seq<char>,
    y2: Seq<char>,
    first: CommandOutput,
    second: CommandOutput,
    third: CommandOutput,
)
    requires
        first.success,
        second.success,
        third.success,
    ensures
        ({
            let tool = ToolModel::Swipe { x1, y1, x2, y2 };
            let (p0, a0) = first_step(tool, Platform::Ios, settings);
            let (p1, a1) = advance(settings, p0, EventModel::Completed(first));
            let (p2, a2) = advance(settings, p1, EventModel::Completed(second));
            let (p3, a3) = advance(settings, p2, EventModel::Completed(third));
            &&& a0 == serve_sim_run(settings, seq!["gesture"@, gesture_json("begin"@, x1, y1)])
            &&& a1 == serve_sim_run(settings, seq!["gesture"@, gesture_json("move"@, x2, y2)])
            &&& a2 == serve_sim_run(settings, seq!["gesture"@, gesture_json("end"@, x2, y2)])
            &&& p3 is Finished
            &&& a3 == message_reply(false, "Swipe completed"@)
        }),
{
}


/// Whether `action`, if it runs `serve-sim` or `xcrun`, addresses the
/// simulator chosen by `IOS_SIMULATOR_UDID` when one is chosen.
pub open spec fn addresses_chosen_simulator(settings: SettingsModel, action: ActionModel) -> bool {
    match (action, settings.ios_udid) {
        (ActionModel::Run { program, arguments, .. }, Some(udid)) => {
            &&& program == "npx"@ ==> arguments.contains(udid)
            &&& program == "xcrun"@ ==> arguments.len() >= 3 && arguments[2] == udid
        },
        _ => true,
    }
}

proof fn lemma_serve_sim_run_names_simulator(settings: SettingsModel, arguments: Seq<Seq<char>>)
    ensures
        addresses_chosen_simulator(settings, serve_sim_run(settings, arguments)),
{
    reveal_strlit("npx");
    reveal_strlit("xcrun");
    assert("xcrun"@ != "npx"@) by {
        assert("xcrun"@.len() != "npx"@.len());
    }
    if let Some(udid) = settings.ios_udid {
        let all = serve_sim_args(arguments, settings.ios_udid);
        if arguments.len() > 0 && !is_option(arguments[0]) {
            assert(all[4] == udid);
        } else {
            assert(all[all.len() - 1] == udid);
        }
        assert(all.contains(udid));
    }
}

/// With `IOS_SIMULATOR_UDID` set, every `serve-sim` run of a call names that
/// simulator, and every `xcrun simctl` screenshot targets it.
pub proof fn ios_commands_address_chosen_simulator(
    tool: ToolModel,
    platform_setting: Option<Seq<char>>,
    settings: SettingsModel,
    phase: PhaseModel,
    event: EventModel,
)
    ensures
        addresses_chosen_simulator(settings, opening(tool, platform_setting, settings).1),
        addresses_chosen_simulator(settings, advance(settings, phase, event).1),
{
    reveal_strlit("adb");
    reveal_strlit("npx");
    reveal_strlit("xcrun");
    assert("npx"@ != "adb"@) by {
        assert("npx"@[0] != "adb"@[0]);
    }
    assert("xcrun"@ != "npx"@) by {
        assert("xcrun"@.len() != "npx"@.len());
    }
    assert("xcrun"@ != "adb"@) by {
        assert("xcrun"@.len() != "adb"@.len());
    }
    let opened = opening(tool, platform_setting, settings);
    let stepped = advance(settings, phase, event);
    if let ActionModel::Run { program, arguments, .. } = opened.1 {
        if program == "npx"@ {
            match tool {
                ToolModel::Start => lemma_serve_sim_run_names_simulator(settings, seq!["--detach"@, "--quiet"@, "--fit"@]),
                ToolModel::Stop => lemma_serve_sim_run_names_simulator(settings, seq!["--kill"@]),
                ToolModel::Status => lemma_serve_sim_run_names_simulator(settings, seq!["--list"@]),
                ToolModel::Tap { x, y } => lemma_serve_sim_run_names_simulator(settings, seq!["tap"@, x, y]),
                ToolModel::Swipe { x1, y1, .. } => lemma_serve_sim_run_names_simulator(
                    settings,
                    seq!["gesture"@, gesture_json("begin"@, x1, y1)],
                ),
                ToolModel::Type { text } => lemma_serve_sim_run_names_simulator(settings, seq!["type"@, text]),
                _ => {},
            }
        }
    }
    if let ActionModel::Run { program, arguments, .. } = stepped.1 {
        if program == "npx"@ {
            if let PhaseModel::Gesturing { payloads, next } = phase {
                lemma_serve_sim_run_names_simulator(settings, seq!["gesture"@, payloads[next as int]]);
            }
        }
    }
}

/// Whether `action`, if it runs a program, runs one of the device tools:
/// `npx` (for `serve-sim`), `adb` or `xcrun`.
pub open spec fn runs_device_tool(action: ActionModel) -> bool {
    action matches ActionModel::Run { program, .. } ==> (program == "npx"@ || program == "adb"@
        || program == "xcrun"@)
}

/// A tool call runs no program but the device tools.
pub proof fn only_device_tools_run(
    tool: ToolModel,
    platform_setting: Option<Seq<char>>,
    settings: SettingsModel,
    phase: PhaseModel,
    event: EventModel,
)
    ensures
        runs_device_tool(opening(tool, platform_setting, settings).1),
        runs_device_tool(advance(settings, phase, event).1),
{
}

} // verus!
