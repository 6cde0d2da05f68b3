//! External programs: the arguments the tools hand to `npx serve-sim`, `adb`
//! and `xcrun`, and how a finished run is turned into reply text or an error.
use vstd::prelude::*;

use crate::error::DeviceError;
use crate::text::{trim, trimmed};

verus! {

/// What a finished program run left behind.
#[derive(Debug)]
pub struct CommandOutput {
    /// Whether the program exited successfully.
    pub success: bool,
    /// The exit status as text, for messages.
    pub status: String,
    /// Bytes written to standard output.
    pub stdout: Vec<u8>,
    /// Bytes written to standard error.
    pub stderr: Vec<u8>,
}

/// The text that `String::from_utf8_lossy` makes of `bytes` (invalid UTF-8
/// sequences become U+FFFD).
pub uninterp spec fn utf8_lossy(bytes: Seq<u8>) -> Seq<char>;

/// `String::from_utf8_lossy`, taken as an owned string.
#[verifier::external_body]
fn decode_lossy(bytes: &[u8]) -> (text: String)
    ensures
        text@ == utf8_lossy(bytes@),
{
    String::from_utf8_lossy(bytes).into_owned()
}

/// The text a program run reports: its standard output without surrounding
/// whitespace, or, when that is empty, its trimmed standard error.
pub open spec fn chosen_output(standard_output: Seq<char>, standard_error: Seq<char>) -> Seq<char> {
    if trimmed(standard_output).len() > 0 {
        trimmed(standard_output)
    } else {
        trimmed(standard_error)
    }
}

/// The reply text of a finished run, from both of its streams.
pub open spec fn output_text(output: CommandOutput) -> Seq<char> {
    chosen_output(utf8_lossy(output.stdout@), utf8_lossy(output.stderr@))
}

/// The message for a run of `program` that ended unsuccessfully.
pub open spec fn failure_message(program: Seq<char>, output: CommandOutput) -> Seq<char> {
    program + " failed with "@ + output.status@ + ": "@ + output_text(output)
}

/// The message for an unsuccessful screen capture through `adb`, which
/// reports only the trimmed standard error.
pub open spec fn capture_failure_message(output: CommandOutput) -> Seq<char> {
    "adb"@ + " failed with "@ + output.status@ + ": "@ + trimmed(utf8_lossy(output.stderr@))
}

/// Chooses the reply text of a run from its standard output and standard error.
pub fn command_output(standard_output: &str, standard_error: &str) -> (text: String)
    ensures
        text@ == chosen_output(standard_output@, standard_error@),
{
    let output = trim(standard_output);
    if output.as_str().is_empty() {
        trim(standard_error)
    } else {
        output
    }
}

/// The reply text of a finished run.
pub fn command_text(output: &CommandOutput) -> (text: String)
    ensures
        text@ == output_text(*output),
{
    let standard_output = decode_lossy(output.stdout.as_slice());
    let standard_error = decode_lossy(output.stderr.as_slice());
    command_output(standard_output.as_str(), standard_error.as_str())
}

/// The error for a run of `program` that ended unsuccessfully.
pub fn command_failure(program: &str, output: &CommandOutput) -> (error: DeviceError)
    ensures
        error matches DeviceError::CommandFailed { program: p, status, output: text } && p@
            == program@ && status@ == output.status@ && text@ == output_text(*output),
{
    DeviceError::CommandFailed {
        program: program.to_owned(),
        status: output.status.clone(),
        output: command_text(output),
    }
}

/// The error for an unsuccessful screen capture through `adb`.
pub fn capture_failure(output: &CommandOutput) -> (error: DeviceError)
    ensures
        error matches DeviceError::CommandFailed { program, status, output: text } && program@
            == "adb"@ && status@ == output.status@ && text@ == trimmed(utf8_lossy(output.stderr@)),
{
    let standard_error = decode_lossy(output.stderr.as_slice());
    DeviceError::CommandFailed {
        program: String::from_str("adb"),
        status: output.status.clone(),
        output: trim(standard_error.as_str()),
    }
}

/// Whether `argument` is an option, that is, starts with `-`.
pub open spec fn is_option(argument: Seq<char>) -> bool {
    argument.len() > 0 && argument[0] == '-'
}

/// The arguments of `npx` for a `serve-sim` call: `--yes serve-sim` and the
/// call's arguments. A chosen simulator goes after the subcommand as
/// `--device <udid>` when the call starts with one, and last otherwise.
pub open spec fn serve_sim_args(arguments: Seq<Seq<char>>, device: Option<Seq<char>>) -> Seq<
    Seq<char>,
> {
    seq!["--yes"@, "serve-sim"@] + match device {
        None => arguments,
        Some(udid) => if arguments.len() > 0 && !is_option(arguments[0]) {
            seq![arguments[0], "--device"@, udid] + arguments.skip(1)
        } else {
            arguments.push(udid)
        },
    }
}

/// The arguments of `adb` for a call: `-s <serial>` first when a device
/// serial is set, then the call's arguments.
pub open spec fn adb_args(serial: Option<Seq<char>>, arguments: Seq<Seq<char>>) -> Seq<Seq<char>> {
    match serial {
        Some(s) => seq!["-s"@, s] + arguments,
        None => arguments,
    }
}

/// The simulator `xcrun simctl` addresses: the chosen one, or `booted`.
pub open spec fn device_target_text(udid: Option<Seq<char>>) -> Seq<char> {
    match udid {
        Some(d) => d,
        None => "booted"@,
    }
}

/// The JSON gesture event `serve-sim gesture` takes, with the coordinates
/// given as their decimal text.
pub open spec fn gesture_json(gesture_type: Seq<char>, x: Seq<char>, y: Seq<char>) -> Seq<char> {
    "{\"type\":\""@ + gesture_type + "\",\"x\":"@ + x + ",\"y\":"@ + y + "}"@
}

/// Appends `item` to `out`.
pub(crate) fn push_text(out: &mut Vec<String>, item: String)
    ensures
        final(out).deep_view() == old(out).deep_view().push(item@),
{
    let ghost prev = out@;
    let ghost prev_deep = out.deep_view();
    out.push(item);
    assert(out.deep_view() =~= prev_deep.push(item@)) by {
        assert forall|k: int| 0 <= k < prev.len() implies out.deep_view()[k] == prev_deep[k] by {
            assert(out@[k] == prev[k]);
        }
    }
}

/// Appends copies of `items[from..]` to `out`.
fn append_copies(out: &mut Vec<String>, items: &Vec<String>, from: usize)
    requires
        from <= items.len(),
    ensures
        final(out).deep_view() == old(out).deep_view() + items.deep_view().skip(from as int),
{
    let ghost start = out.deep_view();
    let mut i = from;
    while i < items.len()
        invariant
            from <= i <= items.len(),
            out.deep_view() == start + items.deep_view().subrange(from as int, i as int),
        decreases items.len() - i,
    {
        let item = items[i].clone();
        assert(item@ == items.deep_view()[i as int]);
        push_text(out, item);
        assert(out.deep_view() =~= start + items.deep_view().subrange(from as int, i + 1));
        i = i + 1;
    }
    assert(items.deep_view().subrange(from as int, items.len() as int) =~= items.deep_view().skip(
        from as int,
    ));
}

/// Builds the `npx` arguments for a `serve-sim` call.
pub fn serve_sim_arguments(arguments: &Vec<String>, device: &Option<String>) -> (command_arguments:
    Vec<String>)
    ensures
        command_arguments.deep_view() == serve_sim_args(arguments.deep_view(), device.deep_view()),
{
    let mut command_arguments = vec![String::from_str("--yes"), String::from_str("serve-sim")];
    assert(command_arguments.deep_view() =~= seq!["--yes"@, "serve-sim"@]);
    match device {
        Some(udid) => {
            let leads_with_subcommand = arguments.len() > 0 && {
                let first = arguments[0].as_str();
                first.is_empty() || first.get_char(0) != '-'
            };
            if leads_with_subcommand {
                let subcommand = arguments[0].clone();
                let chosen = udid.clone();
                assert(subcommand@ == arguments.deep_view()[0]);
                assert(!is_option(arguments.deep_view()[0]));
                push_text(&mut command_arguments, subcommand);
                push_text(&mut command_arguments, String::from_str("--device"));
                push_text(&mut command_arguments, chosen);
                assert(command_arguments.deep_view() =~= seq!["--yes"@, "serve-sim"@] + seq![arguments.deep_view()[0], "--device"@, udid@]);
                append_copies(&mut command_arguments, arguments, 1);
                assert(command_arguments.deep_view() =~= serve_sim_args(
                    arguments.deep_view(),
                    device.deep_view(),
                ));
            } else {
                append_copies(&mut command_arguments, arguments, 0);
                push_text(&mut command_arguments, udid.clone());
                assert(command_arguments.deep_view() =~= serve_sim_args(
                    arguments.deep_view(),
                    device.deep_view(),
                ));
            }
        },
        None => {
            append_copies(&mut command_arguments, arguments, 0);
            assert(command_arguments.deep_view() =~= serve_sim_args(
                arguments.deep_view(),
                device.deep_view(),
            ));
        },
    }
    command_arguments
}

/// Builds the `adb` arguments for a call.
pub fn adb_arguments(serial: &Option<String>, arguments: &Vec<String>) -> (command_arguments: Vec<
    String,
>)
    ensures
        command_arguments.deep_view() == adb_args(serial.deep_view(), arguments.deep_view()),
{
    let mut command_arguments: Vec<String> = Vec::new();
    match serial {
        Some(s) => {
            push_text(&mut command_arguments, String::from_str("-s"));
            push_text(&mut command_arguments, s.clone());
        },
        None => {},
    }
    append_copies(&mut command_arguments, arguments, 0);
    assert(command_arguments.deep_view() =~= adb_args(serial.deep_view(), arguments.deep_view()));
    command_arguments
}

/// The simulator that `xcrun simctl` addresses.
pub fn device_target(udid: &Option<String>) -> (target: String)
    ensures
        target@ == device_target_text(udid.deep_view()),
{
    match udid {
        Some(d) => d.clone(),
        None => String::from_str("booted"),
    }
}

/// The JSON gesture event for `serve-sim gesture`, from the event type and
/// the decimal text of the normalized coordinates.
pub fn gesture_payload(gesture_type: &str, x: &str, y: &str) -> (payload: String)
    ensures
        payload@ == gesture_json(gesture_type@, x@, y@),
{
    let mut payload = String::from_str("{\"type\":\"");
    payload.append(gesture_type);
    payload.append("\",\"x\":");
    payload.append(x);
    payload.append(",\"y\":");
    payload.append(y);
    payload.append("}");
    payload
}

} // verus!
