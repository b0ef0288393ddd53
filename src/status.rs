//! The three-line status report of the heating device.
use vstd::prelude::*;
use vstd::string::StringExecFns;
use crate::command::Mode;
use crate::device::DeviceError;
use crate::json::{bool_at, json_bool_at, json_str_at, str_at};
use crate::request::mode_pointer;
use crate::text::{pad_left, right_aligned, same_text};

verus! {

/// The lower-case form of `s`, as Unicode defines it.
pub uninterp spec fn lower_of(s: Seq<char>) -> Seq<char>;

/// Relies on str::to_lowercase: the lower-case form of each character.
#[verifier::external_body]
fn lowercase(s: &str) -> (r: String)
    ensures
        r@ == lower_of(s@),
{
    s.to_lowercase()
}

/// Whether the report shows the fire sign: the burner is working and the
/// mode is not `OFF`.
pub open spec fn fire_shown(mode: Seq<char>, working: bool) -> bool {
    working && mode != Mode::Off.spec_literal()
}

/// Whether the report shows the fire sign for `mode` and `working`.
pub fn shows_fire(mode: &str, working: bool) -> (r: bool)
    ensures
        r == fire_shown(mode@, working),
{
    let off = Mode::Off.literal();
    working && !same_text(mode, off)
}

/// With the mode `OFF` the fire sign is never shown, whether or not the
/// burner is working.
pub proof fn law_off_hides_fire(working: bool)
    ensures
        !fire_shown(Mode::Off.spec_literal(), working),
{
}

/// The report's first line, for the mode already in lower case.
pub open spec fn mode_line(lowered_mode: Seq<char>) -> Seq<char> {
    "Mode          "@ + right_aligned(lowered_mode, 8)
}

/// The report's second line, for the room temperature written with one
/// decimal.
pub open spec fn temperature_line(temperature_text: Seq<char>) -> Seq<char> {
    "Temperature   "@ + right_aligned(temperature_text, 7) + "\u{b0}"@
}

/// The report's third line, for the target written with one decimal.
pub open spec fn target_line(target_text: Seq<char>, fire: bool) -> Seq<char> {
    "Target        "@ + right_aligned(target_text, 7) + "\u{b0} "@ + if fire {
        "\u{1f525}"@
    } else {
        Seq::empty()
    }
}

/// The report's lines, given the mode both as the device gives it and in
/// lower case, and both temperatures written with one decimal.
pub fn status_lines(
    lowered_mode: &str,
    mode: &str,
    temperature_text: &str,
    target_text: &str,
    working: bool,
) -> (r: Vec<String>)
    ensures
        r@.len() == 3,
        r@[0]@ == mode_line(lowered_mode@),
        r@[1]@ == temperature_line(temperature_text@),
        r@[2]@ == target_line(target_text@, fire_shown(mode@, working)),
{
    let mut first = "Mode          ".to_owned();
    let m = pad_left(lowered_mode, 8);
    first.append(m.as_str());
    let mut second = "Temperature   ".to_owned();
    let t = pad_left(temperature_text, 7);
    second.append(t.as_str());
    second.append("\u{b0}");
    let mut third = "Target        ".to_owned();
    let g = pad_left(target_text, 7);
    third.append(g.as_str());
    third.append("\u{b0} ");
    if shows_fire(mode, working) {
        third.append("\u{1f525}");
    } else {
        assert(third@ + Seq::<char>::empty() =~= third@);
    }
    let mut lines: Vec<String> = Vec::new();
    lines.push(first);
    lines.push(second);
    lines.push(third);
    lines
}

/// The report's lines for `mode`, the room temperature and the target
/// (each written with one decimal), and whether the burner is working.
pub fn render_status(mode: &str, temperature_text: &str, target_text: &str, working: bool) -> (r:
    Vec<String>)
    ensures
        r@.len() == 3,
        r@[0]@ == mode_line(lower_of(mode@)),
        r@[1]@ == temperature_line(temperature_text@),
        r@[2]@ == target_line(target_text@, fire_shown(mode@, working)),
{
    let lowered = lowercase(mode);
    status_lines(lowered.as_str(), mode, temperature_text, target_text, working)
}

/// The pointer to whether a device's burner is working.
pub open spec fn working_pointer() -> Seq<char> {
    seq!['/', 'p', 'r', 'o', 'p', 's', '/', 'w', 'o', 'r', 'k', 'i', 'n', 'g']
}

/// The report for the heating device `device` (a JSON record of the
/// listing), given its two temperatures written with one decimal; it fails
/// where the record has no string `state.mode` or no boolean
/// `props.working`.
pub fn device_status(device: &str, temperature_text: &str, target_text: &str) -> (r: Result<
    Vec<String>,
    DeviceError,
>)
    ensures
        match (json_str_at(device@, mode_pointer()), json_bool_at(device@, working_pointer())) {
            (Some(mode), Some(working)) => r matches Ok(lines) && lines@.len() == 3
                && lines@[0]@ == mode_line(lower_of(mode)) && lines@[1]@ == temperature_line(
                temperature_text@,
            ) && lines@[2]@ == target_line(target_text@, fire_shown(mode, working)),
            _ => r matches Err(DeviceError::MissingField),
        },
{
    proof {
        reveal_strlit("/state/mode");
        reveal_strlit("/props/working");
        assert("/state/mode"@ =~= mode_pointer());
        assert("/props/working"@ =~= working_pointer());
    }
    let mode = str_at(device, "/state/mode");
    let working = bool_at(device, "/props/working");
    match (mode, working) {
        (Some(mode), Some(working)) => Ok(
            render_status(mode.as_str(), temperature_text, target_text, working),
        ),
        _ => Err(DeviceError::MissingField),
    }
}

} // verus!
