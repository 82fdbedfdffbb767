//! Planning the volume boost of a recording.

use crate::speech::{RepairStep, RepairStepView};
use vstd::prelude::*;
use vstd::string::StringExecFns;

verus! {

/// The name of the file that the boost writes first, for a recording whose
/// name without its extension is `stem`.
pub open spec fn temporary_name(stem: Seq<char>) -> Seq<char> {
    stem + ".tmp.wav"@
}

/// The step that multiplies the volume of the file at `input` by `gain`:
/// `ffmpeg` writes a WAV file to `output`, overwriting without asking.
pub open spec fn boost_step(input: Seq<char>, gain: Seq<char>, output: Seq<char>) -> RepairStepView {
    RepairStepView {
        program: "ffmpeg"@,
        arguments: seq![
            "-y"@,
            "-i"@,
            input,
            "-filter:a"@,
            "volume="@ + gain,
            "-f"@,
            "wav"@,
            output,
        ],
        output,
        target: input,
    }
}

/// The name of the boost's temporary file for a recording with the given
/// stem.
pub fn boost_temporary_name(stem: &str) -> (name: String)
    ensures
        name@ == temporary_name(stem@),
{
    String::from_str(stem).concat(".tmp.wav")
}

/// Plans the boost of the file at `input_path` by the gain factor written
/// out in `gain`, with `output` as the file that the tool writes first.
pub fn plan_boost(input_path: &str, gain: &str, output: String) -> (step: RepairStep)
    ensures
        step@ == boost_step(input_path@, gain@, output@),
{
    let mut arguments: Vec<String> = Vec::new();
    arguments.push(String::from_str("-y"));
    arguments.push(String::from_str("-i"));
    arguments.push(String::from_str(input_path));
    arguments.push(String::from_str("-filter:a"));
    arguments.push(String::from_str("volume=").concat(gain));
    arguments.push(String::from_str("-f"));
    arguments.push(String::from_str("wav"));
    arguments.push(output.clone());
    assert(arguments.deep_view() =~= boost_step(input_path@, gain@, output@).arguments);
    RepairStep {
        program: String::from_str("ffmpeg"),
        arguments,
        output,
        target: String::from_str(input_path),
    }
}

} // verus!
