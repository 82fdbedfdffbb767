//! The parts of speech recognition that only compute: how the recording is
//! repaired before it is transcribed, and how the recogniser's segments
//! become one transcript.

use vstd::prelude::*;
use vstd::string::StringExecFns;

verus! {

/// Where the recogniser's model is read from.
pub const PATH_TO_MODEL: &'static str = "data/ggml-tiny.bin";

/// One repair of a file in place: `program` runs with `arguments` and writes
/// `output`; then `output` is moved over `target`.
#[derive(Debug, PartialEq, Eq)]
pub struct RepairStep {
    pub program: String,
    pub arguments: Vec<String>,
    pub output: String,
    pub target: String,
}

/// A repair step with its strings as sequences of characters.
pub struct RepairStepView {
    pub program: Seq<char>,
    pub arguments: Seq<Seq<char>>,
    pub output: Seq<char>,
    pub target: Seq<char>,
}

impl View for RepairStep {
    type V = RepairStepView;

    open spec fn view(&self) -> RepairStepView {
        RepairStepView {
            program: self.program@,
            arguments: self.arguments.deep_view(),
            output: self.output@,
            target: self.target@,
        }
    }
}

/// The step that rewrites the file at `path` with 16 bits per sample: `sox`
/// writes beside the file, to its path with `tmp.wav` appended.
pub open spec fn bit_depth_step(path: Seq<char>) -> RepairStepView {
    let output = path + "tmp.wav"@;
    RepairStepView {
        program: "sox"@,
        arguments: seq!["--clobber"@, path, "-b"@, "16"@, output],
        output,
        target: path,
    }
}

/// The step that rewrites the file at `path` as 16 kHz mono 16-bit PCM:
/// `ffmpeg` writes to `output`, overwriting without asking and reporting
/// errors only.
pub open spec fn resample_step(path: Seq<char>, output: Seq<char>) -> RepairStepView {
    RepairStepView {
        program: "ffmpeg"@,
        arguments: seq![
            "-y"@,
            "-i"@,
            path,
            "-ar"@,
            "16000"@,
            "-ac"@,
            "1"@,
            "-c:a"@,
            "pcm_s16le"@,
            "-hide_banner"@,
            "-loglevel"@,
            "error"@,
            output,
        ],
        output,
        target: path,
    }
}

/// Segments joined into one text, with a single space between neighbours and
/// none at either end.
pub open spec fn joined(segments: Seq<Seq<char>>) -> Seq<char>
    decreases segments.len(),
{
    if segments.len() == 0 {
        Seq::empty()
    } else if segments.len() == 1 {
        segments[0]
    } else {
        joined(segments.drop_last()) + seq![' '] + segments.last()
    }
}

/// Plans the conversion of the file at `path` to 16 bits per sample.
pub fn plan_16bit_conversion(path: &str) -> (step: RepairStep)
    ensures
        step@ == bit_depth_step(path@),
{
    let output = String::from_str(path).concat("tmp.wav");
    let mut arguments: Vec<String> = Vec::new();
    arguments.push(String::from_str("--clobber"));
    arguments.push(String::from_str(path));
    arguments.push(String::from_str("-b"));
    arguments.push(String::from_str("16"));
    arguments.push(output.clone());
    assert(arguments.deep_view() =~= bit_depth_step(path@).arguments);
    RepairStep {
        program: String::from_str("sox"),
        arguments,
        output,
        target: String::from_str(path),
    }
}

/// Plans the conversion of the file at `path` to 16 kHz mono 16-bit PCM, with
/// `output` as the file that the tool writes first.
pub fn plan_16khz_mono_conversion(path: &str, output: String) -> (step: RepairStep)
    ensures
        step@ == resample_step(path@, output@),
{
    let mut arguments: Vec<String> = Vec::new();
    arguments.push(String::from_str("-y"));
    arguments.push(String::from_str("-i"));
    arguments.push(String::from_str(path));
    arguments.push(String::from_str("-ar"));
    arguments.push(String::from_str("16000"));
    arguments.push(String::from_str("-ac"));
    arguments.push(String::from_str("1"));
    arguments.push(String::from_str("-c:a"));
    arguments.push(String::from_str("pcm_s16le"));
    arguments.push(String::from_str("-hide_banner"));
    arguments.push(String::from_str("-loglevel"));
    arguments.push(String::from_str("error"));
    arguments.push(output.clone());
    assert(arguments.deep_view() =~= resample_step(path@, output@).arguments);
    RepairStep {
        program: String::from_str("ffmpeg"),
        arguments,
        output,
        target: String::from_str(path),
    }
}

/// Joins the recogniser's segments into the transcript: the segments in
/// order, a single space between neighbours. No segments give the empty
/// transcript.
pub fn join_segments(segments: &Vec<String>) -> (text: String)
    ensures
        text@ == joined(segments.deep_view()),
{
    let ghost all = segments.deep_view();
    let mut text = String::new();
    let mut i: usize = 0;
    while i < segments.len()
        invariant
            all == segments.deep_view(),
            0 <= i <= segments@.len(),
            text@ == joined(all.take(i as int)),
        decreases segments@.len() - i,
    {
        proof {
            reveal_strlit(" ");
            let before = all.take(i as int);
            let after = all.take(i + 1);
            assert(after.drop_last() =~= before);
            assert(after.last() == segments@[i as int]@);
            assert(" "@ =~= seq![' ']);
        }
        if i > 0 {
            text.append(" ");
        }
        text.append(segments[i].as_str());
        i += 1;
    }
    assert(all.take(i as int) =~= all);
    text
}

} // verus!
