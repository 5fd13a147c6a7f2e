//! The encoder's command line and the paths of one run.

use crate::frame_rate::{args_view, format_int, int_text};
use vstd::prelude::*;
use vstd::string::*;

verus! {

/// The directory whose render directories are looked through.
pub open spec fn root_dir_text() -> Seq<char> {
    "./image_renders"@
}

/// The directory that receives the videos.
pub open spec fn output_dir_text() -> Seq<char> {
    "./rendered_videos"@
}

/// The path of `name` inside `dir`.
pub open spec fn join_text(dir: Seq<char>, name: Seq<char>) -> Seq<char> {
    dir + "/"@ + name
}

/// The numbered frame files of a render directory, as a template with a
/// zero-padded index of five digits.
pub open spec fn frame_pattern_text(source: Seq<char>) -> Seq<char> {
    join_text(source, "frame_%05d.png"@)
}

/// The video made from the render directory `name`, inside `dir`.
pub open spec fn output_file_text(dir: Seq<char>, name: Seq<char>) -> Seq<char> {
    join_text(dir, name) + ".mp4"@
}

/// The encoder's arguments: overwrite the output, read the pattern at the
/// given frame rate, encode H.264 in 4:2:0 at preset medium and quality 23,
/// write the output.
pub open spec fn encoder_args_text(rate: int, pattern: Seq<char>, output: Seq<char>) -> Seq<
    Seq<char>,
> {
    seq![
        "-y"@,
        "-framerate"@,
        int_text(rate),
        "-i"@,
        pattern,
        "-c:v"@,
        "libx264"@,
        "-pix_fmt"@,
        "yuv420p"@,
        "-preset"@,
        "medium"@,
        "-crf"@,
        "23"@,
        output,
    ]
}

/// The directory whose render directories are looked through.
pub fn root_dir() -> (r: &'static str)
    ensures
        r@ == root_dir_text(),
{
    "./image_renders"
}

/// The directory that receives the videos.
pub fn output_dir() -> (r: &'static str)
    ensures
        r@ == output_dir_text(),
{
    "./rendered_videos"
}

/// The name of the encoder's program.
pub fn encoder_program() -> (r: &'static str)
    ensures
        r@ == "ffmpeg"@,
{
    "ffmpeg"
}

/// The path of `name` inside `dir`.
pub fn join(dir: &str, name: &str) -> (r: String)
    ensures
        r@ == join_text(dir@, name@),
{
    let mut r = String::from_str(dir);
    r.append("/");
    r.append(name);
    r
}

/// The template that names the frame files of the render directory `source`.
pub fn frame_pattern(source: &str) -> (r: String)
    ensures
        r@ == frame_pattern_text(source@),
{
    join(source, "frame_%05d.png")
}

/// The path of the video made from the render directory `name`, inside `dir`.
pub fn output_file(dir: &str, name: &str) -> (r: String)
    ensures
        r@ == output_file_text(dir@, name@),
{
    let mut r = join(dir, name);
    r.append(".mp4");
    r
}

/// The encoder's arguments for one run.
pub fn encoder_args(rate: i32, pattern: &str, output: &str) -> (r: Vec<String>)
    ensures
        args_view(r@) == encoder_args_text(rate as int, pattern@, output@),
{
    let mut r: Vec<String> = Vec::new();
    r.push(String::from_str("-y"));
    r.push(String::from_str("-framerate"));
    r.push(format_int(rate));
    r.push(String::from_str("-i"));
    r.push(String::from_str(pattern));
    r.push(String::from_str("-c:v"));
    r.push(String::from_str("libx264"));
    r.push(String::from_str("-pix_fmt"));
    r.push(String::from_str("yuv420p"));
    r.push(String::from_str("-preset"));
    r.push(String::from_str("medium"));
    r.push(String::from_str("-crf"));
    r.push(String::from_str("23"));
    r.push(String::from_str(output));
    assert(args_view(r@) =~= encoder_args_text(rate as int, pattern@, output@));
    r
}

/// All that one run of the encoder needs, and what to remove after it.
#[derive(Debug)]
pub struct EncodeJob {
    /// The path of the selected render directory.
    pub source_dir: String,
    /// The path of the video to write.
    pub output_file: String,
    /// The encoder's arguments.
    pub args: Vec<String>,
}

impl EncodeJob {
    /// Whether the job is the one for the render directory `name` at the
    /// frame rate `rate`.
    pub open spec fn is_for(&self, rate: int, name: Seq<char>) -> bool {
        &&& self.source_dir@ == join_text(root_dir_text(), name)
        &&& self.output_file@ == output_file_text(output_dir_text(), name)
        &&& args_view(self.args@) == encoder_args_text(
            rate,
            frame_pattern_text(self.source_dir@),
            self.output_file@,
        )
    }

    /// The job for the render directory `name` at the frame rate `rate`.
    pub fn plan(rate: i32, name: &str) -> (job: EncodeJob)
        ensures
            job.is_for(rate as int, name@),
    {
        let source_dir = join(root_dir(), name);
        let pattern = frame_pattern(source_dir.as_str());
        let output_file = output_file(output_dir(), name);
        let args = encoder_args(rate, pattern.as_str(), output_file.as_str());
        EncodeJob { source_dir, output_file, args }
    }
}

} // verus!
