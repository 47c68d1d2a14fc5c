//! The command lines of the two outside tools, what their exit status
//! means, and where the music is kept.

use vstd::prelude::*;

verus! {

/// A program to run, with its arguments.
#[derive(Debug, PartialEq, Eq)]
pub struct ToolCommand {
    pub program: String,
    pub args: Vec<String>,
}

/// What a [`ToolCommand`] holds, as mathematical values.
pub struct ToolCommandView {
    pub program: Seq<char>,
    pub args: Seq<Seq<char>>,
}

impl View for ToolCommand {
    type V = ToolCommandView;

    open spec fn view(&self) -> ToolCommandView {
        ToolCommandView { program: self.program@, args: self.args.deep_view() }
    }
}

/// The command that compresses `input_mp3` into `output_mp3` at 64 kbit/s.
pub open spec fn compress_command(input_mp3: Seq<char>, output_mp3: Seq<char>) -> ToolCommandView {
    ToolCommandView {
        program: "ffmpeg"@,
        args: seq!["-i"@, input_mp3, "-b:a"@, "64k"@, output_mp3],
    }
}

/// The command that extracts the audio at `url` as MP3 of the best quality
/// into the file `output_template`.
pub open spec fn download_command(output_template: Seq<char>, url: Seq<char>) -> ToolCommandView {
    ToolCommandView {
        program: "yt-dlp"@,
        args: seq![
            "-x"@,
            "--audio-format"@,
            "mp3"@,
            "--audio-quality"@,
            "0"@,
            "-o"@,
            output_template,
            url,
        ],
    }
}

/// The address of the video `video_id`.
pub open spec fn watch_address(video_id: Seq<char>) -> Seq<char> {
    "https://www.youtube.com/watch?v="@ + video_id
}

/// The outcome of a tool that is judged by its exit status alone: success,
/// or the error text `failure`.
pub open spec fn exit_outcome(succeeded: bool, failure: Seq<char>) -> Result<(), Seq<char>> {
    if succeeded {
        Ok(())
    } else {
        Err(failure)
    }
}

/// What an outcome with an error text holds, as mathematical values.
pub open spec fn outcome_view(outcome: Result<(), String>) -> Result<(), Seq<char>> {
    match outcome {
        Ok(_) => Ok(()),
        Err(error) => Err(error@),
    }
}

/// The music directory: the one configured, or `music` where none is.
pub open spec fn music_dir_or_default(configured: Option<Seq<char>>) -> Seq<char> {
    match configured {
        Some(dir) => dir,
        None => "music"@,
    }
}

/// The command that compresses `input_mp3` into `output_mp3`.
pub fn compress_mp3_command(input_mp3: &str, output_mp3: &str) -> (command: ToolCommand)
    ensures
        command@ == compress_command(input_mp3@, output_mp3@),
{
    let mut args: Vec<String> = Vec::new();
    args.push(String::from_str("-i"));
    args.push(String::from_str(input_mp3));
    args.push(String::from_str("-b:a"));
    args.push(String::from_str("64k"));
    args.push(String::from_str(output_mp3));
    assert(args.deep_view() =~= compress_command(input_mp3@, output_mp3@).args);
    ToolCommand { program: String::from_str("ffmpeg"), args }
}

/// The command that downloads the audio at `url` into `output_template`.
pub fn download_mp3_command(output_template: &str, url: &str) -> (command: ToolCommand)
    ensures
        command@ == download_command(output_template@, url@),
{
    let mut args: Vec<String> = Vec::new();
    args.push(String::from_str("-x"));
    args.push(String::from_str("--audio-format"));
    args.push(String::from_str("mp3"));
    args.push(String::from_str("--audio-quality"));
    args.push(String::from_str("0"));
    args.push(String::from_str("-o"));
    args.push(String::from_str(output_template));
    args.push(String::from_str(url));
    assert(args.deep_view() =~= download_command(output_template@, url@).args);
    ToolCommand { program: String::from_str("yt-dlp"), args }
}

/// The address from which the video `video_id` is downloaded.
pub fn watch_url(video_id: &str) -> (url: String)
    ensures
        url@ == watch_address(video_id@),
{
    let mut url = String::from_str("https://www.youtube.com/watch?v=");
    url.append(video_id);
    url
}

/// The outcome of a compression from whether the compressor exited well.
pub fn compress_outcome(succeeded: bool) -> (outcome: Result<(), String>)
    ensures
        outcome_view(outcome) == exit_outcome(succeeded, "ffmpeg failed to compress MP3"@),
{
    if succeeded {
        Ok(())
    } else {
        Err(String::from_str("ffmpeg failed to compress MP3"))
    }
}

/// The outcome of a download from whether the downloader exited well.
pub fn download_outcome(succeeded: bool) -> (outcome: Result<(), String>)
    ensures
        outcome_view(outcome) == exit_outcome(succeeded, "yt-dlp failed to download video"@),
{
    if succeeded {
        Ok(())
    } else {
        Err(String::from_str("yt-dlp failed to download video"))
    }
}

/// The music directory from what the environment configures, if anything.
pub fn music_dir(configured: Option<String>) -> (dir: String)
    ensures
        dir@ == music_dir_or_default(configured.deep_view()),
{
    match configured {
        Some(dir) => dir,
        None => String::from_str("music"),
    }
}

} // verus!
