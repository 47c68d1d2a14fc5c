//! A search as a request, and the steps that turn a video into a
//! compressed audio file.

use vstd::prelude::*;
use crate::services::youtube::youtube_request_builder::{RequestView, YoutubeRequestBuilder};
use crate::utils::video_tools::outcome_view;

verus! {

/// One step on the way from a video to a compressed audio file. Each is
/// done outside; a step that fails ends the work with its error.
#[derive(Clone, Copy, Debug, PartialEq, Eq, Structural)]
pub enum AudioStep {
    /// Download the audio of the video into the file of the song.
    Download,
    /// Compress the file of the song into the temporary file.
    Compress,
    /// Delete the file of the song.
    RemoveUncompressed,
    /// Give the temporary file the name of the file of the song.
    RenameTemp,
}

/// The step that follows `step` once it has succeeded, if any.
pub open spec fn next_step(step: AudioStep) -> Option<AudioStep> {
    match step {
        AudioStep::Download => Some(AudioStep::Compress),
        AudioStep::Compress => Some(AudioStep::RemoveUncompressed),
        AudioStep::RemoveUncompressed => Some(AudioStep::RenameTemp),
        AudioStep::RenameTemp => None,
    }
}

/// The steps from `step` to the end, where each one succeeds.
pub open spec fn steps_from(step: AudioStep) -> Seq<AudioStep>
    decreases
        (match step {
            AudioStep::Download => 3nat,
            AudioStep::Compress => 2nat,
            AudioStep::RemoveUncompressed => 1nat,
            AudioStep::RenameTemp => 0nat,
        }),
{
    match next_step(step) {
        Some(next) => seq![step] + steps_from(next),
        None => seq![step],
    }
}

/// Where the work on a video stands after a step: at the next step, or at
/// its end, well or with the error of the step that failed.
#[derive(Debug, PartialEq, Eq)]
pub enum Progress {
    Next(AudioStep),
    Finished(Result<(), String>),
}

/// What a [`Progress`] holds, as mathematical values.
pub enum ProgressView {
    Next(AudioStep),
    Finished(Result<(), Seq<char>>),
}

impl View for Progress {
    type V = ProgressView;

    open spec fn view(&self) -> ProgressView {
        match self {
            Progress::Next(step) => ProgressView::Next(*step),
            Progress::Finished(outcome) => ProgressView::Finished(outcome_view(*outcome)),
        }
    }
}

/// Where the work stands after `step` has ended with `outcome`: a failure
/// ends the work with its error, a success leads to the next step, and the
/// success of the last step ends the work well.
pub open spec fn progress_after(step: AudioStep, outcome: Result<(), Seq<char>>) -> ProgressView {
    match outcome {
        Err(error) => ProgressView::Finished(Err(error)),
        Ok(_) => match next_step(step) {
            Some(next) => ProgressView::Next(next),
            None => ProgressView::Finished(Ok(())),
        },
    }
}

/// The name of the file of a song titled `title`.
pub open spec fn song_file(title: Seq<char>) -> Seq<char> {
    title + ".mp3"@
}

/// The name of the file that the compressed song is written to, before it
/// takes the place of the file of the song.
pub open spec fn temp_name(title: Seq<char>) -> Seq<char> {
    title + ".temp.mp3"@
}

/// The request for a search for `query` with at most `max_results`
/// results.
pub fn search_request(query: &str, max_results: u8) -> (request: YoutubeRequestBuilder)
    ensures
        request@ == (RequestView { query: query@, max_results: max_results as nat }),
{
    YoutubeRequestBuilder::new(String::from_str(query)).max_results(max_results)
}

/// The step with which the work on a video begins.
pub fn first_step() -> (step: AudioStep)
    ensures
        step == AudioStep::Download,
{
    AudioStep::Download
}

/// The step to do after `step` has succeeded, or `None` where the work is
/// done.
pub fn step_after(step: AudioStep) -> (next: Option<AudioStep>)
    ensures
        next == next_step(step),
{
    match step {
        AudioStep::Download => Some(AudioStep::Compress),
        AudioStep::Compress => Some(AudioStep::RemoveUncompressed),
        AudioStep::RemoveUncompressed => Some(AudioStep::RenameTemp),
        AudioStep::RenameTemp => None,
    }
}

/// Where the work stands after `step` has ended with `outcome`.
pub fn advance(step: AudioStep, outcome: Result<(), String>) -> (progress: Progress)
    ensures
        progress@ == progress_after(step, outcome_view(outcome)),
{
    match outcome {
        Err(error) => Progress::Finished(Err(error)),
        Ok(_) => match step_after(step) {
            Some(next) => Progress::Next(next),
            None => Progress::Finished(Ok(())),
        },
    }
}

/// The name of the file of a song titled `video_title`, inside the music
/// directory.
pub fn song_file_name(video_title: &str) -> (name: String)
    ensures
        name@ == song_file(video_title@),
{
    let mut name = String::from_str(video_title);
    name.append(".mp3");
    name
}

/// The name of the temporary file of a song titled `video_title`, inside
/// the music directory.
pub fn temp_file_name(video_title: &str) -> (name: String)
    ensures
        name@ == temp_name(video_title@),
{
    let mut name = String::from_str(video_title);
    name.append(".temp.mp3");
    name
}

/// The work on a video is the download, the compression, the removal of
/// the uncompressed file and the renaming of the compressed file, in this
/// order.
pub proof fn lemma_steps_in_order()
    ensures
        steps_from(AudioStep::Download) == seq![
            AudioStep::Download,
            AudioStep::Compress,
            AudioStep::RemoveUncompressed,
            AudioStep::RenameTemp,
        ],
{
    reveal_with_fuel(steps_from, 5);
}

} // verus!
