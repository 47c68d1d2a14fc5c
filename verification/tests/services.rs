use rusty_songs::services::youtube::youtube_request_builder::YoutubeRequestBuilder;
use rusty_songs::services::youtube::youtube_service::{
    advance, first_step, search_request, song_file_name, step_after, temp_file_name, AudioStep,
    Progress,
};
use rusty_songs::utils::format::format_duration;
use rusty_songs::utils::text::{has_suffix, push_decimal, push_decimal_two, strip_suffix};
use rusty_songs::utils::video_tools::{
    compress_mp3_command, compress_outcome, download_mp3_command, download_outcome, music_dir,
    watch_url,
};

#[test]
fn request_defaults_to_ten_results() {
    let request = YoutubeRequestBuilder::new("lofi".to_string());
    assert_eq!(request.query, "lofi");
    assert_eq!(request.max_results, 10);
    let fewer = request.max_results(3);
    assert_eq!(fewer.query, "lofi");
    assert_eq!(fewer.max_results, 3);
}

#[test]
fn request_url_has_the_fixed_shape() {
    let request = YoutubeRequestBuilder::new("lofi beats".to_string());
    assert_eq!(
        request.url("https://example.test/search", "KEY"),
        "https://example.test/search?part=snippet&q=lofi beats&maxResults=10&type=video&key=KEY"
    );
    let other = YoutubeRequestBuilder::new(String::new()).max_results(255);
    assert_eq!(other.url("", ""), "?part=snippet&q=&maxResults=255&type=video&key=");
    let none = YoutubeRequestBuilder::new("a&b".to_string()).max_results(0);
    assert_eq!(none.url("u", "k"), "u?part=snippet&q=a&b&maxResults=0&type=video&key=k");
}

#[test]
fn search_request_takes_the_query_and_the_bound() {
    let request = search_request("x", 10);
    assert_eq!(request, YoutubeRequestBuilder { query: "x".to_string(), max_results: 10 });
    assert_eq!(search_request("", 1).max_results, 1);
}

#[test]
fn audio_steps_in_order() {
    let mut steps = vec![first_step()];
    while let Some(next) = step_after(*steps.last().unwrap()) {
        steps.push(next);
    }
    assert_eq!(
        steps,
        vec![
            AudioStep::Download,
            AudioStep::Compress,
            AudioStep::RemoveUncompressed,
            AudioStep::RenameTemp
        ]
    );
    assert_eq!(step_after(AudioStep::RenameTemp), None);
}

#[test]
fn a_failed_step_ends_the_work_with_its_error() {
    for step in [
        AudioStep::Download,
        AudioStep::Compress,
        AudioStep::RemoveUncompressed,
        AudioStep::RenameTemp,
    ] {
        assert_eq!(
            advance(step, Err("broken".to_string())),
            Progress::Finished(Err("broken".to_string()))
        );
    }
}

#[test]
fn a_step_that_succeeds_leads_to_the_next() {
    assert_eq!(advance(AudioStep::Download, Ok(())), Progress::Next(AudioStep::Compress));
    assert_eq!(advance(AudioStep::Compress, Ok(())), Progress::Next(AudioStep::RemoveUncompressed));
    assert_eq!(
        advance(AudioStep::RemoveUncompressed, Ok(())),
        Progress::Next(AudioStep::RenameTemp)
    );
    assert_eq!(advance(AudioStep::RenameTemp, Ok(())), Progress::Finished(Ok(())));
}

#[test]
fn audio_file_names_of_a_title() {
    assert_eq!(song_file_name("My Song"), "My Song.mp3");
    assert_eq!(temp_file_name("My Song"), "My Song.temp.mp3");
    assert_eq!(song_file_name(""), ".mp3");
    assert_eq!(temp_file_name(""), ".temp.mp3");
}

#[test]
fn compressor_command() {
    let command = compress_mp3_command("music/a.mp3", "music/a.temp.mp3");
    assert_eq!(command.program, "ffmpeg");
    assert_eq!(command.args, vec!["-i", "music/a.mp3", "-b:a", "64k", "music/a.temp.mp3"]);
}

#[test]
fn music_directory_defaults_to_music() {
    assert_eq!(music_dir(None), "music");
    assert_eq!(music_dir(Some("/srv/tunes".to_string())), "/srv/tunes");
    assert_eq!(music_dir(Some(String::new())), "");
}

#[test]
fn downloader_command() {
    let command = download_mp3_command("music/a.mp3", "https://www.youtube.com/watch?v=abc");
    assert_eq!(command.program, "yt-dlp");
    assert_eq!(
        command.args,
        vec![
            "-x",
            "--audio-format",
            "mp3",
            "--audio-quality",
            "0",
            "-o",
            "music/a.mp3",
            "https://www.youtube.com/watch?v=abc"
        ]
    );
}

#[test]
fn watch_url_of_an_identifier() {
    assert_eq!(watch_url("dQw4"), "https://www.youtube.com/watch?v=dQw4");
    assert_eq!(watch_url(""), "https://www.youtube.com/watch?v=");
}

#[test]
fn tool_outcomes() {
    assert_eq!(compress_outcome(true), Ok(()));
    assert_eq!(compress_outcome(false), Err("ffmpeg failed to compress MP3".to_string()));
    assert_eq!(download_outcome(true), Ok(()));
    assert_eq!(download_outcome(false), Err("yt-dlp failed to download video".to_string()));
}

#[test]
fn durations_as_text() {
    assert_eq!(format_duration(0), "00:00");
    assert_eq!(format_duration(9), "00:09");
    assert_eq!(format_duration(59), "00:59");
    assert_eq!(format_duration(60), "01:00");
    assert_eq!(format_duration(61), "01:01");
    assert_eq!(format_duration(599), "09:59");
    assert_eq!(format_duration(600), "10:00");
    assert_eq!(format_duration(3599), "59:59");
    assert_eq!(format_duration(3600), "60:00");
    assert_eq!(format_duration(6000), "100:00");
    assert_eq!(format_duration(u64::MAX), "307445734561825860:15");
}

#[test]
fn decimal_numerals() {
    for n in [0u64, 1, 9, 10, 11, 99, 100, 101, 1234567890, u64::MAX] {
        let mut text = "n=".to_string();
        push_decimal(&mut text, n);
        assert_eq!(text, format!("n={}", n));
        let mut padded = String::new();
        push_decimal_two(&mut padded, n);
        assert_eq!(padded, format!("{:02}", n));
    }
}

#[test]
fn suffixes() {
    assert!(has_suffix("a.mp3", ".mp3"));
    assert!(has_suffix(".mp3", ".mp3"));
    assert!(has_suffix("abc", ""));
    assert!(has_suffix("", ""));
    assert!(!has_suffix("mp3", ".mp3"));
    assert!(!has_suffix("a.mp3x", ".mp3"));
    assert!(!has_suffix("", "a"));
    assert!(has_suffix("h\u{e9}llo.mp3", "llo.mp3"));
    assert!(has_suffix("caf\u{e9}", "\u{e9}"));
    assert!(!has_suffix("cafe", "\u{e9}"));
    assert_eq!(strip_suffix("a.mp3", ".mp3"), "a");
    assert_eq!(strip_suffix("a.mp3.mp3", ".mp3"), "a.mp3");
    assert_eq!(strip_suffix(".mp3", ".mp3"), "");
    assert_eq!(strip_suffix("a.mp4", ".mp3"), "a.mp4");
    assert_eq!(strip_suffix("caf\u{e9}.mp3", ".mp3"), "caf\u{e9}");
    assert_eq!(strip_suffix("", ".mp3"), "");
}
