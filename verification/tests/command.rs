use youtube_downloader::command::{parse, Command, DownloadRequest};
use youtube_downloader::error::SessionError;
use youtube_downloader::text::split_words;

fn download(url: &str, output_name: &str, audio_only: bool) -> Result<Command, SessionError> {
    Ok(Command::Download(DownloadRequest {
        url: url.to_string(),
        output_name: output_name.to_string(),
        audio_only,
    }))
}

#[test]
fn test_command_parsing() {
    let test_commands = vec![
        "download https://youtu.be/test",
        "download https://youtu.be/test -a",
        "download https://youtu.be/test -o myvideo",
        "download https://youtu.be/test -a -o myaudio",
    ];

    for cmd in test_commands {
        let parts = split_words(cmd);
        assert!(parts.len() >= 2, "Command should have at least 2 parts: {cmd}");
        assert_eq!(parts[0], "download", "First part should be 'download': {cmd}");
        assert!(parts[1].contains("youtu"), "Second part should contain 'youtu': {cmd}");
        assert!(matches!(parse(cmd), Ok(Command::Download(_))), "{cmd}");
    }
}

#[test]
fn test_help_command_availability() {
    let help_commands = vec!["help", "exit", "quit", "clear", "stats", "demo"];

    for cmd in help_commands {
        assert!(!cmd.is_empty(), "Help command should not be empty");
        assert!(cmd.chars().all(|c| c.is_ascii_lowercase()), "Command should be lowercase: {cmd}");
        let parsed = parse(cmd);
        assert!(!matches!(parsed, Ok(Command::Unknown(_)) | Err(_)), "{cmd}");
    }
}

#[test]
fn built_in_commands() {
    assert_eq!(parse("exit"), Ok(Command::Exit));
    assert_eq!(parse("quit"), Ok(Command::Exit));
    assert_eq!(parse("help"), Ok(Command::Help));
    assert_eq!(parse("clear"), Ok(Command::Clear));
    assert_eq!(parse("stats"), Ok(Command::Stats));
    assert_eq!(parse("demo"), Ok(Command::Demo));
}

#[test]
fn built_in_commands_are_spelled_exactly() {
    for line in ["Exit", "EXIT", "exit now", " exit", "exit ", "quit!", "helpme", "help me", "stat"] {
        assert_eq!(parse(line), Ok(Command::Unknown(line.to_string())), "{line:?}");
    }
}

#[test]
fn download_with_defaults() {
    assert_eq!(
        parse("download https://youtu.be/test"),
        download("https://youtu.be/test", "video", false)
    );
    assert_eq!(
        parse("download https://youtu.be/test"),
        Ok(Command::Download(DownloadRequest::new("https://youtu.be/test")))
    );
}

#[test]
fn download_with_audio_flag() {
    assert_eq!(
        parse("download https://youtu.be/test -a"),
        download("https://youtu.be/test", "video", true)
    );
    assert_eq!(
        parse("download https://youtu.be/test --audio"),
        download("https://youtu.be/test", "video", true)
    );
    assert_eq!(
        parse("download https://youtu.be/test --audio-only"),
        download("https://youtu.be/test", "video", false)
    );
    assert_eq!(
        parse("download https://youtu.be/test -A"),
        download("https://youtu.be/test", "video", false)
    );
}

#[test]
fn download_with_output_name() {
    assert_eq!(
        parse("download https://youtu.be/test -o myvideo"),
        download("https://youtu.be/test", "myvideo", false)
    );
}

#[test]
fn download_with_audio_and_output_name() {
    assert_eq!(
        parse("download https://youtu.be/test -a -o myaudio"),
        download("https://youtu.be/test", "myaudio", true)
    );
    assert_eq!(
        parse("download https://youtu.be/test -o myaudio -a"),
        download("https://youtu.be/test", "myaudio", true)
    );
}

#[test]
fn output_flag_without_a_name_keeps_the_default() {
    assert_eq!(
        parse("download https://youtu.be/test -o"),
        download("https://youtu.be/test", "video", false)
    );
    assert_eq!(
        parse("download https://youtu.be/test -a -o"),
        download("https://youtu.be/test", "video", true)
    );
}

#[test]
fn first_output_flag_wins() {
    assert_eq!(
        parse("download https://youtu.be/test -o one -o two"),
        download("https://youtu.be/test", "one", false)
    );
    assert_eq!(
        parse("download https://youtu.be/test -o -o two"),
        download("https://youtu.be/test", "-o", false)
    );
}

#[test]
fn a_flag_may_be_an_output_name() {
    assert_eq!(
        parse("download https://youtu.be/test -o -a"),
        download("https://youtu.be/test", "-a", true)
    );
}

#[test]
fn url_word_may_be_a_flag() {
    assert_eq!(parse("download -a"), download("-a", "video", true));
    assert_eq!(parse("download --audio"), download("--audio", "video", true));
    assert_eq!(parse("download -o name"), download("-o", "name", false));
    assert_eq!(parse("download -o"), download("-o", "video", false));
    assert_eq!(parse("download -o x -o y"), download("-o", "x", false));
}

#[test]
fn command_word_is_no_flag() {
    assert_eq!(parse("download download"), download("download", "video", false));
}

#[test]
fn download_does_not_validate_the_url() {
    assert_eq!(parse("download nonsense"), download("nonsense", "video", false));
}

#[test]
fn download_words_may_be_parted_by_any_whitespace() {
    assert_eq!(
        parse("download \t https://youtu.be/test\u{a0}-a   -o\tname"),
        download("https://youtu.be/test", "name", true)
    );
}

#[test]
fn download_without_url_is_a_usage_error() {
    assert_eq!(parse("download "), Err(SessionError::UsageError));
    assert_eq!(parse("download    "), Err(SessionError::UsageError));
    assert_eq!(parse("download \t"), Err(SessionError::UsageError));
}

#[test]
fn bare_download_is_a_usage_error() {
    let parsed = parse("download");
    assert!(!matches!(parsed, Ok(Command::Download(_))));
    assert_eq!(parsed, Err(SessionError::UsageError));
}

#[test]
fn download_must_be_a_word_of_its_own() {
    assert_eq!(parse("downloads"), Ok(Command::Unknown("downloads".to_string())));
    assert_eq!(parse("downloads x"), Ok(Command::Unknown("downloads x".to_string())));
    assert_eq!(parse("download\tx"), Ok(Command::Unknown("download\tx".to_string())));
    assert_eq!(parse("Download x"), Ok(Command::Unknown("Download x".to_string())));
    assert_eq!(parse(" download"), Ok(Command::Unknown(" download".to_string())));
}

#[test]
fn direct_url() {
    assert_eq!(
        parse("https://youtu.be/dQw4w9WgXcQ"),
        Ok(Command::DirectUrl("https://youtu.be/dQw4w9WgXcQ".to_string()))
    );
    assert_eq!(
        parse("https://www.youtube.com/watch?v=dQw4w9WgXcQ&t=10s"),
        Ok(Command::DirectUrl("https://www.youtube.com/watch?v=dQw4w9WgXcQ&t=10s".to_string()))
    );
}

#[test]
fn unknown_input() {
    assert_eq!(parse("hello"), Ok(Command::Unknown("hello".to_string())));
    assert_eq!(
        parse("https://vimeo.com/123456"),
        Ok(Command::Unknown("https://vimeo.com/123456".to_string()))
    );
    assert_eq!(parse(""), Ok(Command::Unknown(String::new())));
}

#[test]
fn default_request() {
    let request = DownloadRequest::new("https://youtu.be/x");
    assert_eq!(request.url, "https://youtu.be/x");
    assert_eq!(request.output_name, "video");
    assert!(!request.audio_only);
}
