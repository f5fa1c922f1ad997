//! What one line of input asks for.

use crate::error::{SessionError, SessionErrorView};
use crate::text::{
    chars_of, is_whitespace, lemma_text_has_word, lemma_trimmed_ends, lemma_word_len, part_at,
    same_text, split_words, trimmed, words,
};
use crate::url::{is_youtube_url, supported_url};
use vstd::prelude::*;

verus! {

/// One download: what to fetch, under which name, and whether only the
/// sound track is wanted.
#[derive(Debug, Clone, PartialEq, Eq)]
pub struct DownloadRequest {
    pub url: String,
    pub output_name: String,
    pub audio_only: bool,
}

/// A `DownloadRequest` with its texts as character sequences.
pub struct DownloadRequestView {
    pub url: Seq<char>,
    pub output_name: Seq<char>,
    pub audio_only: bool,
}

impl View for DownloadRequest {
    type V = DownloadRequestView;

    open spec fn view(&self) -> DownloadRequestView {
        DownloadRequestView {
            url: self.url@,
            output_name: self.output_name@,
            audio_only: self.audio_only,
        }
    }
}

/// The request for `url` with nothing else said: the video, under the name
/// `video`.
pub open spec fn default_request(url: Seq<char>) -> DownloadRequestView {
    DownloadRequestView { url, output_name: "video"@, audio_only: false }
}

impl DownloadRequest {
    /// The request for `url` with the default name and mode.
    pub fn new(url: &str) -> (r: DownloadRequest)
        ensures
            r@ == default_request(url@),
    {
        DownloadRequest {
            url: url.to_owned(),
            output_name: "video".to_owned(),
            audio_only: false,
        }
    }
}

/// What a line of input asks for.
#[derive(Debug, Clone, PartialEq, Eq)]
pub enum Command {
    Exit,
    Help,
    Clear,
    Stats,
    Demo,
    /// `download <url>` with its flags.
    Download(DownloadRequest),
    /// A supported URL on a line of its own.
    DirectUrl(String),
    /// Anything else, as it was typed.
    Unknown(String),
}

/// A `Command` with its texts as character sequences.
pub enum CommandView {
    Exit,
    Help,
    Clear,
    Stats,
    Demo,
    Download(DownloadRequestView),
    DirectUrl(Seq<char>),
    Unknown(Seq<char>),
}

impl View for Command {
    type V = CommandView;

    open spec fn view(&self) -> CommandView {
        match self {
            Command::Exit => CommandView::Exit,
            Command::Help => CommandView::Help,
            Command::Clear => CommandView::Clear,
            Command::Stats => CommandView::Stats,
            Command::Demo => CommandView::Demo,
            Command::Download(request) => CommandView::Download(request@),
            Command::DirectUrl(url) => CommandView::DirectUrl(url@),
            Command::Unknown(text) => CommandView::Unknown(text@),
        }
    }
}

/// Whether one of the words asks for the sound track only.
pub open spec fn wants_audio(words: Seq<Seq<char>>) -> bool {
    words.contains("-a"@) || words.contains("--audio"@)
}

/// The word that follows the first `-o` among the words, if one follows.
pub open spec fn named_output(words: Seq<Seq<char>>) -> Option<Seq<char>>
    decreases words.len(),
{
    if words.len() == 0 {
        None
    } else if words[0] == "-o"@ {
        if words.len() > 1 {
            Some(words[1])
        } else {
            None
        }
    } else {
        named_output(words.skip(1))
    }
}

/// The download that the words of a `download` line ask for. The second
/// word is the URL. The flags are sought among all the words behind
/// `download`, the URL among them.
pub open spec fn requested(parts: Seq<Seq<char>>) -> DownloadRequestView
    recommends
        parts.len() >= 2,
{
    let behind = parts.skip(1);
    DownloadRequestView {
        url: parts[1],
        output_name: match named_output(behind) {
            Some(name) => name,
            None => "video"@,
        },
        audio_only: wants_audio(behind),
    }
}

/// What `line` asks for. The rules apply in this order: the built-in
/// commands, spelled exactly; the word `download`, alone or with a space
/// behind it; a supported URL; anything else.
///
/// A `download` line names its URL as its second word. One that has no
/// second word is a usage error, never a download of nothing.
pub open spec fn parsed(line: Seq<char>) -> Result<CommandView, SessionErrorView> {
    if line == "exit"@ || line == "quit"@ {
        Ok(CommandView::Exit)
    } else if line == "help"@ {
        Ok(CommandView::Help)
    } else if line == "clear"@ {
        Ok(CommandView::Clear)
    } else if line == "stats"@ {
        Ok(CommandView::Stats)
    } else if line == "demo"@ {
        Ok(CommandView::Demo)
    } else if line == "download"@ || "download "@.is_prefix_of(line) {
        if words(line).len() >= 2 {
            Ok(CommandView::Download(requested(words(line))))
        } else {
            Err(SessionErrorView::UsageError)
        }
    } else if supported_url(line) {
        Ok(CommandView::DirectUrl(line))
    } else {
        Ok(CommandView::Unknown(line))
    }
}

/// The word `download` with nothing behind it is a usage error.
pub proof fn lemma_bare_download_is_usage_error()
    ensures
        parsed("download"@) == Err::<CommandView, SessionErrorView>(SessionErrorView::UsageError),
{
    reveal_literals();
    let line = "download"@;
    assert forall|k: int| 0 <= k < 8 implies !is_whitespace(line[k]) by {}
    lemma_word_len(line, 8);
    assert(line.skip(8).len() == 0);
    assert(words(line.skip(8)).len() == 0);
    assert(words(line).len() == 1);
}

/// Among the lines without whitespace at their ends, the word `download`
/// alone is the one usage error: every other `download` line names a URL.
pub proof fn lemma_usage_error_on_trimmed_line(line: Seq<char>)
    requires
        trimmed(line) == line,
    ensures
        parsed(line) is Err <==> line == "download"@,
{
    reveal_literals();
    lemma_bare_download_is_usage_error();
    let head = "download "@;
    if line != "download"@ && head.is_prefix_of(line) {
        lemma_trimmed_ends(line);
        assert(line.subrange(0, 9)[8] == ' ');
        assert(line.last() != ' ');
        assert forall|k: int| 0 <= k < 8 implies !is_whitespace(line[k]) by {
            assert(line[k] == line.subrange(0, 9)[k]);
        }
        assert(is_whitespace(line[8]));
        lemma_word_len(line, 8);
        let rest = line.skip(8);
        assert(rest[rest.len() - 1] == line.last());
        lemma_text_has_word(rest, rest.len() - 1);
    }
}

proof fn reveal_literals()
    ensures
        "exit"@.len() == 4,
        "quit"@.len() == 4,
        "help"@.len() == 4,
        "clear"@.len() == 5,
        "stats"@.len() == 5,
        "demo"@.len() == 4,
        "download"@ == seq!['d', 'o', 'w', 'n', 'l', 'o', 'a', 'd'],
        "download "@ == seq!['d', 'o', 'w', 'n', 'l', 'o', 'a', 'd', ' '],
{
    reveal_strlit("exit");
    reveal_strlit("quit");
    reveal_strlit("help");
    reveal_strlit("clear");
    reveal_strlit("stats");
    reveal_strlit("demo");
    reveal_strlit("download");
    reveal_strlit("download ");
    assert("download"@ =~= seq!['d', 'o', 'w', 'n', 'l', 'o', 'a', 'd']);
    assert("download "@ =~= seq!['d', 'o', 'w', 'n', 'l', 'o', 'a', 'd', ' ']);
}

/// Whether `word` stands among `parts` at index `from` or behind it.
fn has_word(parts: &Vec<String>, from: usize, word: &str) -> (r: bool)
    requires
        from <= parts.len(),
    ensures
        r == parts.deep_view().skip(from as int).contains(word@),
{
    let ghost behind = parts.deep_view().skip(from as int);
    let mut i: usize = from;
    while i < parts.len()
        invariant
            from <= i <= parts.len(),
            behind == parts.deep_view().skip(from as int),
            forall|k: int| 0 <= k < i - from ==> behind[k] != word@,
        decreases parts.len() - i,
    {
        if same_text(parts[i].as_str(), word) {
            assert(behind[i - from] == word@);
            return true;
        }
        i += 1;
    }
    false
}

/// The word behind the first `-o` that stands among `parts` at index `from`
/// or behind it.
fn find_output(parts: &Vec<String>, from: usize) -> (r: Option<String>)
    requires
        from <= parts.len(),
    ensures
        match r {
            Some(name) => named_output(parts.deep_view().skip(from as int)) == Some(name@),
            None => named_output(parts.deep_view().skip(from as int)) is None,
        },
{
    let ghost all = parts.deep_view();
    let mut i: usize = from;
    while i < parts.len()
        invariant
            from <= i <= parts.len(),
            all == parts.deep_view(),
            named_output(all.skip(from as int)) == named_output(all.skip(i as int)),
        decreases parts.len() - i,
    {
        let ghost rest = all.skip(i as int);
        assert(rest[0] == parts[i as int]@);
        if same_text(parts[i].as_str(), "-o") {
            if i + 1 < parts.len() {
                assert(rest[1] == parts[i + 1]@);
                return Some(parts[i + 1].clone());
            } else {
                return None;
            }
        }
        assert(rest.skip(1) =~= all.skip(i + 1));
        i += 1;
    }
    None
}

/// What `parse` returned, with its texts as character sequences.
pub open spec fn parse_view(r: Result<Command, SessionError>) -> Result<
    CommandView,
    SessionErrorView,
> {
    match r {
        Ok(command) => Ok(command@),
        Err(error) => Err(error@),
    }
}

/// Reads one line of input.
pub fn parse(line: &str) -> (r: Result<Command, SessionError>)
    ensures
        parse_view(r) == parsed(line@),
{
    if same_text(line, "exit") || same_text(line, "quit") {
        return Ok(Command::Exit);
    }
    if same_text(line, "help") {
        return Ok(Command::Help);
    }
    if same_text(line, "clear") {
        return Ok(Command::Clear);
    }
    if same_text(line, "stats") {
        return Ok(Command::Stats);
    }
    if same_text(line, "demo") {
        return Ok(Command::Demo);
    }
    let text = chars_of(line);
    if same_text(line, "download") || part_at(&text, 0, "download ") {
        let parts = split_words(line);
        if parts.len() >= 2 {
            let audio_only = has_word(&parts, 1, "-a") || has_word(&parts, 1, "--audio");
            let output_name = match find_output(&parts, 1) {
                Some(name) => name,
                None => "video".to_owned(),
            };
            let request = DownloadRequest { url: parts[1].clone(), output_name, audio_only };
            return Ok(Command::Download(request));
        } else {
            return Err(SessionError::UsageError);
        }
    }
    if is_youtube_url(line) {
        Ok(Command::DirectUrl(line.to_owned()))
    } else {
        Ok(Command::Unknown(line.to_owned()))
    }
}

} // verus!
