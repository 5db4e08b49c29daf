//! What the agent commands decide: the output settings, and the styling and
//! truncation shared by the tables and detail views.

pub mod alerts;
pub mod config;
pub mod events;
pub mod quarantine;
pub mod response;
pub mod scan;
pub mod status;

use crate::cli::{Cli, Commands};
use crate::output::{Output, OutputFormat};
use crate::text::{chars_of, push_str, string_of};
use vstd::prelude::*;
use vstd::string::StringSliceAdditionalSpecFns;

verus! {

/// The output settings that the global options ask for: JSON when `--json`
/// was given, tables otherwise, and quiet mode as `--quiet` says.
pub fn create_output(cli: &Cli) -> (r: Output)
    ensures
        r.format_spec() == (if cli.json {
            OutputFormat::Json
        } else {
            OutputFormat::Table
        }),
        r.quiet_spec() == cli.quiet,
{
    let format = if cli.json {
        OutputFormat::Json
    } else {
        OutputFormat::Table
    };
    Output::new(format, cli.quiet)
}

/// How much the tool logs.
#[derive(Clone, Copy, Debug, PartialEq, Eq, Structural)]
pub enum LogLevel {
    Error,
    Warn,
    Info,
    Debug,
    Trace,
}

/// The log level for the global options: errors only in quiet mode, else
/// warnings, and one more level of detail for each `-v` up to tracing.
pub open spec fn log_level_spec(verbose: u8, quiet: bool) -> LogLevel {
    if quiet {
        LogLevel::Error
    } else if verbose == 0 {
        LogLevel::Warn
    } else if verbose == 1 {
        LogLevel::Info
    } else if verbose == 2 {
        LogLevel::Debug
    } else {
        LogLevel::Trace
    }
}

/// The log level for the global options.
pub fn log_level(verbose: u8, quiet: bool) -> (r: LogLevel)
    ensures
        r == log_level_spec(verbose, quiet),
{
    if quiet {
        LogLevel::Error
    } else if verbose == 0 {
        LogLevel::Warn
    } else if verbose == 1 {
        LogLevel::Info
    } else if verbose == 2 {
        LogLevel::Debug
    } else {
        LogLevel::Trace
    }
}

/// How a command is carried out.
#[derive(Clone, Copy, Debug, PartialEq, Eq, Structural)]
pub enum CommandRoute {
    /// `version`: try the agent, and show the tool's own version if it
    /// cannot be reached.
    VersionProbe,
    /// `remote`: talk to the server; no agent connection is made.
    Server,
    /// Every other command: connect to the agent first, failing if it
    /// cannot be reached.
    Agent,
}

/// How a command is carried out.
pub fn command_route(command: &Commands) -> (r: CommandRoute)
    ensures
        r == (match command {
            Commands::Version => CommandRoute::VersionProbe,
            Commands::Remote(_) => CommandRoute::Server,
            _ => CommandRoute::Agent,
        }),
{
    match command {
        Commands::Version => CommandRoute::VersionProbe,
        Commands::Remote(_) => CommandRoute::Server,
        _ => CommandRoute::Agent,
    }
}

/// How a piece of text is drawn on a terminal.
#[derive(Clone, Copy, Debug, PartialEq, Eq, Structural)]
pub enum TextStyle {
    Plain,
    Bold,
    Dimmed,
    Red,
    RedBold,
    Green,
    Yellow,
    YellowBold,
    Blue,
    Cyan,
}

/// A text with the style it is drawn in.
#[derive(Debug)]
pub struct StyledText {
    pub text: String,
    pub style: TextStyle,
}

/// Builds a styled text from a literal.
pub fn styled(text: &str, style: TextStyle) -> (r: StyledText)
    ensures
        r.text@ == text@,
        r.style == style,
{
    StyledText { text: text.to_owned(), style }
}

/// Whether `truncate` accepts a text and a width: the text fits, or the
/// width leaves room for `...` and falls on a character boundary of the
/// UTF-8 bytes.
pub open spec fn truncate_accepts(s: Seq<char>, max_len: nat) -> bool {
    let bytes = vstd::utf8::encode_utf8(s);
    bytes.len() <= max_len || (max_len >= 3 && vstd::utf8::is_char_boundary(
        bytes,
        max_len - 3,
    ))
}

/// A text cut to `max_len` UTF-8 bytes: unchanged when it fits, else its
/// first `max_len - 3` bytes followed by `...`.
pub open spec fn truncate_spec(s: Seq<char>, max_len: nat) -> Seq<char> {
    let bytes = vstd::utf8::encode_utf8(s);
    if bytes.len() <= max_len {
        s
    } else {
        vstd::utf8::decode_utf8(bytes.take(max_len - 3)) + "..."@
    }
}

/// Cuts a text to at most `max_len` bytes of UTF-8, marking a cut with
/// `...`.
pub fn truncate(s: &str, max_len: usize) -> (r: String)
    requires
        truncate_accepts(s@, max_len as nat),
    ensures
        r@ == truncate_spec(s@, max_len as nat),
{
    if s.as_bytes().len() <= max_len {
        return s.to_owned();
    }
    let (head, _tail) = s.split_at(max_len - 3);
    proof {
        vstd::utf8::encode_utf8_decode_utf8(head@);
        assert(head.spec_bytes() =~= s.spec_bytes().take(max_len - 3));
    }
    let mut v = chars_of(head);
    push_str(&mut v, "...");
    proof {
        reveal_strlit("...");
    }
    string_of(v.as_slice())
}

proof fn lemma_encode_concat(a: Seq<char>, b: Seq<char>)
    ensures
        vstd::utf8::encode_utf8(a + b) == vstd::utf8::encode_utf8(a) + vstd::utf8::encode_utf8(b),
    decreases a.len(),
{
    if a.len() == 0 {
        assert(a + b =~= b);
    } else {
        lemma_encode_concat(a.drop_first(), b);
        assert((a + b).drop_first() =~= a.drop_first() + b);
        assert((a + b)[0] == a[0]);
    }
}

/// A cut text takes at most `max_len` bytes of UTF-8, and a text that fits
/// is left as it is.
pub proof fn lemma_truncate_bound(s: Seq<char>, max_len: nat)
    requires
        truncate_accepts(s, max_len),
    ensures
        vstd::utf8::encode_utf8(truncate_spec(s, max_len)).len() <= max_len,
        vstd::utf8::encode_utf8(s).len() <= max_len ==> truncate_spec(s, max_len) == s,
{
    let bytes = vstd::utf8::encode_utf8(s);
    if bytes.len() > max_len {
        let k = (max_len - 3) as int;
        vstd::utf8::encode_utf8_valid_utf8(s);
        vstd::utf8::valid_utf8_split(bytes, k);
        assert(bytes.take(k) =~= bytes.subrange(0, k));
        let head = vstd::utf8::decode_utf8(bytes.take(k));
        vstd::utf8::decode_utf8_encode_utf8(bytes.take(k));
        reveal_strlit("...");
        lemma_encode_concat(head, "..."@);
        assert(vstd::utf8::is_ascii_chars("..."@));
        vstd::utf8::is_ascii_chars_encode_utf8("..."@);
    }
}

} // verus!
