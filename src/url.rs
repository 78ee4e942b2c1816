//! Opening a URL in the system browser: validation and the choice of the
//! operating system's opener command.

use vstd::prelude::*;
use crate::text::has_prefix;

verus! {

/// What `str::trim` makes of a string: it drops leading and trailing
/// Unicode white space.
pub uninterp spec fn trimmed(s: Seq<char>) -> Seq<char>;

/// Relies on `str::trim`: the result depends on the characters alone and is
/// never longer than its input.
#[verifier::external_body]
fn trim_str(s: &str) -> (r: &str)
    ensures
        r@ == trimmed(s@),
        r@.len() <= s@.len(),
{
    s.trim()
}

/// The operating systems with a known way to open a URL.
#[derive(Clone, Copy, Debug, PartialEq, Eq)]
pub enum TargetOs {
    MacOs,
    Linux,
    Windows,
}

/// Why a URL was not opened.
#[derive(Clone, Copy, Debug, PartialEq, Eq)]
pub enum UrlError {
    /// Nothing but white space was given.
    Empty,
    /// The URL is neither `http://` nor `https://`.
    UnsupportedScheme,
}

impl UrlError {
    /// The message shown to the user.
    pub fn message(&self) -> (r: String)
        ensures
            r@ == match self {
                UrlError::Empty => "URL is empty."@,
                UrlError::UnsupportedScheme => "Only http/https URLs are supported."@,
            },
    {
        match self {
            UrlError::Empty => String::from_str("URL is empty."),
            UrlError::UnsupportedScheme => String::from_str("Only http/https URLs are supported."),
        }
    }
}

/// A command to run: a program and its arguments.
#[derive(Clone, Debug)]
pub struct OpenCommand {
    pub program: String,
    pub args: Vec<String>,
}

impl View for OpenCommand {
    type V = (Seq<char>, Seq<Seq<char>>);

    open spec fn view(&self) -> (Seq<char>, Seq<Seq<char>>) {
        (self.program@, self.args.deep_view())
    }
}

/// The opener program of each system and the arguments put before the URL.
pub open spec fn opener(os: TargetOs) -> (Seq<char>, Seq<Seq<char>>) {
    match os {
        TargetOs::MacOs => ("open"@, seq![]),
        TargetOs::Linux => ("xdg-open"@, seq![]),
        TargetOs::Windows => ("rundll32"@, seq!["url.dll,FileProtocolHandler"@]),
    }
}

/// The verdict on an already trimmed URL.
pub open spec fn url_verdict(url: Seq<char>) -> Result<(), UrlError> {
    if url.len() == 0 {
        Err(UrlError::Empty)
    } else if !"http://"@.is_prefix_of(url) && !"https://"@.is_prefix_of(url) {
        Err(UrlError::UnsupportedScheme)
    } else {
        Ok(())
    }
}

/// The opener command of `os`, before any URL is added.
pub fn opener_for(os: TargetOs) -> (r: OpenCommand)
    ensures
        r@ == opener(os),
{
    let mut args: Vec<String> = Vec::new();
    let program = match os {
        TargetOs::MacOs => String::from_str("open"),
        TargetOs::Linux => String::from_str("xdg-open"),
        TargetOs::Windows => {
            args.push(String::from_str("url.dll,FileProtocolHandler"));
            String::from_str("rundll32")
        },
    };
    assert(args.deep_view() =~= opener(os).1);
    OpenCommand { program, args }
}

/// Checks a trimmed URL: it must be non-empty and use `http` or `https`.
pub fn validate_url(url: &str) -> (r: Result<(), UrlError>)
    ensures
        r == url_verdict(url@),
{
    if url.unicode_len() == 0 {
        return Err(UrlError::Empty);
    }
    if !has_prefix(url, "http://") && !has_prefix(url, "https://") {
        return Err(UrlError::UnsupportedScheme);
    }
    Ok(())
}

/// The command that opens an already trimmed `url` on `os`, or why it is
/// refused.
pub fn open_trimmed_url_command(url: &str, os: TargetOs) -> (r: Result<OpenCommand, UrlError>)
    ensures
        match url_verdict(url@) {
            Ok(()) => r is Ok && r->Ok_0@ == (opener(os).0, opener(os).1.push(url@)),
            Err(e) => r == Err::<OpenCommand, UrlError>(e),
        },
{
    match validate_url(url) {
        Err(e) => Err(e),
        Ok(()) => {
            let mut cmd = opener_for(os);
            cmd.args.push(String::from_str(url));
            assert(cmd.args.deep_view() =~= opener(os).1.push(url@));
            Ok(cmd)
        },
    }
}

/// The command that opens `url`, with surrounding white space dropped, in
/// the browser of `os`, or why it is refused.
pub fn open_url_command(url: &str, os: TargetOs) -> (r: Result<OpenCommand, UrlError>)
    ensures
        match url_verdict(trimmed(url@)) {
            Ok(()) => r is Ok && r->Ok_0@ == (opener(os).0, opener(os).1.push(trimmed(url@))),
            Err(e) => r == Err::<OpenCommand, UrlError>(e),
        },
{
    open_trimmed_url_command(trim_str(url), os)
}

} // verus!
