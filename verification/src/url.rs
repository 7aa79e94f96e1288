//! The parts of a URL that decide which storage backend it names.
use std::path::PathBuf;

use vstd::prelude::*;

use crate::error::{fatal_error, Error, ErrorView};
use crate::paths::{path_from, path_of};
use crate::text::{
    chars_of, join3, join4, occurs_at, replace, replaced, same, starts_with, string_of,
};

verus! {

/// The parts of a parsed URL: `S` is the type of its strings.
#[derive(Debug)]
pub struct UrlParts<S> {
    /// The scheme, in lower case.
    pub scheme: S,
    /// The host, where the URL has one.
    pub host: Option<S>,
    /// The port, where it is given and is not the scheme's default.
    pub port: Option<u16>,
    /// The path, percent-encoded.
    pub path: S,
    /// The user name, empty where there is none.
    pub username: S,
}

/// The characters of an optional string.
pub open spec fn opt_chars(s: Option<String>) -> Option<Seq<char>> {
    match s {
        Some(text) => Some(text@),
        None => None,
    }
}

impl View for UrlParts<String> {
    type V = UrlParts<Seq<char>>;

    open spec fn view(&self) -> UrlParts<Seq<char>> {
        UrlParts {
            scheme: self.scheme@,
            host: opt_chars(self.host),
            port: self.port,
            path: self.path@,
            username: self.username@,
        }
    }
}

/// What `url::Url::parse` makes of a text: the parts of the URL, or the text of the parse error.
pub uninterp spec fn parsed_url(text: Seq<char>) -> Result<UrlParts<Seq<char>>, Seq<char>>;

/// Calls `url::Url::parse` and copies the parts out of the URL, or displays the parse error. Both
/// are determined by the text alone. What stands before the first colon of a URL is its scheme.
#[verifier::external_body]
pub(crate) fn parse_url(text: &str) -> (parsed: Result<UrlParts<String>, String>)
    ensures
        match parsed {
            Ok(url) => parsed_url(text@) == Ok::<UrlParts<Seq<char>>, Seq<char>>(url@),
            Err(error) => parsed_url(text@) == Err::<UrlParts<Seq<char>>, Seq<char>>(error@),
        },
        occurs_at(text@, "file://"@, 0) ==> (parsed matches Ok(url) ==> url.scheme@ == "file"@),
{
    match url::Url::parse(text) {
        Ok(url) => Ok(UrlParts {
            scheme: url.scheme().to_owned(),
            host: url.host_str().map(str::to_owned),
            port: url.port(),
            path: url.path().to_owned(),
            username: url.username().to_owned(),
        }),
        Err(error) => Err(error.to_string()),
    }
}

/// The path of the file that the URL in `text` names on the platform of an operating system, where
/// it names one.
pub uninterp spec fn url_file(text: Seq<char>, os: Seq<char>) -> Option<PathBuf>;

/// The operating system whose paths start with a drive or a share.
pub open spec fn is_windows(os: Seq<char>) -> bool {
    os == "windows"@
}

/// The URL has no host, or names the machine itself.
pub open spec fn is_local(url: UrlParts<Seq<char>>) -> bool {
    match url.host {
        Some(host) => host == "localhost"@,
        None => true,
    }
}

/// The text starts with a separator of Windows, be it percent-encoded.
pub open spec fn starts_with_separator(text: Seq<char>) -> bool {
    ||| text[0] == '/'
    ||| text[0] == '\\'
    ||| occurs_at(text, "%2f"@, 0)
    ||| occurs_at(text, "%2F"@, 0)
    ||| occurs_at(text, "%5c"@, 0)
    ||| occurs_at(text, "%5C"@, 0)
}

/// The character is a letter of ASCII.
pub open spec fn is_letter(c: char) -> bool {
    ('a' <= c && c <= 'z') || ('A' <= c && c <= 'Z')
}

/// Without a host, the path of the URL is a drive alone, its colon perhaps percent-encoded.
pub open spec fn is_bare_drive(url: UrlParts<Seq<char>>) -> bool {
    let drive = url.path.skip(1);
    &&& is_local(url)
    &&& url.path.len() > 1
    &&& is_letter(drive[0])
    &&& drive.skip(1) == ":"@ || drive.skip(1) == "%3a"@ || drive.skip(1) == "%3A"@
}

/// After a host, the path of the URL starts with no name: on Windows, there is no share.
pub open spec fn is_empty_share(url: UrlParts<Seq<char>>) -> bool {
    !is_local(url) && (url.path.len() <= 1 || starts_with_separator(url.path.skip(1)))
}

/// Taken as one of Windows, the path of the URL is not absolute.
pub open spec fn is_rootless(url: UrlParts<Seq<char>>) -> bool {
    is_bare_drive(url) || is_empty_share(url)
}

/// Calls `url::Url::to_file_path` on the URL that the text holds: the path of the file that it
/// names, if any, by the conventions of the platform. `os` is the operating system that the program
/// runs on, as `std::env::consts::OS` names it. On Windows, the call may panic on a URL whose path
/// would not be absolute. A machine with no memory left for the path is not considered.
#[verifier::external_body]
pub(crate) fn platform_file_path(text: &str, os: &str) -> (path: Option<PathBuf>)
    requires
        is_windows(os@) ==> match parsed_url(text@) {
            Ok(url) => !is_rootless(url),
            Err(_) => true,
        },
    ensures
        path == url_file(text@, os@),
{
    url::Url::parse(text).ok()?.to_file_path().ok()
}

/// `file:` URLs may be written with backslashes: those are read as slashes. Other URLs are taken
/// as they are.
pub open spec fn normalized_url(url_str: Seq<char>) -> Seq<char> {
    if occurs_at(url_str, "file://"@, 0) {
        replaced(url_str, '\\', '/')
    } else {
        url_str
    }
}

/// Reads the backslashes of a `file:` URL as slashes.
pub fn normalize_url(url_str: &str) -> (normalized: String)
    ensures
        normalized@ == normalized_url(url_str@),
{
    if starts_with(url_str, "file://") {
        replace(url_str, '\\', '/')
    } else {
        url_str.to_owned()
    }
}

/// On Windows, `file://C/dir` means drive `C`: the host of one byte is a drive letter.
pub open spec fn drive_of(url: UrlParts<Seq<char>>, os: Seq<char>) -> Option<Seq<char>> {
    match url.host {
        Some(host) if is_windows(os) && vstd::utf8::encode_utf8(host).len() == 1 => Some(host),
        _ => None,
    }
}

/// The error for a `file:` URL that names no file.
pub open spec fn invalid_file_url(url_str: Seq<char>) -> ErrorView {
    fatal_error(
        "Invalid file URL '"@ + url_str + "': unable to convert to filesystem path"@,
    )
}

/// The filesystem path that a `file:` URL names, given what the platform makes of the URL and of
/// its form with the drive letter in the path.
pub open spec fn file_path(
    url: UrlParts<Seq<char>>,
    url_str: Seq<char>,
    os: Seq<char>,
    native: Option<PathBuf>,
    with_drive: Option<PathBuf>,
) -> Result<PathBuf, ErrorView> {
    match (native, drive_of(url, os), with_drive) {
        (Some(path), _, _) => Ok(path),
        (None, Some(_), Some(path)) => Ok(path),
        (None, Some(drive), None) => Ok(path_of(drive + ":"@ + url.path, os)),
        (None, None, _) => Err(invalid_file_url(url_str)),
    }
}

/// A file path as the library makes it known to its callers.
pub open spec fn path_result(path: Result<PathBuf, Error>) -> Result<PathBuf, ErrorView> {
    match path {
        Ok(path) => Ok(path),
        Err(error) => Err(error@),
    }
}

/// The URL that names the path of `url` on the drive that its host stands for, if it stands for
/// one.
pub open spec fn url_on_drive(url: UrlParts<Seq<char>>, os: Seq<char>) -> Option<Seq<char>> {
    match drive_of(url, os) {
        Some(drive) => Some("file:///"@ + drive + ":"@ + url.path),
        None => None,
    }
}

/// What the platform makes of `url` on its drive: of a text that is no URL, nothing.
pub open spec fn file_on_drive(url: UrlParts<Seq<char>>, os: Seq<char>) -> Option<PathBuf> {
    match url_on_drive(url, os) {
        Some(text) => if parsed_url(text) is Ok {
            url_file(text, os)
        } else {
            None
        },
        None => None,
    }
}

/// The path that the `file:` URL in `text` names, given that `url` was parsed from it and the
/// caller wrote it as `url_str`.
pub open spec fn file_url_path(
    url: UrlParts<Seq<char>>,
    text: Seq<char>,
    url_str: Seq<char>,
    os: Seq<char>,
) -> Result<PathBuf, ErrorView> {
    file_path(url, url_str, os, url_file(text, os), file_on_drive(url, os))
}

/// On Windows, neither the path of `url` nor that of `url` on its drive would fail to be absolute.
pub open spec fn is_rooted(url: UrlParts<Seq<char>>, os: Seq<char>) -> bool {
    is_windows(os) ==> {
        &&& !is_rootless(url)
        &&& url_on_drive(url, os) matches Some(text) ==> (parsed_url(text) matches Ok(
            fixed,
        ) ==> !is_rootless(fixed))
    }
}

/// The drive letter that the host of a `file:` URL stands for, on Windows.
fn drive_letter(url: &UrlParts<String>, os: &str) -> (drive: Option<String>)
    ensures
        opt_chars(drive) == drive_of(url@, os@),
{
    match &url.host {
        Some(host) => if same(os, "windows") && host.as_str().as_bytes().len() == 1 {
            Some(host.clone())
        } else {
            None
        },
        None => None,
    }
}

/// The URL that names the path of a `file:` URL on the drive that its host stands for, if it stands
/// for one.
pub fn drive_url(url: &UrlParts<String>, os: &str) -> (text: Option<String>)
    ensures
        opt_chars(text) == url_on_drive(url@, os@),
{
    match drive_letter(url, os) {
        Some(drive) => Some(join4("file:///", drive.as_str(), ":", url.path.as_str())),
        None => None,
    }
}

/// Whether the path of the URL, taken as one of Windows, is not absolute.
fn rootless(url: &UrlParts<String>) -> (found: bool)
    ensures
        found == is_rootless(url@),
{
    let local = match &url.host {
        Some(host) => same(host.as_str(), "localhost"),
        None => true,
    };
    let chars = chars_of(url.path.as_str());
    if chars.len() <= 1 {
        return !local;
    }
    let first = chars[1];
    if local {
        let rest = string_of(chars.as_slice(), 2, chars.len());
        assert(rest@ =~= url@.path.skip(1).skip(1));
        return (('a' <= first && first <= 'z') || ('A' <= first && first <= 'Z')) && (same(
            rest.as_str(),
            ":",
        ) || same(rest.as_str(), "%3a") || same(rest.as_str(), "%3A"));
    }
    let rest = string_of(chars.as_slice(), 1, chars.len());
    assert(rest@ =~= url@.path.skip(1));
    first == '/' || first == '\\' || starts_with(rest.as_str(), "%2f") || starts_with(
        rest.as_str(),
        "%2F",
    ) || starts_with(rest.as_str(), "%5c") || starts_with(rest.as_str(), "%5C")
}

/// Whether the platform can be asked for the path of the URL, and of the URL on its drive.
pub fn rooted(url: &UrlParts<String>, os: &str) -> (found: bool)
    ensures
        found == is_rooted(url@, os@),
{
    if !same(os, "windows") {
        return true;
    }
    if rootless(url) {
        return false;
    }
    match drive_url(url, os) {
        Some(text) => match parse_url(text.as_str()) {
            Ok(fixed) => !rootless(&fixed),
            Err(_) => true,
        },
        None => true,
    }
}

/// The error for a `file:` URL that names no file.
fn invalid_file_url_error(url_str: &str) -> (error: Error)
    ensures
        error@ == invalid_file_url(url_str@),
{
    Error::fatal(join3("Invalid file URL '", url_str, "': unable to convert to filesystem path"))
}

/// The path that a `file:` URL names. `native` is what the platform makes of the URL, `with_drive`
/// what it makes of the URL with its drive letter moved into the path.
pub fn choose_file_path(
    url: &UrlParts<String>,
    url_str: &str,
    os: &str,
    native: Option<PathBuf>,
    with_drive: Option<PathBuf>,
) -> (path: Result<PathBuf, Error>)
    ensures
        path_result(path) == file_path(url@, url_str@, os@, native, with_drive),
{
    if let Some(path) = native {
        return Ok(path);
    }
    if let Some(drive) = drive_letter(url, os) {
        if let Some(path) = with_drive {
            return Ok(path);
        }
        return Ok(path_from(join3(drive.as_str(), ":", url.path.as_str()).as_str(), os));
    }
    Err(invalid_file_url_error(url_str))
}

/// The filesystem path that a `file:` URL names. `text` is the URL that `url` was parsed from,
/// `url_str` the URL as the caller wrote it.
pub(crate) fn file_url_to_path(
    url: &UrlParts<String>,
    text: &str,
    url_str: &str,
    os: &str,
) -> (path: Result<PathBuf, Error>)
    requires
        parsed_url(text@) == Ok::<UrlParts<Seq<char>>, Seq<char>>(url@),
        is_rooted(url@, os@),
    ensures
        path_result(path) == file_url_path(url@, text@, url_str@, os@),
{
    let native = platform_file_path(text, os);
    if native.is_some() {
        return choose_file_path(url, url_str, os, native, None);
    }
    let with_drive = match drive_url(url, os) {
        None => None,
        Some(fixed) => match parse_url(fixed.as_str()) {
            Err(_) => None,
            Ok(_) => platform_file_path(fixed.as_str(), os),
        },
    };
    choose_file_path(url, url_str, os, None, with_drive)
}

} // verus!
