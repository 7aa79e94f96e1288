//! Errors of the storage layer, classified for the retry decisions of its callers.
use opendal::Error as OpendalFault;
use vstd::prelude::*;

use crate::text::{chars_of, contains, decimal, has_part, join3, push_decimal};

verus! {

/// Classification of errors for retry decisions.
#[derive(Debug, Clone, Copy, PartialEq, Eq, Structural)]
pub enum ErrorClass {
    /// Transient error: worth retrying (503, 502, timeouts, connection errors).
    Retry,
    /// Fatal error: not retried (403, invalid data, and so on).
    Fatal,
    /// File not found: not retried, but may need special handling.
    NotFound,
}

/// Storage-related error with its retry classification.
#[derive(Debug)]
pub struct Error {
    pub class: ErrorClass,
    pub message: String,
}

/// What an [`Error`] says: its class and the characters of its message.
pub struct ErrorView {
    pub class: ErrorClass,
    pub message: Seq<char>,
}

impl View for Error {
    type V = ErrorView;

    open spec fn view(&self) -> ErrorView {
        ErrorView { class: self.class, message: self.message@ }
    }
}

/// A fatal error with the given message.
pub open spec fn fatal_error(message: Seq<char>) -> ErrorView {
    ErrorView { class: ErrorClass::Fatal, message }
}

/// A retryable error with the given message.
pub open spec fn retry_error(message: Seq<char>) -> ErrorView {
    ErrorView { class: ErrorClass::Retry, message }
}

/// What an error message can be made from: an owned string or a string slice.
pub trait IntoMessage: Sized {
    /// The characters of the message.
    spec fn text(self) -> Seq<char>;

    /// The message as an owned string.
    fn into_message(self) -> (message: String)
        ensures
            message@ == self.text(),
    ;
}

impl IntoMessage for String {
    open spec fn text(self) -> Seq<char> {
        self@
    }

    fn into_message(self) -> (message: String) {
        self
    }
}

impl IntoMessage for &str {
    open spec fn text(self) -> Seq<char> {
        self@
    }

    fn into_message(self) -> (message: String) {
        self.to_owned()
    }
}

impl Error {
    /// An error that is worth retrying.
    pub fn retry<M: IntoMessage>(message: M) -> (error: Self)
        ensures
            error@ == retry_error(message.text()),
    {
        Self { class: ErrorClass::Retry, message: message.into_message() }
    }

    /// An error that must not be retried.
    pub fn fatal<M: IntoMessage>(message: M) -> (error: Self)
        ensures
            error@ == fatal_error(message.text()),
    {
        Self { class: ErrorClass::Fatal, message: message.into_message() }
    }

    /// The error for a file that does not exist.
    #[must_use]
    pub fn not_found() -> (error: Self)
        ensures
            error@ == (ErrorView { class: ErrorClass::NotFound, message: "File not found"@ }),
    {
        Self { class: ErrorClass::NotFound, message: "File not found".to_owned() }
    }
}

/// The kinds of error that OpenDAL reports.
#[derive(Debug, Clone, Copy, PartialEq, Eq, Structural)]
pub enum OpendalErrorKind {
    Unexpected,
    Unsupported,
    ConfigInvalid,
    NotFound,
    PermissionDenied,
    IsADirectory,
    NotADirectory,
    AlreadyExists,
    RateLimited,
    IsSameFile,
    ConditionNotMatch,
    RangeNotSatisfied,
    /// A kind that a later version of OpenDAL adds.
    Other,
}

/// What an OpenDAL operation reported when it failed: the kind and the displayed text.
#[derive(Debug)]
pub struct OpendalError {
    pub kind: OpendalErrorKind,
    pub text: String,
}

/// The mathematical counterpart of [`OpendalError`].
pub struct OpendalErrorView {
    pub kind: OpendalErrorKind,
    pub text: Seq<char>,
}

impl View for OpendalError {
    type V = OpendalErrorView;

    open spec fn view(&self) -> OpendalErrorView {
        OpendalErrorView { kind: self.kind, text: self.text@ }
    }
}

/// The kinds of I/O error that the classification tells apart.
#[derive(Debug, Clone, Copy, PartialEq, Eq, Structural)]
pub enum IoErrorKind {
    NotFound,
    PermissionDenied,
    AlreadyExists,
    InvalidInput,
    InvalidData,
    Other,
}

/// What a filesystem operation reported when it failed: the kind and the displayed text.
#[derive(Debug)]
pub struct IoError {
    pub kind: IoErrorKind,
    pub text: String,
}

/// The mathematical counterpart of [`IoError`].
pub struct IoErrorView {
    pub kind: IoErrorKind,
    pub text: Seq<char>,
}

impl View for IoError {
    type V = IoErrorView;

    open spec fn view(&self) -> IoErrorView {
        IoErrorView { kind: self.kind, text: self.text@ }
    }
}

// ===== HTTP status codes in error texts =====

/// HTTP status codes that are worth retrying: server errors, request timeouts and rate limits.
pub open spec fn is_retryable_status(code: u16) -> bool {
    code == 408 || code == 429 || 500 <= code < 600
}

/// The text names the status code.
pub open spec fn names_status(text: Seq<char>, code: u16) -> bool {
    has_part(text, "status: "@ + decimal(code as nat))
}

/// The text names a status code that is worth retrying.
pub open spec fn names_retryable_status(text: Seq<char>) -> bool {
    exists|code: u16| is_retryable_status(code) && #[trigger] names_status(text, code)
}

/// The text names a status code of a client error.
pub open spec fn names_client_error(text: Seq<char>) -> bool {
    exists|code: u16| 400 <= code < 500 && #[trigger] names_status(text, code)
}

/// The text names a status code of whatever class: a number of three digits.
pub open spec fn names_some_status(text: Seq<char>) -> bool {
    exists|code: u16| 100 <= code < 1000 && #[trigger] names_status(text, code)
}

/// The class that the HTTP status codes named in `text` give it, if it names any. A retryable code
/// takes precedence, then a client error, which is fatal. Any other code says nothing against
/// another attempt.
pub open spec fn http_status_class(text: Seq<char>) -> Option<ErrorClass> {
    if names_retryable_status(text) {
        Some(ErrorClass::Retry)
    } else if names_client_error(text) {
        Some(ErrorClass::Fatal)
    } else if names_some_status(text) {
        Some(ErrorClass::Retry)
    } else {
        None
    }
}

/// Whether the text names the status code.
fn has_status(text: &[char], code: u16) -> (found: bool)
    ensures
        found == names_status(text@, code),
{
    let mut part = "status: ".to_owned();
    push_decimal(&mut part, code as u64);
    contains(text, chars_of(part.as_str()).as_slice())
}

/// Whether the text names one of the status codes from `first` up to, but excluding, `end`.
fn has_status_between(text: &[char], first: u16, end: u16) -> (found: bool)
    ensures
        found == exists|code: u16| first <= code < end && #[trigger] names_status(text@, code),
{
    let mut code: u16 = first;
    while code < end
        invariant
            first <= code,
            code <= end || code == first,
            forall|c: u16| first <= c < code ==> !#[trigger] names_status(text@, c),
        decreases end - code,
    {
        if has_status(text, code) {
            return true;
        }
        code = code + 1;
    }
    false
}

/// Checks whether an error message contains an HTTP status code and classifies it: `Some` if a
/// status was found, `None` otherwise. Status codes worth retrying (5xx, and 408 and 429) are
/// looked for first, then the other client errors, then any other status.
pub fn classify_http_status_in_error(err_string: &str) -> (class: Option<ErrorClass>)
    ensures
        class == http_status_class(err_string@),
{
    let chars = chars_of(err_string);
    let text = chars.as_slice();
    if has_status(text, 408) || has_status(text, 429) || has_status_between(text, 500, 600) {
        return Some(ErrorClass::Retry);
    }
    if has_status_between(text, 400, 500) {
        return Some(ErrorClass::Fatal);
    }
    if has_status_between(text, 100, 1000) {
        return Some(ErrorClass::Retry);
    }
    None
}

// ===== OpenDAL errors =====

/// The class of an OpenDAL error. Unexpected errors, and kinds not known here, go by the HTTP
/// status codes that their text names, and are worth retrying where it names none.
pub open spec fn opendal_class(error: OpendalErrorView) -> ErrorClass {
    match error.kind {
        OpendalErrorKind::NotFound => ErrorClass::NotFound,
        OpendalErrorKind::RateLimited => ErrorClass::Retry,
        OpendalErrorKind::Unexpected | OpendalErrorKind::Other => match http_status_class(
            error.text,
        ) {
            Some(class) => class,
            None => ErrorClass::Retry,
        },
        _ => ErrorClass::Fatal,
    }
}

/// A message that gives the context first: `context: text`.
pub open spec fn in_context(context: Seq<char>, text: Seq<char>) -> Seq<char> {
    context + ": "@ + text
}

/// The error that an OpenDAL error becomes in a given context.
pub open spec fn opendal_failure(error: OpendalErrorView, context: Seq<char>) -> ErrorView {
    ErrorView { class: opendal_class(error), message: in_context(context, error.text) }
}

/// Classifies an OpenDAL error.
pub fn classify_opendal_error(error: &OpendalError) -> (class: ErrorClass)
    ensures
        class == opendal_class(error@),
{
    match error.kind {
        OpendalErrorKind::NotFound => ErrorClass::NotFound,
        OpendalErrorKind::RateLimited => ErrorClass::Retry,
        OpendalErrorKind::Unsupported
        | OpendalErrorKind::ConfigInvalid
        | OpendalErrorKind::PermissionDenied
        | OpendalErrorKind::IsSameFile
        | OpendalErrorKind::NotADirectory
        | OpendalErrorKind::IsADirectory
        | OpendalErrorKind::AlreadyExists
        | OpendalErrorKind::RangeNotSatisfied
        | OpendalErrorKind::ConditionNotMatch => ErrorClass::Fatal,
        OpendalErrorKind::Unexpected | OpendalErrorKind::Other => {
            match classify_http_status_in_error(error.text.as_str()) {
                Some(class) => class,
                None => ErrorClass::Retry,
            }
        },
    }
}

impl OpendalError {
    /// This failure as an [`Error`], classified and with the context put before its text.
    #[must_use]
    pub fn in_context(&self, context: &str) -> (error: Error)
        ensures
            error@ == opendal_failure(self@, context@),
    {
        Error {
            class: classify_opendal_error(self),
            message: join3(context, ": ", self.text.as_str()),
        }
    }
}

/// The error type of OpenDAL's operations.
#[verifier::external_type_specification]
#[verifier::external_body]
pub struct ExOpendalError(OpendalFault);

/// The kind that `opendal::Error::kind` gives for an error.
pub uninterp spec fn opendal_error_kind(error: OpendalFault) -> OpendalErrorKind;

/// Calls `opendal::Error::kind`, which returns the kind stored in the error, and translates its
/// variants one by one.
#[verifier::external_body]
fn kind_of_opendal_error(error: &OpendalFault) -> (kind: OpendalErrorKind)
    ensures
        kind == opendal_error_kind(*error),
{
    match error.kind() {
        opendal::ErrorKind::Unexpected => OpendalErrorKind::Unexpected,
        opendal::ErrorKind::Unsupported => OpendalErrorKind::Unsupported,
        opendal::ErrorKind::ConfigInvalid => OpendalErrorKind::ConfigInvalid,
        opendal::ErrorKind::NotFound => OpendalErrorKind::NotFound,
        opendal::ErrorKind::PermissionDenied => OpendalErrorKind::PermissionDenied,
        opendal::ErrorKind::IsADirectory => OpendalErrorKind::IsADirectory,
        opendal::ErrorKind::NotADirectory => OpendalErrorKind::NotADirectory,
        opendal::ErrorKind::AlreadyExists => OpendalErrorKind::AlreadyExists,
        opendal::ErrorKind::RateLimited => OpendalErrorKind::RateLimited,
        opendal::ErrorKind::IsSameFile => OpendalErrorKind::IsSameFile,
        opendal::ErrorKind::ConditionNotMatch => OpendalErrorKind::ConditionNotMatch,
        opendal::ErrorKind::RangeNotSatisfied => OpendalErrorKind::RangeNotSatisfied,
        _ => OpendalErrorKind::Other,
    }
}

/// An OpenDAL error can be displayed as `text`.
pub uninterp spec fn opendal_error_displays(error: OpendalFault, text: Seq<char>) -> bool;

/// Calls `to_string` on an OpenDAL error. The text holds what the failed service and the operating
/// system said, the latter in the language of the process, so it is only claimed to be a text that
/// the error is displayed as.
#[verifier::external_body]
fn text_of_opendal_error(error: &OpendalFault) -> (text: String)
    ensures
        opendal_error_displays(*error, text@),
{
    error.to_string()
}

/// Reads what the classification needs from an OpenDAL error.
pub fn read_opendal_error(error: &OpendalFault) -> (reported: OpendalError)
    ensures
        reported.kind == opendal_error_kind(*error),
        opendal_error_displays(*error, reported.text@),
{
    OpendalError { kind: kind_of_opendal_error(error), text: text_of_opendal_error(error) }
}

/// Converts an OpenDAL error to an [`Error`] with proper classification.
#[must_use]
pub fn from_opendal_error(err: OpendalFault, context: &str) -> (error: Error)
    ensures
        exists|reported: OpendalErrorView|
            {
                &&& reported.kind == opendal_error_kind(err)
                &&& opendal_error_displays(err, reported.text)
                &&& error@ == #[trigger] opendal_failure(reported, context@)
            },
{
    let reported = read_opendal_error(&err);
    reported.in_context(context)
}

// ===== I/O errors =====

/// The class of an I/O error: the permanent kinds are told apart, the others may pass on retry.
pub open spec fn io_class(kind: IoErrorKind) -> ErrorClass {
    match kind {
        IoErrorKind::NotFound => ErrorClass::NotFound,
        IoErrorKind::PermissionDenied
        | IoErrorKind::AlreadyExists
        | IoErrorKind::InvalidInput
        | IoErrorKind::InvalidData => ErrorClass::Fatal,
        IoErrorKind::Other => ErrorClass::Retry,
    }
}

/// The error that an I/O error becomes in a given context.
pub open spec fn io_failure(error: IoErrorView, context: Seq<char>) -> ErrorView {
    ErrorView { class: io_class(error.kind), message: in_context(context, error.text) }
}

impl IoError {
    /// This failure as an [`Error`], classified and with the context put before its text.
    #[must_use]
    pub fn in_context(&self, context: &str) -> (error: Error)
        ensures
            error@ == io_failure(self@, context@),
    {
        let class = match self.kind {
            IoErrorKind::NotFound => ErrorClass::NotFound,
            IoErrorKind::PermissionDenied => ErrorClass::Fatal,
            IoErrorKind::AlreadyExists => ErrorClass::Fatal,
            IoErrorKind::InvalidInput | IoErrorKind::InvalidData => ErrorClass::Fatal,
            // Transient errors that may succeed on retry
            IoErrorKind::Other => ErrorClass::Retry,
        };
        Error { class, message: join3(context, ": ", self.text.as_str()) }
    }
}

/// The error type of std's I/O operations.
#[verifier::external_type_specification]
#[verifier::external_body]
pub struct ExIoError(std::io::Error);

/// The kind that `std::io::Error::kind` gives for an error, with all kinds that are not told apart
/// taken together.
pub uninterp spec fn io_error_kind(error: std::io::Error) -> IoErrorKind;

/// Calls `std::io::Error::kind` and translates the variants that the classification tells apart
/// one by one.
#[verifier::external_body]
fn kind_of_io_error(error: &std::io::Error) -> (kind: IoErrorKind)
    ensures
        kind == io_error_kind(*error),
{
    match error.kind() {
        std::io::ErrorKind::NotFound => IoErrorKind::NotFound,
        std::io::ErrorKind::PermissionDenied => IoErrorKind::PermissionDenied,
        std::io::ErrorKind::AlreadyExists => IoErrorKind::AlreadyExists,
        std::io::ErrorKind::InvalidInput => IoErrorKind::InvalidInput,
        std::io::ErrorKind::InvalidData => IoErrorKind::InvalidData,
        _ => IoErrorKind::Other,
    }
}

/// An I/O error can be displayed as `text`.
pub uninterp spec fn io_error_displays(error: std::io::Error, text: Seq<char>) -> bool;

/// Calls `to_string` on an I/O error. The text comes from the operating system, in the language of
/// the process, so it is only claimed to be a text that the error is displayed as.
#[verifier::external_body]
fn text_of_io_error(error: &std::io::Error) -> (text: String)
    ensures
        io_error_displays(*error, text@),
{
    error.to_string()
}

/// Reads what the classification needs from an I/O error.
pub fn read_io_error(error: &std::io::Error) -> (reported: IoError)
    ensures
        reported.kind == io_error_kind(*error),
        io_error_displays(*error, reported.text@),
{
    IoError { kind: kind_of_io_error(error), text: text_of_io_error(error) }
}

/// Converts a `std::io::Error` to an [`Error`] with proper classification.
#[must_use]
pub fn from_io_error(err: std::io::Error, context: &str) -> (error: Error)
    ensures
        exists|reported: IoErrorView|
            {
                &&& reported.kind == io_error_kind(err)
                &&& io_error_displays(err, reported.text)
                &&& error@ == #[trigger] io_failure(reported, context@)
            },
{
    let reported = read_io_error(&err);
    reported.in_context(context)
}

// ===== Failures of a storage step =====

/// What a step of a storage operation reported when it failed.
#[derive(Debug)]
pub enum Failure {
    /// A failure of an OpenDAL operation.
    Backend(OpendalError),
    /// A failure of a filesystem operation.
    File(IoError),
}

/// The mathematical counterpart of [`Failure`].
pub enum FailureView {
    Backend(OpendalErrorView),
    File(IoErrorView),
}

impl View for Failure {
    type V = FailureView;

    open spec fn view(&self) -> FailureView {
        match *self {
            Failure::Backend(error) => FailureView::Backend(error@),
            Failure::File(error) => FailureView::File(error@),
        }
    }
}

/// The error that a failure becomes in a given context.
pub open spec fn failure_error(failure: FailureView, context: Seq<char>) -> ErrorView {
    match failure {
        FailureView::Backend(error) => opendal_failure(error, context),
        FailureView::File(error) => io_failure(error, context),
    }
}

impl Failure {
    /// This failure as an [`Error`], classified and with the context put before its text.
    #[must_use]
    pub fn in_context(&self, context: &str) -> (error: Error)
        ensures
            error@ == failure_error(self@, context@),
    {
        match self {
            Failure::Backend(error) => error.in_context(context),
            Failure::File(error) => error.in_context(context),
        }
    }
}

/// What a step reported: done, or failed.
pub open spec fn outcome_view(outcome: Result<(), Failure>) -> Result<(), FailureView> {
    match outcome {
        Ok(_) => Ok(()),
        Err(failure) => Err(failure@),
    }
}

/// A result with its error taken by its view.
pub open spec fn result_view<T>(result: Result<T, Error>) -> Result<T, ErrorView> {
    match result {
        Ok(value) => Ok(value),
        Err(error) => Err(error@),
    }
}

} // verus!
