//! Which errors are worth another attempt, and what they say.
use vstd::prelude::*;

use crate::error::{
    failure_error, http_status_class, io_class, io_failure, names_client_error,
    names_retryable_status, names_some_status, names_status, opendal_class, opendal_failure,
    ErrorClass, ErrorView, FailureView, IoErrorKind, IoErrorView, OpendalErrorView,
};
use crate::text::{decimal, digit, has_part};

verus! {

/// The three decimal digits of a number below a thousand.
pub open spec fn three_digits(code: int) -> Seq<char> {
    seq![
        (48 + code / 100) as char,
        (48 + code / 10 % 10) as char,
        (48 + code % 10) as char,
    ]
}

proof fn lemma_three_digits(code: u16)
    requires
        100 <= code < 1000,
    ensures
        decimal(code as nat) == three_digits(code as int),
{
    let n = code as nat;
    reveal_with_fuel(decimal, 3);
    assert(decimal(n / 10 / 10) =~= seq![digit(n / 10 / 10)]);
    assert(decimal(n / 10) =~= seq![digit(n / 10 / 10), digit(n / 10 % 10)]);
    assert(n / 10 / 10 == n / 100);
    assert(decimal(n) =~= three_digits(code as int));
}

/// The text holds `status: ` and then the three digits of a code that is at least `first` and below
/// `end`.
pub open spec fn mentions(text: Seq<char>, first: int, end: int) -> bool {
    exists|code: u16|
        first <= code < end && has_part(text, "status: "@ + #[trigger] three_digits(code as int))
}

proof fn lemma_mentions(text: Seq<char>, first: int, end: int)
    requires
        100 <= first <= end <= 1000,
    ensures
        mentions(text, first, end) <==> exists|code: u16|
            first <= code < end && #[trigger] names_status(text, code),
{
    if mentions(text, first, end) {
        let code = choose|code: u16|
            first <= code < end && has_part(
                text,
                "status: "@ + #[trigger] three_digits(code as int),
            );
        lemma_three_digits(code);
        assert(names_status(text, code));
    }
    if exists|code: u16| first <= code < end && #[trigger] names_status(text, code) {
        let code = choose|code: u16| first <= code < end && #[trigger] names_status(text, code);
        lemma_three_digits(code);
        assert(has_part(text, "status: "@ + three_digits(code as int)));
    }
}

/// A text that mentions a status code is worth another attempt if one of those it mentions is a
/// server error, 408 or 429; else it is fatal if one of them is a client error; any other is worth
/// another attempt. A text that mentions none has no class.
pub proof fn law_status_codes_decide(text: Seq<char>)
    ensures
        http_status_class(text) == (if mentions(text, 500, 600) || mentions(text, 408, 409)
            || mentions(text, 429, 430) {
            Some(ErrorClass::Retry)
        } else if mentions(text, 400, 500) {
            Some(ErrorClass::Fatal)
        } else if mentions(text, 100, 1000) {
            Some(ErrorClass::Retry)
        } else {
            None
        }),
{
    lemma_mentions(text, 500, 600);
    lemma_mentions(text, 408, 409);
    lemma_mentions(text, 429, 430);
    lemma_mentions(text, 400, 500);
    lemma_mentions(text, 100, 1000);
    if names_retryable_status(text) {
        let code = choose|code: u16|
            crate::error::is_retryable_status(code) && #[trigger] names_status(text, code);
        assert(mentions(text, 500, 600) || code == 408 || code == 429);
    }
    if mentions(text, 500, 600) {
        let code = choose|code: u16| 500 <= code < 600 && #[trigger] names_status(text, code);
        assert(crate::error::is_retryable_status(code) && names_status(text, code));
    }
    if mentions(text, 408, 409) {
        let code = choose|code: u16| 408 <= code < 409 && #[trigger] names_status(text, code);
        assert(crate::error::is_retryable_status(code) && names_status(text, code));
    }
    if mentions(text, 429, 430) {
        let code = choose|code: u16| 429 <= code < 430 && #[trigger] names_status(text, code);
        assert(crate::error::is_retryable_status(code) && names_status(text, code));
    }
    assert(names_client_error(text) <==> mentions(text, 400, 500));
    assert(names_some_status(text) <==> mentions(text, 100, 1000));
}

/// What is not there is told apart; rate limits pass; unexpected errors go by the status codes that
/// they mention, and may pass where they mention none; all other kinds are permanent.
pub proof fn law_classes_of_backend_errors(error: OpendalErrorView)
    ensures
        error.kind is NotFound <==> opendal_class(error) == ErrorClass::NotFound,
        error.kind is RateLimited ==> opendal_class(error) == ErrorClass::Retry,
        error.kind is Unexpected || error.kind is Other ==> opendal_class(error) == (
        match http_status_class(error.text) {
            Some(class) => class,
            None => ErrorClass::Retry,
        }),
        !(error.kind is NotFound || error.kind is RateLimited || error.kind is Unexpected
            || error.kind is Other) ==> opendal_class(error) == ErrorClass::Fatal,
{
}

/// What is not there is told apart; refused permissions, existing files and invalid input or data
/// are permanent; any other I/O error may pass.
pub proof fn law_classes_of_io_errors(kind: IoErrorKind)
    ensures
        io_class(kind) == ErrorClass::NotFound <==> kind is NotFound,
        io_class(kind) == ErrorClass::Fatal <==> kind is PermissionDenied || kind is AlreadyExists
            || kind is InvalidInput || kind is InvalidData,
        io_class(kind) == ErrorClass::Retry <==> kind is Other,
{
}

/// An error says its context, a colon and a space, and then what was reported, and has the class of
/// that.
pub proof fn law_errors_give_their_context_first(
    backend: OpendalErrorView,
    file: IoErrorView,
    context: Seq<char>,
)
    ensures
        opendal_failure(backend, context) == (ErrorView {
            class: opendal_class(backend),
            message: context + seq![':', ' '] + backend.text,
        }),
        io_failure(file, context) == (ErrorView {
            class: io_class(file.kind),
            message: context + seq![':', ' '] + file.text,
        }),
        failure_error(FailureView::Backend(backend), context) == opendal_failure(backend, context),
        failure_error(FailureView::File(file), context) == io_failure(file, context),
{
    reveal_strlit(": ");
    assert(": "@ =~= seq![':', ' ']);
}

} // verus!
