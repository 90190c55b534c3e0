//! Errors that carry advice, and the reports made from them.
//!
//! [`Advice`] adds to an error what a reader needs to act on it: how severe
//! it is, a code, a suggested fix, a link. Library code writes error types
//! that implement `Advice`. [`DynamicAdvice`] pairs any error with advice that
//! is set at run time, and a [`Report`] is advice together with the place
//! where it was raised, ready to be handed to the runtime.
//!
//! The difference between an error that implements `Advice` and a `Report` is
//! that a system may handle the former itself, whereas the latter is meant
//! for reporting.

use vstd::prelude::*;
use vstd::std_specs::convert::FromSpecImpl;
use vstd::string::to_string_from_display_ensures;
use core::fmt::Display;

verus! {

/// The severity of a diagnostic report. Used by the handler to determine the
/// appropriate response.
#[derive(Debug, Clone, Copy, PartialEq, Eq, Structural)]
pub enum Severity {
    /// Should not interrupt, should not be reported. Not an issue.
    Expected,
    /// Should not interrupt, may be reported. A potential issue.
    Alert,
    /// May interrupt, should be reported. A potential failure.
    Warning,
    /// Should interrupt, must be reported. A critical failure.
    Error,
}

/// Rich metadata of an error, from which it can be converted into a
/// [`Report`] for the runtime.
///
/// An error type states its advice by overriding the methods. Each method
/// has a specification twin, which says of which errors its default holds: a
/// verified implementation that overrides a method overrides its twin too.
pub trait Advice: Sized {
    /// Returns the severity of this error: `Error`, unless it says otherwise.
    fn severity(&self) -> (severity: Severity)
        ensures
            self.has_default_severity() ==> severity == Severity::Error,
    {
        Severity::Error
    }

    /// Returns a code for this error: none, unless the error has one.
    fn code<'a>(&'a self) -> (code: Option<Box<dyn Display + 'a>>)
        ensures
            self.has_no_code() ==> code is None,
    {
        None
    }

    /// Returns a help message for this error: none, unless the error has
    /// one.
    fn help<'a>(&'a self) -> (help: Option<Box<dyn Display + 'a>>)
        ensures
            self.has_no_help() ==> help is None,
    {
        None
    }

    /// Returns a url relevant to this error: none, unless the error has one.
    fn url<'a>(&'a self) -> (url: Option<Box<dyn Display + 'a>>)
        ensures
            self.has_no_url() ==> url is None,
    {
        None
    }

    /// Whether the severity of this error is the default, `Error`.
    open spec fn has_default_severity(&self) -> bool {
        true
    }

    /// Whether this error has no code.
    open spec fn has_no_code(&self) -> bool {
        true
    }

    /// Whether this error has no help message.
    open spec fn has_no_help(&self) -> bool {
        true
    }

    /// Whether this error has no url.
    open spec fn has_no_url(&self) -> bool {
        true
    }
}

/// Whether `text` is what `advice` displays: a text where there is advice,
/// and nothing where there is none.
pub open spec fn rendered<'a>(advice: Option<Box<dyn Display + 'a>>, text: Option<String>) -> bool {
    match advice {
        Some(advice) => text is Some && to_string_from_display_ensures::<Box<dyn Display + 'a>>(
            &advice,
            text->0,
        ),
        None => text is None,
    }
}

/// Displays a piece of advice, if there is one.
pub fn render<'a>(advice: Option<Box<dyn Display + 'a>>) -> (text: Option<String>)
    ensures
        rendered(advice, text),
{
    match advice {
        Some(advice) => Some(advice.to_string()),
        None => None,
    }
}

/// Whether `severity` is a severity that `advice` gives itself.
pub open spec fn is_severity_of<A: Advice>(advice: A, severity: Severity) -> bool {
    call_ensures(A::severity, (&advice,), severity)
}

/// Whether `text` displays a code that `advice` gives itself.
pub open spec fn is_code_of<A: Advice>(advice: A, text: Option<String>) -> bool {
    exists|code: Option<Box<dyn Display>>|
        call_ensures(A::code, (&advice,), code) && rendered(code, text)
}

/// Whether `text` displays a help message that `advice` gives itself.
pub open spec fn is_help_of<A: Advice>(advice: A, text: Option<String>) -> bool {
    exists|help: Option<Box<dyn Display>>|
        call_ensures(A::help, (&advice,), help) && rendered(help, text)
}

/// Whether `text` displays a url that `advice` gives itself.
pub open spec fn is_url_of<A: Advice>(advice: A, text: Option<String>) -> bool {
    exists|url: Option<Box<dyn Display>>|
        call_ensures(A::url, (&advice,), url) && rendered(url, text)
}

/// Whether `dynamic` is `advice` wrapped with the advice that it gives
/// itself: its severity, and what its code, its help message and its url
/// display.
pub open spec fn is_advice_of<A: Advice>(advice: A, dynamic: DynamicAdvice<A>) -> bool {
    &&& dynamic.error == advice
    &&& is_severity_of(advice, dynamic.severity)
    &&& is_code_of(advice, dynamic.code)
    &&& is_help_of(advice, dynamic.help)
    &&& is_url_of(advice, dynamic.url)
}

/// An error that keeps every default is wrapped with empty advice of the
/// severity `Error`: converting it gives what [`DynamicAdvice::from_error`]
/// gives.
pub proof fn lemma_default_advice<A: Advice>(advice: A, dynamic: DynamicAdvice<A>)
    requires
        is_advice_of(advice, dynamic),
        advice.has_default_severity(),
        advice.has_no_code(),
        advice.has_no_help(),
        advice.has_no_url(),
    ensures
        dynamic == (DynamicAdvice {
            error: advice,
            severity: Severity::Error,
            code: None,
            help: None,
            url: None,
        }),
{
}

/// A helper trait for modifying advice at runtime.
///
/// On an error that implements [`Advice`] the operations return the error
/// wrapped in a [`DynamicAdvice`]. In library code it is better to define
/// error types that state their advice themselves.
///
/// Each operation has a specification twin which says, of a possible result,
/// whether it is the receiver with that piece of advice set. A code, a help
/// message and a url are set to the text that the argument displays. An
/// implementation that does not state its twins promises nothing of its
/// results.
pub trait SetAdvice: Sized {
    /// The type returned by the trait operations. This is usually `Self`, but
    /// for static error types it is the [`DynamicAdvice`] wrapper.
    type Output;

    /// Whether `output` is `self` with the severity set to `severity`.
    open spec fn has_severity_set(self, severity: Severity, output: Self::Output) -> bool {
        true
    }

    /// Whether `output` is `self` with the code set to `code`.
    open spec fn has_code_set(self, code: String, output: Self::Output) -> bool {
        true
    }

    /// Whether `output` is `self` with the help message set to `help`.
    open spec fn has_help_set(self, help: String, output: Self::Output) -> bool {
        true
    }

    /// Whether `output` is `self` with the url set to `url`.
    open spec fn has_url_set(self, url: String, output: Self::Output) -> bool {
        true
    }

    /// Sets the severity for the error.
    fn with_severity(self, severity: Severity) -> (output: Self::Output)
        ensures
            self.has_severity_set(severity, output),
    ;

    /// Sets the code for the error.
    fn with_code<D: Display>(self, code: D) -> (output: Self::Output)
        ensures
            exists|text: String|
                to_string_from_display_ensures::<D>(&code, text) && #[trigger] self.has_code_set(
                    text,
                    output,
                ),
    ;

    /// Sets the help message for the error.
    fn with_help<D: Display>(self, help: D) -> (output: Self::Output)
        ensures
            exists|text: String|
                to_string_from_display_ensures::<D>(&help, text) && #[trigger] self.has_help_set(
                    text,
                    output,
                ),
    ;

    /// Sets the url for the error.
    fn with_url<D: Display>(self, url: D) -> (output: Self::Output)
        ensures
            exists|text: String|
                to_string_from_display_ensures::<D>(&url, text) && #[trigger] self.has_url_set(
                    text,
                    output,
                ),
    ;
}

impl<A: Advice> SetAdvice for A {
    type Output = DynamicAdvice<A>;

    open spec fn has_severity_set(self, severity: Severity, output: DynamicAdvice<A>) -> bool {
        &&& output.error == self
        &&& output.severity == severity
        &&& is_code_of(self, output.code)
        &&& is_help_of(self, output.help)
        &&& is_url_of(self, output.url)
    }

    open spec fn has_code_set(self, code: String, output: DynamicAdvice<A>) -> bool {
        &&& output.error == self
        &&& is_severity_of(self, output.severity)
        &&& output.code == Some(code)
        &&& is_help_of(self, output.help)
        &&& is_url_of(self, output.url)
    }

    open spec fn has_help_set(self, help: String, output: DynamicAdvice<A>) -> bool {
        &&& output.error == self
        &&& is_severity_of(self, output.severity)
        &&& is_code_of(self, output.code)
        &&& output.help == Some(help)
        &&& is_url_of(self, output.url)
    }

    open spec fn has_url_set(self, url: String, output: DynamicAdvice<A>) -> bool {
        &&& output.error == self
        &&& is_severity_of(self, output.severity)
        &&& is_code_of(self, output.code)
        &&& is_help_of(self, output.help)
        &&& output.url == Some(url)
    }

    fn with_severity(self, severity: Severity) -> (output: DynamicAdvice<A>) {
        DynamicAdvice { severity, ..DynamicAdvice::from(self) }
    }

    fn with_code<D: Display>(self, code: D) -> (output: DynamicAdvice<A>) {
        let text = code.to_string();
        let output = DynamicAdvice { code: Some(text), ..DynamicAdvice::from(self) };
        assert(self.has_code_set(text, output));
        output
    }

    fn with_help<D: Display>(self, help: D) -> (output: DynamicAdvice<A>) {
        let text = help.to_string();
        let output = DynamicAdvice { help: Some(text), ..DynamicAdvice::from(self) };
        assert(self.has_help_set(text, output));
        output
    }

    fn with_url<D: Display>(self, url: D) -> (output: DynamicAdvice<A>) {
        let text = url.to_string();
        let output = DynamicAdvice { url: Some(text), ..DynamicAdvice::from(self) };
        assert(self.has_url_set(text, output));
        output
    }
}

/// A standard error type that can be constructed at runtime. Its view is its
/// message.
#[derive(Debug)]
pub struct RuntimeError {
    message: String,
}

impl View for RuntimeError {
    type V = Seq<char>;

    closed spec fn view(&self) -> Seq<char> {
        self.message@
    }
}

impl RuntimeError {
    /// An error with the given message.
    pub fn new(message: String) -> (error: RuntimeError)
        ensures
            error@ == message@,
    {
        RuntimeError { message }
    }

    /// The message of the error, which is what the error displays.
    pub fn message(&self) -> (message: String)
        ensures
            message@ == self@,
    {
        self.message.clone()
    }
}

/// An error together with advice that can be created or edited at runtime.
#[derive(Debug)]
pub struct DynamicAdvice<E> {
    /// The error this adds advice for.
    pub error: E,
    /// The severity of the error.
    pub severity: Severity,
    /// The error code.
    pub code: Option<String>,
    /// A help message or suggestion.
    pub help: Option<String>,
    /// A relevant url.
    pub url: Option<String>,
}

impl<A: Advice> From<A> for DynamicAdvice<A> {
    /// Wraps an error with the advice that it gives itself.
    fn from(advice: A) -> (dynamic: DynamicAdvice<A>)
        ensures
            is_advice_of(advice, dynamic),
    {
        let severity = advice.severity();
        let code = render(advice.code());
        let help = render(advice.help());
        let url = render(advice.url());
        DynamicAdvice { severity, code, help, url, error: advice }
    }
}

/// The advice of an error is what its own methods return, and a method may
/// return one thing now and another later. So the conversion is no function
/// of the error alone, and its contract is on `from` itself.
impl<A: Advice> FromSpecImpl<A> for DynamicAdvice<A> {
    open spec fn obeys_from_spec() -> bool {
        false
    }

    open spec fn from_spec(advice: A) -> DynamicAdvice<A> {
        choose|dynamic: DynamicAdvice<A>| is_advice_of(advice, dynamic)
    }
}

impl<E> DynamicAdvice<E> {
    /// Creates a new version of an error with empty advice fields. The new
    /// advice can be modified directly, or through the [`SetAdvice`] trait.
    ///
    /// Note: calling this on a type implementing [`Advice`] erases the
    /// advice that the type gives itself. Use `From` to keep it, or use
    /// `SetAdvice` directly on the error.
    pub fn from_error(error: E) -> (dynamic: DynamicAdvice<E>)
        ensures
            dynamic == (DynamicAdvice {
                error,
                severity: Severity::Error,
                code: None,
                help: None,
                url: None,
            }),
    {
        DynamicAdvice { error, severity: Severity::Error, code: None, help: None, url: None }
    }
}

impl<E> SetAdvice for DynamicAdvice<E> {
    type Output = DynamicAdvice<E>;

    open spec fn has_severity_set(self, severity: Severity, output: DynamicAdvice<E>) -> bool {
        output == (DynamicAdvice { severity, ..self })
    }

    open spec fn has_code_set(self, code: String, output: DynamicAdvice<E>) -> bool {
        output == (DynamicAdvice { code: Some(code), ..self })
    }

    open spec fn has_help_set(self, help: String, output: DynamicAdvice<E>) -> bool {
        output == (DynamicAdvice { help: Some(help), ..self })
    }

    open spec fn has_url_set(self, url: String, output: DynamicAdvice<E>) -> bool {
        output == (DynamicAdvice { url: Some(url), ..self })
    }

    fn with_severity(self, severity: Severity) -> (output: DynamicAdvice<E>) {
        DynamicAdvice { severity, ..self }
    }

    fn with_code<D: Display>(self, code: D) -> (output: DynamicAdvice<E>) {
        let text = code.to_string();
        let output = DynamicAdvice { code: Some(text), ..self };
        assert(self.has_code_set(text, output));
        output
    }

    fn with_help<D: Display>(self, help: D) -> (output: DynamicAdvice<E>) {
        let text = help.to_string();
        let output = DynamicAdvice { help: Some(text), ..self };
        assert(self.has_help_set(text, output));
        output
    }

    fn with_url<D: Display>(self, url: D) -> (output: DynamicAdvice<E>) {
        let text = url.to_string();
        let output = DynamicAdvice { url: Some(text), ..self };
        assert(self.has_url_set(text, output));
        output
    }
}

/// A place in the source of a program.
#[derive(Debug, Clone, PartialEq, Eq)]
pub struct SourceLocation {
    pub file: String,
    pub line: u32,
    pub column: u32,
}

/// The contents of a [`Report`].
struct ReportFrame<E> {
    /// The diagnostic for this report.
    advice: DynamicAdvice<E>,
    /// The location where this diagnostic was created.
    location: SourceLocation,
    /// The number of times this diagnostic has already been emitted.
    count: Option<usize>,
}

/// A report represents a generalized runtime exception that must be handled
/// by the runtime executor, and may be reported to a developer or user.
///
/// The data of a report is allocated on the heap, so a `Result` that holds
/// one takes up a single word.
pub struct Report<E>(Box<ReportFrame<E>>);

impl<E> Report<E> {
    /// The advice that the report carries.
    pub closed spec fn spec_advice(&self) -> &DynamicAdvice<E> {
        &self.0.advice
    }

    /// The place where the report was raised.
    pub closed spec fn spec_location(&self) -> &SourceLocation {
        &self.0.location
    }

    /// How often the report has been emitted already, as far as anything is
    /// known of it.
    pub closed spec fn spec_count(&self) -> Option<usize> {
        self.0.count
    }

    /// A report of `advice`, raised at `location` and not emitted yet.
    pub fn from_dynamic(advice: DynamicAdvice<E>, location: SourceLocation) -> (report: Report<E>)
        ensures
            *report.spec_advice() == advice,
            *report.spec_location() == location,
            report.spec_count() is None,
    {
        Report(Box::new(ReportFrame { advice, location, count: None }))
    }

    /// The advice that the report carries.
    #[verifier::when_used_as_spec(spec_advice)]
    pub fn advice(&self) -> (advice: &DynamicAdvice<E>)
        ensures
            advice == self.spec_advice(),
    {
        &self.0.advice
    }

    /// The place where the report was raised.
    #[verifier::when_used_as_spec(spec_location)]
    pub fn location(&self) -> (location: &SourceLocation)
        ensures
            location == self.spec_location(),
    {
        &self.0.location
    }

    /// How often the report has been emitted already, as far as anything is
    /// known of it.
    #[verifier::when_used_as_spec(spec_count)]
    pub fn count(&self) -> (count: Option<usize>)
        ensures
            count == self.spec_count(),
    {
        self.0.count
    }
}

impl<A: Advice> Report<A> {
    /// A report of an error with the advice that it gives itself, raised at
    /// `location`.
    pub fn new(error: A, location: SourceLocation) -> (report: Report<A>)
        ensures
            is_advice_of(error, *report.spec_advice()),
            *report.spec_location() == location,
            report.spec_count() is None,
    {
        Report::from_dynamic(DynamicAdvice::from(error), location)
    }

    /// A report of an error with the advice that it gives itself, raised at
    /// `location`.
    pub fn from_std(error: A, location: SourceLocation) -> (report: Report<A>)
        ensures
            is_advice_of(error, *report.spec_advice()),
            *report.spec_location() == location,
            report.spec_count() is None,
    {
        Report::from_dynamic(DynamicAdvice::from(error), location)
    }
}

impl<E> Report<E> {
    /// Takes the report apart: its advice, its location and its count.
    fn into_parts(self) -> (parts: (DynamicAdvice<E>, SourceLocation, Option<usize>))
        ensures
            parts.0 == *self.advice(),
            parts.1 == *self.location(),
            parts.2 == self.count(),
    {
        let frame = *self.0;
        (frame.advice, frame.location, frame.count)
    }
}

impl<E> SetAdvice for Report<E> {
    type Output = Report<E>;

    open spec fn has_severity_set(self, severity: Severity, output: Report<E>) -> bool {
        &&& self.advice().has_severity_set(severity, *output.advice())
        &&& output.location() == self.location()
        &&& output.count() == self.count()
    }

    open spec fn has_code_set(self, code: String, output: Report<E>) -> bool {
        &&& self.advice().has_code_set(code, *output.advice())
        &&& output.location() == self.location()
        &&& output.count() == self.count()
    }

    open spec fn has_help_set(self, help: String, output: Report<E>) -> bool {
        &&& self.advice().has_help_set(help, *output.advice())
        &&& output.location() == self.location()
        &&& output.count() == self.count()
    }

    open spec fn has_url_set(self, url: String, output: Report<E>) -> bool {
        &&& self.advice().has_url_set(url, *output.advice())
        &&& output.location() == self.location()
        &&& output.count() == self.count()
    }

    fn with_severity(self, severity: Severity) -> (output: Report<E>) {
        let (advice, location, count) = self.into_parts();
        Report(Box::new(ReportFrame { advice: advice.with_severity(severity), location, count }))
    }

    fn with_code<D: Display>(self, code: D) -> (output: Report<E>) {
        let (advice, location, count) = self.into_parts();
        let advice = advice.with_code(code);
        let output = Report(Box::new(ReportFrame { advice, location, count }));
        proof {
            let text = choose|text: String|
                to_string_from_display_ensures::<D>(&code, text) && #[trigger] self.advice().has_code_set(
                    text,
                    advice,
                );
            assert(self.has_code_set(text, output));
        }
        output
    }

    fn with_help<D: Display>(self, help: D) -> (output: Report<E>) {
        let (advice, location, count) = self.into_parts();
        let advice = advice.with_help(help);
        let output = Report(Box::new(ReportFrame { advice, location, count }));
        proof {
            let text = choose|text: String|
                to_string_from_display_ensures::<D>(&help, text) && #[trigger] self.advice().has_help_set(
                    text,
                    advice,
                );
            assert(self.has_help_set(text, output));
        }
        output
    }

    fn with_url<D: Display>(self, url: D) -> (output: Report<E>) {
        let (advice, location, count) = self.into_parts();
        let advice = advice.with_url(url);
        let output = Report(Box::new(ReportFrame { advice, location, count }));
        proof {
            let text = choose|text: String|
                to_string_from_display_ensures::<D>(&url, text) && #[trigger] self.advice().has_url_set(
                    text,
                    advice,
                );
            assert(self.has_url_set(text, output));
        }
        output
    }
}

/// Turns the error of a `Result` into a [`Report`].
pub trait IntoReport<T, E> {
    /// Converts an error into a report raised at `location`.
    fn report(self, location: SourceLocation) -> Result<T, Report<E>>;
}

impl<T, E> IntoReport<T, E> for Result<T, E> {
    /// Converts an error into a report raised at `location`, with empty
    /// advice. A value passes through.
    ///
    /// Note: on an error implementing [`Advice`] this erases the advice that
    /// the error gives itself.
    fn report(self, location: SourceLocation) -> (reported: Result<T, Report<E>>)
        ensures
            match self {
                Ok(value) => reported == Ok::<T, Report<E>>(value),
                Err(error) => reported is Err && *reported->Err_0.advice() == (DynamicAdvice {
                    error,
                    severity: Severity::Error,
                    code: None,
                    help: None,
                    url: None,
                }) && *reported->Err_0.location() == location && reported->Err_0.count() is None,
            },
    {
        match self {
            Ok(value) => Ok(value),
            Err(error) => Err(Report::from_dynamic(DynamicAdvice::from_error(error), location)),
        }
    }
}

impl<T, A: SetAdvice> SetAdvice for Result<T, A> {
    type Output = Result<T, A::Output>;

    open spec fn has_severity_set(self, severity: Severity, output: Result<T, A::Output>) -> bool {
        match self {
            Ok(value) => output == Ok::<T, A::Output>(value),
            Err(advice) => output is Err && advice.has_severity_set(severity, output->Err_0),
        }
    }

    open spec fn has_code_set(self, code: String, output: Result<T, A::Output>) -> bool {
        match self {
            Ok(value) => output == Ok::<T, A::Output>(value),
            Err(advice) => output is Err && advice.has_code_set(code, output->Err_0),
        }
    }

    open spec fn has_help_set(self, help: String, output: Result<T, A::Output>) -> bool {
        match self {
            Ok(value) => output == Ok::<T, A::Output>(value),
            Err(advice) => output is Err && advice.has_help_set(help, output->Err_0),
        }
    }

    open spec fn has_url_set(self, url: String, output: Result<T, A::Output>) -> bool {
        match self {
            Ok(value) => output == Ok::<T, A::Output>(value),
            Err(advice) => output is Err && advice.has_url_set(url, output->Err_0),
        }
    }

    fn with_severity(self, severity: Severity) -> (output: Result<T, A::Output>) {
        match self {
            Ok(value) => Ok(value),
            Err(advice) => Err(advice.with_severity(severity)),
        }
    }

    fn with_code<D: Display>(self, code: D) -> (output: Result<T, A::Output>) {
        match self {
            Ok(value) => {
                let text = code.to_string();
                let output = Ok(value);
                assert(self.has_code_set(text, output));
                output
            },
            Err(advice) => {
                let set = advice.with_code(code);
                let output = Err(set);
                proof {
                    let text = choose|text: String|
                        to_string_from_display_ensures::<D>(&code, text)
                            && #[trigger] advice.has_code_set(text, set);
                    assert(self.has_code_set(text, output));
                }
                output
            },
        }
    }

    fn with_help<D: Display>(self, help: D) -> (output: Result<T, A::Output>) {
        match self {
            Ok(value) => {
                let text = help.to_string();
                let output = Ok(value);
                assert(self.has_help_set(text, output));
                output
            },
            Err(advice) => {
                let set = advice.with_help(help);
                let output = Err(set);
                proof {
                    let text = choose|text: String|
                        to_string_from_display_ensures::<D>(&help, text)
                            && #[trigger] advice.has_help_set(text, set);
                    assert(self.has_help_set(text, output));
                }
                output
            },
        }
    }

    fn with_url<D: Display>(self, url: D) -> (output: Result<T, A::Output>) {
        match self {
            Ok(value) => {
                let text = url.to_string();
                let output = Ok(value);
                assert(self.has_url_set(text, output));
                output
            },
            Err(advice) => {
                let set = advice.with_url(url);
                let output = Err(set);
                proof {
                    let text = choose|text: String|
                        to_string_from_display_ensures::<D>(&url, text)
                            && #[trigger] advice.has_url_set(text, set);
                    assert(self.has_url_set(text, output));
                }
                output
            },
        }
    }
}

} // verus!
