use vstd::prelude::*;
use vstd::string::StringExecFns;

use crate::decimal::spec_decimal;
use crate::decimal::u32_decimal;

verus! {

/// An error raised by the underlying platform (the operating system or its
/// I/O layer), reduced to the one thing this library reads of it: its
/// displayed message.
pub struct PlatformError {
    /// The platform's own displayed message.
    pub message: String,
}

impl PlatformError {
    /// Wraps a platform message.
    pub fn new(message: String) -> (e: PlatformError)
        ensures
            e.message == message,
    {
        PlatformError { message }
    }
}

/// The template error enumeration. The only variant that is required for
/// basic operation is the `Error` variant; the `File` variant is included
/// for demonstration purposes.
///
/// When adding a variant, extend the one shared renderer (`render`) rather
/// than branching formatting logic per call site, and implement `From` for
/// the new variant's payload.
pub enum Error {
    /// Custom error of type `String`.
    Error(String),
    /// Error raised by the platform while handling a file.
    File(PlatformError),
}

impl Error {
    /// The one shared per-variant renderer: both the display and the debug
    /// rendering delegate to it.
    pub open spec fn render(self) -> Seq<char> {
        match self {
            Error::Error(m) => m@,
            Error::File(p) => p.message@,
        }
    }

    /// What the display rendering shows.
    pub open spec fn display_view(self) -> Seq<char> {
        self.render()
    }

    /// What the debug rendering shows.
    pub open spec fn debug_view(self) -> Seq<char> {
        self.render()
    }

    /// Renders the error for an end user: a custom message verbatim, a
    /// wrapped platform error by the platform's own message.
    pub fn format_display(&self) -> (s: String)
        ensures
            s@ == self.display_view(),
    {
        match self {
            Error::Error(m) => m.clone(),
            Error::File(p) => p.message.clone(),
        }
    }

    /// Renders the error for a developer: the same text, character for
    /// character, as `format_display`.
    pub fn format_debug(&self) -> (s: String)
        ensures
            s@ == self.debug_view(),
    {
        match self {
            Error::Error(m) => m.clone(),
            Error::File(p) => p.message.clone(),
        }
    }

    /// The lower-level error that caused this one: absent for a custom
    /// error, the wrapped platform error otherwise.
    pub fn source(&self) -> (r: Option<&PlatformError>)
        ensures
            self is Error ==> r is None,
            self matches Error::File(c) ==> (r matches Some(rc) && *rc == c),
    {
        match self {
            Error::Error(_) => None,
            Error::File(p) => Some(p),
        }
    }
}

impl From<PlatformError> for Error {
    /// Converting a platform error always yields the wrapped variant.
    fn from(p: PlatformError) -> (e: Error)
        ensures
            e == Error::File(p),
    {
        Error::File(p)
    }
}

impl vstd::std_specs::convert::FromSpecImpl<PlatformError> for Error {
    open spec fn obeys_from_spec() -> bool {
        true
    }

    open spec fn from_spec(p: PlatformError) -> Error {
        Error::File(p)
    }
}

/// A specialized result type for use with the template: either a success
/// value of `T` or exactly one `Error`; no third state.
pub type Result<T> = core::result::Result<T, Error>;

/// A source location — file, line and column — as a caller's language
/// facilities report it at an error-raising site.
pub struct Location {
    /// The source file's name.
    pub file: String,
    /// The line within the file.
    pub line: u32,
    /// The column within the line.
    pub column: u32,
}

/// The location prefix `<file>:<line>:<column>: ` that a disclosed error's
/// text begins with.
pub open spec fn located(file: Seq<char>, line: nat, column: nat) -> Seq<char> {
    file + ":"@ + spec_decimal(line) + ":"@ + spec_decimal(column) + ": "@
}

impl Location {
    /// This location's disclosed prefix.
    pub open spec fn prefix(self) -> Seq<char> {
        located(self.file@, self.line as nat, self.column as nat)
    }

    /// Renders the disclosed prefix.
    pub fn render_prefix(&self) -> (s: String)
        ensures
            s@ == self.prefix(),
    {
        let mut s = self.file.clone();
        s.append(":");
        let line = u32_decimal(self.line);
        s.append(line.as_str());
        s.append(":");
        let column = u32_decimal(self.column);
        s.append(column.as_str());
        s.append(": ");
        s
    }
}

/// The text of a disclosed error: the location prefix, then the details.
pub open spec fn disclosed_text(loc: Location, details: Seq<char>) -> Seq<char> {
    loc.prefix() + details
}

/// The text of a bare error: the details alone — unless the disclosure flag
/// is set, in which case it equals the disclosed text.
pub open spec fn bare_text(disclose: bool, loc: Location, details: Seq<char>) -> Seq<char> {
    if disclose {
        disclosed_text(loc, details)
    } else {
        details
    }
}

/// Prepares a disclosed error when transforming an absent value into a
/// failure: the error's text names the source location where it was raised.
/// Ideal for debugging purposes.
pub fn disclosed_from_absence(loc: &Location, details: String) -> (e: Error)
    ensures
        e matches Error::Error(m) && m@ == disclosed_text(*loc, details@),
{
    let mut text = loc.render_prefix();
    text.append(details.as_str());
    Error::Error(text)
}

/// Prepares a bare error when transforming an absent value into a failure:
/// the error's text omits the source location, unless the disclosure flag is
/// set, in which case it behaves exactly as `disclosed_from_absence`. Ideal
/// for presenting an end user with the cause of the error.
pub fn bare_from_absence(disclose: bool, loc: &Location, details: String) -> (e: Error)
    ensures
        e matches Error::Error(m) && m@ == bare_text(disclose, *loc, details@),
{
    if disclose {
        disclosed_from_absence(loc, details)
    } else {
        Error::Error(details)
    }
}

/// Prepares a disclosed failure, ready to hand to the propagation operator:
/// the error's text names the source location where it was raised.
pub fn disclosed_from_failure<T>(loc: &Location, details: String) -> (r: Result<T>)
    ensures
        r matches Err(e) && (e matches Error::Error(m) && m@ == disclosed_text(*loc, details@)),
{
    Err(disclosed_from_absence(loc, details))
}

/// Prepares a bare failure, ready to hand to the propagation operator: the
/// error's text omits the source location, unless the disclosure flag is
/// set, in which case it behaves exactly as `disclosed_from_failure`.
pub fn bare_from_failure<T>(disclose: bool, loc: &Location, details: String) -> (r: Result<T>)
    ensures
        r matches Err(e) && (e matches Error::Error(m) && m@ == bare_text(
            disclose,
            *loc,
            details@,
        )),
{
    Err(bare_from_absence(disclose, loc, details))
}

/// The display and the debug rendering of any error are the same string.
pub proof fn lemma_dual_rendering(e: Error)
    ensures
        e.display_view() == e.debug_view(),
{
}

/// A disclosed error's text is the location prefix followed by the details.
pub proof fn lemma_disclosed_shape(loc: Location, details: Seq<char>)
    ensures
        disclosed_text(loc, details) == loc.prefix() + details,
{
}

/// With the disclosure flag unset, a bare error's text is exactly its
/// details, with no location prefix.
pub proof fn lemma_bare_flag_unset(loc: Location, details: Seq<char>)
    ensures
        bare_text(false, loc, details) == details,
{
}

/// With the disclosure flag set, a bare error's text equals the disclosed
/// text for the same call-site arguments.
pub proof fn lemma_bare_flag_set(loc: Location, details: Seq<char>)
    ensures
        bare_text(true, loc, details) == disclosed_text(loc, details),
{
}

} // verus!
