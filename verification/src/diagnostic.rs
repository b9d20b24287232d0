//! Compile-time diagnostics: why a function or an attribute was rejected, and
//! which piece of syntax the message points at.

use vstd::prelude::*;
use vstd::string::*;

verus! {

/// The piece of syntax that a diagnostic points at. The caller that owns the
/// syntax tree resolves it to a source span.
#[derive(Clone, Copy, Debug, PartialEq, Eq, Structural)]
pub enum Site {
    /// The attribute argument at this position, as a whole.
    Argument(usize),
    /// The key of the attribute argument at this position.
    ArgumentKey(usize),
    /// The value of the attribute argument at this position.
    ArgumentValue(usize),
    /// The annotated item as a whole.
    Item,
    /// The parentheses of a restricted visibility, as in `pub(crate)`.
    VisibilityRestriction,
    /// The visibility qualifier.
    Visibility,
    /// The `fn` keyword.
    FnToken,
    /// The `const` keyword.
    ConstToken,
    /// The `async` keyword.
    AsyncToken,
    /// The `extern` qualifier with its optional name.
    Abi,
    /// The list of generic parameters.
    Generics,
    /// The variadic parameter.
    Variadic,
    /// The parentheses around the parameter list.
    ParameterList,
    /// The first parameter as a whole.
    FirstParameter,
    /// The first attribute on the first parameter.
    FirstParameterAttribute,
    /// The type of the first parameter.
    FirstParameterType,
    /// The lifetime of the first parameter's reference.
    FirstParameterLifetime,
    /// The `mut` of the first parameter's reference.
    FirstParameterMutability,
}

/// The closed set of reasons for which an attribute or a function is rejected.
#[derive(Clone, Copy, Debug, PartialEq, Eq, Structural)]
pub enum Rejection {
    ExpectedNameValue,
    UnknownOption,
    DuplicateOption,
    ExpectedStringLiteral,
    InvalidIdentifier,
    NotAFunction,
    ParameterCount,
    EngineParameter,
    ParameterAttribute,
    ExplicitLifetime,
    MutableEngine,
    Const,
    Async,
    ForeignAbi,
    Generic,
    Variadic,
    RestrictedVisibility,
    NotPublic,
}

impl Rejection {
    /// The fixed part of the message shown for this reason.
    pub open spec fn text_spec(self) -> Seq<char> {
        match self {
            Rejection::ExpectedNameValue => "expected `name = \"..\" attribute`"@,
            Rejection::UnknownOption => "expected `name = \"..\"` attribute"@,
            Rejection::DuplicateOption => "attribute appears more than once"@,
            Rejection::ExpectedStringLiteral => "expected string literal"@,
            Rejection::InvalidIdentifier => "string is not a valid identifier: "@,
            Rejection::NotAFunction =>
                "`wolfram_library_function` attribute can only be used on functions"@,
            Rejection::ParameterCount => "Wolfram library function must have 2 parameters"@,
            Rejection::EngineParameter =>
                "First parameter of Wolfram library function must be `&WolframEngine`"@,
            Rejection::ParameterAttribute => "Unknown Wolfram library function attribute"@,
            Rejection::ExplicitLifetime =>
                "Explicit lifetime is not allowed within a Wolfram library function"@,
            Rejection::MutableEngine =>
                "Wolfram library function engine parameter must be taken by immutable `&` reference"@,
            Rejection::Const => "Wolfram library function must not be `const`"@,
            Rejection::Async => "Wolfram library function must not be `async`"@,
            Rejection::ForeignAbi => "Wolfram library function must use the native Rust ABI"@,
            Rejection::Generic => "Wolfram library function must not be generic"@,
            Rejection::Variadic => "Wolfram library function must not be variadic"@,
            Rejection::RestrictedVisibility =>
                "Wolfram library function must be marked `pub`, with no restrictions"@,
            Rejection::NotPublic => "Wolfram library function must be marked `pub`"@,
        }
    }

    /// The fixed part of the message shown for this reason.
    pub fn text(self) -> (r: &'static str)
        ensures
            r@ == self.text_spec(),
    {
        match self {
            Rejection::ExpectedNameValue => "expected `name = \"..\" attribute`",
            Rejection::UnknownOption => "expected `name = \"..\"` attribute",
            Rejection::DuplicateOption => "attribute appears more than once",
            Rejection::ExpectedStringLiteral => "expected string literal",
            Rejection::InvalidIdentifier => "string is not a valid identifier: ",
            Rejection::NotAFunction =>
                "`wolfram_library_function` attribute can only be used on functions",
            Rejection::ParameterCount => "Wolfram library function must have 2 parameters",
            Rejection::EngineParameter =>
                "First parameter of Wolfram library function must be `&WolframEngine`",
            Rejection::ParameterAttribute => "Unknown Wolfram library function attribute",
            Rejection::ExplicitLifetime =>
                "Explicit lifetime is not allowed within a Wolfram library function",
            Rejection::MutableEngine =>
                "Wolfram library function engine parameter must be taken by immutable `&` reference",
            Rejection::Const => "Wolfram library function must not be `const`",
            Rejection::Async => "Wolfram library function must not be `async`",
            Rejection::ForeignAbi => "Wolfram library function must use the native Rust ABI",
            Rejection::Generic => "Wolfram library function must not be generic",
            Rejection::Variadic => "Wolfram library function must not be variadic",
            Rejection::RestrictedVisibility =>
                "Wolfram library function must be marked `pub`, with no restrictions",
            Rejection::NotPublic => "Wolfram library function must be marked `pub`",
        }
    }
}

/// What a diagnostic says, as mathematical values.
pub struct DiagnosticView {
    pub reason: Rejection,
    pub site: Site,
    pub detail: Seq<char>,
}

impl DiagnosticView {
    /// A diagnostic without detail.
    pub open spec fn plain(reason: Rejection, site: Site) -> DiagnosticView {
        DiagnosticView { reason, site, detail: Seq::empty() }
    }

    /// The whole message: the reason's fixed text, then the detail.
    pub open spec fn message(self) -> Seq<char> {
        self.reason.text_spec() + self.detail
    }
}

/// A positioned rejection: the reason, the syntax it points at, and the text
/// that completes the reason's message (empty for most reasons).
#[derive(Debug)]
pub struct Diagnostic {
    pub reason: Rejection,
    pub site: Site,
    pub detail: String,
}

impl View for Diagnostic {
    type V = DiagnosticView;

    open spec fn view(&self) -> DiagnosticView {
        DiagnosticView { reason: self.reason, site: self.site, detail: self.detail@ }
    }
}

impl Diagnostic {
    /// A diagnostic without detail.
    pub fn new(reason: Rejection, site: Site) -> (d: Diagnostic)
        ensures
            d@ == DiagnosticView::plain(reason, site),
    {
        Diagnostic { reason, site, detail: String::new() }
    }

    /// A diagnostic whose message ends with `detail`.
    pub fn with_detail(reason: Rejection, site: Site, detail: String) -> (d: Diagnostic)
        ensures
            d@ == (DiagnosticView { reason, site, detail: detail@ }),
    {
        Diagnostic { reason, site, detail }
    }

    /// The message shown to the user.
    pub fn message(&self) -> (r: String)
        ensures
            r@ == self@.message(),
    {
        String::from_str(self.reason.text()).concat(self.detail.as_str())
    }
}

} // verus!
