//! The options written in the attribute: an optional `name = "<identifier>"`.

use vstd::prelude::*;
use vstd::string::*;
use crate::diagnostic::{Diagnostic, DiagnosticView, Rejection, Site};

verus! {

/// A literal, as far as the options read it.
#[derive(Debug)]
pub enum LitValue {
    /// A string literal and its contents.
    Str(String),
    /// Any other literal.
    Other,
}

/// One argument of the attribute.
#[derive(Debug)]
pub enum AttrArg {
    /// `key = value`. The key is given where it is a single identifier.
    NameValue { key: Option<String>, value: LitValue },
    /// Anything else.
    Other,
}

/// The options that the attribute sets.
#[derive(Debug)]
pub struct Options {
    /// The name to give the generated wrapper.
    pub name: Option<String>,
}

impl View for Options {
    type V = Option<Seq<char>>;

    open spec fn view(&self) -> Option<Seq<char>> {
        match self.name {
            Some(name) => Some(name@),
            None => None,
        }
    }
}

/// Calls `syn::parse_str::<syn::Ident>`, and turns the identifier or the
/// error into text with `to_string`. Nothing is claimed of the outcome: how
/// the text is tokenized depends on where the process runs.
#[verifier::external_body]
fn parse_ident(text: &str) -> (r: Result<String, String>) {
    match syn::parse_str::<syn::Ident>(text) {
        Ok(ident) => Ok(ident.to_string()),
        Err(err) => Err(err.to_string()),
    }
}

/// The outcome of parsing an identifier, as mathematical values: the
/// identifier as text, or the message of the parse error.
pub open spec fn parse_view(parsed: Result<String, String>) -> Result<Seq<char>, Seq<char>> {
    match parsed {
        Ok(ident) => Ok(ident@),
        Err(message) => Err(message@),
    }
}

/// What reading the options gave, as mathematical values.
pub open spec fn options_view(r: Result<Options, Diagnostic>) -> Result<
    Option<Seq<char>>,
    DiagnosticView,
> {
    match r {
        Ok(options) => Ok(options@),
        Err(d) => Err(d@),
    }
}

/// The wrapper name that the outcome of parsing an identifier gives, for the
/// argument at `position`.
pub open spec fn name_of_parse(parsed: Result<Seq<char>, Seq<char>>, position: usize) -> Result<
    Seq<char>,
    DiagnosticView,
> {
    match parsed {
        Ok(ident) => Ok(ident),
        Err(message) => Err(
            DiagnosticView {
                reason: Rejection::InvalidIdentifier,
                site: Site::ArgumentValue(position),
                detail: message,
            },
        ),
    }
}

/// The wrapper name that the value of a `name` option gives, where `parsed`
/// is the outcome of parsing the contents of a string literal.
pub open spec fn name_option_value(
    lit: LitValue,
    position: usize,
    parsed: Result<Seq<char>, Seq<char>>,
) -> Result<Seq<char>, DiagnosticView> {
    match lit {
        LitValue::Str(_) => name_of_parse(parsed, position),
        LitValue::Other => Err(
            DiagnosticView::plain(Rejection::ExpectedStringLiteral, Site::ArgumentValue(position)),
        ),
    }
}

/// Whether a key is the single identifier `name`.
pub open spec fn is_name_key(key: Option<String>) -> bool {
    key matches Some(k) && k@ == "name"@
}

/// What is wrong with the form of an argument, if anything: it must be
/// `name = value`.
pub open spec fn argument_fault(arg: AttrArg, position: usize) -> Option<DiagnosticView> {
    match arg {
        AttrArg::Other => Some(
            DiagnosticView::plain(Rejection::ExpectedNameValue, Site::Argument(position)),
        ),
        AttrArg::NameValue { key, value } => if is_name_key(key) {
            None
        } else {
            Some(DiagnosticView::plain(Rejection::UnknownOption, Site::ArgumentKey(position)))
        },
    }
}

/// The value of an argument of the form `key = value`.
pub open spec fn argument_value(arg: AttrArg) -> LitValue {
    match arg {
        AttrArg::NameValue { key, value } => value,
        AttrArg::Other => LitValue::Other,
    }
}

/// The text that reading the options hands to the identifier parser, if any:
/// the contents of the string literal of a first argument `name = "<text>"`.
pub open spec fn text_to_parse(args: Seq<AttrArg>) -> Option<Seq<char>> {
    if args.len() > 0 && argument_fault(args[0], 0) is None {
        match argument_value(args[0]) {
            LitValue::Str(text) => Some(text@),
            LitValue::Other => None,
        }
    } else {
        None
    }
}

/// The options that a list of arguments sets, where `parsed` is the outcome
/// of parsing `text_to_parse(args)`. No argument sets nothing; one
/// well-formed `name` option sets the name; a second argument is rejected,
/// for its form if that is wrong, else as a repetition.
pub open spec fn options_given(args: Seq<AttrArg>, parsed: Result<Seq<char>, Seq<char>>) -> Result<
    Option<Seq<char>>,
    DiagnosticView,
> {
    if args.len() == 0 {
        Ok(None)
    } else if let Some(d) = argument_fault(args[0], 0) {
        Err(d)
    } else {
        match name_option_value(argument_value(args[0]), 0, parsed) {
            Err(d) => Err(d),
            Ok(name) => if args.len() == 1 {
                Ok(Some(name))
            } else if let Some(d) = argument_fault(args[1], 1) {
                Err(d)
            } else {
                Err(DiagnosticView::plain(Rejection::DuplicateOption, Site::ArgumentKey(1)))
            },
        }
    }
}

/// Turns the outcome of parsing an identifier into the wrapper's name, or
/// into the diagnostic that carries the parser's message.
pub fn name_from_parse(parsed: &Result<String, String>, position: usize) -> (r: Result<
    String,
    Diagnostic,
>)
    ensures
        match r {
            Ok(name) => name_of_parse(parse_view(*parsed), position) == Ok::<
                Seq<char>,
                DiagnosticView,
            >(name@),
            Err(d) => name_of_parse(parse_view(*parsed), position) == Err::<
                Seq<char>,
                DiagnosticView,
            >(d@),
        },
{
    match parsed {
        Ok(ident) => Ok(ident.clone()),
        Err(message) => Err(
            Diagnostic::with_detail(
                Rejection::InvalidIdentifier,
                Site::ArgumentValue(position),
                message.clone(),
            ),
        ),
    }
}

/// Reads the value of the `name` option at `position`: a string literal that
/// holds an identifier. Anything but a string literal is rejected as such. Of
/// a string literal the parser decides: the result is a name, or the
/// diagnostic of an invalid identifier at the value.
pub fn parse_name_option_value(lit: &LitValue, position: usize) -> (r: Result<String, Diagnostic>)
    ensures
        match *lit {
            LitValue::Other => r matches Err(d) && d@ == DiagnosticView::plain(
                Rejection::ExpectedStringLiteral,
                Site::ArgumentValue(position),
            ),
            LitValue::Str(_) => r matches Err(d) ==> d@.reason == Rejection::InvalidIdentifier
                && d@.site == Site::ArgumentValue(position),
        },
{
    match lit {
        LitValue::Str(text) => {
            let parsed = parse_ident(text.as_str());
            name_from_parse(&parsed, position)
        },
        LitValue::Other => Err(
            Diagnostic::new(Rejection::ExpectedStringLiteral, Site::ArgumentValue(position)),
        ),
    }
}

/// Whether a key is the single identifier `name`.
pub fn key_is_name(key: &Option<String>) -> (r: bool)
    ensures
        r == is_name_key(*key),
{
    match key {
        Some(k) => {
            let expected = String::from_str("name");
            k.eq(&expected)
        },
        None => false,
    }
}

/// Reads the attribute's arguments into the options they set, given the
/// outcome of parsing the one text that the options hold.
pub fn options_from_parse(args: &Vec<AttrArg>, parsed: &Result<String, String>) -> (r: Result<
    Options,
    Diagnostic,
>)
    ensures
        options_view(r) == options_given(args@, parse_view(*parsed)),
{
    let mut name_option: Option<String> = None;
    let mut i: usize = 0;
    while i < args.len()
        invariant
            i <= args.len(),
            i <= 1,
            i == 0 ==> name_option is None,
            i == 1 ==> argument_fault(args@[0], 0) is None && (name_option matches Some(name)
                && name_option_value(argument_value(args@[0]), 0, parse_view(*parsed)) == Ok::<
                Seq<char>,
                DiagnosticView,
            >(name@)),
        decreases args.len() - i,
    {
        let (key, value) = match &args[i] {
            AttrArg::NameValue { key, value } => (key, value),
            AttrArg::Other => {
                return Err(Diagnostic::new(Rejection::ExpectedNameValue, Site::Argument(i)));
            },
        };
        if !key_is_name(key) {
            return Err(Diagnostic::new(Rejection::UnknownOption, Site::ArgumentKey(i)));
        }
        if name_option.is_some() {
            return Err(Diagnostic::new(Rejection::DuplicateOption, Site::ArgumentKey(i)));
        }
        let read = match value {
            LitValue::Str(_) => name_from_parse(parsed, i),
            LitValue::Other => Err(
                Diagnostic::new(Rejection::ExpectedStringLiteral, Site::ArgumentValue(i)),
            ),
        };
        match read {
            Ok(name) => {
                name_option = Some(name);
            },
            Err(d) => {
                return Err(d);
            },
        }
        i += 1;
    }
    Ok(Options { name: name_option })
}

/// The text that reading the options hands to the identifier parser, if any.
pub fn literal_to_parse(args: &Vec<AttrArg>) -> (r: Option<&String>)
    ensures
        match r {
            Some(text) => text_to_parse(args@) == Some(text@),
            None => text_to_parse(args@) is None,
        },
{
    if args.len() == 0 {
        return None;
    }
    match &args[0] {
        AttrArg::NameValue { key, value } => {
            if !key_is_name(key) {
                return None;
            }
            match value {
                LitValue::Str(text) => Some(text),
                LitValue::Other => None,
            }
        },
        AttrArg::Other => None,
    }
}

/// Where the options hold no text to parse, what they set does not depend on
/// any outcome of parsing.
pub proof fn lemma_options_without_parse(
    args: Seq<AttrArg>,
    a: Result<Seq<char>, Seq<char>>,
    b: Result<Seq<char>, Seq<char>>,
)
    requires
        text_to_parse(args) is None,
    ensures
        options_given(args, a) == options_given(args, b),
{
}

/// Reads the attribute's arguments into the options they set. The one text
/// that the options may hold is parsed as an identifier, and the result is
/// what `options_given` says for the outcome of that parse; where there is
/// no such text, the result is the same for every outcome.
pub fn parse_attributes(args: &Vec<AttrArg>) -> (r: Result<Options, Diagnostic>)
    ensures
        exists|parsed: Result<Seq<char>, Seq<char>>|
            options_view(r) == #[trigger] options_given(args@, parsed),
        text_to_parse(args@) is None ==> forall|parsed: Result<Seq<char>, Seq<char>>|
            options_view(r) == #[trigger] options_given(args@, parsed),
{
    let parsed = match literal_to_parse(args) {
        Some(text) => parse_ident(text.as_str()),
        None => Err(String::new()),
    };
    let r = options_from_parse(args, &parsed);
    proof {
        if text_to_parse(args@) is None {
            assert forall|other: Result<Seq<char>, Seq<char>>|
                options_view(r) == #[trigger] options_given(args@, other) by {
                lemma_options_without_parse(args@, parse_view(parsed), other);
            }
        }
    }
    r
}

} // verus!
