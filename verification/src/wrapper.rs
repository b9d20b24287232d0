//! The exported wrapper that stands for an accepted function.

use vstd::prelude::*;
use vstd::string::*;
use crate::diagnostic::{Diagnostic, DiagnosticView};
use crate::options::{
    argument_fault, argument_value, lemma_options_without_parse, options_given, options_view,
    parse_attributes, text_to_parse, AttrArg, Options,
};
use crate::signature::{validate_function, Item};

verus! {

/// The one wrapper generated for an accepted function: the name under which
/// it is exported, and the function that it forwards to. Its parameters are
/// always the same two, the engine context and the link.
#[derive(Debug)]
pub struct Wrapper {
    pub name: String,
    pub function: String,
}

/// A wrapper as mathematical values.
pub struct WrapperView {
    pub name: Seq<char>,
    pub function: Seq<char>,
}

impl View for Wrapper {
    type V = WrapperView;

    open spec fn view(&self) -> WrapperView {
        WrapperView { name: self.name@, function: self.function@ }
    }
}

/// The name of the wrapper: the configured one, else the function's name
/// followed by `_wrapper`.
pub open spec fn wrapper_name(configured: Option<Seq<char>>, function: Seq<char>) -> Seq<char> {
    match configured {
        Some(name) => name,
        None => function + "_wrapper"@,
    }
}

/// What expanding the attribute gave, as mathematical values.
pub open spec fn expansion_view(r: Result<Wrapper, Diagnostic>) -> Result<
    WrapperView,
    DiagnosticView,
> {
    match r {
        Ok(w) => Ok(w@),
        Err(d) => Err(d@),
    }
}

/// What the attribute expands to, beside the function itself, where `parsed`
/// is the outcome of parsing the text that the options hold: the wrapper, or
/// the diagnostic of the options, or else that of the function.
pub open spec fn expansion(
    args: Seq<AttrArg>,
    item: Item,
    parsed: Result<Seq<char>, Seq<char>>,
) -> Result<WrapperView, DiagnosticView> {
    match options_given(args, parsed) {
        Err(d) => Err(d),
        Ok(configured) => match item.verdict() {
            Err(d) => Err(d),
            Ok(function) => Ok(
                WrapperView { name: wrapper_name(configured, function), function },
            ),
        },
    }
}

/// Names the wrapper of an accepted function.
pub fn wrapper_for(options: Options, function: String) -> (w: Wrapper)
    ensures
        w@ == (WrapperView { name: wrapper_name(options@, function@), function: function@ }),
{
    let name = match options.name {
        Some(name) => name,
        None => function.clone().concat("_wrapper"),
    };
    Wrapper { name, function }
}

/// Expands the attribute on an item: reads the options, judges the function,
/// and names its wrapper. Nothing is generated unless both succeed. The
/// result is what `expansion` says for the outcome of parsing the text that
/// the options hold; where there is no such text, it is the same for every
/// outcome.
pub fn wolfram_library_function_impl(args: &Vec<AttrArg>, item: &Item) -> (r: Result<
    Wrapper,
    Diagnostic,
>)
    ensures
        exists|parsed: Result<Seq<char>, Seq<char>>|
            expansion_view(r) == #[trigger] expansion(args@, *item, parsed),
        text_to_parse(args@) is None ==> forall|parsed: Result<Seq<char>, Seq<char>>|
            expansion_view(r) == #[trigger] expansion(args@, *item, parsed),
{
    let read = parse_attributes(args);
    let ghost witness = choose|parsed: Result<Seq<char>, Seq<char>>|
        options_view(read) == #[trigger] options_given(args@, parsed);
    proof {
        if text_to_parse(args@) is None {
            assert forall|other: Result<Seq<char>, Seq<char>>|
                #[trigger] expansion(args@, *item, other) == expansion(args@, *item, witness) by {
                lemma_options_without_parse(args@, witness, other);
            }
        }
    }
    let options = match read {
        Ok(options) => options,
        Err(d) => {
            assert(expansion_view(Err(d)) == expansion(args@, *item, witness));
            return Err(d);
        },
    };
    let function = match validate_function(item) {
        Ok(function) => function,
        Err(d) => {
            assert(expansion_view(Err(d)) == expansion(args@, *item, witness));
            return Err(d);
        },
    };
    let w = wrapper_for(options, function);
    assert(expansion_view(Ok(w)) == expansion(args@, *item, witness));
    Ok(w)
}

/// Without options, a function that satisfies every rule gets one wrapper,
/// named after the function with `_wrapper` appended, whatever a parse would
/// give.
pub proof fn law_default_wrapper_name(item: Item, parsed: Result<Seq<char>, Seq<char>>)
    requires
        item matches Item::Function(sig) && sig.acceptable(),
    ensures
        item matches Item::Function(sig) && expansion(Seq::empty(), item, parsed) == Ok::<
            WrapperView,
            DiagnosticView,
        >(WrapperView { name: sig.name@ + "_wrapper"@, function: sig.name@ }),
{
}

/// With the single option `name = "<text>"`, where the text parses as the
/// identifier `custom`, a function that satisfies every rule gets one
/// wrapper, named `custom` and not after the function.
pub proof fn law_configured_wrapper_name(arg: AttrArg, custom: Seq<char>, item: Item)
    requires
        item matches Item::Function(sig) && sig.acceptable(),
        argument_fault(arg, 0) is None,
        argument_value(arg) is Str,
    ensures
        item matches Item::Function(sig) && expansion(seq![arg], item, Ok(custom)) == Ok::<
            WrapperView,
            DiagnosticView,
        >(WrapperView { name: custom, function: sig.name@ }),
{
    let args = seq![arg];
    assert(args.len() == 1 && args[0] == arg);
}

/// Whatever the options, a function that violates a rule gets no wrapper.
pub proof fn law_no_wrapper_on_rejection(
    args: Seq<AttrArg>,
    item: Item,
    parsed: Result<Seq<char>, Seq<char>>,
)
    requires
        item.verdict() is Err,
    ensures
        expansion(args, item, parsed) is Err,
{
}

} // verus!
