//! The signature of a candidate function, and the rules that decide whether it
//! can be exposed through the host's fixed two-argument entry point.

use vstd::prelude::*;
use vstd::string::*;
use crate::diagnostic::{Diagnostic, DiagnosticView, Rejection, Site};

verus! {

/// How a function's visibility is written.
#[derive(Clone, Copy, Debug, PartialEq, Eq, Structural)]
pub enum Visibility {
    /// `pub`
    Public,
    /// `crate`
    Crate,
    /// `pub(..)` with a restriction between the parentheses.
    Restricted,
    /// No qualifier.
    Inherited,
}

/// The shape of a parameter's type, as far as the rules read it.
#[derive(Debug)]
pub enum ParamType {
    /// A reference, with or without an explicit lifetime and `mut`. The
    /// referent is given where the type referred to is a plain path: the
    /// names of its segments, in order.
    Reference { lifetime: bool, mutable: bool, referent: Option<Vec<String>> },
    /// Any other type.
    Other,
}

/// One parameter of a function.
#[derive(Debug)]
pub enum Param {
    /// `self` in any form.
    Receiver,
    /// A pattern with a type, and the number of attributes written on it.
    Typed { attrs: usize, ty: ParamType },
}

/// What the rules read of a function's declaration.
#[derive(Debug)]
pub struct Signature {
    pub name: String,
    pub visibility: Visibility,
    pub is_const: bool,
    pub is_async: bool,
    pub has_abi: bool,
    pub generics: usize,
    pub is_variadic: bool,
    pub inputs: Vec<Param>,
}

/// The annotated item.
#[derive(Debug)]
pub enum Item {
    Function(Signature),
    /// Anything that is not a function.
    Other,
}

/// The rules that a function must satisfy, all of them, to be wrapped.
#[derive(Clone, Copy, Debug, PartialEq, Eq, Structural)]
pub enum Rule {
    /// Exactly two parameters.
    ParameterCount,
    /// The first parameter is a plain `&` reference to the engine context: no
    /// attribute, no explicit lifetime, no `mut`.
    EngineParameter,
    /// Not `const`.
    NotConst,
    /// Not `async`.
    NotAsync,
    /// No `extern` qualifier.
    NativeAbi,
    /// No generic parameters.
    Monomorphic,
    /// No variadic parameter.
    NotVariadic,
    /// `pub`, without restriction.
    Public,
}

impl Rule {
    /// The place of the rule in the order in which violations are reported.
    pub open spec fn rank(self) -> nat {
        match self {
            Rule::ParameterCount => 0,
            Rule::EngineParameter => 1,
            Rule::NotConst => 2,
            Rule::NotAsync => 3,
            Rule::NativeAbi => 4,
            Rule::Monomorphic => 5,
            Rule::NotVariadic => 6,
            Rule::Public => 7,
        }
    }
}

/// The rule that a rejection reason speaks of, if it speaks of a function's
/// signature at all.
pub open spec fn rule_of(reason: Rejection) -> Option<Rule> {
    match reason {
        Rejection::ParameterCount => Some(Rule::ParameterCount),
        Rejection::EngineParameter => Some(Rule::EngineParameter),
        Rejection::ParameterAttribute => Some(Rule::EngineParameter),
        Rejection::ExplicitLifetime => Some(Rule::EngineParameter),
        Rejection::MutableEngine => Some(Rule::EngineParameter),
        Rejection::Const => Some(Rule::NotConst),
        Rejection::Async => Some(Rule::NotAsync),
        Rejection::ForeignAbi => Some(Rule::NativeAbi),
        Rejection::Generic => Some(Rule::Monomorphic),
        Rejection::Variadic => Some(Rule::NotVariadic),
        Rejection::RestrictedVisibility => Some(Rule::Public),
        Rejection::NotPublic => Some(Rule::Public),
        _ => None,
    }
}

/// Whether a path names the engine-context type: `WolframEngine`, alone or
/// under `wl_library_link`.
pub open spec fn is_engine_path(path: Seq<String>) -> bool {
    ||| path.len() == 1 && path[0]@ == "WolframEngine"@
    ||| path.len() == 2 && path[0]@ == "wl_library_link"@ && path[1]@ == "WolframEngine"@
}

/// Whether what a reference refers to is the engine-context type.
pub open spec fn refers_to_engine(referent: Option<Vec<String>>) -> bool {
    referent matches Some(path) && is_engine_path(path@)
}

/// Whether a parameter has the shape asked of the engine parameter: no
/// attribute, and a `&` reference to the engine-context type without explicit
/// lifetime or `mut`.
pub open spec fn is_engine_parameter(param: Param) -> bool {
    param matches Param::Typed { attrs, ty } && attrs == 0 && (ty matches ParamType::Reference {
        lifetime,
        mutable,
        referent,
    } && !lifetime && !mutable && refers_to_engine(referent))
}

/// What is wrong with a visibility, if anything.
pub open spec fn visibility_fault(vis: Visibility) -> Option<DiagnosticView> {
    match vis {
        Visibility::Public => None,
        Visibility::Restricted => Some(
            DiagnosticView::plain(Rejection::RestrictedVisibility, Site::VisibilityRestriction),
        ),
        Visibility::Crate => Some(DiagnosticView::plain(Rejection::NotPublic, Site::Visibility)),
        Visibility::Inherited => Some(DiagnosticView::plain(Rejection::NotPublic, Site::FnToken)),
    }
}

/// What is wrong with the first parameter, if anything. Of several faults the
/// one reported is the first of: a receiver, an attribute, a type that is no
/// reference to the engine context, an explicit lifetime, `mut`.
pub open spec fn engine_parameter_fault(param: Param) -> Option<DiagnosticView> {
    match param {
        Param::Receiver => Some(
            DiagnosticView::plain(Rejection::EngineParameter, Site::FirstParameter),
        ),
        Param::Typed { attrs, ty } => if attrs > 0 {
            Some(DiagnosticView::plain(Rejection::ParameterAttribute, Site::FirstParameterAttribute))
        } else {
            match ty {
                ParamType::Other => Some(
                    DiagnosticView::plain(Rejection::EngineParameter, Site::FirstParameterType),
                ),
                ParamType::Reference { lifetime, mutable, referent } => if !refers_to_engine(
                    referent,
                ) {
                    Some(
                        DiagnosticView::plain(Rejection::EngineParameter, Site::FirstParameterType),
                    )
                } else if lifetime {
                    Some(
                        DiagnosticView::plain(
                            Rejection::ExplicitLifetime,
                            Site::FirstParameterLifetime,
                        ),
                    )
                } else if mutable {
                    Some(
                        DiagnosticView::plain(
                            Rejection::MutableEngine,
                            Site::FirstParameterMutability,
                        ),
                    )
                } else {
                    None
                },
            }
        },
    }
}

/// What is wrong with a parameter list, if anything: its length first, then
/// its first parameter.
pub open spec fn parameters_fault(inputs: Seq<Param>) -> Option<DiagnosticView> {
    if inputs.len() != 2 {
        Some(DiagnosticView::plain(Rejection::ParameterCount, Site::ParameterList))
    } else {
        engine_parameter_fault(inputs[0])
    }
}

impl Signature {
    /// Whether the signature satisfies one rule.
    pub open spec fn satisfies(&self, rule: Rule) -> bool {
        match rule {
            Rule::ParameterCount => self.inputs@.len() == 2,
            Rule::EngineParameter => self.inputs@.len() > 0 ==> is_engine_parameter(
                self.inputs@[0],
            ),
            Rule::NotConst => !self.is_const,
            Rule::NotAsync => !self.is_async,
            Rule::NativeAbi => !self.has_abi,
            Rule::Monomorphic => self.generics == 0,
            Rule::NotVariadic => !self.is_variadic,
            Rule::Public => self.visibility == Visibility::Public,
        }
    }

    /// Whether the signature satisfies every rule.
    pub open spec fn acceptable(&self) -> bool {
        forall|rule: Rule| #[trigger] self.satisfies(rule)
    }

    /// The diagnostic that one rule gives for the signature: none where the
    /// rule is satisfied.
    pub open spec fn fault(&self, rule: Rule) -> Option<DiagnosticView> {
        match rule {
            Rule::ParameterCount => if self.inputs@.len() != 2 {
                Some(DiagnosticView::plain(Rejection::ParameterCount, Site::ParameterList))
            } else {
                None
            },
            Rule::EngineParameter => if self.inputs@.len() > 0 {
                engine_parameter_fault(self.inputs@[0])
            } else {
                None
            },
            Rule::NotConst => if self.is_const {
                Some(DiagnosticView::plain(Rejection::Const, Site::ConstToken))
            } else {
                None
            },
            Rule::NotAsync => if self.is_async {
                Some(DiagnosticView::plain(Rejection::Async, Site::AsyncToken))
            } else {
                None
            },
            Rule::NativeAbi => if self.has_abi {
                Some(DiagnosticView::plain(Rejection::ForeignAbi, Site::Abi))
            } else {
                None
            },
            Rule::Monomorphic => if self.generics > 0 {
                Some(DiagnosticView::plain(Rejection::Generic, Site::Generics))
            } else {
                None
            },
            Rule::NotVariadic => if self.is_variadic {
                Some(DiagnosticView::plain(Rejection::Variadic, Site::Variadic))
            } else {
                None
            },
            Rule::Public => visibility_fault(self.visibility),
        }
    }

    /// Whether `rule` is the first rule, by rank, that the signature violates.
    pub open spec fn first_violation(&self, rule: Rule) -> bool {
        &&& !self.satisfies(rule)
        &&& forall|earlier: Rule|
            earlier.rank() < rule.rank() ==> #[trigger] self.satisfies(earlier)
    }

    /// The judgment on the signature: the function's name where every rule
    /// holds, else the diagnostic of the first rule violated.
    pub open spec fn verdict(&self) -> Result<Seq<char>, DiagnosticView> {
        if self.acceptable() {
            Ok(self.name@)
        } else {
            Err(self.fault(choose|rule: Rule| self.first_violation(rule)).unwrap())
        }
    }
}

impl Item {
    /// The judgment on an annotated item: only a function can be accepted.
    pub open spec fn verdict(&self) -> Result<Seq<char>, DiagnosticView> {
        match self {
            Item::Function(sig) => sig.verdict(),
            Item::Other => Err(DiagnosticView::plain(Rejection::NotAFunction, Site::Item)),
        }
    }
}

/// A rule gives a diagnostic exactly where it is violated, and the reason of
/// that diagnostic speaks of that rule.
pub proof fn lemma_fault_matches_rule(sig: &Signature, rule: Rule)
    ensures
        sig.fault(rule) is None <==> sig.satisfies(rule),
        sig.fault(rule) matches Some(d) ==> rule_of(d.reason) == Some(rule)
            && d.detail == Seq::<char>::empty(),
{
}

/// A signature whose first violated rule is `rule` gets that rule's diagnostic.
pub proof fn lemma_first_violation_decides(sig: &Signature, rule: Rule)
    requires
        sig.first_violation(rule),
    ensures
        sig.verdict() == Err::<Seq<char>, DiagnosticView>(sig.fault(rule).unwrap()),
        sig.fault(rule) is Some,
{
    lemma_fault_matches_rule(sig, rule);
    let chosen = choose|r: Rule| sig.first_violation(r);
    assert(sig.first_violation(chosen));
    assert(chosen.rank() == rule.rank()) by {
        if chosen.rank() < rule.rank() {
            assert(sig.satisfies(chosen));
        }
        if rule.rank() < chosen.rank() {
            assert(sig.satisfies(rule));
        }
    }
    assert(chosen == rule);
}

/// Where some rule is violated, one of the violated rules is the first.
pub proof fn lemma_first_violation_exists(sig: &Signature) -> (rule: Rule)
    requires
        !sig.acceptable(),
    ensures
        sig.first_violation(rule),
{
    if !sig.satisfies(Rule::ParameterCount) {
        Rule::ParameterCount
    } else if !sig.satisfies(Rule::EngineParameter) {
        Rule::EngineParameter
    } else if !sig.satisfies(Rule::NotConst) {
        Rule::NotConst
    } else if !sig.satisfies(Rule::NotAsync) {
        Rule::NotAsync
    } else if !sig.satisfies(Rule::NativeAbi) {
        Rule::NativeAbi
    } else if !sig.satisfies(Rule::Monomorphic) {
        Rule::Monomorphic
    } else if !sig.satisfies(Rule::NotVariadic) {
        Rule::NotVariadic
    } else {
        assert(!sig.satisfies(Rule::Public)) by {
            if sig.satisfies(Rule::Public) {
                assert forall|rule: Rule| #[trigger] sig.satisfies(rule) by {}
            }
        }
        Rule::Public
    }
}

/// A function is wrapped if and only if it satisfies every rule; a rejection
/// names the first rule violated, and no other rule of lower rank is violated.
pub proof fn law_rejection_names_first_violation(sig: &Signature)
    ensures
        sig.verdict() is Ok <==> sig.acceptable(),
        sig.verdict() matches Ok(name) ==> name == sig.name@,
        sig.verdict() matches Err(d) ==> rule_of(d.reason) matches Some(rule)
            && sig.first_violation(rule) && sig.fault(rule) == Some(d),
{
    if !sig.acceptable() {
        let rule = lemma_first_violation_exists(sig);
        lemma_first_violation_decides(sig, rule);
        lemma_fault_matches_rule(sig, rule);
    }
}

/// A function that violates one rule and satisfies all the others is rejected
/// with a reason that speaks of that rule.
pub proof fn law_single_violation(sig: &Signature, rule: Rule)
    requires
        !sig.satisfies(rule),
        forall|other: Rule| other != rule ==> #[trigger] sig.satisfies(other),
    ensures
        sig.verdict() matches Err(d) && rule_of(d.reason) == Some(rule) && sig.fault(rule) == Some(
            d,
        ),
{
    lemma_first_violation_decides(sig, rule);
    lemma_fault_matches_rule(sig, rule);
}

/// A function whose first parameter is a reference to anything but the
/// engine-context type is rejected with a reason that speaks of the engine
/// parameter, unless the number of parameters is already wrong.
pub proof fn law_engine_referent_required(sig: &Signature)
    requires
        sig.inputs@.len() == 2,
        sig.inputs@[0] matches Param::Typed { attrs, ty } && (ty matches ParamType::Reference {
            lifetime,
            mutable,
            referent,
        } && !refers_to_engine(referent)),
    ensures
        sig.verdict() matches Err(d) && rule_of(d.reason) == Some(Rule::EngineParameter),
{
    lemma_first_violation_decides(sig, Rule::EngineParameter);
    lemma_fault_matches_rule(sig, Rule::EngineParameter);
}

/// Checks that a function is `pub` without restriction.
pub fn check_visibility(vis: &Visibility) -> (r: Result<(), Diagnostic>)
    ensures
        match r {
            Ok(_) => visibility_fault(*vis) is None,
            Err(d) => visibility_fault(*vis) == Some(d@),
        },
{
    match vis {
        Visibility::Public => Ok(()),
        Visibility::Restricted => Err(
            Diagnostic::new(Rejection::RestrictedVisibility, Site::VisibilityRestriction),
        ),
        Visibility::Crate => Err(Diagnostic::new(Rejection::NotPublic, Site::Visibility)),
        Visibility::Inherited => Err(Diagnostic::new(Rejection::NotPublic, Site::FnToken)),
    }
}

/// Whether what a reference refers to is the engine-context type.
pub fn is_engine_type(referent: &Option<Vec<String>>) -> (r: bool)
    ensures
        r == refers_to_engine(*referent),
{
    match referent {
        None => false,
        Some(path) => {
            let engine = String::from_str("WolframEngine");
            if path.len() == 1 {
                path[0].eq(&engine)
            } else if path.len() == 2 {
                let home = String::from_str("wl_library_link");
                path[0].eq(&home) && path[1].eq(&engine)
            } else {
                false
            }
        },
    }
}

/// Checks that there are two parameters and that the first is a plain `&`
/// reference to the engine context.
pub fn check_parameters(inputs: &Vec<Param>) -> (r: Result<(), Diagnostic>)
    ensures
        match r {
            Ok(_) => parameters_fault(inputs@) is None,
            Err(d) => parameters_fault(inputs@) == Some(d@),
        },
        r is Ok <==> inputs@.len() == 2 && is_engine_parameter(inputs@[0]),
{
    if inputs.len() != 2 {
        return Err(Diagnostic::new(Rejection::ParameterCount, Site::ParameterList));
    }
    match &inputs[0] {
        Param::Receiver => {
            return Err(Diagnostic::new(Rejection::EngineParameter, Site::FirstParameter));
        },
        Param::Typed { attrs, ty } => {
            if *attrs != 0 {
                return Err(
                    Diagnostic::new(Rejection::ParameterAttribute, Site::FirstParameterAttribute),
                );
            }
            match ty {
                ParamType::Reference { lifetime, mutable, referent } => {
                    if !is_engine_type(referent) {
                        return Err(
                            Diagnostic::new(Rejection::EngineParameter, Site::FirstParameterType),
                        );
                    }
                    if *lifetime {
                        return Err(
                            Diagnostic::new(
                                Rejection::ExplicitLifetime,
                                Site::FirstParameterLifetime,
                            ),
                        );
                    }
                    if *mutable {
                        return Err(
                            Diagnostic::new(
                                Rejection::MutableEngine,
                                Site::FirstParameterMutability,
                            ),
                        );
                    }
                },
                ParamType::Other => {
                    return Err(
                        Diagnostic::new(Rejection::EngineParameter, Site::FirstParameterType),
                    );
                },
            }
        },
    }
    Ok(())
}

/// Judges an annotated item: returns the function's name where it can be
/// wrapped, else the diagnostic of the first rule that it violates.
pub fn validate_function(item: &Item) -> (r: Result<String, Diagnostic>)
    ensures
        match r {
            Ok(name) => item.verdict() == Ok::<Seq<char>, DiagnosticView>(name@),
            Err(d) => item.verdict() == Err::<Seq<char>, DiagnosticView>(d@),
        },
{
    let sig = match item {
        Item::Function(sig) => sig,
        Item::Other => {
            return Err(Diagnostic::new(Rejection::NotAFunction, Site::Item));
        },
    };
    match check_parameters(&sig.inputs) {
        Ok(_) => {},
        Err(d) => {
            proof {
                if sig.inputs@.len() != 2 {
                    lemma_first_violation_decides(sig, Rule::ParameterCount);
                } else {
                    lemma_fault_matches_rule(sig, Rule::EngineParameter);
                    lemma_first_violation_decides(sig, Rule::EngineParameter);
                }
            }
            return Err(d);
        },
    }
    if sig.is_const {
        proof {
            lemma_first_violation_decides(sig, Rule::NotConst);
        }
        return Err(Diagnostic::new(Rejection::Const, Site::ConstToken));
    }
    if sig.is_async {
        proof {
            lemma_first_violation_decides(sig, Rule::NotAsync);
        }
        return Err(Diagnostic::new(Rejection::Async, Site::AsyncToken));
    }
    if sig.has_abi {
        proof {
            lemma_first_violation_decides(sig, Rule::NativeAbi);
        }
        return Err(Diagnostic::new(Rejection::ForeignAbi, Site::Abi));
    }
    if sig.generics > 0 {
        proof {
            lemma_first_violation_decides(sig, Rule::Monomorphic);
        }
        return Err(Diagnostic::new(Rejection::Generic, Site::Generics));
    }
    if sig.is_variadic {
        proof {
            lemma_first_violation_decides(sig, Rule::NotVariadic);
        }
        return Err(Diagnostic::new(Rejection::Variadic, Site::Variadic));
    }
    match check_visibility(&sig.visibility) {
        Ok(_) => {},
        Err(d) => {
            proof {
                lemma_first_violation_decides(sig, Rule::Public);
            }
            return Err(d);
        },
    }
    proof {
        assert forall|rule: Rule| #[trigger] sig.satisfies(rule) by {}
    }
    Ok(sig.name.clone())
}

} // verus!
