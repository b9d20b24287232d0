use wl_link_bridge::diagnostic::{Diagnostic, Rejection, Site};
use wl_link_bridge::signature::{
    check_parameters, check_visibility, is_engine_type, validate_function, Item, Param,
    ParamType, Signature, Visibility,
};

fn path(segments: &[&str]) -> Option<Vec<String>> {
    Some(segments.iter().map(|segment| String::from(*segment)).collect())
}

fn engine_reference(lifetime: bool, mutable: bool) -> ParamType {
    ParamType::Reference { lifetime, mutable, referent: path(&["WolframEngine"]) }
}

fn reference_to(referent: Option<Vec<String>>) -> Param {
    Param::Typed {
        attrs: 0,
        ty: ParamType::Reference { lifetime: false, mutable: false, referent },
    }
}

fn engine_param() -> Param {
    Param::Typed { attrs: 0, ty: engine_reference(false, false) }
}

fn link_param() -> Param {
    Param::Typed { attrs: 0, ty: ParamType::Other }
}

fn valid_signature() -> Signature {
    Signature {
        name: String::from("compute"),
        visibility: Visibility::Public,
        is_const: false,
        is_async: false,
        has_abi: false,
        generics: 0,
        is_variadic: false,
        inputs: vec![engine_param(), link_param()],
    }
}

fn rejection(sig: Signature) -> Diagnostic {
    match validate_function(&Item::Function(sig)) {
        Ok(name) => panic!("accepted as {}", name),
        Err(d) => d,
    }
}

#[test]
fn accepts_a_function_that_satisfies_every_rule() {
    let verdict = validate_function(&Item::Function(valid_signature()));
    assert_eq!(verdict.unwrap(), "compute");
}

#[test]
fn accepts_any_type_for_the_second_parameter() {
    let mut sig = valid_signature();
    sig.inputs[1] = Param::Typed { attrs: 3, ty: engine_reference(true, true) };
    assert_eq!(validate_function(&Item::Function(sig)).unwrap(), "compute");
}

#[test]
fn rejects_an_item_that_is_no_function() {
    let d = validate_function(&Item::Other).unwrap_err();
    assert_eq!(d.reason, Rejection::NotAFunction);
    assert_eq!(d.site, Site::Item);
    assert_eq!(
        d.message(),
        "`wolfram_library_function` attribute can only be used on functions"
    );
}

#[test]
fn rejects_no_parameters() {
    let mut sig = valid_signature();
    sig.inputs = vec![];
    let d = rejection(sig);
    assert_eq!(d.reason, Rejection::ParameterCount);
    assert_eq!(d.site, Site::ParameterList);
    assert_eq!(d.message(), "Wolfram library function must have 2 parameters");
}

#[test]
fn rejects_one_parameter() {
    let mut sig = valid_signature();
    sig.inputs = vec![engine_param()];
    let d = rejection(sig);
    assert_eq!(d.reason, Rejection::ParameterCount);
    assert_eq!(d.site, Site::ParameterList);
}

#[test]
fn rejects_three_parameters() {
    let mut sig = valid_signature();
    sig.inputs = vec![engine_param(), link_param(), link_param()];
    let d = rejection(sig);
    assert_eq!(d.reason, Rejection::ParameterCount);
    assert_eq!(d.site, Site::ParameterList);
}

#[test]
fn rejects_a_receiver_as_first_parameter() {
    let mut sig = valid_signature();
    sig.inputs[0] = Param::Receiver;
    let d = rejection(sig);
    assert_eq!(d.reason, Rejection::EngineParameter);
    assert_eq!(d.site, Site::FirstParameter);
    assert_eq!(
        d.message(),
        "First parameter of Wolfram library function must be `&WolframEngine`"
    );
}

#[test]
fn rejects_an_attribute_on_the_first_parameter() {
    let mut sig = valid_signature();
    sig.inputs[0] =
        Param::Typed { attrs: 1, ty: engine_reference(false, false) };
    let d = rejection(sig);
    assert_eq!(d.reason, Rejection::ParameterAttribute);
    assert_eq!(d.site, Site::FirstParameterAttribute);
    assert_eq!(d.message(), "Unknown Wolfram library function attribute");
}

#[test]
fn rejects_a_first_parameter_that_is_no_reference() {
    let mut sig = valid_signature();
    sig.inputs[0] = Param::Typed { attrs: 0, ty: ParamType::Other };
    let d = rejection(sig);
    assert_eq!(d.reason, Rejection::EngineParameter);
    assert_eq!(d.site, Site::FirstParameterType);
    assert_eq!(
        d.message(),
        "First parameter of Wolfram library function must be `&WolframEngine`"
    );
}

#[test]
fn rejects_a_reference_to_another_type() {
    let mut sig = valid_signature();
    sig.inputs[0] = reference_to(path(&["u32"]));
    let d = rejection(sig);
    assert_eq!(d.reason, Rejection::EngineParameter);
    assert_eq!(d.site, Site::FirstParameterType);
    assert_eq!(
        d.message(),
        "First parameter of Wolfram library function must be `&WolframEngine`"
    );
}

#[test]
fn rejects_a_reference_to_a_type_that_is_no_path() {
    let mut sig = valid_signature();
    sig.inputs[0] = reference_to(None);
    let d = rejection(sig);
    assert_eq!(d.reason, Rejection::EngineParameter);
    assert_eq!(d.site, Site::FirstParameterType);
}

#[test]
fn rejects_an_engine_of_another_home() {
    let mut sig = valid_signature();
    sig.inputs[0] = reference_to(path(&["other", "WolframEngine"]));
    assert_eq!(rejection(sig).reason, Rejection::EngineParameter);
    let mut sig = valid_signature();
    sig.inputs[0] = reference_to(path(&["wl_library_link", "sys", "WolframEngine"]));
    assert_eq!(rejection(sig).site, Site::FirstParameterType);
    let mut sig = valid_signature();
    sig.inputs[0] = reference_to(path(&[]));
    assert_eq!(rejection(sig).site, Site::FirstParameterType);
}

#[test]
fn accepts_the_engine_by_its_full_path() {
    let mut sig = valid_signature();
    sig.inputs[0] = reference_to(path(&["wl_library_link", "WolframEngine"]));
    assert_eq!(validate_function(&Item::Function(sig)).unwrap(), "compute");
}

#[test]
fn the_referent_is_judged_before_lifetime_and_mut() {
    let mut sig = valid_signature();
    sig.inputs[0] = Param::Typed {
        attrs: 0,
        ty: ParamType::Reference { lifetime: true, mutable: true, referent: path(&["u32"]) },
    };
    let d = rejection(sig);
    assert_eq!(d.reason, Rejection::EngineParameter);
    assert_eq!(d.site, Site::FirstParameterType);
}

#[test]
fn only_the_engine_type_is_the_engine_type() {
    assert!(is_engine_type(&path(&["WolframEngine"])));
    assert!(is_engine_type(&path(&["wl_library_link", "WolframEngine"])));
    assert!(!is_engine_type(&path(&["wolframengine"])));
    assert!(!is_engine_type(&path(&["WolframEngine", "WolframEngine"])));
    assert!(!is_engine_type(&path(&["wl_library_link"])));
    assert!(!is_engine_type(&path(&[])));
    assert!(!is_engine_type(&None));
}

#[test]
fn check_parameters_rejects_a_reference_to_another_type() {
    let d = check_parameters(&vec![reference_to(path(&["u32"])), link_param()]).unwrap_err();
    assert_eq!(d.reason, Rejection::EngineParameter);
    assert_eq!(d.site, Site::FirstParameterType);
}

#[test]
fn rejects_an_explicit_lifetime() {
    let mut sig = valid_signature();
    sig.inputs[0] =
        Param::Typed { attrs: 0, ty: engine_reference(true, false) };
    let d = rejection(sig);
    assert_eq!(d.reason, Rejection::ExplicitLifetime);
    assert_eq!(d.site, Site::FirstParameterLifetime);
    assert_eq!(
        d.message(),
        "Explicit lifetime is not allowed within a Wolfram library function"
    );
}

#[test]
fn rejects_a_mutable_engine_reference() {
    let mut sig = valid_signature();
    sig.inputs[0] =
        Param::Typed { attrs: 0, ty: engine_reference(false, true) };
    let d = rejection(sig);
    assert_eq!(d.reason, Rejection::MutableEngine);
    assert_eq!(d.site, Site::FirstParameterMutability);
    assert_eq!(
        d.message(),
        "Wolfram library function engine parameter must be taken by immutable `&` reference"
    );
}

#[test]
fn first_parameter_faults_are_reported_in_order() {
    let mut sig = valid_signature();
    sig.inputs[0] =
        Param::Typed { attrs: 2, ty: engine_reference(true, true) };
    assert_eq!(rejection(sig).reason, Rejection::ParameterAttribute);
    let mut sig = valid_signature();
    sig.inputs[0] =
        Param::Typed { attrs: 0, ty: engine_reference(true, true) };
    assert_eq!(rejection(sig).reason, Rejection::ExplicitLifetime);
}

#[test]
fn rejects_a_const_function() {
    let mut sig = valid_signature();
    sig.is_const = true;
    let d = rejection(sig);
    assert_eq!(d.reason, Rejection::Const);
    assert_eq!(d.site, Site::ConstToken);
    assert_eq!(d.message(), "Wolfram library function must not be `const`");
}

#[test]
fn rejects_an_async_function() {
    let mut sig = valid_signature();
    sig.is_async = true;
    let d = rejection(sig);
    assert_eq!(d.reason, Rejection::Async);
    assert_eq!(d.site, Site::AsyncToken);
    assert_eq!(d.message(), "Wolfram library function must not be `async`");
}

#[test]
fn rejects_an_explicit_abi() {
    let mut sig = valid_signature();
    sig.has_abi = true;
    let d = rejection(sig);
    assert_eq!(d.reason, Rejection::ForeignAbi);
    assert_eq!(d.site, Site::Abi);
    assert_eq!(d.message(), "Wolfram library function must use the native Rust ABI");
}

#[test]
fn rejects_a_generic_function() {
    let mut sig = valid_signature();
    sig.generics = 1;
    let d = rejection(sig);
    assert_eq!(d.reason, Rejection::Generic);
    assert_eq!(d.site, Site::Generics);
    assert_eq!(d.message(), "Wolfram library function must not be generic");
}

#[test]
fn rejects_a_variadic_function() {
    let mut sig = valid_signature();
    sig.is_variadic = true;
    let d = rejection(sig);
    assert_eq!(d.reason, Rejection::Variadic);
    assert_eq!(d.site, Site::Variadic);
    assert_eq!(d.message(), "Wolfram library function must not be variadic");
}

#[test]
fn rejects_a_restricted_visibility() {
    let mut sig = valid_signature();
    sig.visibility = Visibility::Restricted;
    let d = rejection(sig);
    assert_eq!(d.reason, Rejection::RestrictedVisibility);
    assert_eq!(d.site, Site::VisibilityRestriction);
    assert_eq!(
        d.message(),
        "Wolfram library function must be marked `pub`, with no restrictions"
    );
}

#[test]
fn rejects_a_crate_visibility() {
    let mut sig = valid_signature();
    sig.visibility = Visibility::Crate;
    let d = rejection(sig);
    assert_eq!(d.reason, Rejection::NotPublic);
    assert_eq!(d.site, Site::Visibility);
    assert_eq!(d.message(), "Wolfram library function must be marked `pub`");
}

#[test]
fn rejects_a_private_function() {
    let mut sig = valid_signature();
    sig.visibility = Visibility::Inherited;
    let d = rejection(sig);
    assert_eq!(d.reason, Rejection::NotPublic);
    assert_eq!(d.site, Site::FnToken);
    assert_eq!(d.message(), "Wolfram library function must be marked `pub`");
}

#[test]
fn of_several_violations_the_first_rule_is_reported() {
    let mut sig = valid_signature();
    sig.inputs = vec![];
    sig.is_const = true;
    sig.visibility = Visibility::Inherited;
    assert_eq!(rejection(sig).reason, Rejection::ParameterCount);

    let mut sig = valid_signature();
    sig.is_const = true;
    sig.is_async = true;
    sig.visibility = Visibility::Inherited;
    assert_eq!(rejection(sig).reason, Rejection::Const);

    let mut sig = valid_signature();
    sig.is_variadic = true;
    sig.generics = 2;
    sig.has_abi = true;
    assert_eq!(rejection(sig).reason, Rejection::ForeignAbi);

    let mut sig = valid_signature();
    sig.is_variadic = true;
    sig.visibility = Visibility::Crate;
    assert_eq!(rejection(sig).reason, Rejection::Variadic);
}

#[test]
fn a_bad_first_parameter_among_three_is_a_count_violation() {
    let mut sig = valid_signature();
    sig.inputs = vec![Param::Receiver, link_param(), link_param()];
    assert_eq!(rejection(sig).reason, Rejection::ParameterCount);
}

#[test]
fn check_visibility_accepts_only_pub() {
    assert!(check_visibility(&Visibility::Public).is_ok());
    assert_eq!(
        check_visibility(&Visibility::Restricted).unwrap_err().reason,
        Rejection::RestrictedVisibility
    );
    assert_eq!(check_visibility(&Visibility::Crate).unwrap_err().site, Site::Visibility);
    assert_eq!(check_visibility(&Visibility::Inherited).unwrap_err().site, Site::FnToken);
}

#[test]
fn check_parameters_accepts_an_engine_reference_and_one_more() {
    assert!(check_parameters(&vec![engine_param(), link_param()]).is_ok());
    assert!(check_parameters(&vec![engine_param(), engine_param()]).is_ok());
    assert_eq!(
        check_parameters(&vec![link_param(), engine_param()]).unwrap_err().site,
        Site::FirstParameterType
    );
    assert_eq!(check_parameters(&vec![]).unwrap_err().reason, Rejection::ParameterCount);
}

#[test]
fn a_plain_diagnostic_has_no_detail() {
    let d = Diagnostic::new(Rejection::Generic, Site::Generics);
    assert_eq!(d.detail, "");
    assert_eq!(d.message(), Rejection::Generic.text());
}

#[test]
fn a_detail_completes_the_message() {
    let d = Diagnostic::with_detail(
        Rejection::InvalidIdentifier,
        Site::ArgumentValue(0),
        String::from("expected identifier"),
    );
    assert_eq!(d.message(), "string is not a valid identifier: expected identifier");
}
