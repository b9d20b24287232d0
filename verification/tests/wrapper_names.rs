use wl_link_bridge::diagnostic::{Rejection, Site};
use wl_link_bridge::options::{AttrArg, LitValue, Options};
use wl_link_bridge::signature::{Item, Param, ParamType, Signature, Visibility};
use wl_link_bridge::wrapper::{wolfram_library_function_impl, wrapper_for};

fn function_named(name: &str) -> Signature {
    Signature {
        name: String::from(name),
        visibility: Visibility::Public,
        is_const: false,
        is_async: false,
        has_abi: false,
        generics: 0,
        is_variadic: false,
        inputs: vec![
            Param::Typed {
                attrs: 0,
                ty: ParamType::Reference {
                    lifetime: false,
                    mutable: false,
                    referent: Some(vec![String::from("WolframEngine")]),
                },
            },
            Param::Typed { attrs: 0, ty: ParamType::Other },
        ],
    }
}

fn name_option(text: &str) -> AttrArg {
    AttrArg::NameValue {
        key: Some(String::from("name")),
        value: LitValue::Str(String::from(text)),
    }
}

#[test]
fn the_default_name_appends_wrapper() {
    let w = wolfram_library_function_impl(&vec![], &Item::Function(function_named("compute")))
        .unwrap();
    assert_eq!(w.name, "compute_wrapper");
    assert_eq!(w.function, "compute");
}

#[test]
fn the_configured_name_replaces_the_default() {
    let w = wolfram_library_function_impl(
        &vec![name_option("custom")],
        &Item::Function(function_named("compute")),
    )
    .unwrap();
    assert_eq!(w.name, "custom");
    assert_eq!(w.function, "compute");
}

#[test]
fn a_rejected_function_gets_no_wrapper() {
    let mut sig = function_named("compute");
    sig.is_async = true;
    let d = wolfram_library_function_impl(&vec![name_option("custom")], &Item::Function(sig))
        .unwrap_err();
    assert_eq!(d.reason, Rejection::Async);
    assert_eq!(d.site, Site::AsyncToken);
}

#[test]
fn a_rejected_option_gets_no_wrapper() {
    let d = wolfram_library_function_impl(
        &vec![name_option("not an identifier")],
        &Item::Function(function_named("compute")),
    )
    .unwrap_err();
    assert_eq!(d.reason, Rejection::InvalidIdentifier);
}

#[test]
fn the_options_are_judged_before_the_function() {
    let mut sig = function_named("compute");
    sig.visibility = Visibility::Inherited;
    let d = wolfram_library_function_impl(&vec![AttrArg::Other], &Item::Function(sig)).unwrap_err();
    assert_eq!(d.reason, Rejection::ExpectedNameValue);
    assert_eq!(d.site, Site::Argument(0));
}

#[test]
fn an_item_that_is_no_function_gets_no_wrapper() {
    let d = wolfram_library_function_impl(&vec![], &Item::Other).unwrap_err();
    assert_eq!(d.reason, Rejection::NotAFunction);
}

#[test]
fn a_raw_identifier_is_kept_as_written() {
    let w = wolfram_library_function_impl(
        &vec![name_option("r#type")],
        &Item::Function(function_named("compute")),
    )
    .unwrap();
    assert_eq!(w.name, "r#type");
}

#[test]
fn wrapper_for_names_the_wrapper() {
    let w = wrapper_for(Options { name: None }, String::from("f"));
    assert_eq!(w.name, "f_wrapper");
    assert_eq!(w.function, "f");
    let w = wrapper_for(Options { name: Some(String::from("g")) }, String::from("f"));
    assert_eq!(w.name, "g");
    assert_eq!(w.function, "f");
}
