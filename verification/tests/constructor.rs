use rocket_dependency_injection::generate_resolve_generated;
use rocket_dependency_injection::is_self_type;
use rocket_dependency_injection::resolve_constructor;
use rocket_dependency_injection::validate_arguments;
use rocket_dependency_injection::validate_block;
use rocket_dependency_injection::validate_function;
use rocket_dependency_injection::validate_output;
use rocket_dependency_injection::validate_sig;
use rocket_dependency_injection::Block;
use rocket_dependency_injection::ConstructorError;
use rocket_dependency_injection::DeriveInput;
use rocket_dependency_injection::FnArg;
use rocket_dependency_injection::ItemFn;
use rocket_dependency_injection::ReturnType;
use rocket_dependency_injection::Signature;
use rocket_dependency_injection::Type;

fn path(segments: &[&str]) -> Type {
    Type::Path(segments.iter().map(|s| String::from(*s)).collect())
}

fn self_type() -> Type {
    path(&["Self"])
}

fn int_type() -> Type {
    path(&["i32"])
}

/// `fn build(<inputs>) -> Self { Self }`
fn build(inputs: Vec<FnArg>) -> ItemFn {
    ItemFn {
        sig: Signature {
            constness: false,
            asyncness: false,
            ident: String::from("build"),
            inputs,
            output: ReturnType::Type(self_type()),
        },
        block: Block { stmts: 1 },
    }
}

const HEAD: &str = "#[allow(unused_variables)] pub fn resolve_generated(service_provider: &rocket_dependency_injection::ServiceProvider) -> Self { Self::";

#[test]
fn constructor_taking_self_by_type_is_rejected() {
    let function = build(vec![FnArg::Typed(self_type())]);
    assert_eq!(validate_function(&function), Err(ConstructorError::SelfArgument));
    assert_eq!(resolve_constructor(&function), Err(ConstructorError::SelfArgument));
}

#[test]
fn constructor_taking_a_receiver_is_rejected() {
    let function = build(vec![FnArg::Receiver]);
    assert_eq!(validate_function(&function), Err(ConstructorError::SelfArgument));
    let function = build(vec![FnArg::Typed(int_type()), FnArg::Receiver]);
    assert_eq!(validate_function(&function), Err(ConstructorError::SelfArgument));
}

#[test]
fn async_constructor_is_rejected() {
    let mut function = build(vec![]);
    function.sig.asyncness = true;
    assert_eq!(validate_function(&function), Err(ConstructorError::AsyncFunction));
    assert_eq!(resolve_constructor(&function), Err(ConstructorError::AsyncFunction));
}

#[test]
fn const_constructor_is_rejected() {
    let mut function = build(vec![]);
    function.sig.constness = true;
    assert_eq!(validate_function(&function), Err(ConstructorError::ConstFunction));
    assert_eq!(resolve_constructor(&function), Err(ConstructorError::ConstFunction));
}

#[test]
fn constructor_returning_another_type_is_rejected() {
    let mut function = build(vec![]);
    function.sig.output = ReturnType::Type(int_type());
    assert_eq!(validate_function(&function), Err(ConstructorError::OutputNotSelf));
    assert_eq!(resolve_constructor(&function), Err(ConstructorError::OutputNotSelf));
}

#[test]
fn constructor_returning_nothing_is_rejected() {
    let mut function = build(vec![]);
    function.sig.output = ReturnType::Default;
    assert_eq!(validate_function(&function), Err(ConstructorError::OutputNotSelf));
}

#[test]
fn constructor_with_empty_body_is_rejected() {
    let mut function = build(vec![]);
    function.block = Block { stmts: 0 };
    assert_eq!(validate_function(&function), Err(ConstructorError::EmptyBlock));
    assert_eq!(resolve_constructor(&function), Err(ConstructorError::EmptyBlock));
}

#[test]
fn constructor_with_a_plain_argument_is_accepted() {
    let function = build(vec![FnArg::Typed(int_type())]);
    assert_eq!(validate_function(&function), Ok(()));
    let wrapper = resolve_constructor(&function).unwrap();
    assert_eq!(wrapper, format!("{}build(service_provider.unwrap()) }}", HEAD));
    assert_eq!(
        wrapper,
        "#[allow(unused_variables)] pub fn resolve_generated(service_provider: &rocket_dependency_injection::ServiceProvider) -> Self { Self::build(service_provider.unwrap()) }"
    );
}

#[test]
fn constructor_without_arguments_is_accepted() {
    let function = build(vec![]);
    assert_eq!(validate_function(&function), Ok(()));
    assert_eq!(resolve_constructor(&function).unwrap(), format!("{}build() }}", HEAD));
}

#[test]
fn wrapper_asks_once_for_each_parameter() {
    let function = build(vec![
        FnArg::Typed(path(&["Pool"])),
        FnArg::Typed(path(&["std", "sync", "Arc"])),
        FnArg::Typed(Type::Other),
    ]);
    assert_eq!(
        generate_resolve_generated(&function.sig),
        format!(
            "{}build(service_provider.unwrap(), service_provider.unwrap(), service_provider.unwrap()) }}",
            HEAD
        )
    );
}

#[test]
fn wrapper_for_two_parameters_asks_twice() {
    let mut function = build(vec![FnArg::Typed(path(&["A"])), FnArg::Typed(path(&["B"]))]);
    function.sig.ident = String::from("new");
    assert_eq!(
        generate_resolve_generated(&function.sig),
        "#[allow(unused_variables)] pub fn resolve_generated(service_provider: &rocket_dependency_injection::ServiceProvider) -> Self { Self::new(service_provider.unwrap(), service_provider.unwrap()) }"
    );
}

#[test]
fn wrapper_is_written_for_any_header() {
    let mut function = build(vec![FnArg::Receiver, FnArg::Typed(self_type())]);
    function.sig.ident = String::from("with_defaults");
    function.sig.asyncness = true;
    assert_eq!(
        generate_resolve_generated(&function.sig),
        format!("{}with_defaults(service_provider.unwrap(), service_provider.unwrap()) }}", HEAD)
    );
}

#[test]
fn header_rules_are_reported_in_order() {
    let mut function = build(vec![FnArg::Typed(self_type())]);
    function.sig.output = ReturnType::Type(int_type());
    function.sig.asyncness = true;
    function.sig.constness = true;
    function.block = Block { stmts: 0 };
    assert_eq!(validate_function(&function), Err(ConstructorError::OutputNotSelf));
    function.sig.output = ReturnType::Type(self_type());
    assert_eq!(validate_function(&function), Err(ConstructorError::SelfArgument));
    function.sig.inputs = vec![FnArg::Typed(int_type())];
    assert_eq!(validate_function(&function), Err(ConstructorError::AsyncFunction));
    function.sig.asyncness = false;
    assert_eq!(validate_function(&function), Err(ConstructorError::ConstFunction));
    function.sig.constness = false;
    assert_eq!(validate_function(&function), Err(ConstructorError::EmptyBlock));
    function.block = Block { stmts: 3 };
    assert_eq!(validate_function(&function), Ok(()));
}

#[test]
fn self_type_is_one_segment_named_self() {
    assert!(is_self_type(&self_type()));
    assert!(!is_self_type(&int_type()));
    assert!(!is_self_type(&path(&["self"])));
    assert!(!is_self_type(&path(&["Selfish"])));
    assert!(!is_self_type(&path(&["Self", "Output"])));
    assert!(!is_self_type(&path(&["crate", "Self"])));
    assert!(!is_self_type(&path(&[])));
    assert!(!is_self_type(&Type::Other));
}

#[test]
fn output_must_be_self() {
    assert_eq!(validate_output(&ReturnType::Type(self_type())), Ok(()));
    assert_eq!(
        validate_output(&ReturnType::Type(Type::Other)),
        Err(ConstructorError::OutputNotSelf)
    );
    assert_eq!(validate_output(&ReturnType::Default), Err(ConstructorError::OutputNotSelf));
}

#[test]
fn arguments_must_not_take_self() {
    assert_eq!(validate_arguments(&vec![]), Ok(()));
    assert_eq!(
        validate_arguments(&vec![FnArg::Typed(int_type()), FnArg::Typed(Type::Other)]),
        Ok(())
    );
    assert_eq!(
        validate_arguments(&vec![FnArg::Typed(int_type()), FnArg::Typed(self_type())]),
        Err(ConstructorError::SelfArgument)
    );
    assert_eq!(validate_arguments(&vec![FnArg::Receiver]), Err(ConstructorError::SelfArgument));
}

#[test]
fn header_is_checked_without_the_body() {
    let mut function = build(vec![]);
    function.block = Block { stmts: 0 };
    assert_eq!(validate_sig(&function.sig), Ok(()));
    function.sig.constness = true;
    function.sig.asyncness = true;
    assert_eq!(validate_sig(&function.sig), Err(ConstructorError::AsyncFunction));
}

#[test]
fn body_needs_a_statement() {
    assert_eq!(validate_block(&Block { stmts: 0 }), Err(ConstructorError::EmptyBlock));
    assert_eq!(validate_block(&Block { stmts: 1 }), Ok(()));
    assert_eq!(validate_block(&Block { stmts: usize::MAX }), Ok(()));
}

#[test]
fn each_rule_has_its_diagnostic() {
    assert_eq!(
        ConstructorError::EmptyBlock.message(),
        "resolve_constructor cannot be set on a function with empty block"
    );
    assert_eq!(
        ConstructorError::AsyncFunction.message(),
        "resolve_constructor cannot be set on an async function"
    );
    assert_eq!(
        ConstructorError::ConstFunction.message(),
        "resolve_constructor cannot be set on a const function"
    );
    assert_eq!(
        ConstructorError::SelfArgument.message(),
        "resolve_constructor cannot be set on a function that have an argument of type Self (either self or Self)"
    );
    assert_eq!(
        ConstructorError::OutputNotSelf.message(),
        "resolve_constructor cannot be set on a function that does not return Self"
    );
}

#[test]
fn derived_implementation_routes_to_the_wrapper() {
    let plain = DeriveInput {
        ident: String::from("Database"),
        impl_generics: String::new(),
        ty_generics: String::new(),
        where_clause: String::new(),
    };
    assert_eq!(
        rocket_dependency_injection::derive::derive(&plain),
        "impl rocket_dependency_injection::Resolve for Database { fn resolve(service_provider: &rocket_dependency_injection::ServiceProvider) -> Self { Self::resolve_generated(service_provider) } }"
    );
}

#[test]
fn derived_implementation_carries_the_generics() {
    let generic = DeriveInput {
        ident: String::from("Cache"),
        impl_generics: String::from("<T: Clone>"),
        ty_generics: String::from("<T>"),
        where_clause: String::from("where T: Send"),
    };
    assert_eq!(
        rocket_dependency_injection::derive::derive(&generic),
        "impl<T: Clone> rocket_dependency_injection::Resolve for Cache<T> where T: Send { fn resolve(service_provider: &rocket_dependency_injection::ServiceProvider) -> Self { Self::resolve_generated(service_provider) } }"
    );
}
