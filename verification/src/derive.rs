//! The wiring that is generated at build time, as source text: the wrapper that calls a
//! designated constructor with each argument pulled from the provider, and the `Resolve`
//! implementation that routes to that wrapper.
//!
//! The wrapper writes each request as `service_provider.unwrap()`. That is the request in
//! the form that panics where the type cannot be resolved; the host brings it, as a
//! method over `ServiceProvider::get`.

use crate::constructor::validate_function;
use crate::constructor::ConstructorError;
use crate::constructor::ItemFn;
use crate::constructor::Signature;
use crate::constructor::SignatureView;
use vstd::prelude::*;
use vstd::string::StringExecFns;

verus! {

/// The wrapper up to the constructor's name.
pub const WRAPPER_HEAD: &'static str =
    "#[allow(unused_variables)] pub fn resolve_generated(service_provider: &rocket_dependency_injection::ServiceProvider) -> Self { Self::";

/// Between the constructor's name and its arguments.
pub const WRAPPER_OPEN: &'static str = "(";

/// The wrapper after the constructor's arguments.
pub const WRAPPER_TAIL: &'static str = ") }";

/// One argument: a request to the provider. The type asked for is the one that the
/// constructor takes in that place.
pub const CALL: &'static str = "service_provider.unwrap()";

/// Between two arguments.
pub const CALL_SEPARATOR: &'static str = ", ";

/// The implementation up to the generics of the `impl`.
pub const IMPL_HEAD: &'static str = "impl";

/// Between the generics of the `impl` and the type's name.
pub const IMPL_FOR: &'static str = " rocket_dependency_injection::Resolve for ";

/// Before a `where` clause, where there is one.
pub const IMPL_SPACE: &'static str = " ";

/// The implementation after the `where` clause.
pub const IMPL_BODY: &'static str =
    " { fn resolve(service_provider: &rocket_dependency_injection::ServiceProvider) -> Self { Self::resolve_generated(service_provider) } }";

/// A type that derives `Resolve`: its name, and its generics in the three forms in
/// which an `impl` block writes them. Each of the three may be empty.
#[derive(Debug, PartialEq, Eq)]
pub struct DeriveInput {
    /// The type's name.
    pub ident: String,
    /// The generics as they follow `impl`, bounds included, such as `<T: Clone>`.
    pub impl_generics: String,
    /// The generics as they follow the type's name, such as `<T>`.
    pub ty_generics: String,
    /// The `where` clause, the word `where` included.
    pub where_clause: String,
}

/// A type that derives `Resolve`, as a mathematical value.
pub struct DeriveInputView {
    pub ident: Seq<char>,
    pub impl_generics: Seq<char>,
    pub ty_generics: Seq<char>,
    pub where_clause: Seq<char>,
}

impl View for DeriveInput {
    type V = DeriveInputView;

    open spec fn view(&self) -> DeriveInputView {
        DeriveInputView {
            ident: self.ident@,
            impl_generics: self.impl_generics@,
            ty_generics: self.ty_generics@,
            where_clause: self.where_clause@,
        }
    }
}

/// The arguments that the wrapper passes for `count` parameters: one request to the
/// provider for each, separated by commas, and nothing for none.
pub open spec fn calls_text(count: nat) -> Seq<char>
    decreases count,
{
    if count == 0 {
        Seq::empty()
    } else if count == 1 {
        CALL@
    } else {
        calls_text((count - 1) as nat) + CALL_SEPARATOR@ + CALL@
    }
}

/// The wrapper for a constructor with the given header: it calls the constructor by its
/// name, with one request per parameter.
pub open spec fn wrapper_text(sig: SignatureView) -> Seq<char> {
    WRAPPER_HEAD@ + sig.ident + WRAPPER_OPEN@ + calls_text(sig.inputs.len()) + WRAPPER_TAIL@
}

/// A `where` clause as it follows the type: after a space, or nothing where the type
/// has none.
pub open spec fn where_text(where_clause: Seq<char>) -> Seq<char> {
    if where_clause.len() == 0 {
        Seq::empty()
    } else {
        IMPL_SPACE@ + where_clause
    }
}

/// The `Resolve` implementation for a type.
pub open spec fn impl_text(input: DeriveInputView) -> Seq<char> {
    IMPL_HEAD@ + input.impl_generics + IMPL_FOR@ + input.ident + input.ty_generics + where_text(
        input.where_clause,
    ) + IMPL_BODY@
}

/// Writes the wrapper for a constructor: a function `resolve_generated` that takes the
/// provider, asks it for one instance per parameter of the constructor, and calls the
/// constructor with them.
pub fn generate_resolve_generated(sig: &Signature) -> (text: String)
    ensures
        text@ == wrapper_text(sig@),
{
    let mut text = String::from_str(WRAPPER_HEAD);
    text.append(sig.ident.as_str());
    text.append(WRAPPER_OPEN);
    let ghost head = text@;
    assert(text@ =~= head + calls_text(0));
    let mut i: usize = 0;
    while i < sig.inputs.len()
        invariant
            i <= sig.inputs.len(),
            text@ == head + calls_text(i as nat),
        decreases sig.inputs.len() - i,
    {
        if i > 0 {
            text.append(CALL_SEPARATOR);
        }
        text.append(CALL);
        assert(text@ =~= head + calls_text((i + 1) as nat));
        i += 1;
    }
    text.append(WRAPPER_TAIL);
    text
}

/// Writes the `Resolve` implementation for a type: its `resolve` calls the wrapper that
/// is generated for the type's designated constructor.
pub fn derive(input: &DeriveInput) -> (text: String)
    ensures
        text@ == impl_text(input@),
{
    let mut text = String::from_str(IMPL_HEAD);
    text.append(input.impl_generics.as_str());
    text.append(IMPL_FOR);
    text.append(input.ident.as_str());
    text.append(input.ty_generics.as_str());
    let ghost head = text@;
    if !input.where_clause.as_str().is_empty() {
        text.append(IMPL_SPACE);
        text.append(input.where_clause.as_str());
    }
    assert(text@ =~= head + where_text(input@.where_clause));
    text.append(IMPL_BODY);
    text
}

/// Checks a designated constructor and, where it breaks no rule, writes its wrapper.
/// A malformed constructor gets no wrapper: the error names the first rule it breaks.
pub fn resolve_constructor(function: &ItemFn) -> (r: Result<String, ConstructorError>)
    ensures
        function@.is_constructor() <==> r is Ok,
        r matches Ok(text) ==> text@ == wrapper_text(function@.sig),
        r matches Err(e) ==> function@.verdict() == Err::<(), ConstructorError>(e),
{
    match validate_function(function) {
        Err(e) => Err(e),
        Ok(_) => Ok(generate_resolve_generated(&function.sig)),
    }
}

} // verus!
