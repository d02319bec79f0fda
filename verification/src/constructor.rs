//! The shape of a function that is designated as a type's constructor, and the rules that
//! such a function must meet before wiring is generated for it.

use vstd::prelude::*;
use vstd::string::StringExecFns;

verus! {

/// A type as written in a signature, as far as the rules read it.
#[derive(Debug, PartialEq, Eq)]
pub enum Type {
    /// A path, given by the identifier of each of its segments in order. Generic arguments
    /// are left out: `std::sync::Arc<Pool>` has the segments `std`, `sync`, `Arc`.
    Path(Vec<String>),
    /// Anything that is not a path: a reference, a tuple, a slice, a function pointer.
    Other,
}

/// One parameter of a function.
#[derive(Debug, PartialEq, Eq)]
pub enum FnArg {
    /// `self` in any form: `self`, `&self`, `&mut self`, `self: Box<Self>`.
    Receiver,
    /// A named parameter with its type.
    Typed(Type),
}

/// What a function returns.
#[derive(Debug, PartialEq, Eq)]
pub enum ReturnType {
    /// No return type is written.
    Default,
    /// The type behind `->`.
    Type(Type),
}

/// The body of a function.
#[derive(Debug, PartialEq, Eq)]
pub struct Block {
    /// How many statements the body holds, a trailing expression counted as one.
    pub stmts: usize,
}

/// The header of a function.
#[derive(Debug, PartialEq, Eq)]
pub struct Signature {
    /// Whether the function is declared `const`.
    pub constness: bool,
    /// Whether the function is declared `async`.
    pub asyncness: bool,
    /// The function's name.
    pub ident: String,
    /// The parameters, in order.
    pub inputs: Vec<FnArg>,
    pub output: ReturnType,
}

/// A function with its body.
#[derive(Debug, PartialEq, Eq)]
pub struct ItemFn {
    pub sig: Signature,
    pub block: Block,
}

/// The rule that a designated constructor breaks.
#[derive(Clone, Copy, Debug, PartialEq, Eq, Structural)]
pub enum ConstructorError {
    /// The body holds no statement.
    EmptyBlock,
    /// The function is `async`.
    AsyncFunction,
    /// The function is `const`.
    ConstFunction,
    /// A parameter is `self` or has the type `Self`.
    SelfArgument,
    /// The function does not return `Self` by value.
    OutputNotSelf,
}

pub const EMPTY_BLOCK_MESSAGE: &'static str =
    "resolve_constructor cannot be set on a function with empty block";

pub const ASYNC_FUNCTION_MESSAGE: &'static str =
    "resolve_constructor cannot be set on an async function";

pub const CONST_FUNCTION_MESSAGE: &'static str =
    "resolve_constructor cannot be set on a const function";

pub const SELF_ARGUMENT_MESSAGE: &'static str =
    "resolve_constructor cannot be set on a function that have an argument of type Self (either self or Self)";

pub const OUTPUT_NOT_SELF_MESSAGE: &'static str =
    "resolve_constructor cannot be set on a function that does not return Self";

impl ConstructorError {
    /// The text of `message`.
    pub open spec fn message_text(self) -> Seq<char> {
        match self {
            ConstructorError::EmptyBlock => EMPTY_BLOCK_MESSAGE@,
            ConstructorError::AsyncFunction => ASYNC_FUNCTION_MESSAGE@,
            ConstructorError::ConstFunction => CONST_FUNCTION_MESSAGE@,
            ConstructorError::SelfArgument => SELF_ARGUMENT_MESSAGE@,
            ConstructorError::OutputNotSelf => OUTPUT_NOT_SELF_MESSAGE@,
        }
    }

    /// The diagnostic that names the broken rule.
    pub fn message(&self) -> (text: String)
        ensures
            text@ == self.message_text(),
    {
        match self {
            ConstructorError::EmptyBlock => String::from_str(EMPTY_BLOCK_MESSAGE),
            ConstructorError::AsyncFunction => String::from_str(ASYNC_FUNCTION_MESSAGE),
            ConstructorError::ConstFunction => String::from_str(CONST_FUNCTION_MESSAGE),
            ConstructorError::SelfArgument => String::from_str(SELF_ARGUMENT_MESSAGE),
            ConstructorError::OutputNotSelf => String::from_str(OUTPUT_NOT_SELF_MESSAGE),
        }
    }
}

/// A written type as a mathematical value: a path is the sequence of its segments'
/// identifiers.
pub enum TypeView {
    Path(Seq<Seq<char>>),
    Other,
}

/// A parameter as a mathematical value.
pub enum FnArgView {
    Receiver,
    Typed(TypeView),
}

/// A return type as a mathematical value.
pub enum ReturnTypeView {
    Default,
    Type(TypeView),
}

/// A function's header as a mathematical value.
pub struct SignatureView {
    pub constness: bool,
    pub asyncness: bool,
    pub ident: Seq<char>,
    pub inputs: Seq<FnArgView>,
    pub output: ReturnTypeView,
}

/// A function as a mathematical value: its header, and the number of statements in its
/// body.
pub struct ItemFnView {
    pub sig: SignatureView,
    pub stmts: nat,
}

impl View for Type {
    type V = TypeView;

    open spec fn view(&self) -> TypeView {
        match self {
            Type::Path(segments) => TypeView::Path(segments@.map_values(|segment: String| segment@)),
            Type::Other => TypeView::Other,
        }
    }
}

impl View for FnArg {
    type V = FnArgView;

    open spec fn view(&self) -> FnArgView {
        match self {
            FnArg::Receiver => FnArgView::Receiver,
            FnArg::Typed(ty) => FnArgView::Typed(ty@),
        }
    }
}

impl View for ReturnType {
    type V = ReturnTypeView;

    open spec fn view(&self) -> ReturnTypeView {
        match self {
            ReturnType::Default => ReturnTypeView::Default,
            ReturnType::Type(ty) => ReturnTypeView::Type(ty@),
        }
    }
}

impl View for Block {
    type V = nat;

    open spec fn view(&self) -> nat {
        self.stmts as nat
    }
}

/// The parameters of a header as mathematical values, in order.
pub open spec fn arguments(inputs: Seq<FnArg>) -> Seq<FnArgView> {
    inputs.map_values(|arg: FnArg| arg@)
}

impl View for Signature {
    type V = SignatureView;

    open spec fn view(&self) -> SignatureView {
        SignatureView {
            constness: self.constness,
            asyncness: self.asyncness,
            ident: self.ident@,
            inputs: arguments(self.inputs@),
            output: self.output@,
        }
    }
}

impl View for ItemFn {
    type V = ItemFnView;

    open spec fn view(&self) -> ItemFnView {
        ItemFnView { sig: self.sig@, stmts: self.block@ }
    }
}

impl TypeView {
    /// The type is the bare path `Self`: a path of exactly one segment, named `Self`.
    pub open spec fn is_self(self) -> bool {
        self matches TypeView::Path(segments) && segments.len() == 1 && segments[0] == "Self"@
    }
}

impl FnArgView {
    /// The parameter hands the constructed type to its own constructor: it is a receiver,
    /// or its type is `Self`.
    pub open spec fn takes_self(self) -> bool {
        match self {
            FnArgView::Receiver => true,
            FnArgView::Typed(ty) => ty.is_self(),
        }
    }
}

impl ReturnTypeView {
    /// The function returns `Self` by value.
    pub open spec fn is_self(self) -> bool {
        self matches ReturnTypeView::Type(ty) && ty.is_self()
    }
}

/// Some parameter in `inputs` takes the constructed type.
pub open spec fn any_takes_self(inputs: Seq<FnArgView>) -> bool {
    exists|i: int| 0 <= i < inputs.len() && (#[trigger] inputs[i]).takes_self()
}

impl SignatureView {
    /// The first rule that the header breaks, in the order in which they are reported:
    /// the return type, the parameters, `async`, `const`.
    pub open spec fn verdict(self) -> Result<(), ConstructorError> {
        if !self.output.is_self() {
            Err(ConstructorError::OutputNotSelf)
        } else if any_takes_self(self.inputs) {
            Err(ConstructorError::SelfArgument)
        } else if self.asyncness {
            Err(ConstructorError::AsyncFunction)
        } else if self.constness {
            Err(ConstructorError::ConstFunction)
        } else {
            Ok(())
        }
    }
}

impl ItemFnView {
    /// The first rule that the function breaks: those of the header come before the one of
    /// the body.
    pub open spec fn verdict(self) -> Result<(), ConstructorError> {
        if self.sig.verdict() is Err {
            self.sig.verdict()
        } else if self.stmts == 0 {
            Err(ConstructorError::EmptyBlock)
        } else {
            Ok(())
        }
    }

    /// The function can serve as a constructor: it breaks none of the rules.
    pub open spec fn is_constructor(self) -> bool {
        &&& self.sig.output.is_self()
        &&& !any_takes_self(self.sig.inputs)
        &&& !self.sig.asyncness
        &&& !self.sig.constness
        &&& self.stmts > 0
    }
}

/// Tells whether a written type is the bare path `Self`.
pub fn is_self_type(typ: &Type) -> (r: bool)
    ensures
        r == typ@.is_self(),
{
    match typ {
        Type::Path(segments) => {
            if segments.len() == 1 {
                let name = String::from_str("Self");
                segments[0] == name
            } else {
                false
            }
        },
        Type::Other => false,
    }
}

/// Accepts a return type that is `Self`, and no other.
pub fn validate_output(output: &ReturnType) -> (r: Result<(), ConstructorError>)
    ensures
        output@.is_self() ==> r == Ok::<(), ConstructorError>(()),
        !output@.is_self() ==> r == Err::<(), ConstructorError>(ConstructorError::OutputNotSelf),
{
    match output {
        ReturnType::Type(typ) => {
            if is_self_type(typ) {
                Ok(())
            } else {
                Err(ConstructorError::OutputNotSelf)
            }
        },
        ReturnType::Default => Err(ConstructorError::OutputNotSelf),
    }
}

/// Accepts a parameter list in which no parameter is a receiver or has the type `Self`.
pub fn validate_arguments(inputs: &Vec<FnArg>) -> (r: Result<(), ConstructorError>)
    ensures
        !any_takes_self(arguments(inputs@)) ==> r == Ok::<(), ConstructorError>(()),
        any_takes_self(arguments(inputs@)) ==> r == Err::<(), ConstructorError>(
            ConstructorError::SelfArgument,
        ),
{
    let ghost views = arguments(inputs@);
    let mut i: usize = 0;
    while i < inputs.len()
        invariant
            i <= inputs.len(),
            views == arguments(inputs@),
            forall|j: int| 0 <= j < i ==> !(#[trigger] views[j]).takes_self(),
        decreases inputs.len() - i,
    {
        let taken = match &inputs[i] {
            FnArg::Typed(typ) => is_self_type(typ),
            FnArg::Receiver => true,
        };
        if taken {
            assert(views[i as int].takes_self());
            return Err(ConstructorError::SelfArgument);
        }
        i += 1;
    }
    Ok(())
}

/// Checks the header of a designated constructor and reports the first rule it breaks.
pub fn validate_sig(sig: &Signature) -> (r: Result<(), ConstructorError>)
    ensures
        r == sig@.verdict(),
{
    match validate_output(&sig.output) {
        Err(e) => { return Err(e); },
        Ok(_) => {},
    }
    match validate_arguments(&sig.inputs) {
        Err(e) => { return Err(e); },
        Ok(_) => {},
    }
    if sig.asyncness {
        Err(ConstructorError::AsyncFunction)
    } else if sig.constness {
        Err(ConstructorError::ConstFunction)
    } else {
        Ok(())
    }
}

/// Accepts a body that holds at least one statement.
pub fn validate_block(block: &Block) -> (r: Result<(), ConstructorError>)
    ensures
        block.stmts > 0 ==> r == Ok::<(), ConstructorError>(()),
        block.stmts == 0 ==> r == Err::<(), ConstructorError>(ConstructorError::EmptyBlock),
{
    if block.stmts == 0 {
        Err(ConstructorError::EmptyBlock)
    } else {
        Ok(())
    }
}

/// Checks a designated constructor, header first and body second, and reports the first
/// rule it breaks.
pub fn validate_function(function: &ItemFn) -> (r: Result<(), ConstructorError>)
    ensures
        r == function@.verdict(),
        r is Ok <==> function@.is_constructor(),
{
    match validate_sig(&function.sig) {
        Err(e) => { return Err(e); },
        Ok(_) => {},
    }
    validate_block(&function.block)
}

} // verus!
