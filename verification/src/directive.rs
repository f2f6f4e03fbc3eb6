//! The rules of the two directives: which declarations may be registered,
//! what is said of one that may not, and the names of the items that stand
//! behind a directive.
//!
//! The declarations themselves are read elsewhere; here they are plain
//! values.

use vstd::prelude::*;
use vstd::string::StringExecFns;

verus! {

/// The syntactic kinds of type that have no name of their own.
#[derive(Clone, Copy, Debug, PartialEq, Eq, Structural)]
pub enum UnnamedKind {
    Array,
    BareFn,
    Group,
    ImplTrait,
    Infer,
    Macro,
    Never,
    Paren,
    Ptr,
    Reference,
    Slice,
    TraitObject,
    Tuple,
    Verbatim,
}

/// The syntactic kinds of type that an implementation can be written for.
#[derive(Clone, Copy, Debug, PartialEq, Eq, Structural)]
pub enum TargetKind {
    /// A type written as a path: a struct, enum, union or type alias.
    Named,
    /// Any other kind of type.
    Unnamed(UnnamedKind),
}

/// What the registration directive reads of the declaration it is attached
/// to.
#[derive(Clone, Copy, Debug, PartialEq, Eq, Structural)]
pub struct ImplShape {
    /// The declaration implements a trait: `impl Trait for Type`.
    pub has_trait: bool,
    /// The implementation is inverted: `impl !Trait for Type`.
    pub inverted: bool,
    /// The trait is written as a single identifier.
    pub trait_is_ident: bool,
    /// The kind of the implementing type.
    pub target: TargetKind,
    /// The implementing type is written as a single identifier.
    pub type_is_ident: bool,
}

/// Why a declaration cannot be registered.
#[derive(Clone, Copy, Debug, PartialEq, Eq, Structural)]
pub enum DirectiveError {
    /// The declaration implements no trait.
    NotTraitImpl,
    /// The implementation is inverted.
    InvertedImpl,
    /// The trait is not written as a single identifier.
    TraitNotIdent,
    /// The implementing type is of the given kind, which has no name.
    UnnamedTarget(UnnamedKind),
    /// The implementing type is not written as a single identifier.
    TypeNotIdent,
    /// A name made for an item behind a directive is no identifier.
    NameNotIdent,
}

/// Trusted: `syn::parse_str` for `syn::Ident`; only whether it succeeds
/// is handed on. Inside a macro expansion the host compiler's lexer has a
/// say beside the parser's own, so the answer is not a matter of `text`
/// alone, and nothing is claimed of it.
#[verifier::external_body]
fn parses_as_identifier(text: &str) -> (parses: bool) {
    syn::parse_str::<syn::Ident>(text).is_ok()
}

/// How a kind of type without a name is called in a message, with the
/// ending of the article before it.
pub open spec fn kind_text(kind: UnnamedKind) -> Seq<char> {
    match kind {
        UnnamedKind::Array => "n array"@,
        UnnamedKind::BareFn => " function"@,
        UnnamedKind::Group => " group"@,
        UnnamedKind::ImplTrait => " trait impl"@,
        UnnamedKind::Infer => "n inferred type (_)"@,
        UnnamedKind::Macro => " macro"@,
        UnnamedKind::Never => " never type"@,
        UnnamedKind::Paren => " parenthesis"@,
        UnnamedKind::Ptr => " pointer"@,
        UnnamedKind::Reference => " reference"@,
        UnnamedKind::Slice => " slice"@,
        UnnamedKind::TraitObject => " trait object"@,
        UnnamedKind::Tuple => " tuple"@,
        UnnamedKind::Verbatim => "n unknown syntax"@,
    }
}

/// The message for a declaration that cannot be registered.
pub open spec fn message_text(error: DirectiveError) -> Seq<char> {
    match error {
        DirectiveError::NotTraitImpl =>
            "Can only register an implementation of a trait, 'impl <Trait> for <Type>'."@,
        DirectiveError::InvertedImpl =>
            "Cannot register inverted impl trait: 'impl !Trait for Type'."@,
        DirectiveError::TraitNotIdent => "Expected trait in impl block to have an identifier."@,
        DirectiveError::UnnamedTarget(kind) => "Cannot register implementation on a"@ + kind_text(
            kind,
        ) + ", expected a struct, enum, union or type alias."@,
        DirectiveError::TypeNotIdent => "Expected type in impl block to have an identifier."@,
        DirectiveError::NameNotIdent => "Unable to create identifier"@,
    }
}

/// The first rule that `shape` breaks, if it breaks one: a registration
/// must implement a trait, not inverted, that is written as one identifier,
/// for a named type that is written as one identifier.
pub open spec fn first_fault(shape: ImplShape) -> Option<DirectiveError> {
    if !shape.has_trait {
        Some(DirectiveError::NotTraitImpl)
    } else if shape.inverted {
        Some(DirectiveError::InvertedImpl)
    } else if !shape.trait_is_ident {
        Some(DirectiveError::TraitNotIdent)
    } else {
        match shape.target {
            TargetKind::Unnamed(kind) => Some(DirectiveError::UnnamedTarget(kind)),
            TargetKind::Named => if !shape.type_is_ident {
                Some(DirectiveError::TypeNotIdent)
            } else {
                None
            },
        }
    }
}

/// How a kind of type is called in a message.
pub fn describe_kind(kind: UnnamedKind) -> (text: &'static str)
    ensures
        text@ == kind_text(kind),
{
    match kind {
        UnnamedKind::Array => "n array",
        UnnamedKind::BareFn => " function",
        UnnamedKind::Group => " group",
        UnnamedKind::ImplTrait => " trait impl",
        UnnamedKind::Infer => "n inferred type (_)",
        UnnamedKind::Macro => " macro",
        UnnamedKind::Never => " never type",
        UnnamedKind::Paren => " parenthesis",
        UnnamedKind::Ptr => " pointer",
        UnnamedKind::Reference => " reference",
        UnnamedKind::Slice => " slice",
        UnnamedKind::TraitObject => " trait object",
        UnnamedKind::Tuple => " tuple",
        UnnamedKind::Verbatim => "n unknown syntax",
    }
}

/// Accepts a named type as the target of a registration and refuses every
/// other kind of type.
pub fn check_target(kind: TargetKind) -> (verdict: Result<(), DirectiveError>)
    ensures
        verdict == match kind {
            TargetKind::Named => Ok::<(), DirectiveError>(()),
            TargetKind::Unnamed(unnamed) => Err::<(), DirectiveError>(
                DirectiveError::UnnamedTarget(unnamed),
            ),
        },
{
    match kind {
        TargetKind::Named => Ok(()),
        TargetKind::Unnamed(unnamed) => Err(DirectiveError::UnnamedTarget(unnamed)),
    }
}

/// Accepts a declaration for registration, or names the first rule that it
/// breaks.
pub fn check_registration(shape: &ImplShape) -> (verdict: Result<(), DirectiveError>)
    ensures
        verdict is Ok <==> first_fault(*shape) is None,
        verdict is Err ==> first_fault(*shape) == Some(verdict->Err_0),
{
    if !shape.has_trait {
        Err(DirectiveError::NotTraitImpl)
    } else if shape.inverted {
        Err(DirectiveError::InvertedImpl)
    } else if !shape.trait_is_ident {
        Err(DirectiveError::TraitNotIdent)
    } else {
        match check_target(shape.target) {
            Err(error) => Err(error),
            Ok(()) => {
                if shape.type_is_ident {
                    Ok(())
                } else {
                    Err(DirectiveError::TypeNotIdent)
                }
            },
        }
    }
}

impl DirectiveError {
    /// The message for this error.
    pub fn message(&self) -> (text: String)
        ensures
            text@ == message_text(*self),
    {
        match self {
            DirectiveError::NotTraitImpl => String::from_str(
                "Can only register an implementation of a trait, 'impl <Trait> for <Type>'.",
            ),
            DirectiveError::InvertedImpl => String::from_str(
                "Cannot register inverted impl trait: 'impl !Trait for Type'.",
            ),
            DirectiveError::TraitNotIdent => String::from_str(
                "Expected trait in impl block to have an identifier.",
            ),
            DirectiveError::UnnamedTarget(kind) => {
                let mut text = String::from_str("Cannot register implementation on a");
                text.append(describe_kind(*kind));
                text.append(", expected a struct, enum, union or type alias.");
                text
            },
            DirectiveError::TypeNotIdent => String::from_str(
                "Expected type in impl block to have an identifier.",
            ),
            DirectiveError::NameNotIdent => String::from_str("Unable to create identifier"),
        }
    }
}

/// The name `stem` with `ending` behind it.
pub fn derived_name(stem: &str, ending: &str) -> (name: String)
    ensures
        name@ == stem@ + ending@,
{
    let mut name = String::from_str(stem);
    name.append(ending);
    name
}

/// The name of the item that registers `implementor`'s implementation of
/// `trait_name` at startup: the two names joined by an underscore, and
/// `ending` behind them.
pub fn registration_name(implementor: &str, trait_name: &str, ending: &str) -> (name: String)
    ensures
        name@ == implementor@ + "_"@ + trait_name@ + ending@,
{
    let mut name = String::from_str(implementor);
    name.append("_");
    name.append(trait_name);
    name.append(ending);
    name
}

/// The name of the static item that registers `implementor`'s
/// implementation of `trait_name` at startup.
pub fn register_static_name(implementor: &str, trait_name: &str) -> (name: String)
    ensures
        name@ == implementor@ + "_"@ + trait_name@ + "__Register"@,
{
    registration_name(implementor, trait_name, "__Register")
}

/// The name of the function that the registering static item holds.
pub fn register_fn_name(implementor: &str, trait_name: &str) -> (name: String)
    ensures
        name@ == implementor@ + "_"@ + trait_name@ + "__RegisterFn"@,
{
    registration_name(implementor, trait_name, "__RegisterFn")
}

/// The name of the item that stores the view behind the registry handle
/// `handle`.
pub fn storage_name(handle: &str) -> (name: String)
    ensures
        name@ == handle@ + "__STORAGE"@,
{
    derived_name(handle, "__STORAGE")
}

/// The name of the type of the registry handle `handle`.
pub fn handle_type_name(handle: &str) -> (name: String)
    ensures
        name@ == handle@ + "__TraitReg"@,
{
    derived_name(handle, "__TraitReg")
}

/// The name of the static item that builds the view behind the registry
/// handle `handle` at startup.
pub fn build_static_name(handle: &str) -> (name: String)
    ensures
        name@ == handle@ + "__Build"@,
{
    derived_name(handle, "__Build")
}

/// The name of the function that the building static item holds.
pub fn build_fn_name(handle: &str) -> (name: String)
    ensures
        name@ == handle@ + "__BuildFn"@,
{
    derived_name(handle, "__BuildFn")
}

/// Hands `name` on if it was found to be an identifier, and refuses it
/// otherwise.
pub fn checked_name(name: String, is_ident: bool) -> (verdict: Result<String, DirectiveError>)
    ensures
        verdict == if is_ident {
            Ok::<String, DirectiveError>(name)
        } else {
            Err::<String, DirectiveError>(DirectiveError::NameNotIdent)
        },
{
    if is_ident {
        Ok(name)
    } else {
        Err(DirectiveError::NameNotIdent)
    }
}

/// Accepts `name` as the name of an item if it parses as an identifier.
/// Whether it does is the parser's finding; an accepted name is handed on
/// as it came, and a refused one is refused for that reason alone.
pub fn as_identifier(name: String) -> (verdict: Result<String, DirectiveError>)
    ensures
        verdict is Ok ==> verdict->Ok_0 == name,
        verdict is Err ==> verdict->Err_0 == DirectiveError::NameNotIdent,
{
    let is_ident = parses_as_identifier(name.as_str());
    checked_name(name, is_ident)
}

} // verus!
