use vstd::prelude::*;
use proc_macro2::Span;

verus! {

/// Relies on `proc_macro2::Span` only as an opaque, copyable value: a source
/// location of the host compiler, carried from the declaration to the output
/// and to errors. Nothing is read from it.
#[verifier::external_type_specification]
#[verifier::external_body]
pub struct ExSpan(proc_macro2::Span);

/// A payload type as written in the declaration, with its location.
pub struct TypeRef {
    pub text: String,
    pub span: Span,
}

/// The fields of one enum variant.
pub enum Payload {
    /// `V`
    Unit,
    /// `V(T1, T2, ..)`
    Positional(Vec<TypeRef>),
    /// `V { a: T1, .. }`; the field names play no part in the generated code.
    Named(Vec<TypeRef>),
}

/// One variant of the enum.
pub struct Case {
    pub name: String,
    pub span: Span,
    pub payload: Payload,
}

/// The shape of the declared type.
pub enum Body {
    /// A tagged union, with its variants in declaration order.
    Enum(Vec<Case>),
    /// A product type.
    Struct,
    /// An untagged `union`.
    Union,
}

/// A type declaration that the derive is applied to.
pub struct Declaration {
    pub name: String,
    pub span: Span,
    pub body: Body,
}

#[derive(Clone, Copy, Debug, PartialEq, Eq, Structural)]
pub enum DeriveErrorKind {
    /// The declaration is not an enum.
    NotAUnion,
    /// A variant holds no payload, or more than one.
    InvalidArity,
    /// A variant's payload is written with named fields, whatever their count.
    NamedPayloadNotAllowed,
}

/// Why a derivation failed, and where to report it.
pub struct DeriveError {
    pub kind: DeriveErrorKind,
    pub span: Span,
}

impl Declaration {
    /// The variants, where the declaration is an enum.
    pub open spec fn cases(self) -> Seq<Case> {
        match self.body {
            Body::Enum(cases) => cases@,
            _ => Seq::empty(),
        }
    }
}

impl Payload {
    /// The number of payload slots.
    pub open spec fn arity(self) -> nat {
        match self {
            Payload::Unit => 0,
            Payload::Positional(ts) => ts@.len(),
            Payload::Named(ts) => ts@.len(),
        }
    }
}

impl Case {
    /// What is wrong with this variant, if anything: named fields are refused
    /// whatever their count; otherwise the slot count must be one.
    pub open spec fn fault(self) -> Option<DeriveErrorKind> {
        if self.payload is Named {
            Some(DeriveErrorKind::NamedPayloadNotAllowed)
        } else if self.payload.arity() != 1 {
            Some(DeriveErrorKind::InvalidArity)
        } else {
            None
        }
    }

    /// The single payload type of a valid variant.
    pub open spec fn payload_type(self) -> TypeRef
        recommends
            self.fault() is None,
    {
        match self.payload {
            Payload::Positional(ts) => ts@[0],
            _ => arbitrary(),
        }
    }

    /// Finds what is wrong with this variant, as [`Case::fault`] states it.
    pub fn check(&self) -> (r: Option<DeriveErrorKind>)
        ensures
            r == self.fault(),
    {
        match &self.payload {
            Payload::Unit => Some(DeriveErrorKind::InvalidArity),
            Payload::Positional(ts) => {
                if ts.len() == 1 {
                    None
                } else {
                    Some(DeriveErrorKind::InvalidArity)
                }
            },
            Payload::Named(_) => Some(DeriveErrorKind::NamedPayloadNotAllowed),
        }
    }
}

impl DeriveError {
    /// The message reported to the user.
    pub fn message(&self) -> (r: &'static str)
        ensures
            r@ == self.kind.message(),
    {
        match self.kind {
            DeriveErrorKind::NotAUnion => "Deriving from SumError is only available for enums of errors!",
            DeriveErrorKind::InvalidArity => "Invalid number of contained errors! Only one error allowed in any enum variant!",
            DeriveErrorKind::NamedPayloadNotAllowed => "Contained in variants errors should be unnamed!",
        }
    }
}

impl DeriveErrorKind {
    pub open spec fn message(self) -> Seq<char> {
        match self {
            DeriveErrorKind::NotAUnion => "Deriving from SumError is only available for enums of errors!"@,
            DeriveErrorKind::InvalidArity => "Invalid number of contained errors! Only one error allowed in any enum variant!"@,
            DeriveErrorKind::NamedPayloadNotAllowed => "Contained in variants errors should be unnamed!"@,
        }
    }
}

} // verus!
