//! The kinds of type that the engine tells apart.

use vstd::prelude::*;

verus! {

/// The kind of a type.
#[derive(Clone, Copy, Debug, PartialEq, Eq, Structural)]
pub enum TypeKind {
    Void,
    Half,
    Float,
    Double,
    X86FP80,
    FP128,
    PPCFP128,
    Label,
    Integer,
    Function,
    Struct,
    Array,
    Pointer,
    Vector,
    Metadata,
    Token,
    ScalableVector,
    BFloat,
    X86AMX,
    TargetExt,
    Byte,
}

impl TypeKind {
    /// The number that the engine's C interface gives to the kind.
    pub open spec fn tag_of(self) -> u32 {
        match self {
            TypeKind::Void => 0,
            TypeKind::Half => 1,
            TypeKind::Float => 2,
            TypeKind::Double => 3,
            TypeKind::X86FP80 => 4,
            TypeKind::FP128 => 5,
            TypeKind::PPCFP128 => 6,
            TypeKind::Label => 7,
            TypeKind::Integer => 8,
            TypeKind::Function => 9,
            TypeKind::Struct => 10,
            TypeKind::Array => 11,
            TypeKind::Pointer => 12,
            TypeKind::Vector => 13,
            TypeKind::Metadata => 14,
            TypeKind::Token => 16,
            TypeKind::ScalableVector => 17,
            TypeKind::BFloat => 18,
            TypeKind::X86AMX => 19,
            TypeKind::TargetExt => 20,
            TypeKind::Byte => 21,
        }
    }

    /// The kind whose number is `tag`, if there is one.
    pub open spec fn with_tag(tag: u32) -> Option<TypeKind> {
        if exists|kind: TypeKind| kind.tag_of() == tag {
            Some(choose|kind: TypeKind| kind.tag_of() == tag)
        } else {
            None
        }
    }

    /// The number of the kind.
    pub fn tag(self) -> (tag: u32)
        ensures
            tag == self.tag_of(),
    {
        match self {
            TypeKind::Void => 0,
            TypeKind::Half => 1,
            TypeKind::Float => 2,
            TypeKind::Double => 3,
            TypeKind::X86FP80 => 4,
            TypeKind::FP128 => 5,
            TypeKind::PPCFP128 => 6,
            TypeKind::Label => 7,
            TypeKind::Integer => 8,
            TypeKind::Function => 9,
            TypeKind::Struct => 10,
            TypeKind::Array => 11,
            TypeKind::Pointer => 12,
            TypeKind::Vector => 13,
            TypeKind::Metadata => 14,
            TypeKind::Token => 16,
            TypeKind::ScalableVector => 17,
            TypeKind::BFloat => 18,
            TypeKind::X86AMX => 19,
            TypeKind::TargetExt => 20,
            TypeKind::Byte => 21,
        }
    }

    /// Decodes the number of a kind. Numbers that stand for no kind, 15 and
    /// those above 21, give `None`.
    pub fn from_tag(tag: u32) -> (kind: Option<TypeKind>)
        ensures
            kind == Self::with_tag(tag),
            kind is None <==> tag == 15 || tag > 21,
    {
        let kind = match tag {
            0 => Some(TypeKind::Void),
            1 => Some(TypeKind::Half),
            2 => Some(TypeKind::Float),
            3 => Some(TypeKind::Double),
            4 => Some(TypeKind::X86FP80),
            5 => Some(TypeKind::FP128),
            6 => Some(TypeKind::PPCFP128),
            7 => Some(TypeKind::Label),
            8 => Some(TypeKind::Integer),
            9 => Some(TypeKind::Function),
            10 => Some(TypeKind::Struct),
            11 => Some(TypeKind::Array),
            12 => Some(TypeKind::Pointer),
            13 => Some(TypeKind::Vector),
            14 => Some(TypeKind::Metadata),
            16 => Some(TypeKind::Token),
            17 => Some(TypeKind::ScalableVector),
            18 => Some(TypeKind::BFloat),
            19 => Some(TypeKind::X86AMX),
            20 => Some(TypeKind::TargetExt),
            21 => Some(TypeKind::Byte),
            _ => None,
        };
        proof {
            match kind {
                Some(found) => {
                    assert(found.tag_of() == tag);
                    Self::lemma_tags_differ(found, choose|kind: TypeKind| kind.tag_of() == tag);
                },
                None => {
                    assert forall|kind: TypeKind| kind.tag_of() != tag by {
                        Self::lemma_tag_range(kind);
                    }
                },
            }
        }
        kind
    }

    /// No two kinds share a number.
    pub proof fn lemma_tags_differ(a: TypeKind, b: TypeKind)
        requires
            a.tag_of() == b.tag_of(),
        ensures
            a == b,
    {
    }

    /// The numbers of the kinds are 0 to 21 without 15.
    pub proof fn lemma_tag_range(kind: TypeKind)
        ensures
            kind.tag_of() <= 21,
            kind.tag_of() != 15,
    {
    }

    /// Decoding the number of a kind gives the kind back.
    pub proof fn lemma_tag_round_trip(kind: TypeKind)
        ensures
            Self::with_tag(kind.tag_of()) == Some(kind),
    {
        Self::lemma_tags_differ(kind, choose|other: TypeKind| other.tag_of() == kind.tag_of());
    }
}

} // verus!
