//! The data model shared by both generators.
//!
//! Exec types describe the input (a record definition with annotated
//! members) and the output (a glue unit listing the functions to emit).
//! Each exec type has a mathematical counterpart, suffixed `V`, built from
//! `Seq` and `Option`; contracts speak about those through `deep_view`.

use vstd::prelude::*;

verus! {

/// The shape of one annotation attached to a record or a member.
#[derive(Debug, Clone, PartialEq, Eq)]
pub enum AnnBody {
    /// A bare or value-style annotation; it nests no directive names.
    Plain,
    /// A list-style annotation, e.g. `#[slog(skip)]`: the bare names
    /// nested inside it, in source order.
    List(Vec<String>),
}

/// One annotation: a namespace tag (the attribute path) plus its body.
#[derive(Debug, Clone, PartialEq, Eq)]
pub struct Annotation {
    pub tag: String,
    pub body: AnnBody,
}

/// One member of a record: its name (`None` for a positional, tuple-style
/// member) and the annotations attached to it.
#[derive(Debug, Clone, PartialEq, Eq)]
pub struct Member {
    pub name: Option<String>,
    pub attrs: Vec<Annotation>,
}

/// The input to generation: a named aggregate with an ordered member list
/// and its own annotations. Member names are assumed unique, not enforced.
#[derive(Debug, Clone, PartialEq, Eq)]
pub struct RecordDef {
    pub name: String,
    pub attrs: Vec<Annotation>,
    pub members: Vec<Member>,
}

/// One generated glue function.
#[derive(Debug, Clone, PartialEq, Eq)]
pub enum GlueFn {
    /// The key/value-collection function: for each listed key, in order,
    /// it serializes the member of that name under that key, stopping at
    /// the first failure the sink reports.
    KvSerialize(Vec<String>),
    /// The capability projection exposing the record as an erased
    /// serializable value.
    AsSerde,
    /// The constructor of an owned, sendable, boxed clone of the record.
    ToSendable,
    /// The single-value-emission function delegating to the sink's
    /// structured-value operation with the given key and the record.
    ValueSerialize,
}

/// The output of one generation call: the functions to attach to the
/// record's type, in emission order.
#[derive(Debug, Clone, PartialEq, Eq)]
pub struct GlueUnit {
    pub record_name: String,
    pub fns: Vec<GlueFn>,
}

/// Generation-time failure: the record's shape is not supported.
#[derive(Debug, Clone, Copy, PartialEq, Eq)]
pub enum DeriveError {
    /// The record has unnamed (positional) members; key/value generation
    /// supports only named-member aggregates.
    UnsupportedShape,
}

/// Mathematical counterpart of [`AnnBody`].
#[verifier::ext_equal]
pub enum AnnBodyV {
    Plain,
    List(Seq<Seq<char>>),
}

/// Mathematical counterpart of [`Annotation`].
#[verifier::ext_equal]
pub struct AnnotationV {
    pub tag: Seq<char>,
    pub body: AnnBodyV,
}

/// Mathematical counterpart of [`Member`].
#[verifier::ext_equal]
pub struct MemberV {
    pub name: Option<Seq<char>>,
    pub attrs: Seq<AnnotationV>,
}

/// Mathematical counterpart of [`RecordDef`].
#[verifier::ext_equal]
pub struct RecordDefV {
    pub name: Seq<char>,
    pub attrs: Seq<AnnotationV>,
    pub members: Seq<MemberV>,
}

/// Mathematical counterpart of [`GlueFn`].
#[verifier::ext_equal]
pub enum GlueFnV {
    KvSerialize(Seq<Seq<char>>),
    AsSerde,
    ToSendable,
    ValueSerialize,
}

/// Mathematical counterpart of [`GlueUnit`].
#[verifier::ext_equal]
pub struct GlueUnitV {
    pub record_name: Seq<char>,
    pub fns: Seq<GlueFnV>,
}

impl DeepView for AnnBody {
    type V = AnnBodyV;

    open spec fn deep_view(&self) -> AnnBodyV {
        match self {
            AnnBody::Plain => AnnBodyV::Plain,
            AnnBody::List(names) => AnnBodyV::List(names.deep_view()),
        }
    }
}

impl DeepView for Annotation {
    type V = AnnotationV;

    open spec fn deep_view(&self) -> AnnotationV {
        AnnotationV { tag: self.tag@, body: self.body.deep_view() }
    }
}

impl DeepView for Member {
    type V = MemberV;

    open spec fn deep_view(&self) -> MemberV {
        MemberV { name: self.name.deep_view(), attrs: self.attrs.deep_view() }
    }
}

impl DeepView for RecordDef {
    type V = RecordDefV;

    open spec fn deep_view(&self) -> RecordDefV {
        RecordDefV {
            name: self.name@,
            attrs: self.attrs.deep_view(),
            members: self.members.deep_view(),
        }
    }
}

impl DeepView for GlueFn {
    type V = GlueFnV;

    open spec fn deep_view(&self) -> GlueFnV {
        match self {
            GlueFn::KvSerialize(keys) => GlueFnV::KvSerialize(keys.deep_view()),
            GlueFn::AsSerde => GlueFnV::AsSerde,
            GlueFn::ToSendable => GlueFnV::ToSendable,
            GlueFn::ValueSerialize => GlueFnV::ValueSerialize,
        }
    }
}

impl DeepView for GlueUnit {
    type V = GlueUnitV;

    open spec fn deep_view(&self) -> GlueUnitV {
        GlueUnitV { record_name: self.record_name@, fns: self.fns.deep_view() }
    }
}

} // verus!
