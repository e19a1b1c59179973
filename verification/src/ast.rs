//! Abstract-syntax model of the declarations the transformation reads and
//! writes.
//!
//! Identifiers, type expressions and annotations are carried as token text
//! (`String`); the transformation never interprets them beyond the contracts
//! stated here.  Each executable type has a spec-level mirror (`Spec*`) over
//! `Seq<char>` and `Seq`, reached through `DeepView`, and the contracts of the
//! transformation are stated over those mirrors.

use vstd::prelude::*;

verus! {

/// Visibility of a declaration or of a field, as the host language records it.
#[derive(Clone, Copy, PartialEq, Eq, Structural, Debug)]
pub enum Visibility {
    /// Publicly visible (`pub`).
    Public,
    /// Inherited (private) visibility.
    Private,
}

/// One payload field of an alternative: an optional name (present for the
/// named-field shape), the declared type as token text, and its visibility.
#[derive(Debug, PartialEq, Eq)]
pub struct FieldDecl {
    pub vis: Visibility,
    pub name: Option<String>,
    pub ty: String,
}

/// Spec-level mirror of [`FieldDecl`].
#[verifier::ext_equal]
pub struct SpecFieldDecl {
    pub vis: Visibility,
    pub name: Option<Seq<char>>,
    pub ty: Seq<char>,
}

impl DeepView for FieldDecl {
    type V = SpecFieldDecl;

    open spec fn deep_view(&self) -> SpecFieldDecl {
        SpecFieldDecl { vis: self.vis, name: self.name.deep_view(), ty: self.ty.deep_view() }
    }
}

/// The payload shape of one alternative: named fields, positional fields, or
/// no fields at all.
#[derive(Debug, PartialEq, Eq)]
pub enum FieldsShape {
    Named(Vec<FieldDecl>),
    Unnamed(Vec<FieldDecl>),
    Unit,
}

/// Spec-level mirror of [`FieldsShape`].
#[verifier::ext_equal]
pub enum SpecFieldsShape {
    Named(Seq<SpecFieldDecl>),
    Unnamed(Seq<SpecFieldDecl>),
    Unit,
}

impl DeepView for FieldsShape {
    type V = SpecFieldsShape;

    open spec fn deep_view(&self) -> SpecFieldsShape {
        match self {
            FieldsShape::Named(fs) => SpecFieldsShape::Named(fs.deep_view()),
            FieldsShape::Unnamed(fs) => SpecFieldsShape::Unnamed(fs.deep_view()),
            FieldsShape::Unit => SpecFieldsShape::Unit,
        }
    }
}

/// One alternative (case) of the sum type: its name, its own per-case
/// annotations (token text, in order), and its payload shape.
#[derive(Debug, PartialEq, Eq)]
pub struct AlternativeDecl {
    pub name: String,
    pub attrs: Vec<String>,
    pub fields: FieldsShape,
}

/// Spec-level mirror of [`AlternativeDecl`].
#[verifier::ext_equal]
pub struct SpecAlternativeDecl {
    pub name: Seq<char>,
    pub attrs: Seq<Seq<char>>,
    pub fields: SpecFieldsShape,
}

impl DeepView for AlternativeDecl {
    type V = SpecAlternativeDecl;

    open spec fn deep_view(&self) -> SpecAlternativeDecl {
        SpecAlternativeDecl {
            name: self.name.deep_view(),
            attrs: self.attrs.deep_view(),
            fields: self.fields.deep_view(),
        }
    }
}

/// The sum-type declaration under transformation: visibility, name,
/// top-level annotations, and the ordered alternatives.
#[derive(Debug, PartialEq, Eq)]
pub struct SumTypeDecl {
    pub vis: Visibility,
    pub name: String,
    pub attrs: Vec<String>,
    pub alternatives: Vec<AlternativeDecl>,
}

/// Spec-level mirror of [`SumTypeDecl`].
#[verifier::ext_equal]
pub struct SpecSumTypeDecl {
    pub vis: Visibility,
    pub name: Seq<char>,
    pub attrs: Seq<Seq<char>>,
    pub alternatives: Seq<SpecAlternativeDecl>,
}

impl DeepView for SumTypeDecl {
    type V = SpecSumTypeDecl;

    open spec fn deep_view(&self) -> SpecSumTypeDecl {
        SpecSumTypeDecl {
            vis: self.vis,
            name: self.name.deep_view(),
            attrs: self.attrs.deep_view(),
            alternatives: self.alternatives.deep_view(),
        }
    }
}

/// The literal value of a key/value configuration entry: either a string
/// literal (whose contents the classifier may consume) or some other literal
/// kind, carried as token text.
#[derive(Debug, PartialEq, Eq)]
pub enum ConfigValue {
    StrLit(String),
    OtherLit(String),
}

/// Spec-level mirror of [`ConfigValue`].
#[verifier::ext_equal]
pub enum SpecConfigValue {
    StrLit(Seq<char>),
    OtherLit(Seq<char>),
}

impl DeepView for ConfigValue {
    type V = SpecConfigValue;

    open spec fn deep_view(&self) -> SpecConfigValue {
        match self {
            ConfigValue::StrLit(s) => SpecConfigValue::StrLit(s.deep_view()),
            ConfigValue::OtherLit(s) => SpecConfigValue::OtherLit(s.deep_view()),
        }
    }
}

/// One configuration entry attached to the transformation: either a
/// `key = value` pair, or any other entry shape carried verbatim as token
/// text (a bare word, a list such as a derive request, a bare literal).
#[derive(Debug, PartialEq, Eq)]
pub enum ConfigEntry {
    NameValue { key: String, value: ConfigValue },
    Other(String),
}

/// Spec-level mirror of [`ConfigEntry`].
#[verifier::ext_equal]
pub enum SpecConfigEntry {
    NameValue { key: Seq<char>, value: SpecConfigValue },
    Other(Seq<char>),
}

impl DeepView for ConfigEntry {
    type V = SpecConfigEntry;

    open spec fn deep_view(&self) -> SpecConfigEntry {
        match self {
            ConfigEntry::NameValue { key, value } => SpecConfigEntry::NameValue {
                key: key.deep_view(),
                value: value.deep_view(),
            },
            ConfigEntry::Other(s) => SpecConfigEntry::Other(s.deep_view()),
        }
    }
}

/// The parent-link target parsed from an `impl_into_parent` directive: the
/// parent type path, and the name of the parent's alternative if it was given
/// explicitly (`Type::Variant` form).
#[derive(Debug, PartialEq, Eq)]
pub struct ParentLink {
    pub path: String,
    pub variant: Option<String>,
}

/// Spec-level mirror of [`ParentLink`].
#[verifier::ext_equal]
pub struct SpecParentLink {
    pub path: Seq<char>,
    pub variant: Option<Seq<char>>,
}

impl DeepView for ParentLink {
    type V = SpecParentLink;

    open spec fn deep_view(&self) -> SpecParentLink {
        SpecParentLink { path: self.path.deep_view(), variant: self.variant.deep_view() }
    }
}

/// One generated record declaration: the forwarded opaque directives (first,
/// in their original order), the alternative's own annotations, the derived
/// record identifier, and the field list with visibility forced to public.
#[derive(Debug, PartialEq, Eq)]
pub struct RecordDecl {
    pub forwarded: Vec<ConfigEntry>,
    pub attrs: Vec<String>,
    pub name: String,
    pub fields: FieldsShape,
}

/// Spec-level mirror of [`RecordDecl`].
#[verifier::ext_equal]
pub struct SpecRecordDecl {
    pub forwarded: Seq<SpecConfigEntry>,
    pub attrs: Seq<Seq<char>>,
    pub name: Seq<char>,
    pub fields: SpecFieldsShape,
}

impl DeepView for RecordDecl {
    type V = SpecRecordDecl;

    open spec fn deep_view(&self) -> SpecRecordDecl {
        SpecRecordDecl {
            forwarded: self.forwarded.deep_view(),
            attrs: self.attrs.deep_view(),
            name: self.name.deep_view(),
            fields: self.fields.deep_view(),
        }
    }
}

/// The conversions generated for one record: the record's bare identifier,
/// its possibly module-qualified path, the sum type and alternative it pairs
/// with, and the resolved parent-link target when one was configured.
///
/// Each such description stands for three generated conversions (record into
/// sum type; sum type into record by value, fallible; sum type into record by
/// reference, fallible) plus, when `parent` is set, the one-hop conversion
/// from the record into the parent type.
#[derive(Debug, PartialEq, Eq)]
pub struct ConversionSpec {
    pub record: String,
    pub record_path: String,
    pub sum_type: String,
    pub variant: String,
    pub parent: Option<ResolvedParent>,
}

/// A parent-link target with the parent's alternative name resolved: the
/// explicit `Type::Variant` name when one was given, else the sum type's own
/// name.
#[derive(Debug, PartialEq, Eq)]
pub struct ResolvedParent {
    pub path: String,
    pub variant: String,
}

/// Spec-level mirror of [`ResolvedParent`].
#[verifier::ext_equal]
pub struct SpecResolvedParent {
    pub path: Seq<char>,
    pub variant: Seq<char>,
}

impl DeepView for ResolvedParent {
    type V = SpecResolvedParent;

    open spec fn deep_view(&self) -> SpecResolvedParent {
        SpecResolvedParent { path: self.path.deep_view(), variant: self.variant.deep_view() }
    }
}

/// Spec-level mirror of [`ConversionSpec`].
#[verifier::ext_equal]
pub struct SpecConversion {
    pub record: Seq<char>,
    pub record_path: Seq<char>,
    pub sum_type: Seq<char>,
    pub variant: Seq<char>,
    pub parent: Option<SpecResolvedParent>,
}

impl DeepView for ConversionSpec {
    type V = SpecConversion;

    open spec fn deep_view(&self) -> SpecConversion {
        SpecConversion {
            record: self.record.deep_view(),
            record_path: self.record_path.deep_view(),
            sum_type: self.sum_type.deep_view(),
            variant: self.variant.deep_view(),
            parent: self.parent.deep_view(),
        }
    }
}

/// The replacement declaration set: the rebuilt sum type (each alternative
/// now wrapping its record type), the namespace holding the records when a
/// `module` directive was given, the generated records in alternative order,
/// and one conversion description per record.
#[derive(Debug, PartialEq, Eq)]
pub struct TransformOutput {
    pub sum_type: SumTypeDecl,
    pub module: Option<String>,
    pub records: Vec<RecordDecl>,
    pub conversions: Vec<ConversionSpec>,
}

/// Spec-level mirror of [`TransformOutput`].
#[verifier::ext_equal]
pub struct SpecTransformOutput {
    pub sum_type: SpecSumTypeDecl,
    pub module: Option<Seq<char>>,
    pub records: Seq<SpecRecordDecl>,
    pub conversions: Seq<SpecConversion>,
}

impl DeepView for TransformOutput {
    type V = SpecTransformOutput;

    open spec fn deep_view(&self) -> SpecTransformOutput {
        SpecTransformOutput {
            sum_type: self.sum_type.deep_view(),
            module: self.module.deep_view(),
            records: self.records.deep_view(),
            conversions: self.conversions.deep_view(),
        }
    }
}

/// The reasons the transformation aborts with no partial output.
#[derive(Clone, Copy, PartialEq, Eq, Structural, Debug)]
pub enum TransformError {
    /// The type-path part of an `impl_into_parent` value does not parse as a
    /// type path.
    MalformedParentPath,
    /// The `Type::Variant` part after the last path separator of an
    /// `impl_into_parent` value is not an identifier.
    MalformedParentVariant,
    /// The value of a `module` directive is not an identifier.
    MalformedModuleName,
    /// A derived record identifier (prefix concatenated with the alternative
    /// name) is not an identifier.
    MalformedRecordName,
}

impl DeepView for TransformError {
    type V = TransformError;

    open spec fn deep_view(&self) -> TransformError {
        *self
    }
}

} // verus!
