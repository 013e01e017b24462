//! Record definitions, and the classifier that gives each field its policy.

use vstd::prelude::*;

use crate::annotation::{annotation_models, element_setter, interpret, Annotation, AnnotationModel};
use crate::type_expr::{match_shape, ShapeModel, TypeExpr, TypeModel, TypeShape};

verus! {

/// One named field of a record: its name, its declared type and the raw
/// annotations that stand on it.
#[derive(Debug, PartialEq, Eq)]
pub struct FieldDefinition {
    pub name: String,
    pub ty: TypeExpr,
    pub annotations: Vec<Annotation>,
}

/// The shape of the definition that a builder is asked for.
#[derive(Debug, PartialEq, Eq)]
pub enum RecordShape {
    /// A struct with named fields, in the order declared.
    Named(Vec<FieldDefinition>),
    /// A struct with positional fields.
    Tuple,
    /// A struct without fields.
    Unit,
    /// An enumeration.
    Enum,
    /// A union.
    Union,
}

/// A record definition: its name, its visibility as written (empty when
/// nothing is written) and its shape.
#[derive(Debug, PartialEq, Eq)]
pub struct RecordDefinition {
    pub name: String,
    pub visibility: String,
    pub shape: RecordShape,
}

/// What a builder does with one field. Each field has exactly one policy.
#[derive(Debug, PartialEq, Eq)]
pub enum FieldPolicy<'a> {
    /// The field must be set before the record is built; it has the type given.
    Required(&'a TypeExpr),
    /// The field may stay unset; its value, when set, has the type given.
    Optional(&'a TypeExpr),
    /// The field collects elements of the type given, one per call of the
    /// setter named.
    Collected(&'a TypeExpr, String),
}

/// A field together with its policy.
#[derive(Debug, PartialEq, Eq)]
pub struct ClassifiedField<'a> {
    pub name: &'a String,
    pub policy: FieldPolicy<'a>,
}

/// The mathematical value of a [`FieldDefinition`].
pub struct FieldModel {
    pub name: Seq<char>,
    pub ty: TypeModel,
    pub annotations: Seq<AnnotationModel>,
}

/// The mathematical value of a [`RecordShape`].
pub enum RecordShapeModel {
    Named(Seq<FieldModel>),
    Tuple,
    Unit,
    Enum,
    Union,
}

/// The mathematical value of a [`RecordDefinition`].
pub struct RecordModel {
    pub name: Seq<char>,
    pub visibility: Seq<char>,
    pub shape: RecordShapeModel,
}

/// The mathematical value of a [`FieldPolicy`].
pub enum PolicyModel {
    Required(TypeModel),
    Optional(TypeModel),
    Collected(TypeModel, Seq<char>),
}

/// The mathematical value of a [`ClassifiedField`].
pub struct ClassifiedModel {
    pub name: Seq<char>,
    pub policy: PolicyModel,
}

/// The values of a series of fields.
pub open spec fn field_models(fields: Seq<FieldDefinition>) -> Seq<FieldModel> {
    Seq::new(fields.len(), |i: int| fields[i]@)
}

/// The values of a series of classified fields.
pub open spec fn classified_models(fields: Seq<ClassifiedField>) -> Seq<ClassifiedModel> {
    Seq::new(fields.len(), |i: int| fields[i]@)
}

impl View for FieldDefinition {
    type V = FieldModel;

    open spec fn view(&self) -> FieldModel {
        FieldModel {
            name: self.name@,
            ty: self.ty@,
            annotations: annotation_models(self.annotations@),
        }
    }
}

impl View for RecordShape {
    type V = RecordShapeModel;

    open spec fn view(&self) -> RecordShapeModel {
        match *self {
            RecordShape::Named(fields) => RecordShapeModel::Named(field_models(fields@)),
            RecordShape::Tuple => RecordShapeModel::Tuple,
            RecordShape::Unit => RecordShapeModel::Unit,
            RecordShape::Enum => RecordShapeModel::Enum,
            RecordShape::Union => RecordShapeModel::Union,
        }
    }
}

impl View for RecordDefinition {
    type V = RecordModel;

    open spec fn view(&self) -> RecordModel {
        RecordModel { name: self.name@, visibility: self.visibility@, shape: self.shape@ }
    }
}

impl<'a> View for FieldPolicy<'a> {
    type V = PolicyModel;

    open spec fn view(&self) -> PolicyModel {
        match *self {
            FieldPolicy::Required(ty) => PolicyModel::Required(ty@),
            FieldPolicy::Optional(ty) => PolicyModel::Optional(ty@),
            FieldPolicy::Collected(ty, name) => PolicyModel::Collected(ty@, name@),
        }
    }
}

impl<'a> View for ClassifiedField<'a> {
    type V = ClassifiedModel;

    open spec fn view(&self) -> ClassifiedModel {
        ClassifiedModel { name: self.name@, policy: self.policy@ }
    }
}

/// The type of the elements that a field collects: what its sequence wrapper
/// holds, or the whole declared type where it is no sequence.
pub open spec fn element_type(ty: TypeModel) -> TypeModel {
    match ty.shape() {
        ShapeModel::SequenceOf(inner) => inner,
        _ => ty,
    }
}

impl FieldModel {
    /// The policy of the field. An element-setter name in the annotations
    /// comes first and makes the field collected, whatever its declared type;
    /// without one an optional wrapper makes it optional; any other field is
    /// required, with its declared type unchanged.
    pub open spec fn policy(self) -> PolicyModel {
        match element_setter(self.annotations) {
            Some(name) => PolicyModel::Collected(element_type(self.ty), name),
            None => match self.ty.shape() {
                ShapeModel::OptionalOf(inner) => PolicyModel::Optional(inner),
                _ => PolicyModel::Required(self.ty),
            },
        }
    }

    /// The field with its policy.
    pub open spec fn classified(self) -> ClassifiedModel {
        ClassifiedModel { name: self.name, policy: self.policy() }
    }
}

/// Classifies a field.
///
/// A field that asks for an element setter is collected even where its
/// declared type is no sequence: its elements then have the whole declared
/// type, and nothing is refused.
pub fn classify<'a>(field: &'a FieldDefinition) -> (policy: FieldPolicy<'a>)
    ensures
        policy@ == field@.policy(),
{
    let shape = match_shape(&field.ty);
    match interpret(&field.annotations) {
        Some(name) => {
            match shape {
                TypeShape::SequenceOf(inner) => FieldPolicy::Collected(inner, name),
                _ => FieldPolicy::Collected(&field.ty, name),
            }
        },
        None => {
            match shape {
                TypeShape::OptionalOf(inner) => FieldPolicy::Optional(inner),
                _ => FieldPolicy::Required(&field.ty),
            }
        },
    }
}

/// Classifies the fields of a record, in the order declared.
pub fn classify_all<'a>(fields: &'a Vec<FieldDefinition>) -> (classified: Vec<ClassifiedField<'a>>)
    ensures
        classified@.len() == fields@.len(),
        forall|i: int|
            0 <= i < fields@.len() ==> (#[trigger] classified@[i])@ == fields@[i]@.classified(),
{
    let mut classified: Vec<ClassifiedField<'a>> = Vec::new();
    let mut i: usize = 0;
    while i < fields.len()
        invariant
            i <= fields@.len(),
            classified@.len() == i,
            forall|j: int| 0 <= j < i ==> (#[trigger] classified@[j])@ == fields@[j]@.classified(),
        decreases fields@.len() - i,
    {
        let field = &fields[i];
        classified.push(ClassifiedField { name: &field.name, policy: classify(field) });
        i += 1;
    }
    classified
}

} // verus!
