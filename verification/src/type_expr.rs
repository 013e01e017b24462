//! Type expressions and the matcher that recognizes a single outer wrapper.
//!
//! Matching is by what is written, not by what it means: a type is optional
//! when it is written `Option<T>` and a sequence when it is written `Vec<T>`.
//! An alias of either, or a path that reaches either through its modules, is
//! taken for a bare type.

use vstd::prelude::*;

verus! {

/// One argument between the angle brackets of a path segment.
#[derive(Debug, PartialEq, Eq)]
pub enum GenericArgument {
    /// A type, such as the `String` of `Option<String>`.
    Type(TypeExpr),
    /// Anything else: a lifetime, a constant, a binding, a constraint.
    Other,
}

/// What follows the name of a path segment.
#[derive(Debug, PartialEq, Eq)]
pub enum PathArguments {
    /// Nothing, as in `String`.
    Plain,
    /// Arguments in angle brackets, as in `Vec<u8>`.
    AngleBracketed(Vec<GenericArgument>),
    /// Arguments in round brackets, as in `Fn(u8) -> u8`.
    Parenthesized,
}

/// One segment of a path, such as the `Vec<u8>` of `std::vec::Vec<u8>`.
#[derive(Debug, PartialEq, Eq)]
pub struct PathSegment {
    pub name: String,
    pub arguments: PathArguments,
}

/// The structure of a type expression, as far as the matcher looks into it.
#[derive(Debug, PartialEq, Eq)]
pub enum TypeForm {
    /// A path, by its segments in the order written.
    Path(Vec<PathSegment>),
    /// Any other form: a reference, a tuple, an array, a function pointer.
    Other,
}

/// A type expression: its text as written, and its structure.
///
/// The text is what is handed on when the type is emitted again; the matcher
/// reads the structure only.
#[derive(Debug, PartialEq, Eq)]
pub struct TypeExpr {
    pub source: String,
    pub form: TypeForm,
}

/// The outcome of matching a type expression against the recognized wrappers.
#[derive(Clone, Copy, Debug, PartialEq, Eq)]
pub enum TypeShape<'a> {
    /// No recognized wrapper: the whole expression.
    Bare(&'a TypeExpr),
    /// `Option<T>`: the `T`.
    OptionalOf(&'a TypeExpr),
    /// `Vec<T>`: the `T`.
    SequenceOf(&'a TypeExpr),
}

/// The mathematical value of a [`GenericArgument`].
pub enum ArgumentModel {
    Type(TypeModel),
    Other,
}

/// The mathematical value of [`PathArguments`].
pub enum ArgumentsModel {
    Plain,
    AngleBracketed(Seq<ArgumentModel>),
    Parenthesized,
}

/// The mathematical value of a [`PathSegment`].
pub struct SegmentModel {
    pub name: Seq<char>,
    pub arguments: ArgumentsModel,
}

/// The mathematical value of a [`TypeForm`].
pub enum FormModel {
    Path(Seq<SegmentModel>),
    Other,
}

/// The mathematical value of a [`TypeExpr`].
pub struct TypeModel {
    pub source: Seq<char>,
    pub form: FormModel,
}

/// The mathematical value of a [`TypeShape`].
pub enum ShapeModel {
    Bare(TypeModel),
    OptionalOf(TypeModel),
    SequenceOf(TypeModel),
}

/// The value of a type expression.
pub open spec fn type_model(ty: TypeExpr) -> TypeModel
    decreases ty,
{
    TypeModel {
        source: ty.source@,
        form: match ty.form {
            TypeForm::Path(segments) => FormModel::Path(
                Seq::new(
                    segments@.len(),
                    |i: int|
                        if 0 <= i < segments@.len() {
                            segment_model(segments@[i])
                        } else {
                            arbitrary()
                        },
                ),
            ),
            TypeForm::Other => FormModel::Other,
        },
    }
}

/// The value of a path segment.
pub open spec fn segment_model(segment: PathSegment) -> SegmentModel
    decreases segment,
{
    SegmentModel {
        name: segment.name@,
        arguments: match segment.arguments {
            PathArguments::Plain => ArgumentsModel::Plain,
            PathArguments::AngleBracketed(arguments) => ArgumentsModel::AngleBracketed(
                Seq::new(
                    arguments@.len(),
                    |i: int|
                        if 0 <= i < arguments@.len() {
                            argument_model(arguments@[i])
                        } else {
                            arbitrary()
                        },
                ),
            ),
            PathArguments::Parenthesized => ArgumentsModel::Parenthesized,
        },
    }
}

/// The value of a generic argument.
pub open spec fn argument_model(argument: GenericArgument) -> ArgumentModel
    decreases argument,
{
    match argument {
        GenericArgument::Type(ty) => ArgumentModel::Type(type_model(ty)),
        GenericArgument::Other => ArgumentModel::Other,
    }
}

impl View for TypeExpr {
    type V = TypeModel;

    open spec fn view(&self) -> TypeModel {
        type_model(*self)
    }
}

impl<'a> View for TypeShape<'a> {
    type V = ShapeModel;

    open spec fn view(&self) -> ShapeModel {
        match *self {
            TypeShape::Bare(t) => ShapeModel::Bare(t@),
            TypeShape::OptionalOf(t) => ShapeModel::OptionalOf(t@),
            TypeShape::SequenceOf(t) => ShapeModel::SequenceOf(t@),
        }
    }
}

/// The name of the wrapper that marks an optional value.
pub open spec fn optional_wrapper() -> Seq<char> {
    "Option"@
}

/// The name of the wrapper that marks a sequence of values.
pub open spec fn sequence_wrapper() -> Seq<char> {
    "Vec"@
}

impl TypeModel {
    /// The `T` of `container<T>`: the expression is a path whose first segment
    /// is named `container` and carries exactly one argument in angle brackets,
    /// which is a type.
    pub open spec fn wrapped_in(self, container: Seq<char>) -> Option<TypeModel> {
        match self.form {
            FormModel::Path(segments) => {
                if segments.len() > 0 && segments[0].name == container {
                    match segments[0].arguments {
                        ArgumentsModel::AngleBracketed(arguments) => {
                            if arguments.len() == 1 {
                                match arguments[0] {
                                    ArgumentModel::Type(inner) => Some(inner),
                                    ArgumentModel::Other => None,
                                }
                            } else {
                                None
                            }
                        },
                        _ => None,
                    }
                } else {
                    None
                }
            },
            FormModel::Other => None,
        }
    }

    /// The shape of the expression: only the single outermost wrapper counts,
    /// and an optional wrapper is looked for before a sequence wrapper.
    pub open spec fn shape(self) -> ShapeModel {
        match self.wrapped_in(optional_wrapper()) {
            Some(inner) => ShapeModel::OptionalOf(inner),
            None => match self.wrapped_in(sequence_wrapper()) {
                Some(inner) => ShapeModel::SequenceOf(inner),
                None => ShapeModel::Bare(self),
            },
        }
    }
}

/// Finds the single type argument of `ty` when `ty` is `container<T>`.
pub fn inner_for<'a>(container: &str, ty: &'a TypeExpr) -> (inner: Option<&'a TypeExpr>)
    ensures
        match inner {
            Some(found) => ty@.wrapped_in(container@) == Some(found@),
            None => ty@.wrapped_in(container@) is None,
        },
{
    match &ty.form {
        TypeForm::Path(segments) => {
            if segments.len() == 0 {
                return None;
            }
            let wanted = container.to_owned();
            if segments[0].name != wanted {
                return None;
            }
            match &segments[0].arguments {
                PathArguments::AngleBracketed(arguments) => {
                    if arguments.len() != 1 {
                        return None;
                    }
                    match &arguments[0] {
                        GenericArgument::Type(inner) => Some(inner),
                        GenericArgument::Other => None,
                    }
                },
                _ => None,
            }
        },
        TypeForm::Other => None,
    }
}

/// Finds the `T` of `Option<T>`.
pub fn inner_for_option<'a>(ty: &'a TypeExpr) -> (inner: Option<&'a TypeExpr>)
    ensures
        match inner {
            Some(found) => ty@.wrapped_in(optional_wrapper()) == Some(found@),
            None => ty@.wrapped_in(optional_wrapper()) is None,
        },
{
    inner_for("Option", ty)
}

/// Finds the `T` of `Vec<T>`.
pub fn inner_for_vec<'a>(ty: &'a TypeExpr) -> (inner: Option<&'a TypeExpr>)
    ensures
        match inner {
            Some(found) => ty@.wrapped_in(sequence_wrapper()) == Some(found@),
            None => ty@.wrapped_in(sequence_wrapper()) is None,
        },
{
    inner_for("Vec", ty)
}

/// Matches a type expression against the recognized wrappers. Never fails:
/// whatever is not `Option<T>` or `Vec<T>` is bare.
pub fn match_shape<'a>(ty: &'a TypeExpr) -> (shape: TypeShape<'a>)
    ensures
        shape@ == ty@.shape(),
{
    match inner_for_option(ty) {
        Some(inner) => TypeShape::OptionalOf(inner),
        None => match inner_for_vec(ty) {
            Some(inner) => TypeShape::SequenceOf(inner),
            None => TypeShape::Bare(ty),
        },
    }
}

} // verus!
