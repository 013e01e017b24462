//! The synthesizer: from a classified field list to the declarations of a
//! builder.
//!
//! The declarations are data. They say which slots the builder holds and how
//! each starts out, which setters it has and what each does to which slot, and
//! what the construction method checks and reads. How a builder so declared
//! behaves is the subject of the `runtime` module.

use vstd::prelude::*;

use crate::record::{
    classified_models, classify_all, ClassifiedField, ClassifiedModel, FieldPolicy, PolicyModel,
    RecordDefinition, RecordModel, RecordShape, RecordShapeModel,
};
use crate::type_expr::{TypeExpr, TypeModel};

verus! {

/// The value that a slot holds in a builder fresh from the factory.
#[derive(Clone, Copy, Debug, PartialEq, Eq)]
pub enum InitialValue {
    /// Nothing.
    Absent,
    /// A sequence that is there and empty.
    EmptySequence,
}

/// What a setter does to its slot.
#[derive(Clone, Copy, Debug, PartialEq, Eq)]
pub enum SetterAction {
    /// Puts the value into the slot, in place of what was there.
    Store,
    /// Appends the value to the sequence in the slot, and starts a sequence
    /// of that one value where the slot holds none.
    Append,
}

/// How the construction method reads a slot into the field of the record.
#[derive(Clone, Copy, Debug, PartialEq, Eq)]
pub enum Extraction {
    /// The value itself; the slot has been checked to hold one.
    Unwrap,
    /// The optional value as it is: absent stays absent.
    Optional,
    /// The sequence as it is. A slot that holds none, as every slot of a spent
    /// builder does, is read as the empty sequence.
    Sequence,
}

/// One storage cell of the builder. Its declared type is `Option<element>`,
/// or `Option<Vec<element>>` where it holds a sequence.
#[derive(Debug, PartialEq, Eq)]
pub struct SlotDecl<'a> {
    pub name: String,
    pub element: &'a TypeExpr,
    pub sequence: bool,
    pub initial: InitialValue,
}

/// One setter of the builder: a method of this name that takes one value of
/// the parameter type, acts on the slot of the given index and hands back the
/// builder for chaining.
#[derive(Debug, PartialEq, Eq)]
pub struct SetterDecl<'a> {
    pub name: String,
    pub slot: usize,
    pub parameter: &'a TypeExpr,
    pub action: SetterAction,
}

/// Everything that is generated for one record: the `builder()` factory added
/// to the record, the builder type with its slots, its setters, and its
/// construction method, given by the presence checks it makes, in order, and
/// by how it reads each field.
#[derive(Debug, PartialEq, Eq)]
pub struct SynthesizedDeclarations<'a> {
    pub record_name: String,
    pub builder_name: String,
    pub visibility: String,
    pub slots: Vec<SlotDecl<'a>>,
    pub setters: Vec<SetterDecl<'a>>,
    pub checks: Vec<usize>,
    pub extractions: Vec<Extraction>,
}

/// Why no declarations were generated.
#[derive(Clone, Copy, Debug, PartialEq, Eq)]
pub enum GenerationError {
    /// The definition is not a struct with named fields.
    UnsupportedShape,
}

/// The mathematical value of a [`SlotDecl`].
pub struct SlotModel {
    pub name: Seq<char>,
    pub element: TypeModel,
    pub sequence: bool,
    pub initial: InitialValue,
}

/// The mathematical value of a [`SetterDecl`].
pub struct SetterModel {
    pub name: Seq<char>,
    pub slot: int,
    pub parameter: TypeModel,
    pub action: SetterAction,
}

/// The mathematical value of [`SynthesizedDeclarations`].
pub struct BuilderModel {
    pub record_name: Seq<char>,
    pub builder_name: Seq<char>,
    pub visibility: Seq<char>,
    pub slots: Seq<SlotModel>,
    pub setters: Seq<SetterModel>,
    pub checks: Seq<int>,
    pub extractions: Seq<Extraction>,
}

impl<'a> View for SlotDecl<'a> {
    type V = SlotModel;

    open spec fn view(&self) -> SlotModel {
        SlotModel {
            name: self.name@,
            element: self.element@,
            sequence: self.sequence,
            initial: self.initial,
        }
    }
}

impl<'a> View for SetterDecl<'a> {
    type V = SetterModel;

    open spec fn view(&self) -> SetterModel {
        SetterModel {
            name: self.name@,
            slot: self.slot as int,
            parameter: self.parameter@,
            action: self.action,
        }
    }
}

impl<'a> View for SynthesizedDeclarations<'a> {
    type V = BuilderModel;

    open spec fn view(&self) -> BuilderModel {
        BuilderModel {
            record_name: self.record_name@,
            builder_name: self.builder_name@,
            visibility: self.visibility@,
            slots: self.slots@.map_values(|slot: SlotDecl<'a>| slot@),
            setters: self.setters@.map_values(|setter: SetterDecl<'a>| setter@),
            checks: self.checks@.map_values(|slot: usize| slot as int),
            extractions: self.extractions@,
        }
    }
}

/// What is appended to the name of a record to name its builder.
pub open spec fn builder_suffix() -> Seq<char> {
    "Builder"@
}

impl PolicyModel {
    /// The type that the policy carries.
    pub open spec fn element(self) -> TypeModel {
        match self {
            PolicyModel::Required(t) => t,
            PolicyModel::Optional(t) => t,
            PolicyModel::Collected(t, _) => t,
        }
    }
}

impl ClassifiedModel {
    /// The slot of the field. A collected field starts with an empty
    /// sequence, every other field with nothing.
    pub open spec fn slot(self) -> SlotModel {
        SlotModel {
            name: self.name,
            element: self.policy.element(),
            sequence: self.policy is Collected,
            initial: if self.policy is Collected {
                InitialValue::EmptySequence
            } else {
                InitialValue::Absent
            },
        }
    }

    /// The one setter of the field, which stands at `index`. A collected field
    /// has the element setter of the configured name; every other field has a
    /// setter of its own name that stores a value of the unwrapped type.
    pub open spec fn setter(self, index: int) -> SetterModel {
        match self.policy {
            PolicyModel::Collected(element, name) => SetterModel {
                name: name,
                slot: index,
                parameter: element,
                action: SetterAction::Append,
            },
            _ => SetterModel {
                name: self.name,
                slot: index,
                parameter: self.policy.element(),
                action: SetterAction::Store,
            },
        }
    }

    /// How the construction method reads the field.
    pub open spec fn extraction(self) -> Extraction {
        match self.policy {
            PolicyModel::Required(_) => Extraction::Unwrap,
            PolicyModel::Optional(_) => Extraction::Optional,
            PolicyModel::Collected(_, _) => Extraction::Sequence,
        }
    }
}

/// The indices below `end` of the required fields, in declaration order.
pub open spec fn required_before(fields: Seq<ClassifiedModel>, end: int) -> Seq<int>
    decreases end,
{
    if end <= 0 {
        Seq::empty()
    } else if fields[end - 1].policy is Required {
        required_before(fields, end - 1).push(end - 1)
    } else {
        required_before(fields, end - 1)
    }
}

/// The declarations of the builder of a record with the given name,
/// visibility and classified fields.
pub open spec fn synthesized(
    record_name: Seq<char>,
    visibility: Seq<char>,
    fields: Seq<ClassifiedModel>,
) -> BuilderModel {
    BuilderModel {
        record_name: record_name,
        builder_name: record_name + builder_suffix(),
        visibility: visibility,
        slots: Seq::new(fields.len(), |i: int| fields[i].slot()),
        setters: Seq::new(fields.len(), |i: int| fields[i].setter(i)),
        checks: required_before(fields, fields.len() as int),
        extractions: Seq::new(fields.len(), |i: int| fields[i].extraction()),
    }
}

impl BuilderModel {
    /// Whether some setter has the given name.
    pub open spec fn has_setter_named(self, name: Seq<char>) -> bool {
        exists|s: int| 0 <= s < self.setters.len() && (#[trigger] self.setters[s]).name == name
    }

    /// Whether the setter at `index` is the first of the given name.
    pub open spec fn is_first_setter_named(self, name: Seq<char>, index: int) -> bool {
        &&& 0 <= index < self.setters.len()
        &&& self.setters[index].name == name
        &&& forall|s: int| 0 <= s < index ==> (#[trigger] self.setters[s]).name != name
    }

    /// Whether the slot at `index` is declared consistently: a value that is
    /// unwrapped is checked first, sequences are read from sequence slots and
    /// single values from the others, and only a sequence slot starts with an
    /// empty sequence.
    pub open spec fn slot_is_sound(self, index: int) -> bool {
        &&& match self.extractions[index] {
            Extraction::Unwrap => !self.slots[index].sequence && self.checks.contains(index),
            Extraction::Optional => !self.slots[index].sequence,
            Extraction::Sequence => self.slots[index].sequence,
        }
        &&& self.slots[index].initial is EmptySequence ==> self.slots[index].sequence
    }

    /// Whether the declarations are consistent: every index names a slot,
    /// every slot is read, appending setters act on sequence slots and storing
    /// setters on the others.
    pub open spec fn well_formed(self) -> bool {
        &&& self.extractions.len() == self.slots.len()
        &&& forall|s: int|
            0 <= s < self.setters.len() ==> {
                &&& 0 <= (#[trigger] self.setters[s]).slot < self.slots.len()
                &&& self.setters[s].action is Append <==> self.slots[self.setters[s].slot].sequence
            }
        &&& forall|c: int|
            0 <= c < self.checks.len() ==> 0 <= #[trigger] self.checks[c] < self.slots.len()
        &&& forall|i: int| 0 <= i < self.slots.len() ==> #[trigger] self.slot_is_sound(i)
    }
}

/// The required indices are listed in increasing order, and all of them.
pub proof fn lemma_required_before(fields: Seq<ClassifiedModel>, end: int)
    requires
        0 <= end <= fields.len(),
    ensures
        forall|p: int|
            0 <= p < required_before(fields, end).len() ==> {
                &&& 0 <= (#[trigger] required_before(fields, end)[p]) < end
                &&& fields[required_before(fields, end)[p]].policy is Required
            },
        forall|p: int, q: int|
            0 <= p < q < required_before(fields, end).len() ==> (#[trigger] required_before(
                fields,
                end,
            )[p]) < (#[trigger] required_before(fields, end)[q]),
        forall|i: int|
            0 <= i < end && (#[trigger] fields[i]).policy is Required ==> required_before(
                fields,
                end,
            ).contains(i),
    decreases end,
{
    if end > 0 {
        lemma_required_before(fields, end - 1);
        let before = required_before(fields, end - 1);
        let now = required_before(fields, end);
        if fields[end - 1].policy is Required {
            assert(now[before.len() as int] == end - 1);
            assert forall|i: int|
                0 <= i < end && (#[trigger] fields[i]).policy is Required implies now.contains(
                i,
            ) by {
                if i < end - 1 {
                    let p = choose|p: int| 0 <= p < before.len() && before[p] == i;
                    assert(now[p] == i);
                }
            }
        }
    }
}

/// The declarations synthesized for any fields are consistent.
pub proof fn lemma_synthesized_is_well_formed(
    record_name: Seq<char>,
    visibility: Seq<char>,
    fields: Seq<ClassifiedModel>,
)
    ensures
        synthesized(record_name, visibility, fields).well_formed(),
{
    lemma_required_before(fields, fields.len() as int);
}

impl RecordModel {
    /// The fields of a record with named fields, each with its policy.
    pub open spec fn classified(self) -> Seq<ClassifiedModel> {
        match self.shape {
            RecordShapeModel::Named(fields) => Seq::new(
                fields.len(),
                |i: int| fields[i].classified(),
            ),
            _ => Seq::empty(),
        }
    }

    /// The declarations of the builder of a record with named fields.
    pub open spec fn builder(self) -> BuilderModel {
        synthesized(self.name, self.visibility, self.classified())
    }

    /// What generation gives for the record: the declarations of its builder,
    /// or the refusal of any definition that is not a struct with named
    /// fields.
    pub open spec fn generated(self) -> Result<BuilderModel, GenerationError> {
        match self.shape {
            RecordShapeModel::Named(_) => Ok(self.builder()),
            _ => Err(GenerationError::UnsupportedShape),
        }
    }
}

impl<'a> SynthesizedDeclarations<'a> {
    /// Finds the first setter of the given name.
    pub fn find_setter(&self, name: &str) -> (index: Option<usize>)
        ensures
            match index {
                Some(found) => self@.is_first_setter_named(name@, found as int),
                None => !self@.has_setter_named(name@),
            },
    {
        let wanted = name.to_owned();
        let mut s: usize = 0;
        while s < self.setters.len()
            invariant
                s <= self.setters@.len(),
                wanted@ == name@,
                forall|t: int| 0 <= t < s ==> (#[trigger] self@.setters[t]).name != name@,
            decreases self.setters@.len() - s,
        {
            if self.setters[s].name == wanted {
                return Some(s);
            }
            s += 1;
        }
        None
    }
}

/// The type that a policy carries.
fn policy_element<'a>(policy: &FieldPolicy<'a>) -> (element: &'a TypeExpr)
    ensures
        element@ == policy@.element(),
{
    match policy {
        FieldPolicy::Required(t) => *t,
        FieldPolicy::Optional(t) => *t,
        FieldPolicy::Collected(t, _) => *t,
    }
}

/// Synthesizes the slot of a field.
fn synthesize_slot<'a>(field: &ClassifiedField<'a>) -> (slot: SlotDecl<'a>)
    ensures
        slot@ == field@.slot(),
{
    let collected = match &field.policy {
        FieldPolicy::Collected(_, _) => true,
        _ => false,
    };
    SlotDecl {
        name: field.name.clone(),
        element: policy_element(&field.policy),
        sequence: collected,
        initial: if collected {
            InitialValue::EmptySequence
        } else {
            InitialValue::Absent
        },
    }
}

/// Synthesizes the setter of the field at `index`.
fn synthesize_setter<'a>(field: &ClassifiedField<'a>, index: usize) -> (setter: SetterDecl<'a>)
    ensures
        setter@ == field@.setter(index as int),
{
    match &field.policy {
        FieldPolicy::Collected(element, name) => SetterDecl {
            name: name.clone(),
            slot: index,
            parameter: *element,
            action: SetterAction::Append,
        },
        _ => SetterDecl {
            name: field.name.clone(),
            slot: index,
            parameter: policy_element(&field.policy),
            action: SetterAction::Store,
        },
    }
}

/// Synthesizes the declarations of the builder of a record with the given
/// name, visibility and classified fields.
pub fn synthesize<'a>(
    record_name: &String,
    visibility: &String,
    fields: &Vec<ClassifiedField<'a>>,
) -> (declarations: SynthesizedDeclarations<'a>)
    ensures
        declarations@ == synthesized(record_name@, visibility@, classified_models(fields@)),
        declarations@.well_formed(),
{
    let ghost models = classified_models(fields@);
    let mut slots: Vec<SlotDecl<'a>> = Vec::new();
    let mut setters: Vec<SetterDecl<'a>> = Vec::new();
    let mut checks: Vec<usize> = Vec::new();
    let mut extractions: Vec<Extraction> = Vec::new();
    let mut i: usize = 0;
    while i < fields.len()
        invariant
            i <= fields@.len(),
            models == classified_models(fields@),
            slots@.len() == i,
            setters@.len() == i,
            extractions@.len() == i,
            forall|j: int| 0 <= j < i ==> (#[trigger] slots@[j])@ == models[j].slot(),
            forall|j: int| 0 <= j < i ==> (#[trigger] setters@[j])@ == models[j].setter(j),
            forall|j: int| 0 <= j < i ==> #[trigger] extractions@[j] == models[j].extraction(),
            checks@.map_values(|slot: usize| slot as int) == required_before(models, i as int),
        decreases fields@.len() - i,
    {
        let field = &fields[i];
        slots.push(synthesize_slot(field));
        setters.push(synthesize_setter(field, i));
        let ghost before = checks@;
        match &field.policy {
            FieldPolicy::Required(_) => {
                checks.push(i);
                extractions.push(Extraction::Unwrap);
                assert(checks@.map_values(|slot: usize| slot as int) == before.map_values(
                    |slot: usize| slot as int,
                ).push(i as int));
            },
            FieldPolicy::Optional(_) => {
                extractions.push(Extraction::Optional);
            },
            FieldPolicy::Collected(_, _) => {
                extractions.push(Extraction::Sequence);
            },
        }
        i += 1;
    }
    let declarations = SynthesizedDeclarations {
        record_name: record_name.clone(),
        builder_name: record_name.clone().concat("Builder"),
        visibility: visibility.clone(),
        slots,
        setters,
        checks,
        extractions,
    };
    proof {
        let expected = synthesized(record_name@, visibility@, models);
        assert(declarations@.slots == expected.slots);
        assert(declarations@.setters == expected.setters);
        assert(declarations@.extractions == expected.extractions);
        lemma_synthesized_is_well_formed(record_name@, visibility@, models);
    }
    declarations
}

/// Generates the declarations of the builder of a record.
///
/// Only a struct with named fields has a builder: any other definition is
/// refused, and nothing is generated for it. A struct with named fields is
/// never refused.
pub fn generate<'a>(record: &'a RecordDefinition) -> (result: Result<
    SynthesizedDeclarations<'a>,
    GenerationError,
>)
    ensures
        match result {
            Ok(declarations) => record@.generated() == Ok::<BuilderModel, GenerationError>(
                declarations@,
            ),
            Err(error) => record@.generated() == Err::<BuilderModel, GenerationError>(error),
        },
        result matches Ok(declarations) ==> declarations@.well_formed(),
{
    match &record.shape {
        RecordShape::Named(fields) => {
            let classified = classify_all(fields);
            let declarations = synthesize(&record.name, &record.visibility, &classified);
            proof {
                assert(classified_models(classified@) == record@.classified());
            }
            Ok(declarations)
        },
        _ => Err(GenerationError::UnsupportedShape),
    }
}

} // verus!
