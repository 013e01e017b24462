//! What a generated builder does.
//!
//! The declarations of a builder are given a meaning here: a builder instance
//! holds one slot per field, the factory fills the slots with their initial
//! values, a setter acts on its slot, and construction checks the required
//! slots in order and then drains every slot into the record. The meaning is
//! stated on the mathematical model of the declarations, and [`Builder`] runs
//! it.

use vstd::prelude::*;

use crate::synth::{
    BuilderModel, Extraction, InitialValue, SetterAction, SynthesizedDeclarations,
};

verus! {

/// What a slot holds when it holds something.
#[derive(Debug, PartialEq, Eq)]
pub enum Content<V> {
    /// One value.
    Single(V),
    /// A sequence of elements, in the order appended.
    Many(Vec<V>),
}

/// The mathematical value of a [`Content`].
pub enum ContentModel<V> {
    Single(V),
    Many(Seq<V>),
}

impl<V> View for Content<V> {
    type V = ContentModel<V>;

    open spec fn view(&self) -> ContentModel<V> {
        match *self {
            Content::Single(value) => ContentModel::Single(value),
            Content::Many(items) => ContentModel::Many(items@),
        }
    }
}

/// One field of a constructed record.
#[derive(Debug, PartialEq, Eq)]
pub enum FieldValue<V> {
    /// The value of a required field.
    Plain(V),
    /// The value of an optional field, which may be absent.
    Maybe(Option<V>),
    /// The elements of a collected field.
    Sequence(Vec<V>),
}

/// The mathematical value of a [`FieldValue`].
pub enum FieldValueModel<V> {
    Plain(V),
    Maybe(Option<V>),
    Sequence(Seq<V>),
}

impl<V> View for FieldValue<V> {
    type V = FieldValueModel<V>;

    open spec fn view(&self) -> FieldValueModel<V> {
        match *self {
            FieldValue::Plain(value) => FieldValueModel::Plain(value),
            FieldValue::Maybe(value) => FieldValueModel::Maybe(value),
            FieldValue::Sequence(items) => FieldValueModel::Sequence(items@),
        }
    }
}

/// Why construction failed.
#[derive(Debug, PartialEq, Eq)]
pub enum BuildError {
    /// A required field was not set. The field named is the first such field
    /// in declaration order.
    FieldNotSet(String),
}

/// The mathematical value of a [`BuildError`].
pub enum BuildErrorModel {
    FieldNotSet(Seq<char>),
}

impl View for BuildError {
    type V = BuildErrorModel;

    open spec fn view(&self) -> BuildErrorModel {
        match *self {
            BuildError::FieldNotSet(field) => BuildErrorModel::FieldNotSet(field@),
        }
    }
}

impl BuildErrorModel {
    /// The message of the failure.
    pub open spec fn message(self) -> Seq<char> {
        match self {
            BuildErrorModel::FieldNotSet(field) => "The field `"@ + field
                + "` is not set yet, building failed"@,
        }
    }
}

impl BuildError {
    /// The message of the failure, which names the field.
    pub fn message(&self) -> (text: String)
        ensures
            text@ == self@.message(),
    {
        match self {
            BuildError::FieldNotSet(field) => {
                let mut text = "The field `".to_owned();
                text.append(field.as_str());
                text.append("` is not set yet, building failed");
                text
            },
        }
    }
}

/// The mathematical value of a slot: nothing, or its content.
pub open spec fn slot_model<V>(slot: Option<Content<V>>) -> Option<ContentModel<V>> {
    match slot {
        Some(content) => Some(content@),
        None => None,
    }
}

/// The mathematical value of a constructed record.
pub open spec fn record_model<V>(record: Seq<FieldValue<V>>) -> Seq<FieldValueModel<V>> {
    record.map_values(|value: FieldValue<V>| value@)
}

/// The slots of a spent builder: `count` slots that hold nothing.
pub open spec fn drained<V>(count: nat) -> Seq<Option<ContentModel<V>>> {
    Seq::new(count, |i: int| None)
}

/// What is read from a slot into the record.
///
/// Nothing is said of what unwrapping gives on a slot that holds no single
/// value: construction does not get there, because such a slot fails its
/// presence check first.
pub open spec fn read_slot<V>(
    extraction: Extraction,
    slot: Option<ContentModel<V>>,
) -> FieldValueModel<V> {
    match extraction {
        Extraction::Unwrap => match slot {
            Some(ContentModel::Single(value)) => FieldValueModel::Plain(value),
            _ => FieldValueModel::Plain(arbitrary()),
        },
        Extraction::Optional => match slot {
            Some(ContentModel::Single(value)) => FieldValueModel::Maybe(Some(value)),
            _ => FieldValueModel::Maybe(None),
        },
        Extraction::Sequence => match slot {
            Some(ContentModel::Many(items)) => FieldValueModel::Sequence(items),
            _ => FieldValueModel::Sequence(Seq::empty()),
        },
    }
}

impl BuilderModel {
    /// The slots of a builder fresh from the factory.
    pub open spec fn initial_state<V>(self) -> Seq<Option<ContentModel<V>>> {
        Seq::new(
            self.slots.len(),
            |i: int|
                match self.slots[i].initial {
                    InitialValue::Absent => None,
                    InitialValue::EmptySequence => Some(ContentModel::Many(Seq::empty())),
                },
        )
    }

    /// Whether `state` can be the slots of a builder so declared: one slot per
    /// field, sequences in the sequence slots only.
    pub open spec fn fits<V>(self, state: Seq<Option<ContentModel<V>>>) -> bool {
        &&& state.len() == self.slots.len()
        &&& forall|i: int|
            0 <= i < state.len() ==> match #[trigger] state[i] {
                Some(ContentModel::Single(_)) => !self.slots[i].sequence,
                Some(ContentModel::Many(_)) => self.slots[i].sequence,
                None => true,
            }
    }

    /// The slots after one call of the setter at index `setter`.
    pub open spec fn after_setter<V>(
        self,
        state: Seq<Option<ContentModel<V>>>,
        setter: int,
        value: V,
    ) -> Seq<Option<ContentModel<V>>> {
        let slot = self.setters[setter].slot;
        match self.setters[setter].action {
            SetterAction::Store => state.update(slot, Some(ContentModel::Single(value))),
            SetterAction::Append => match state[slot] {
                Some(ContentModel::Many(items)) => state.update(
                    slot,
                    Some(ContentModel::Many(items.push(value))),
                ),
                _ => state.update(slot, Some(ContentModel::Many(seq![value]))),
            },
        }
    }

    /// The slots after a series of calls, each given by the index of its
    /// setter and its argument.
    pub open spec fn after_calls<V>(
        self,
        state: Seq<Option<ContentModel<V>>>,
        calls: Seq<(int, V)>,
    ) -> Seq<Option<ContentModel<V>>>
        decreases calls.len(),
    {
        if calls.len() == 0 {
            state
        } else {
            self.after_setter(
                self.after_calls(state, calls.drop_last()),
                calls.last().0,
                calls.last().1,
            )
        }
    }

    /// The first slot that a presence check finds empty, going through the
    /// checks in order from position `from`.
    pub open spec fn first_missing<V>(
        self,
        state: Seq<Option<ContentModel<V>>>,
        from: int,
    ) -> Option<int>
        decreases self.checks.len() - from,
    {
        if from < 0 || from >= self.checks.len() {
            None
        } else if state[self.checks[from]] is None {
            Some(self.checks[from])
        } else {
            self.first_missing(state, from + 1)
        }
    }

    /// What construction gives on the given slots: the failure that names the
    /// first slot found empty by a presence check, or else the record read
    /// from the slots.
    pub open spec fn outcome<V>(self, state: Seq<Option<ContentModel<V>>>) -> Result<
        Seq<FieldValueModel<V>>,
        BuildErrorModel,
    > {
        match self.first_missing(state, 0) {
            Some(slot) => Err(BuildErrorModel::FieldNotSet(self.slots[slot].name)),
            None => Ok(
                Seq::new(self.slots.len(), |i: int| read_slot(self.extractions[i], state[i])),
            ),
        }
    }
}

/// An instance of a generated builder, holding values of type `V`.
pub struct Builder<'d, 'a, V> {
    declarations: &'d SynthesizedDeclarations<'a>,
    slots: Vec<Option<Content<V>>>,
}

impl<'d, 'a, V> View for Builder<'d, 'a, V> {
    type V = Seq<Option<ContentModel<V>>>;

    closed spec fn view(&self) -> Seq<Option<ContentModel<V>>> {
        self.slots@.map_values(|slot: Option<Content<V>>| slot_model(slot))
    }
}

impl<'d, 'a, V> Builder<'d, 'a, V> {
    /// The declarations that the builder follows.
    pub closed spec fn model(&self) -> BuilderModel {
        self.declarations@
    }

    /// Whether the builder is in order: its declarations are consistent and
    /// its slots fit them.
    pub open spec fn well_formed(&self) -> bool {
        &&& self.model().well_formed()
        &&& self.model().fits(self@)
    }

    /// The factory: a builder with every slot at its initial value.
    pub fn new(declarations: &'d SynthesizedDeclarations<'a>) -> (builder: Self)
        requires
            declarations@.well_formed(),
        ensures
            builder.well_formed(),
            builder.model() == declarations@,
            builder@ == declarations@.initial_state::<V>(),
    {
        let mut slots: Vec<Option<Content<V>>> = Vec::new();
        let mut i: usize = 0;
        while i < declarations.slots.len()
            invariant
                i <= declarations.slots@.len(),
                slots@.len() == i,
                forall|j: int|
                    0 <= j < i ==> slot_model(#[trigger] slots@[j])
                        == declarations@.initial_state::<V>()[j],
            decreases declarations.slots@.len() - i,
        {
            match declarations.slots[i].initial {
                InitialValue::Absent => {
                    slots.push(None);
                },
                InitialValue::EmptySequence => {
                    slots.push(Some(Content::Many(Vec::new())));
                },
            }
            i += 1;
        }
        let builder = Builder { declarations, slots };
        proof {
            assert forall|j: int| 0 <= j < builder@.len() implies match #[trigger] builder@[j] {
                Some(ContentModel::Single(_)) => !declarations@.slots[j].sequence,
                Some(ContentModel::Many(_)) => declarations@.slots[j].sequence,
                None => true,
            } by {
                assert(declarations@.slot_is_sound(j));
            }
        }
        builder
    }

    /// Calls the setter at index `setter` with `value`.
    pub fn call(&mut self, setter: usize, value: V)
        requires
            old(self).well_formed(),
            setter < old(self).model().setters.len(),
        ensures
            final(self).well_formed(),
            final(self).model() == old(self).model(),
            final(self)@ == old(self).model().after_setter(old(self)@, setter as int, value),
    {
        let declarations = self.declarations;
        let slot = declarations.setters[setter].slot;
        let ghost before = self.slots@;
        match declarations.setters[setter].action {
            SetterAction::Store => {
                self.slots.set(slot, Some(Content::Single(value)));
            },
            SetterAction::Append => {
                match &mut self.slots[slot] {
                    Some(Content::Many(items)) => {
                        items.push(value);
                    },
                    other => {
                        *other = Some(Content::Many(vec![value]));
                    },
                }
            },
        }
        proof {
            assert(forall|j: int|
                0 <= j < before.len() && j != slot ==> self.slots@[j] == before[j]);
            if old(self).model().setters[setter as int].action is Append {
                match before[slot as int] {
                    Some(Content::Many(items)) => {
                        assert(self.slots@[slot as int] matches Some(Content::Many(after))
                            && after@ == items@.push(value));
                    },
                    _ => {
                        assert(self.slots@[slot as int] matches Some(Content::Many(after))
                            && after@ =~= seq![value]);
                    },
                }
            }
            assert(self@ =~= old(self).model().after_setter(old(self)@, setter as int, value));
        }
    }

    /// Calls the first setter of the given name with `value`, and says whether
    /// there is such a setter. Without one the builder stays as it is.
    pub fn set(&mut self, name: &str, value: V) -> (found: bool)
        requires
            old(self).well_formed(),
        ensures
            final(self).well_formed(),
            final(self).model() == old(self).model(),
            found == old(self).model().has_setter_named(name@),
            !found ==> final(self)@ == old(self)@,
            forall|s: int|
                old(self).model().is_first_setter_named(name@, s) ==> final(self)@ == old(
                    self,
                ).model().after_setter(old(self)@, s, value),
    {
        match self.declarations.find_setter(name) {
            Some(setter) => {
                self.call(setter, value);
                true
            },
            None => false,
        }
    }

    /// Constructs the record.
    ///
    /// Fails when a required field is not set, and then names the first such
    /// field in declaration order and leaves the builder as it was. Succeeds
    /// otherwise, and then every slot has been drained: the builder is spent.
    pub fn build(&mut self) -> (result: Result<Vec<FieldValue<V>>, BuildError>)
        requires
            old(self).well_formed(),
        ensures
            final(self).well_formed(),
            final(self).model() == old(self).model(),
            match result {
                Ok(record) => {
                    &&& old(self).model().outcome(old(self)@) == Ok::<
                        Seq<FieldValueModel<V>>,
                        BuildErrorModel,
                    >(record_model(record@))
                    &&& record@.len() == old(self)@.len()
                    &&& forall|i: int|
                        0 <= i < record@.len() ==> (#[trigger] record@[i])@ == read_slot(
                            old(self).model().extractions[i],
                            old(self)@[i],
                        )
                    &&& final(self)@ == drained::<V>(old(self)@.len())
                },
                Err(error) => {
                    &&& old(self).model().outcome(old(self)@) == Err::<
                        Seq<FieldValueModel<V>>,
                        BuildErrorModel,
                    >(error@)
                    &&& final(self)@ == old(self)@
                },
            },
    {
        let declarations = self.declarations;
        let ghost model = declarations@;
        let ghost state = self@;
        let mut c: usize = 0;
        while c < declarations.checks.len()
            invariant
                c <= declarations.checks@.len(),
                model == declarations@,
                model == self.model(),
                state == self@,
                self.well_formed(),
                model.first_missing(state, 0) == model.first_missing(state, c as int),
                forall|d: int| 0 <= d < c ==> state[#[trigger] model.checks[d]] is Some,
            decreases declarations.checks@.len() - c,
        {
            let slot = declarations.checks[c];
            if self.slots[slot].is_none() {
                return Err(BuildError::FieldNotSet(declarations.slots[slot].name.clone()));
            }
            c += 1;
        }
        let ghost slots = self.slots@;
        let mut record: Vec<FieldValue<V>> = Vec::new();
        let mut i: usize = 0;
        while i < self.slots.len()
            invariant
                i <= self.slots@.len(),
                model == declarations@,
                model == self.model(),
                model.well_formed(),
                model.fits(state),
                state == slots.map_values(|slot: Option<Content<V>>| slot_model(slot)),
                self.slots@.len() == slots.len(),
                forall|d: int|
                    0 <= d < model.checks.len() ==> state[#[trigger] model.checks[d]] is Some,
                forall|j: int| 0 <= j < i ==> #[trigger] self.slots@[j] is None,
                forall|j: int| i <= j < slots.len() ==> #[trigger] self.slots@[j] == slots[j],
                record@.len() == i,
                forall|j: int|
                    0 <= j < i ==> (#[trigger] record@[j])@ == read_slot(
                        model.extractions[j],
                        state[j],
                    ),
            decreases self.slots@.len() - i,
        {
            let content = self.slots[i].take();
            assert(model.slot_is_sound(i as int));
            let value = match declarations.extractions[i] {
                Extraction::Unwrap => match content {
                    Some(Content::Single(value)) => FieldValue::Plain(value),
                    _ => {
                        proof {
                            let d = choose|d: int|
                                0 <= d < model.checks.len() && model.checks[d] == i as int;
                            assert(state[model.checks[d]] is Some);
                        }
                        unreached()
                    },
                },
                Extraction::Optional => match content {
                    Some(Content::Single(value)) => FieldValue::Maybe(Some(value)),
                    _ => FieldValue::Maybe(None),
                },
                Extraction::Sequence => match content {
                    Some(Content::Many(items)) => FieldValue::Sequence(items),
                    _ => FieldValue::Sequence(Vec::new()),
                },
            };
            record.push(value);
            i += 1;
        }
        proof {
            assert(record_model(record@) =~= Seq::new(
                model.slots.len(),
                |j: int| read_slot(model.extractions[j], state[j]),
            ));
        }
        Ok(record)
    }
}

} // verus!
