//! What holds of every generated builder.
//!
//! The statements here are about a builder fresh from the factory that has had
//! a series of setter calls and is then asked to construct its record. A call
//! is a pair: the index of the setter, which is the index of its field, and
//! the argument.

use vstd::prelude::*;

use crate::record::{ClassifiedModel, RecordModel};
use crate::runtime::{read_slot, BuildErrorModel, ContentModel, FieldValueModel};
use crate::synth::{lemma_required_before, synthesized, BuilderModel};

verus! {

/// Whether every call names a setter that exists.
pub open spec fn calls_are_valid<V>(calls: Seq<(int, V)>, setters: nat) -> bool {
    forall|k: int| 0 <= k < calls.len() ==> 0 <= (#[trigger] calls[k]).0 < setters
}

/// Whether the setter at index `setter` is called at all.
pub open spec fn is_called<V>(calls: Seq<(int, V)>, setter: int) -> bool {
    exists|k: int| 0 <= k < calls.len() && (#[trigger] calls[k]).0 == setter
}

/// Whether the call at position `k` is the last call of its setter.
pub open spec fn is_last_call<V>(calls: Seq<(int, V)>, k: int) -> bool {
    &&& 0 <= k < calls.len()
    &&& forall|l: int| k < l < calls.len() ==> (#[trigger] calls[l]).0 != calls[k].0
}

/// The arguments of the calls of the setter at index `setter`, in the order of
/// the calls.
pub open spec fn arguments_of<V>(calls: Seq<(int, V)>, setter: int) -> Seq<V>
    decreases calls.len(),
{
    if calls.len() == 0 {
        Seq::empty()
    } else if calls.last().0 == setter {
        arguments_of(calls.drop_last(), setter).push(calls.last().1)
    } else {
        arguments_of(calls.drop_last(), setter)
    }
}

/// The argument of the last call of the setter at index `setter`.
spec fn last_argument_of<V>(calls: Seq<(int, V)>, setter: int) -> Option<V>
    decreases calls.len(),
{
    if calls.len() == 0 {
        None
    } else if calls.last().0 == setter {
        Some(calls.last().1)
    } else {
        last_argument_of(calls.drop_last(), setter)
    }
}

/// Whether every required field of the record is set by some call.
pub open spec fn required_fields_are_set<V>(
    fields: Seq<ClassifiedModel>,
    calls: Seq<(int, V)>,
) -> bool {
    forall|i: int|
        0 <= i < fields.len() && (#[trigger] fields[i]).policy is Required ==> is_called(calls, i)
}

/// Whether every required field declared before the field at `index` is set
/// by some call.
pub open spec fn earlier_required_fields_are_set<V>(
    fields: Seq<ClassifiedModel>,
    calls: Seq<(int, V)>,
    index: int,
) -> bool {
    forall|i: int|
        0 <= i < index && i < fields.len() && (#[trigger] fields[i]).policy is Required
            ==> is_called(calls, i)
}

impl RecordModel {
    /// What construction gives on a builder of the record that is fresh from
    /// the factory and has then had the given calls.
    pub open spec fn constructed<V>(self, calls: Seq<(int, V)>) -> Result<
        Seq<FieldValueModel<V>>,
        BuildErrorModel,
    > {
        let builder = self.builder();
        builder.outcome(builder.after_calls(builder.initial_state(), calls))
    }
}

/// What the slot of a field holds after the given calls on a fresh builder.
spec fn expected_slot<V>(field: ClassifiedModel, calls: Seq<(int, V)>, index: int) -> Option<
    ContentModel<V>,
> {
    if field.policy is Collected {
        Some(ContentModel::Many(arguments_of(calls, index)))
    } else {
        match last_argument_of(calls, index) {
            Some(value) => Some(ContentModel::Single(value)),
            None => None,
        }
    }
}

/// Where every slot that is checked from `from` on holds something, no check
/// from there on fails.
proof fn lemma_no_check_fails<V>(
    model: BuilderModel,
    state: Seq<Option<ContentModel<V>>>,
    from: int,
)
    requires
        0 <= from,
        forall|p: int| from <= p < model.checks.len() ==> state[#[trigger] model.checks[p]] is Some,
    ensures
        model.first_missing(state, from) is None,
    decreases model.checks.len() - from,
{
    if from < model.checks.len() {
        lemma_no_check_fails(model, state, from + 1);
    }
}

/// Where the check at `at` is the first from `from` on to find its slot empty,
/// that slot is the one found.
proof fn lemma_first_failing_check<V>(
    model: BuilderModel,
    state: Seq<Option<ContentModel<V>>>,
    from: int,
    at: int,
)
    requires
        0 <= from <= at < model.checks.len(),
        state[model.checks[at]] is None,
        forall|p: int| from <= p < at ==> state[#[trigger] model.checks[p]] is Some,
    ensures
        model.first_missing(state, from) == Some(model.checks[at]),
    decreases at - from,
{
    if from < at {
        lemma_first_failing_check(model, state, from + 1, at);
    }
}

/// What construction gives on any slots of a synthesized builder.
proof fn lemma_outcome<V>(
    record_name: Seq<char>,
    visibility: Seq<char>,
    fields: Seq<ClassifiedModel>,
    state: Seq<Option<ContentModel<V>>>,
)
    requires
        state.len() == fields.len(),
    ensures
        (forall|i: int|
            0 <= i < fields.len() && (#[trigger] fields[i]).policy is Required ==> state[i] is Some)
            ==> synthesized(record_name, visibility, fields).outcome(state) == Ok::<
            Seq<FieldValueModel<V>>,
            BuildErrorModel,
        >(Seq::new(fields.len(), |i: int| read_slot(fields[i].extraction(), state[i]))),
        forall|i: int|
            {
                &&& 0 <= i < fields.len()
                &&& (#[trigger] fields[i]).policy is Required
                &&& state[i] is None
                &&& forall|j: int|
                    0 <= j < i && (#[trigger] fields[j]).policy is Required ==> state[j] is Some
            } ==> synthesized(record_name, visibility, fields).outcome(state) == Err::<
                Seq<FieldValueModel<V>>,
                BuildErrorModel,
            >(BuildErrorModel::FieldNotSet(fields[i].name)),
{
    let model = synthesized(record_name, visibility, fields);
    lemma_required_before(fields, fields.len() as int);
    if forall|i: int|
        0 <= i < fields.len() && (#[trigger] fields[i]).policy is Required ==> state[i] is Some {
        lemma_no_check_fails(model, state, 0);
        assert(Seq::new(model.slots.len(), |i: int| read_slot(model.extractions[i], state[i]))
            =~= Seq::new(fields.len(), |i: int| read_slot(fields[i].extraction(), state[i])));
    }
    assert forall|i: int|
        {
            &&& 0 <= i < fields.len()
            &&& (#[trigger] fields[i]).policy is Required
            &&& state[i] is None
            &&& forall|j: int|
                0 <= j < i && (#[trigger] fields[j]).policy is Required ==> state[j] is Some
        } implies model.outcome(state) == Err::<Seq<FieldValueModel<V>>, BuildErrorModel>(
        BuildErrorModel::FieldNotSet(fields[i].name),
    ) by {
        let at = choose|at: int| 0 <= at < model.checks.len() && model.checks[at] == i;
        lemma_first_failing_check(model, state, 0, at);
    }
}

/// What the slots of a synthesized builder hold after any calls.
proof fn lemma_after_calls<V>(
    record_name: Seq<char>,
    visibility: Seq<char>,
    fields: Seq<ClassifiedModel>,
    calls: Seq<(int, V)>,
)
    requires
        calls_are_valid(calls, fields.len()),
    ensures
        ({
            let model = synthesized(record_name, visibility, fields);
            let state = model.after_calls(model.initial_state(), calls);
            &&& state.len() == fields.len()
            &&& forall|i: int|
                0 <= i < fields.len() ==> #[trigger] state[i] == expected_slot(fields[i], calls, i)
        }),
    decreases calls.len(),
{
    if calls.len() > 0 {
        lemma_after_calls(record_name, visibility, fields, calls.drop_last());
    }
}

/// A setter that is never called leaves no argument behind.
proof fn lemma_never_called<V>(calls: Seq<(int, V)>, setter: int)
    requires
        !is_called(calls, setter),
    ensures
        last_argument_of(calls, setter) is None,
        arguments_of(calls, setter) == Seq::<V>::empty(),
    decreases calls.len(),
{
    if calls.len() > 0 {
        lemma_never_called(calls.drop_last(), setter);
    }
}

/// A setter that is called has a last argument.
proof fn lemma_called<V>(calls: Seq<(int, V)>, setter: int)
    requires
        is_called(calls, setter),
    ensures
        last_argument_of(calls, setter) is Some,
    decreases calls.len(),
{
    let k = choose|k: int| 0 <= k < calls.len() && (#[trigger] calls[k]).0 == setter;
    if calls.last().0 != setter {
        assert(calls.drop_last()[k] == calls[k]);
        lemma_called(calls.drop_last(), setter);
    }
}

/// The last argument of a setter is that of its last call.
proof fn lemma_last_call<V>(calls: Seq<(int, V)>, k: int)
    requires
        is_last_call(calls, k),
    ensures
        last_argument_of(calls, calls[k].0) == Some(calls[k].1),
    decreases calls.len(),
{
    if k < calls.len() - 1 {
        lemma_last_call(calls.drop_last(), k);
    }
}

/// What construction gives after any calls on a fresh builder of a record.
proof fn lemma_constructed<V>(record: RecordModel, calls: Seq<(int, V)>)
    requires
        calls_are_valid(calls, record.classified().len()),
    ensures
        required_fields_are_set(record.classified(), calls) ==> record.constructed(calls) == Ok::<
            Seq<FieldValueModel<V>>,
            BuildErrorModel,
        >(
            Seq::new(
                record.classified().len(),
                |i: int|
                    read_slot(
                        record.classified()[i].extraction(),
                        expected_slot(record.classified()[i], calls, i),
                    ),
            ),
        ),
        forall|i: int|
            {
                &&& 0 <= i < record.classified().len()
                &&& (#[trigger] record.classified()[i]).policy is Required
                &&& !is_called(calls, i)
                &&& earlier_required_fields_are_set(record.classified(), calls, i)
            } ==> record.constructed(calls) == Err::<Seq<FieldValueModel<V>>, BuildErrorModel>(
                BuildErrorModel::FieldNotSet(record.classified()[i].name),
            ),
{
    let fields = record.classified();
    let model = record.builder();
    let state = model.after_calls(model.initial_state(), calls);
    lemma_after_calls(record.name, record.visibility, fields, calls);
    lemma_outcome(record.name, record.visibility, fields, state);
    assert forall|i: int|
        0 <= i < fields.len() && (#[trigger] fields[i]).policy is Required implies (state[i]
        is Some <==> is_called(calls, i)) by {
        if is_called(calls, i) {
            lemma_called(calls, i);
        } else {
            lemma_never_called(calls, i);
        }
    }
    if required_fields_are_set(fields, calls) {
        assert(Seq::new(fields.len(), |i: int| read_slot(fields[i].extraction(), state[i]))
            =~= Seq::new(
            fields.len(),
            |i: int| read_slot(fields[i].extraction(), expected_slot(fields[i], calls, i)),
        ));
    }
}

/// A record whose fields are all required is constructed from its setters'
/// arguments: where every setter is called exactly once, construction succeeds
/// and each field of the record is the argument that its setter was given.
pub proof fn required_fields_round_trip<V>(record: RecordModel, calls: Seq<(int, V)>)
    requires
        record.shape is Named,
        forall|i: int|
            0 <= i < record.classified().len() ==> (#[trigger] record.classified()[
                i
            ]).policy is Required,
        calls_are_valid(calls, record.classified().len()),
        forall|i: int| 0 <= i < record.classified().len() ==> is_called(calls, i),
        forall|k: int, l: int|
            0 <= k < l < calls.len() ==> (#[trigger] calls[k]).0 != (#[trigger] calls[l]).0,
    ensures
        record.constructed(calls) matches Ok(fields) && {
            &&& fields.len() == record.classified().len()
            &&& forall|k: int|
                0 <= k < calls.len() ==> fields[(#[trigger] calls[k]).0] == FieldValueModel::Plain(
                    calls[k].1,
                )
        },
{
    lemma_constructed(record, calls);
    let fields = record.constructed(calls)->Ok_0;
    assert forall|k: int| 0 <= k < calls.len() implies fields[(#[trigger] calls[k]).0]
        == FieldValueModel::Plain(calls[k].1) by {
        lemma_last_call(calls, k);
    }
}

/// An optional field may stay unset: where the required fields are set,
/// construction succeeds, and the optional field is absent when its setter was
/// never called and holds the argument of the last call otherwise.
pub proof fn optional_field_is_absent_or_present<V>(
    record: RecordModel,
    calls: Seq<(int, V)>,
    field: int,
)
    requires
        record.shape is Named,
        0 <= field < record.classified().len(),
        record.classified()[field].policy is Optional,
        calls_are_valid(calls, record.classified().len()),
        required_fields_are_set(record.classified(), calls),
    ensures
        record.constructed(calls) matches Ok(fields) && {
            &&& !is_called(calls, field) ==> fields[field] == FieldValueModel::<V>::Maybe(None)
            &&& forall|k: int|
                #![trigger calls[k]]
                is_last_call(calls, k) && calls[k].0 == field ==> fields[field]
                    == FieldValueModel::Maybe(Some(calls[k].1))
        },
{
    lemma_constructed(record, calls);
    let fields = record.constructed(calls)->Ok_0;
    if !is_called(calls, field) {
        lemma_never_called(calls, field);
    }
    assert forall|k: int|
        #![trigger calls[k]]
        is_last_call(calls, k) && calls[k].0 == field implies fields[field]
            == FieldValueModel::Maybe(Some(calls[k].1)) by {
        lemma_last_call(calls, k);
    }
}

/// A required field that is not set makes construction fail: no record is
/// produced, and the failure names that field, provided that no required field
/// declared before it is unset as well.
pub proof fn unset_required_field_fails<V>(
    record: RecordModel,
    calls: Seq<(int, V)>,
    field: int,
)
    requires
        record.shape is Named,
        0 <= field < record.classified().len(),
        record.classified()[field].policy is Required,
        calls_are_valid(calls, record.classified().len()),
        !is_called(calls, field),
        earlier_required_fields_are_set(record.classified(), calls, field),
    ensures
        record.constructed(calls) == Err::<Seq<FieldValueModel<V>>, BuildErrorModel>(
            BuildErrorModel::FieldNotSet(record.classified()[field].name),
        ),
{
    lemma_constructed(record, calls);
}

/// Whatever else is unset, construction fails as soon as one required field
/// is: it succeeds exactly when every required field is set.
pub proof fn construction_succeeds_iff_required_fields_are_set<V>(
    record: RecordModel,
    calls: Seq<(int, V)>,
)
    requires
        record.shape is Named,
        calls_are_valid(calls, record.classified().len()),
    ensures
        record.constructed(calls) is Ok <==> required_fields_are_set(record.classified(), calls),
{
    lemma_constructed(record, calls);
    let fields = record.classified();
    if !required_fields_are_set(fields, calls) {
        lemma_first_unset(fields, calls, fields.len() as int);
    }
}

/// The least index below `end` of a required field that no call sets, or
/// `end` where there is none.
spec fn first_unset<V>(fields: Seq<ClassifiedModel>, calls: Seq<(int, V)>, end: int) -> int
    decreases end,
{
    if end <= 0 {
        0
    } else {
        let earlier = first_unset(fields, calls, end - 1);
        if earlier < end - 1 {
            earlier
        } else if fields[end - 1].policy is Required && !is_called(calls, end - 1) {
            end - 1
        } else {
            end
        }
    }
}

/// What [`first_unset`] finds is unset and required, and nothing before it is.
proof fn lemma_first_unset<V>(fields: Seq<ClassifiedModel>, calls: Seq<(int, V)>, end: int)
    requires
        0 <= end <= fields.len(),
    ensures
        0 <= first_unset(fields, calls, end) <= end,
        first_unset(fields, calls, end) < end ==> {
            &&& fields[first_unset(fields, calls, end)].policy is Required
            &&& !is_called(calls, first_unset(fields, calls, end))
        },
        forall|i: int|
            0 <= i < first_unset(fields, calls, end) && (#[trigger] fields[i]).policy is Required
                ==> is_called(calls, i),
    decreases end,
{
    if end > 0 {
        lemma_first_unset(fields, calls, end - 1);
    }
}

/// Failure is fast and in declaration order: of two required fields that are
/// both unset, the failure names the one declared first, provided that no
/// required field declared before it is unset as well.
pub proof fn first_unset_required_field_is_named<V>(
    record: RecordModel,
    calls: Seq<(int, V)>,
    first: int,
    second: int,
)
    requires
        record.shape is Named,
        0 <= first < second < record.classified().len(),
        record.classified()[first].policy is Required,
        record.classified()[second].policy is Required,
        calls_are_valid(calls, record.classified().len()),
        !is_called(calls, first),
        !is_called(calls, second),
        earlier_required_fields_are_set(record.classified(), calls, first),
    ensures
        record.constructed(calls) == Err::<Seq<FieldValueModel<V>>, BuildErrorModel>(
            BuildErrorModel::FieldNotSet(record.classified()[first].name),
        ),
{
    lemma_constructed(record, calls);
}

/// A collected field defaults to the empty sequence: where its element setter
/// is never called and the required fields are set, construction succeeds and
/// the field is a sequence without elements.
pub proof fn collected_field_defaults_to_empty<V>(
    record: RecordModel,
    calls: Seq<(int, V)>,
    field: int,
)
    requires
        record.shape is Named,
        0 <= field < record.classified().len(),
        record.classified()[field].policy is Collected,
        calls_are_valid(calls, record.classified().len()),
        required_fields_are_set(record.classified(), calls),
        !is_called(calls, field),
    ensures
        record.constructed(calls) matches Ok(fields) && fields[field]
            == FieldValueModel::<V>::Sequence(Seq::empty()),
{
    lemma_constructed(record, calls);
    lemma_never_called(calls, field);
}

/// A collected field accumulates in insertion order: where the required
/// fields are set, construction succeeds and the field holds the arguments of
/// the calls of its element setter, in the order of the calls, each as often
/// as it was given.
pub proof fn collected_field_keeps_insertion_order<V>(
    record: RecordModel,
    calls: Seq<(int, V)>,
    field: int,
)
    requires
        record.shape is Named,
        0 <= field < record.classified().len(),
        record.classified()[field].policy is Collected,
        calls_are_valid(calls, record.classified().len()),
        required_fields_are_set(record.classified(), calls),
    ensures
        record.constructed(calls) matches Ok(fields) && fields[field] == FieldValueModel::Sequence(
            arguments_of(calls, field),
        ),
{
    lemma_constructed(record, calls);
}

} // verus!
