//! The runtime behaviour of a synthesized builder, for any record: slots
//! that setters fill and a validator that assembles the record's values.
use vstd::prelude::*;
use crate::classify::FieldClassification;
use crate::plan::BuilderPlan;

verus! {

/// A `build` failure: the named required field has no value.
#[derive(Debug, PartialEq, Eq)]
pub struct FieldNotSet {
    pub field: String,
}

impl FieldNotSet {
    /// `"<field> is not set"`.
    pub fn message(&self) -> (r: String)
        ensures
            r@ == self.field@ + " is not set"@,
    {
        let mut m = self.field.clone();
        m.append(" is not set");
        m
    }
}

/// The state of one slot.
#[derive(Debug, PartialEq, Eq)]
pub enum SlotState<V> {
    /// The slot of a plain field: unset or set.
    Required(Option<V>),
    /// The slot of an already-optional field: absent or present.
    Optional(Option<V>),
    /// The slot of a repeated field: the sequence so far.
    Repeated(Vec<V>),
}

pub enum SlotModel<V> {
    Required(Option<V>),
    Optional(Option<V>),
    Repeated(Seq<V>),
}

impl<V> View for SlotState<V> {
    type V = SlotModel<V>;

    open spec fn view(&self) -> SlotModel<V> {
        match self {
            SlotState::Required(o) => SlotModel::Required(*o),
            SlotState::Optional(o) => SlotModel::Optional(*o),
            SlotState::Repeated(v) => SlotModel::Repeated(v@),
        }
    }
}

/// One field of an assembled record.
#[derive(Debug, PartialEq, Eq)]
pub enum FieldValue<V> {
    Value(V),
    Maybe(Option<V>),
    Sequence(Vec<V>),
}

pub enum FieldValueModel<V> {
    Value(V),
    Maybe(Option<V>),
    Sequence(Seq<V>),
}

impl<V> View for FieldValue<V> {
    type V = FieldValueModel<V>;

    open spec fn view(&self) -> FieldValueModel<V> {
        match self {
            FieldValue::Value(v) => FieldValueModel::Value(*v),
            FieldValue::Maybe(o) => FieldValueModel::Maybe(*o),
            FieldValue::Sequence(s) => FieldValueModel::Sequence(s@),
        }
    }
}

/// The abstract state of a builder: field names and slots, in field order.
pub struct BuilderModel<V> {
    pub names: Seq<Seq<char>>,
    pub slots: Seq<SlotModel<V>>,
}

/// A builder for a record whose field values are of type `V`.
#[derive(Debug)]
pub struct RecordBuilder<V> {
    names: Vec<String>,
    slots: Vec<SlotState<V>>,
}

impl<V> View for RecordBuilder<V> {
    type V = BuilderModel<V>;

    closed spec fn view(&self) -> BuilderModel<V> {
        BuilderModel {
            names: Seq::new(self.names@.len(), |i: int| self.names@[i]@),
            slots: Seq::new(self.slots@.len(), |i: int| self.slots@[i]@),
        }
    }
}

pub open spec fn wf<V>(m: BuilderModel<V>) -> bool {
    m.names.len() == m.slots.len()
}

/// A slot that makes `build` fail.
pub open spec fn unset_required<V>(s: SlotModel<V>) -> bool {
    s == SlotModel::<V>::Required(None)
}

/// The starting state of the slot of a field so classified.
pub open spec fn initial_slot<V>(c: FieldClassification) -> SlotModel<V> {
    match c {
        FieldClassification::Plain(_) => SlotModel::Required(None),
        FieldClassification::AlreadyOptional(_) => SlotModel::Optional(None),
        FieldClassification::Repeated(_, _) => SlotModel::Repeated(Seq::empty()),
    }
}

/// The value that a slot contributes to the assembled record.
pub open spec fn output<V>(s: SlotModel<V>) -> FieldValueModel<V> {
    match s {
        SlotModel::Required(o) => FieldValueModel::Value(o.unwrap()),
        SlotModel::Optional(o) => FieldValueModel::Maybe(o),
        SlotModel::Repeated(q) => FieldValueModel::Sequence(q),
    }
}

pub open spec fn all_set<V>(m: BuilderModel<V>) -> bool {
    forall|i: int| 0 <= i < m.slots.len() ==> !unset_required(#[trigger] m.slots[i])
}

/// `i` is the first slot that makes `build` fail.
pub open spec fn first_unset<V>(m: BuilderModel<V>, i: int) -> bool {
    &&& 0 <= i < m.slots.len()
    &&& unset_required(m.slots[i])
    &&& forall|j: int| 0 <= j < i ==> !unset_required(#[trigger] m.slots[j])
}

/// What `build` yields: every slot's value, or the name of the first
/// required field that is unset.
pub open spec fn built<V>(m: BuilderModel<V>) -> Result<Seq<FieldValueModel<V>>, Seq<char>> {
    if all_set(m) {
        Ok(Seq::new(m.slots.len(), |i: int| output(m.slots[i])))
    } else {
        Err(m.names[choose|i: int| first_unset(m, i)])
    }
}

/// Overwrites a single-valued slot.
pub open spec fn after_set<V>(m: BuilderModel<V>, i: int, v: V) -> BuilderModel<V> {
    BuilderModel {
        names: m.names,
        slots: m.slots.update(
            i,
            match m.slots[i] {
                SlotModel::Optional(_) => SlotModel::Optional(Some(v)),
                _ => SlotModel::Required(Some(v)),
            },
        ),
    }
}

/// Replaces a repeated slot's sequence.
pub open spec fn after_set_all<V>(m: BuilderModel<V>, i: int, s: Seq<V>) -> BuilderModel<V> {
    BuilderModel { names: m.names, slots: m.slots.update(i, SlotModel::Repeated(s)) }
}

/// Appends one element to a repeated slot.
pub open spec fn after_append<V>(m: BuilderModel<V>, i: int, v: V) -> BuilderModel<V> {
    BuilderModel {
        names: m.names,
        slots: m.slots.update(
            i,
            match m.slots[i] {
                SlotModel::Repeated(s) => SlotModel::Repeated(s.push(v)),
                _ => m.slots[i],
            },
        ),
    }
}

pub open spec fn is_repeated<V>(s: SlotModel<V>) -> bool {
    s is Repeated
}

impl<V: Copy> RecordBuilder<V> {
    /// A fresh builder for `plan`: plain slots unset, optional slots absent,
    /// repeated slots empty.
    pub fn new(plan: &BuilderPlan) -> (r: RecordBuilder<V>)
        ensures
            wf(r@),
            r@.slots.len() == plan.slots@.len(),
            forall|i: int|
                0 <= i < plan.slots@.len() ==> r@.names[i] == (#[trigger] plan.slots@[i]).field@
                    && r@.slots[i] == initial_slot::<V>(plan.slots@[i].classification),
    {
        let mut names: Vec<String> = Vec::new();
        let mut slots: Vec<SlotState<V>> = Vec::new();
        let mut i: usize = 0;
        while i < plan.slots.len()
            invariant
                i <= plan.slots@.len(),
                names@.len() == i,
                slots@.len() == i,
                forall|j: int|
                    0 <= j < i ==> names@[j]@ == (#[trigger] plan.slots@[j]).field@ && slots@[j]@
                        == initial_slot::<V>(plan.slots@[j].classification),
            decreases plan.slots.len() - i,
        {
            let s = &plan.slots[i];
            names.push(s.field.clone());
            let state = match &s.classification {
                FieldClassification::Plain(_) => SlotState::Required(None),
                FieldClassification::AlreadyOptional(_) => SlotState::Optional(None),
                FieldClassification::Repeated(_, _) => SlotState::Repeated(Vec::new()),
            };
            slots.push(state);
            i = i + 1;
        }
        RecordBuilder { names, slots }
    }

    pub fn len(&self) -> (r: usize)
        ensures
            r == self@.slots.len(),
    {
        self.slots.len()
    }

    /// The setter of a plain or already-optional field: overwrites its slot.
    pub fn set(&mut self, i: usize, v: V)
        requires
            wf(old(self)@),
            i < old(self)@.slots.len(),
            !is_repeated(old(self)@.slots[i as int]),
        ensures
            wf(final(self)@),
            final(self)@ == after_set(old(self)@, i as int, v),
    {
        let state = match &self.slots[i] {
            SlotState::Optional(_) => SlotState::Optional(Some(v)),
            _ => SlotState::Required(Some(v)),
        };
        self.slots.set(i, state);
        proof {
            assert(self@.slots =~= after_set(old(self)@, i as int, v).slots);
            assert(self@.names =~= old(self)@.names);
        }
    }

    /// The bulk setter of a repeated field: replaces its whole sequence.
    pub fn set_all(&mut self, i: usize, vs: Vec<V>)
        requires
            wf(old(self)@),
            i < old(self)@.slots.len(),
            is_repeated(old(self)@.slots[i as int]),
        ensures
            wf(final(self)@),
            final(self)@ == after_set_all(old(self)@, i as int, vs@),
    {
        self.slots.set(i, SlotState::Repeated(vs));
        proof {
            assert(self@.slots =~= after_set_all(old(self)@, i as int, vs@).slots);
            assert(self@.names =~= old(self)@.names);
        }
    }

    /// The append setter of a repeated field: adds one element at the end.
    pub fn append(&mut self, i: usize, v: V)
        requires
            wf(old(self)@),
            i < old(self)@.slots.len(),
            is_repeated(old(self)@.slots[i as int]),
        ensures
            wf(final(self)@),
            final(self)@ == after_append(old(self)@, i as int, v),
    {
        let mut s = match &self.slots[i] {
            SlotState::Repeated(s) => copy_vec(s),
            _ => Vec::new(),
        };
        s.push(v);
        self.slots.set(i, SlotState::Repeated(s));
        proof {
            assert(self@.slots =~= after_append(old(self)@, i as int, v).slots);
            assert(self@.names =~= old(self)@.names);
        }
    }

    /// Validates and assembles the record's values, in field order; fails
    /// naming the first plain field that is unset. The state is left as it
    /// was, so repeated calls yield the same outcome.
    pub fn build(&self) -> (r: Result<Vec<FieldValue<V>>, FieldNotSet>)
        requires
            wf(self@),
        ensures
            match r {
                Ok(vals) => built(self@) == Ok::<_, Seq<char>>(
                    Seq::new(vals@.len(), |i: int| vals@[i]@),
                ),
                Err(e) => built(self@) == Err::<Seq<FieldValueModel<V>>, _>(e.field@),
            },
    {
        let mut vals: Vec<FieldValue<V>> = Vec::new();
        let mut i: usize = 0;
        while i < self.slots.len()
            invariant
                wf(self@),
                i <= self@.slots.len(),
                vals@.len() == i,
                forall|j: int| 0 <= j < i ==> !unset_required(#[trigger] self@.slots[j]),
                forall|j: int| 0 <= j < i ==> (#[trigger] vals@[j])@ == output(self@.slots[j]),
            decreases self.slots.len() - i,
        {
            assert(self@.slots[i as int] == self.slots@[i as int]@);
            let value = match &self.slots[i] {
                SlotState::Required(None) => {
                    proof {
                        assert(first_unset(self@, i as int));
                        assert(!all_set(self@));
                        let k = choose|k: int| first_unset(self@, k);
                        assert(k == i) by {
                            if k < i {
                                assert(!unset_required(self@.slots[k]));
                            } else if k > i {
                                assert(!unset_required(self@.slots[i as int]));
                            }
                        }
                    }
                    return Err(FieldNotSet { field: self.names[i].clone() });
                },
                SlotState::Required(Some(v)) => FieldValue::Value(*v),
                SlotState::Optional(o) => FieldValue::Maybe(*o),
                SlotState::Repeated(s) => FieldValue::Sequence(copy_vec(s)),
            };
            vals.push(value);
            i = i + 1;
        }
        proof {
            assert(all_set(self@));
            assert(Seq::new(vals@.len(), |j: int| vals@[j]@) =~= Seq::new(
                self@.slots.len(),
                |j: int| output(self@.slots[j]),
            ));
        }
        Ok(vals)
    }
}

fn copy_vec<V: Copy>(s: &Vec<V>) -> (r: Vec<V>)
    ensures
        r@ == s@,
{
    let mut r: Vec<V> = Vec::new();
    let mut i: usize = 0;
    while i < s.len()
        invariant
            i <= s@.len(),
            r@ == s@.subrange(0, i as int),
        decreases s.len() - i,
    {
        r.push(s[i]);
        i = i + 1;
        assert(r@ =~= s@.subrange(0, i as int));
    }
    assert(s@.subrange(0, s@.len() as int) =~= s@);
    r
}

/// The state after the setter calls `calls`, in order, where the call on
/// field `j` sets it to `vals[j]`.
pub open spec fn set_calls<V>(m: BuilderModel<V>, calls: Seq<int>, vals: Seq<V>) -> BuilderModel<V>
    decreases calls.len(),
{
    if calls.len() == 0 {
        m
    } else {
        after_set(set_calls(m, calls.drop_last(), vals), calls.last(), vals[calls.last()])
    }
}

/// The state after appending `xs[0]`, ..., `xs[k - 1]` to slot `i`, in order.
pub open spec fn append_each<V>(m: BuilderModel<V>, i: int, xs: Seq<V>, k: nat) -> BuilderModel<V>
    decreases k,
{
    if k == 0 {
        m
    } else {
        after_append(append_each(m, i, xs, (k - 1) as nat), i, xs[k - 1])
    }
}

proof fn lemma_set_calls<V>(m: BuilderModel<V>, calls: Seq<int>, vals: Seq<V>)
    requires
        wf(m),
        vals.len() == m.slots.len(),
        forall|j: int| 0 <= j < calls.len() ==> 0 <= #[trigger] calls[j] < m.slots.len(),
        forall|i: int| 0 <= i < m.slots.len() ==> (#[trigger] m.slots[i]) is Required,
    ensures
        set_calls(m, calls, vals).names == m.names,
        set_calls(m, calls, vals).slots.len() == m.slots.len(),
        forall|i: int|
            0 <= i < m.slots.len() ==> #[trigger] set_calls(m, calls, vals).slots[i] == if calls.contains(
                i,
            ) {
                SlotModel::Required(Some(vals[i]))
            } else {
                m.slots[i]
            },
    decreases calls.len(),
{
    if calls.len() > 0 {
        let init = calls.drop_last();
        lemma_set_calls(m, init, vals);
        assert forall|i: int| 0 <= i < m.slots.len() implies calls.contains(i) == (init.contains(i)
            || calls.last() == i) by {
            if calls.contains(i) {
                let j = choose|j: int| 0 <= j < calls.len() && calls[j] == i;
                if j < calls.len() - 1 {
                    assert(init[j] == i);
                }
            }
            if init.contains(i) {
                let j = choose|j: int| 0 <= j < init.len() && init[j] == i;
                assert(calls[j] == i);
            }
            if calls.last() == i {
                assert(calls[calls.len() - 1] == i);
            }
        }
    }
}

proof fn lemma_append_each<V>(m: BuilderModel<V>, i: int, xs: Seq<V>, k: nat)
    requires
        wf(m),
        0 <= i < m.slots.len(),
        m.slots[i] == SlotModel::Repeated(Seq::<V>::empty()),
        k <= xs.len(),
    ensures
        append_each(m, i, xs, k) == (BuilderModel {
            names: m.names,
            slots: m.slots.update(i, SlotModel::Repeated(xs.take(k as int))),
        }),
    decreases k,
{
    if k == 0 {
        assert(xs.take(0) =~= Seq::<V>::empty());
        assert(m.slots.update(i, SlotModel::Repeated(xs.take(0))) =~= m.slots);
    } else {
        lemma_append_each(m, i, xs, (k - 1) as nat);
        assert(xs.take(k - 1).push(xs[k - 1]) =~= xs.take(k as int));
        assert(append_each(m, i, xs, k).slots =~= m.slots.update(
            i,
            SlotModel::Repeated(xs.take(k as int)),
        ));
    }
}

/// Calling the setter of every field of a record of plain fields, in any
/// order (each exactly once, or more often), the call on field `j` passing
/// `vals[j]`, then building succeeds with exactly the values passed, in
/// field order.
pub proof fn plain_fields_build_to_set_values<V>(m: BuilderModel<V>, calls: Seq<int>, vals: Seq<V>)
    requires
        wf(m),
        vals.len() == m.slots.len(),
        forall|i: int| 0 <= i < m.slots.len() ==> (#[trigger] m.slots[i]) is Required,
        forall|j: int| 0 <= j < calls.len() ==> 0 <= #[trigger] calls[j] < m.slots.len(),
        forall|i: int| 0 <= i < m.slots.len() ==> #[trigger] calls.contains(i),
    ensures
        built(set_calls(m, calls, vals)) == Ok::<_, Seq<char>>(
            Seq::new(vals.len(), |i: int| FieldValueModel::Value(vals[i])),
        ),
{
    let f = set_calls(m, calls, vals);
    lemma_set_calls(m, calls, vals);
    assert forall|i: int| 0 <= i < f.slots.len() implies !unset_required(#[trigger] f.slots[i]) by {
        assert(calls.contains(i));
    }
    assert(Seq::new(f.slots.len(), |i: int| output(f.slots[i])) =~= Seq::new(
        vals.len(),
        |i: int| FieldValueModel::Value(vals[i]),
    )) by {
        assert forall|i: int| 0 <= i < vals.len() implies output(f.slots[i])
            == FieldValueModel::Value(vals[i]) by {
            assert(calls.contains(i));
        }
    }
}

/// An already-optional field that was never set builds to an absent value;
/// once set, it builds to the value set.
pub proof fn optional_field_builds<V>(m: BuilderModel<V>, i: int, v: V)
    requires
        wf(m),
        0 <= i < m.slots.len(),
        m.slots[i] == SlotModel::<V>::Optional(None),
        all_set(m),
    ensures
        built(m) matches Ok(out) && out[i] == FieldValueModel::<V>::Maybe(None),
        built(after_set(m, i, v)) matches Ok(out) && out[i] == FieldValueModel::Maybe(Some(v)),
{
    let m2 = after_set(m, i, v);
    assert(all_set(m2)) by {
        assert forall|j: int| 0 <= j < m2.slots.len() implies !unset_required(#[trigger] m2.slots[j]) by {
            if j != i {
                assert(m2.slots[j] == m.slots[j]);
            }
        }
    }
}

/// A repeated field that was never set builds to the empty sequence;
/// appending `xs` element by element builds to exactly `xs`; the bulk
/// setter then replaces the appended elements with `s`.
pub proof fn repeated_field_builds<V>(m: BuilderModel<V>, i: int, xs: Seq<V>, s: Seq<V>)
    requires
        wf(m),
        0 <= i < m.slots.len(),
        m.slots[i] == SlotModel::Repeated(Seq::<V>::empty()),
        all_set(m),
    ensures
        built(m) matches Ok(out) && out[i] == FieldValueModel::Sequence(Seq::<V>::empty()),
        built(append_each(m, i, xs, xs.len())) matches Ok(out) && out[i]
            == FieldValueModel::Sequence(xs),
        built(after_set_all(append_each(m, i, xs, xs.len()), i, s)) matches Ok(out) && out[i]
            == FieldValueModel::Sequence(s),
{
    let a = append_each(m, i, xs, xs.len());
    lemma_append_each(m, i, xs, xs.len());
    assert(xs.take(xs.len() as int) =~= xs);
    assert(all_set(a)) by {
        assert forall|j: int| 0 <= j < a.slots.len() implies !unset_required(#[trigger] a.slots[j]) by {
            if j != i {
                assert(a.slots[j] == m.slots[j]);
            }
        }
    }
    let b = after_set_all(a, i, s);
    assert(all_set(b)) by {
        assert forall|j: int| 0 <= j < b.slots.len() implies !unset_required(#[trigger] b.slots[j]) by {
            if j != i {
                assert(b.slots[j] == m.slots[j]);
            }
        }
    }
}

/// Building with a plain field unset fails; when it is the only unset
/// plain field, the failure names exactly that field, however many other
/// fields were set.
pub proof fn unset_plain_field_fails<V>(m: BuilderModel<V>, i: int)
    requires
        wf(m),
        0 <= i < m.slots.len(),
        unset_required(m.slots[i]),
    ensures
        built(m) is Err,
        (forall|j: int| 0 <= j < m.slots.len() && j != i ==> !unset_required(#[trigger] m.slots[j]))
            ==> built(m) == Err::<Seq<FieldValueModel<V>>, _>(m.names[i]),
{
    assert(!all_set(m));
    if forall|j: int| 0 <= j < m.slots.len() && j != i ==> !unset_required(#[trigger] m.slots[j]) {
        assert(first_unset(m, i));
        let k = choose|k: int| first_unset(m, k);
        assert(k == i);
    }
}

} // verus!
