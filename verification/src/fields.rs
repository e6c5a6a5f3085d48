//! The fields that a node offers: methods with their handlers, and events that it emits.
use crate::error::GlycoError;
use crate::protocol::{EventField, Field, MethodField};
use crate::registry::{ascending, OrderedMap};
use crate::text::{lemma_text_order, lemma_text_transitive, text_before, text_less};
use std::any::TypeId;
use vstd::prelude::*;
use vstd::string::*;

verus! {

/// A method and the handler that answers its calls, by the number under which the caller keeps it.
#[derive(Debug)]
pub struct RegisteredMethod {
    pub field: MethodField,
    pub handler: u64,
}

/// An event and the type of its argument; none for a signal.
#[derive(Debug)]
pub struct RegisteredEvent {
    pub field: EventField,
    pub argument_type: Option<TypeId>,
}

/// The fields of a node by their ids.
#[verifier::ext_equal]
pub struct FieldsState {
    pub methods: Map<Seq<char>, RegisteredMethod>,
    pub events: Map<Seq<char>, RegisteredEvent>,
}

impl FieldsState {
    /// No fields.
    pub open spec fn empty() -> FieldsState {
        FieldsState { methods: Map::empty(), events: Map::empty() }
    }

    /// Whether an id is taken, by a method or by an event.
    pub open spec fn taken(self, id: Seq<char>) -> bool {
        self.methods.contains_key(id) || self.events.contains_key(id)
    }

    /// No id is taken twice, and every field stands under its own id.
    pub open spec fn ids_unique(self) -> bool {
        &&& forall|id: Seq<char>| #[trigger]
            self.methods.contains_key(id) ==> !self.events.contains_key(id)
                && self.methods[id].field.id@ == id
        &&& forall|id: Seq<char>| #[trigger]
            self.events.contains_key(id) ==> !self.methods.contains_key(id)
                && self.events[id].field.id@ == id
    }

    /// Whether a field is one of these.
    pub open spec fn offers(self, field: Field) -> bool {
        match field {
            Field::Method(method) => self.methods.contains_key(method.id@)
                && self.methods[method.id@].field == method,
            Field::Event(event) => self.events.contains_key(event.id@)
                && self.events[event.id@].field == event,
        }
    }

    /// A list of exactly these fields, in ascending order of their ids.
    pub open spec fn listed(self, fields: Seq<Field>) -> bool {
        &&& ascending(field_ids(fields))
        &&& forall|field: Field| #[trigger] fields.contains(field) <==> self.offers(field)
    }

    /// The fields with one more method.
    pub open spec fn with_method(self, field: MethodField, handler: u64) -> FieldsState {
        FieldsState {
            methods: self.methods.insert(field.id@, RegisteredMethod { field, handler }),
            ..self
        }
    }

    /// The fields with one more event.
    pub open spec fn with_event(
        self,
        field: EventField,
        argument_type: Option<TypeId>,
    ) -> FieldsState {
        FieldsState {
            events: self.events.insert(field.id@, RegisteredEvent { field, argument_type }),
            ..self
        }
    }

    /// The fields without the one under an id.
    pub open spec fn without(self, id: Seq<char>) -> FieldsState {
        FieldsState { methods: self.methods.remove(id), events: self.events.remove(id) }
    }
}

/// The ids of fields.
pub open spec fn field_ids(fields: Seq<Field>) -> Seq<Seq<char>> {
    fields.map_values(|field: Field| field.spec_id())
}

/// The fields that a node offers.
#[derive(Debug)]
pub struct Fields {
    methods: OrderedMap<RegisteredMethod>,
    events: OrderedMap<RegisteredEvent>,
}

impl View for Fields {
    type V = FieldsState;

    closed spec fn view(&self) -> FieldsState {
        FieldsState { methods: self.methods@, events: self.events@ }
    }
}

impl Fields {
    /// What every collection of fields keeps.
    pub closed spec fn wf(self) -> bool {
        &&& self.methods.wf()
        &&& self.events.wf()
        &&& self@.ids_unique()
    }

    /// Every well-formed collection has each id at most once.
    pub proof fn lemma_unique(self)
        requires
            self.wf(),
        ensures
            self@.ids_unique(),
    {
    }

    /// No fields.
    pub fn new() -> (fields: Self)
        ensures
            fields.wf(),
            fields@ == FieldsState::empty(),
    {
        Fields { methods: OrderedMap::new(), events: OrderedMap::new() }
    }

    fn taken(&self, id: &str) -> (taken: bool)
        requires
            self.wf(),
        ensures
            taken == self@.taken(id@),
    {
        self.methods.contains_key(id) || self.events.contains_key(id)
    }

    /// Adds a method, unless its id is taken.
    pub fn insert_method(&mut self, field: MethodField, handler: u64) -> (outcome: Result<
        (),
        GlycoError,
    >)
        requires
            old(self).wf(),
        ensures
            final(self).wf(),
            match outcome {
                Ok(_) => !old(self)@.taken(field.id@) && final(self)@ == old(self)@.with_method(
                    field,
                    handler,
                ),
                Err(error) => old(self)@.taken(field.id@) && final(self)@ == old(self)@ && error
                    == GlycoError::DuplicateField(field.id),
            },
    {
        if self.taken(field.id.as_str()) {
            return Err(GlycoError::DuplicateField(field.id));
        }
        let id = field.id.clone();
        let _ = self.methods.insert(id, RegisteredMethod { field, handler });
        Ok(())
    }

    /// Adds an event, unless its id is taken.
    pub fn insert_event(&mut self, field: EventField, argument_type: Option<TypeId>) -> (outcome:
        Result<(), GlycoError>)
        requires
            old(self).wf(),
        ensures
            final(self).wf(),
            match outcome {
                Ok(_) => !old(self)@.taken(field.id@) && final(self)@ == old(self)@.with_event(
                    field,
                    argument_type,
                ),
                Err(error) => old(self)@.taken(field.id@) && final(self)@ == old(self)@ && error
                    == GlycoError::DuplicateField(field.id),
            },
    {
        if self.taken(field.id.as_str()) {
            return Err(GlycoError::DuplicateField(field.id));
        }
        let id = field.id.clone();
        let _ = self.events.insert(id, RegisteredEvent { field, argument_type });
        Ok(())
    }

    /// Removes the field under an id, and says whether there was one.
    pub fn remove(&mut self, id: &str) -> (removed: bool)
        requires
            old(self).wf(),
        ensures
            final(self).wf(),
            final(self)@ == old(self)@.without(id@),
            removed == old(self)@.taken(id@),
    {
        let method_removed = self.methods.remove(id).is_some();
        let event_removed = self.events.remove(id).is_some();
        method_removed || event_removed
    }

    /// The method under an id.
    pub fn method(&self, id: &str) -> (method: Option<&RegisteredMethod>)
        requires
            self.wf(),
        ensures
            match method {
                Some(method) => self@.methods.contains_key(id@) && self@.methods[id@] == *method,
                None => !self@.methods.contains_key(id@),
            },
    {
        self.methods.get(id)
    }

    /// The event under an id.
    pub fn event(&self, id: &str) -> (event: Option<&RegisteredEvent>)
        requires
            self.wf(),
        ensures
            match event {
                Some(event) => self@.events.contains_key(id@) && self@.events[id@] == *event,
                None => !self@.events.contains_key(id@),
            },
    {
        self.events.get(id)
    }

    /// All fields in ascending order of their ids.
    pub fn list(&self) -> (fields: Vec<Field>)
        requires
            self.wf(),
        ensures
            self@.listed(fields@),
    {
        let mut fields: Vec<Field> = Vec::new();
        let mut i: usize = 0;
        let mut j: usize = 0;
        let ghost m = self.methods.keys();
        let ghost e = self.events.keys();
        proof {
            self.methods.lemma_keys();
            self.events.lemma_keys();
        }
        while i < self.methods.len() || j < self.events.len()
            invariant
                self.wf(),
                m == self.methods.keys(),
                e == self.events.keys(),
                ascending(m),
                ascending(e),
                forall|id: Seq<char>| self@.methods.contains_key(id) <==> m.contains(id),
                forall|id: Seq<char>| self@.events.contains_key(id) <==> e.contains(id),
                i <= m.len(),
                j <= e.len(),
                fields@.len() == i + j,
                ascending(field_ids(fields@)),
                forall|x: int| 0 <= x < fields@.len() ==> self@.offers(#[trigger] fields@[x]),
                forall|a: int|
                    0 <= a < i ==> fields@.contains(
                        Field::Method(self@.methods[#[trigger] m[a]].field),
                    ),
                forall|b: int|
                    0 <= b < j ==> fields@.contains(
                        Field::Event(self@.events[#[trigger] e[b]].field),
                    ),
                forall|x: int, a: int|
                    0 <= x < fields@.len() && i <= a < m.len() ==> text_less(
                        #[trigger] field_ids(fields@)[x],
                        #[trigger] m[a],
                    ),
                forall|x: int, b: int|
                    0 <= x < fields@.len() && j <= b < e.len() ==> text_less(
                        #[trigger] field_ids(fields@)[x],
                        #[trigger] e[b],
                    ),
            decreases m.len() + e.len() - i - j,
        {
            let take_method = if i >= self.methods.len() {
                false
            } else if j >= self.events.len() {
                true
            } else {
                text_before(self.methods.key(i).as_str(), self.events.key(j).as_str())
            };
            let ghost before = fields@;
            let ghost chosen = if take_method {
                m[i as int]
            } else {
                e[j as int]
            };
            proof {
                if i < m.len() {
                    assert(m.contains(m[i as int]));
                }
                if j < e.len() {
                    assert(e.contains(e[j as int]));
                }
                if i < m.len() && j < e.len() {
                    lemma_text_order(m[i as int], e[j as int]);
                    assert(m[i as int] != e[j as int]);
                }
            }
            if take_method {
                fields.push(Field::Method(self.methods.value(i).field.clone()));
                i = i + 1;
            } else {
                fields.push(Field::Event(self.events.value(j).field.clone()));
                j = j + 1;
            }
            proof {
                let added = fields@.last();
                assert(fields@ == before.push(added));
                assert(added.spec_id() == chosen);
                assert(field_ids(fields@) =~= field_ids(before).push(chosen));
                assert forall|x: int| 0 <= x < fields@.len() implies self@.offers(
                    #[trigger] fields@[x],
                ) by {
                    if x < before.len() {
                        assert(fields@[x] == before[x]);
                    }
                }
                assert forall|a: int| 0 <= a < i implies fields@.contains(
                    Field::Method(self@.methods[#[trigger] m[a]].field),
                ) by {
                    let field = Field::Method(self@.methods[m[a]].field);
                    if before.contains(field) {
                        let x = choose|x: int| 0 <= x < before.len() && before[x] == field;
                        assert(fields@[x] == field);
                    } else {
                        assert(fields@[before.len() as int] == field);
                    }
                }
                assert forall|b: int| 0 <= b < j implies fields@.contains(
                    Field::Event(self@.events[#[trigger] e[b]].field),
                ) by {
                    let field = Field::Event(self@.events[e[b]].field);
                    if before.contains(field) {
                        let x = choose|x: int| 0 <= x < before.len() && before[x] == field;
                        assert(fields@[x] == field);
                    } else {
                        assert(fields@[before.len() as int] == field);
                    }
                }
                assert forall|x: int, a: int|
                    0 <= x < fields@.len() && i <= a < m.len() implies text_less(
                    #[trigger] field_ids(fields@)[x],
                    #[trigger] m[a],
                ) by {
                    if x < before.len() {
                        assert(field_ids(fields@)[x] == field_ids(before)[x]);
                    } else if take_method {
                        assert(text_less(m[i - 1], m[a]));
                    } else {
                        if a > i {
                            assert(text_less(m[i as int], m[a]));
                            lemma_text_transitive(chosen, m[i as int], m[a]);
                        }
                    }
                }
                assert forall|x: int, b: int|
                    0 <= x < fields@.len() && j <= b < e.len() implies text_less(
                    #[trigger] field_ids(fields@)[x],
                    #[trigger] e[b],
                ) by {
                    if x < before.len() {
                        assert(field_ids(fields@)[x] == field_ids(before)[x]);
                    } else if !take_method {
                        assert(text_less(e[j - 1], e[b]));
                    } else {
                        if b > j {
                            assert(text_less(e[j as int], e[b]));
                            lemma_text_transitive(chosen, e[j as int], e[b]);
                        }
                    }
                }
            }
        }
        proof {
            assert forall|field: Field| #[trigger] fields@.contains(field) <==> self@.offers(
                field,
            ) by {
                if fields@.contains(field) {
                    let x = choose|x: int| 0 <= x < fields@.len() && fields@[x] == field;
                    assert(self@.offers(fields@[x]));
                }
                if self@.offers(field) {
                    match field {
                        Field::Method(method) => {
                            let a = choose|a: int| 0 <= a < m.len() && m[a] == method.id@;
                            assert(fields@.contains(Field::Method(self@.methods[m[a]].field)));
                        },
                        Field::Event(event) => {
                            let b = choose|b: int| 0 <= b < e.len() && e[b] == event.id@;
                            assert(fields@.contains(Field::Event(self@.events[e[b]].field)));
                        },
                    }
                }
            }
        }
        fields
    }
}

/// Adding a method and removing it again leaves the fields as they were.
pub proof fn law_method_added_and_removed(fields: FieldsState, field: MethodField, handler: u64)
    requires
        !fields.taken(field.id@),
    ensures
        fields.with_method(field, handler).without(field.id@) == fields,
{
    let id = field.id@;
    let after = fields.with_method(field, handler).without(id);
    assert(after.methods =~= fields.methods);
    assert(after.events =~= fields.events);
}

/// Adding an event and removing it again leaves the fields as they were.
pub proof fn law_event_added_and_removed(
    fields: FieldsState,
    field: EventField,
    argument_type: Option<TypeId>,
)
    requires
        !fields.taken(field.id@),
    ensures
        fields.with_event(field, argument_type).without(field.id@) == fields,
{
    let id = field.id@;
    let after = fields.with_event(field, argument_type).without(id);
    assert(after.methods =~= fields.methods);
    assert(after.events =~= fields.events);
}

/// There is only one way to list given fields: two lists of the same fields are the same list.
pub proof fn law_listing_unique(fields: FieldsState, left: Seq<Field>, right: Seq<Field>)
    requires
        fields.listed(left),
        fields.listed(right),
    ensures
        left == right,
{
    lemma_same_members_same_list(left, right);
}

/// Two lists of fields that are ascending by id and have the same members are the same.
proof fn lemma_same_members_same_list(left: Seq<Field>, right: Seq<Field>)
    requires
        ascending(field_ids(left)),
        ascending(field_ids(right)),
        forall|field: Field| #[trigger] left.contains(field) <==> right.contains(field),
    ensures
        left == right,
    decreases left.len(),
{
    if left.len() == 0 {
        if right.len() > 0 {
            assert(right.contains(right[0]));
            assert(left.contains(right[0]));
        }
        assert(left =~= right);
    } else {
        assert(left.contains(left.last()));
        assert(right.contains(left.last()));
        let x = choose|x: int| 0 <= x < right.len() && right[x] == left.last();
        assert(right.contains(right.last()));
        assert(left.contains(right.last()));
        let y = choose|y: int| 0 <= y < left.len() && left[y] == right.last();
        let (l, r) = (field_ids(left), field_ids(right));
        lemma_text_order(l.last(), r.last());
        if x < right.len() - 1 {
            assert(text_less(r[x], r[right.len() - 1]));
            if y < left.len() - 1 {
                assert(text_less(l[y], l[left.len() - 1]));
            }
        }
        assert(left.last() == right.last());
        let (lp, rp) = (left.drop_last(), right.drop_last());
        assert(field_ids(lp) =~= l.drop_last());
        assert(field_ids(rp) =~= r.drop_last());
        assert forall|field: Field| #[trigger] lp.contains(field) <==> rp.contains(field) by {
            if lp.contains(field) {
                let a = choose|a: int| 0 <= a < lp.len() && lp[a] == field;
                assert(left[a] == field);
                assert(left.contains(field));
                let b = choose|b: int| 0 <= b < right.len() && right[b] == field;
                assert(text_less(l[a], l[left.len() - 1]));
                lemma_text_order(l[a], l[a]);
                if b == right.len() - 1 {
                    assert(false);
                }
                assert(rp[b] == field);
            }
            if rp.contains(field) {
                let b = choose|b: int| 0 <= b < rp.len() && rp[b] == field;
                assert(right[b] == field);
                assert(left.contains(field));
                let a = choose|a: int| 0 <= a < left.len() && left[a] == field;
                assert(text_less(r[b], r[right.len() - 1]));
                lemma_text_order(r[b], r[b]);
                if a == left.len() - 1 {
                    assert(false);
                }
                assert(lp[a] == field);
            }
        }
        lemma_same_members_same_list(lp, rp);
        assert(left =~= lp.push(left.last()));
        assert(right =~= rp.push(right.last()));
    }
}

} // verus!
