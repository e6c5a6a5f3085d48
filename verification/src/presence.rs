//! Who is present on the mesh: the latest beacon of every node, and when it was last heard of.
use crate::error::GlycoError;
use crate::outside::write_json;
use crate::protocol::{Beacon, Field, MethodField};
use crate::registry::{ascending, lemma_ascending_distinct, OrderedMap};
use crate::text::{same_optional_text, same_text, text_less};
use crate::wire::optional_value_text;
use serde_json::Value;
use vstd::prelude::*;
use vstd::string::*;

verus! {

/// How long a node stays present without a sign of life, in nanoseconds.
pub const PRESENTER_EXPIRY_NANOS: u128 = 3_000_000_000;

/// A change in who is present.
#[derive(Debug, PartialEq)]
pub enum PresenterEvent {
    Discovered(Beacon),
    Changed { previous: Beacon, current: Beacon },
    Expired(Beacon),
}

impl Clone for PresenterEvent {
    fn clone(&self) -> (copy: Self)
        ensures
            copy.same_as(*self),
    {
        match self {
            PresenterEvent::Discovered(beacon) => PresenterEvent::Discovered(beacon.clone()),
            PresenterEvent::Changed { previous, current } => PresenterEvent::Changed {
                previous: previous.clone(),
                current: current.clone(),
            },
            PresenterEvent::Expired(beacon) => PresenterEvent::Expired(beacon.clone()),
        }
    }
}

impl PresenterEvent {
    /// Two events with the same content.
    pub open spec fn same_as(self, other: PresenterEvent) -> bool {
        match (self, other) {
            (PresenterEvent::Discovered(a), PresenterEvent::Discovered(b)) => a.same_as(b),
            (
                PresenterEvent::Changed { previous: p, current: c },
                PresenterEvent::Changed { previous: q, current: d },
            ) => p.same_as(q) && c.same_as(d),
            (PresenterEvent::Expired(a), PresenterEvent::Expired(b)) => a.same_as(b),
            _ => false,
        }
    }
}

/// Two fields that are announced alike. Schemas are told apart by their texts.
pub open spec fn same_field(left: Field, right: Field) -> bool {
    match (left, right) {
        (Field::Method(a), Field::Method(b)) => {
            &&& a.id@ == b.id@
            &&& a.friendly_name.deep_view() == b.friendly_name.deep_view()
            &&& a.description.deep_view() == b.description.deep_view()
            &&& optional_value_text(a.query_schema) == optional_value_text(b.query_schema)
            &&& optional_value_text(a.receipt_schema) == optional_value_text(b.receipt_schema)
        },
        (Field::Event(a), Field::Event(b)) => {
            &&& a.id@ == b.id@
            &&& a.friendly_name.deep_view() == b.friendly_name.deep_view()
            &&& a.description.deep_view() == b.description.deep_view()
            &&& optional_value_text(a.call_arg_schema) == optional_value_text(b.call_arg_schema)
        },
        _ => false,
    }
}

/// Two beacons that announce the same, whenever they were sent.
pub open spec fn same_announcement(left: Beacon, right: Beacon) -> bool {
    &&& left.id@ == right.id@
    &&& left.vendor.deep_view() == right.vendor.deep_view()
    &&& left.protocol_version == right.protocol_version
    &&& left.fields@.len() == right.fields@.len()
    &&& forall|i: int|
        0 <= i < left.fields@.len() ==> same_field(#[trigger] left.fields@[i], right.fields@[i])
}

fn optional_json(value: &Option<Value>) -> (text: String)
    ensures
        text@ == optional_value_text(*value),
{
    match value {
        Some(value) => write_json(value),
        None => "null".to_owned(),
    }
}

fn same_optional_json(left: &Option<Value>, right: &Option<Value>) -> (same: bool)
    ensures
        same == (optional_value_text(*left) == optional_value_text(*right)),
{
    same_text(optional_json(left).as_str(), optional_json(right).as_str())
}

fn fields_alike(left: &Field, right: &Field) -> (alike: bool)
    ensures
        alike == same_field(*left, *right),
{
    match (left, right) {
        (Field::Method(a), Field::Method(b)) => same_text(a.id.as_str(), b.id.as_str())
            && same_optional_text(&a.friendly_name, &b.friendly_name) && same_optional_text(
            &a.description,
            &b.description,
        ) && same_optional_json(&a.query_schema, &b.query_schema) && same_optional_json(
            &a.receipt_schema,
            &b.receipt_schema,
        ),
        (Field::Event(a), Field::Event(b)) => same_text(a.id.as_str(), b.id.as_str())
            && same_optional_text(&a.friendly_name, &b.friendly_name) && same_optional_text(
            &a.description,
            &b.description,
        ) && same_optional_json(&a.call_arg_schema, &b.call_arg_schema),
        _ => false,
    }
}

/// Whether two beacons announce the same. The time at which they were sent does not count.
pub fn announce_alike(left: &Beacon, right: &Beacon) -> (alike: bool)
    ensures
        alike == same_announcement(*left, *right),
{
    let same_version = match (left.protocol_version, right.protocol_version) {
        (Some(a), Some(b)) => a == b,
        (None, None) => true,
        _ => false,
    };
    if !same_version || left.fields.len() != right.fields.len() || !same_text(
        left.id.as_str(),
        right.id.as_str(),
    ) || !same_optional_text(&left.vendor, &right.vendor) {
        return false;
    }
    let mut i: usize = 0;
    while i < left.fields.len()
        invariant
            i <= left.fields@.len(),
            left.fields@.len() == right.fields@.len(),
            forall|j: int|
                0 <= j < i ==> same_field(#[trigger] left.fields@[j], right.fields@[j]),
        decreases left.fields@.len() - i,
    {
        if !fields_alike(&left.fields[i], &right.fields[i]) {
            assert(!same_field(left.fields@[i as int], right.fields@[i as int]));
            return false;
        }
        i = i + 1;
    }
    true
}

/// What is known of a present node: its latest beacon, and when it was last heard of, in
/// nanoseconds of the caller's clock.
#[derive(Debug)]
pub struct PresenterRecord {
    pub beacon: Beacon,
    pub last_seen: u128,
}

impl PresenterRecord {
    /// Whether the node was not heard of for too long.
    pub open spec fn is_expired(self, now: u128) -> bool {
        now - self.last_seen >= PRESENTER_EXPIRY_NANOS
    }
}

/// The present nodes after a beacon arrived.
pub open spec fn after_beacon(
    before: Map<Seq<char>, PresenterRecord>,
    beacon: Beacon,
    now: u128,
) -> Map<Seq<char>, PresenterRecord> {
    before.insert(beacon.id@, PresenterRecord { beacon, last_seen: now })
}

/// What is told of a beacon. A node that was not present is discovered, unless its discovery is
/// hidden; one that was present has changed exactly if it announces something else than before.
pub open spec fn beacon_told(
    before: Map<Seq<char>, PresenterRecord>,
    beacon: Beacon,
    hidden: bool,
    event: Option<PresenterEvent>,
) -> bool {
    if !before.contains_key(beacon.id@) {
        if hidden {
            event is None
        } else {
            event matches Some(PresenterEvent::Discovered(found)) && found.same_as(beacon)
        }
    } else if !same_announcement(before[beacon.id@].beacon, beacon) {
        event matches Some(PresenterEvent::Changed { previous, current }) && previous
            == before[beacon.id@].beacon && current.same_as(beacon)
    } else {
        event is None
    }
}

/// The present nodes after a heartbeat arrived. One of a node that is not present is ignored.
pub open spec fn after_heartbeat(
    before: Map<Seq<char>, PresenterRecord>,
    id: Seq<char>,
    now: u128,
) -> Map<Seq<char>, PresenterRecord> {
    if before.contains_key(id) {
        before.insert(id, PresenterRecord { last_seen: now, ..before[id] })
    } else {
        before
    }
}

/// The nodes that are still present at a given time.
pub open spec fn after_expiry(before: Map<Seq<char>, PresenterRecord>, now: u128) -> Map<
    Seq<char>,
    PresenterRecord,
> {
    Map::new(
        |id: Seq<char>| before.contains_key(id) && !before[id].is_expired(now),
        |id: Seq<char>| before[id],
    )
}

/// The first field with an id.
pub open spec fn field_with_id(fields: Seq<Field>, id: Seq<char>) -> Option<Field>
    decreases fields.len(),
{
    if fields.len() == 0 {
        None
    } else if field_with_id(fields.drop_last(), id) is Some {
        field_with_id(fields.drop_last(), id)
    } else if fields.last().spec_id() == id {
        Some(fields.last())
    } else {
        None
    }
}

/// The field with an id on a node: among those of its latest beacon, the first.
pub open spec fn looked_up(
    presenters: Map<Seq<char>, PresenterRecord>,
    gid: Seq<char>,
    fid: Seq<char>,
) -> Option<Field> {
    if presenters.contains_key(gid) {
        field_with_id(presenters[gid].beacon.fields@, fid)
    } else {
        None
    }
}

/// The outcome of looking for a method on a node.
pub open spec fn method_found(
    presenters: Map<Seq<char>, PresenterRecord>,
    gid: Seq<char>,
    fid: Seq<char>,
    found: Result<MethodField, GlycoError>,
) -> bool {
    match looked_up(presenters, gid, fid) {
        Some(Field::Method(method)) => found == Ok::<MethodField, GlycoError>(method),
        Some(Field::Event(_)) => found matches Err(GlycoError::NotAMethod { node, field })
            && node@ == gid && field@ == fid,
        None => found matches Err(GlycoError::FieldNotFound { node, field }) && node@ == gid
            && field@ == fid,
    }
}

/// The nodes that are present.
#[derive(Debug)]
pub struct Presenters {
    records: OrderedMap<PresenterRecord>,
}

impl View for Presenters {
    type V = Map<Seq<char>, PresenterRecord>;

    closed spec fn view(&self) -> Map<Seq<char>, PresenterRecord> {
        self.records@
    }
}

impl Presenters {
    /// What every collection of present nodes keeps: each stands under its own id.
    pub closed spec fn wf(self) -> bool {
        &&& self.records.wf()
        &&& forall|id: Seq<char>| #[trigger]
            self@.contains_key(id) ==> self@[id].beacon.id@ == id
    }

    /// The ids of the present nodes in ascending order.
    pub closed spec fn order(self) -> Seq<Seq<char>> {
        self.records.keys()
    }

    /// The ids in ascending order are exactly those of the present nodes, each once.
    pub proof fn lemma_order(self)
        requires
            self.wf(),
        ensures
            ascending(self.order()),
            self.order().no_duplicates(),
            self.order().to_set() == self@.dom(),
            forall|id: Seq<char>| #[trigger]
                self@.contains_key(id) ==> self@[id].beacon.id@ == id,
    {
        self.records.lemma_keys();
    }

    /// Nobody.
    pub fn new() -> (presenters: Self)
        ensures
            presenters.wf(),
            presenters@ == Map::<Seq<char>, PresenterRecord>::empty(),
    {
        Presenters { records: OrderedMap::new() }
    }

    /// The beacons of the present nodes in ascending order of their ids.
    pub fn beacons(&self) -> (beacons: Vec<Beacon>)
        requires
            self.wf(),
        ensures
            beacons@.len() == self.order().len(),
            forall|i: int|
                0 <= i < beacons@.len() ==> (#[trigger] beacons@[i]).same_as(
                    self@[self.order()[i]].beacon,
                ),
    {
        let mut beacons: Vec<Beacon> = Vec::new();
        let mut i: usize = 0;
        while i < self.records.len()
            invariant
                self.wf(),
                i <= self.records.keys().len(),
                beacons@.len() == i,
                forall|j: int|
                    0 <= j < i ==> (#[trigger] beacons@[j]).same_as(
                        self.records@[self.records.keys()[j]].beacon,
                    ),
            decreases self.records.keys().len() - i,
        {
            beacons.push(self.records.value(i).beacon.clone());
            i = i + 1;
        }
        beacons
    }

    /// Takes note of a beacon, and says what it changes. With `hidden`, the discovery of its node
    /// is not told.
    pub fn process_beacon(&mut self, beacon: Beacon, hidden: bool, now: u128) -> (event: Option<
        PresenterEvent,
    >)
        requires
            old(self).wf(),
        ensures
            final(self).wf(),
            final(self)@ == after_beacon(old(self)@, beacon, now),
            beacon_told(old(self)@, beacon, hidden, event),
    {
        let copy = beacon.clone();
        let id = beacon.id.clone();
        match self.records.insert(id, PresenterRecord { beacon, last_seen: now }) {
            None => if hidden {
                None
            } else {
                Some(PresenterEvent::Discovered(copy))
            },
            Some(previous) => {
                proof {
                    assert(same_announcement(previous.beacon, copy) == same_announcement(
                        previous.beacon,
                        beacon,
                    ));
                }
                if !announce_alike(&previous.beacon, &copy) {
                    Some(PresenterEvent::Changed { previous: previous.beacon, current: copy })
                } else {
                    None
                }
            },
        }
    }

    /// Takes note of a heartbeat.
    pub fn process_heartbeat(&mut self, id: &str, now: u128)
        requires
            old(self).wf(),
        ensures
            final(self).wf(),
            final(self)@ == after_heartbeat(old(self)@, id@, now),
    {
        match self.records.remove(id) {
            Some(record) => {
                let _ = self.records.insert(
                    id.to_owned(),
                    PresenterRecord { beacon: record.beacon, last_seen: now },
                );
                assert(self@ =~= after_heartbeat(old(self)@, id@, now));
            },
            None => {},
        }
    }

    /// The ids, among the first `n` in ascending order, of the nodes that were not heard of for
    /// too long.
    spec fn expired_before(self, n: int, now: u128) -> Seq<Seq<char>>
        decreases n,
    {
        if n <= 0 {
            seq![]
        } else if self@[self.order()[n - 1]].is_expired(now) {
            self.expired_before(n - 1, now).push(self.order()[n - 1])
        } else {
            self.expired_before(n - 1, now)
        }
    }

    /// The ids of the nodes that were not heard of for too long, in ascending order.
    pub closed spec fn expired_ids(self, now: u128) -> Seq<Seq<char>> {
        self.expired_before(self.order().len() as int, now)
    }

    proof fn lemma_expired_before(self, n: int, now: u128)
        requires
            self.wf(),
            0 <= n <= self.order().len(),
        ensures
            ascending(self.expired_before(n, now)),
            forall|id: Seq<char>| #[trigger]
                self.expired_before(n, now).contains(id) <==> (exists|i: int|
                    0 <= i < n && self.order()[i] == id && self@[id].is_expired(now)),
        decreases n,
    {
        self.lemma_order();
        if n > 0 {
            self.lemma_expired_before(n - 1, now);
            let shorter = self.expired_before(n - 1, now);
            let ids = self.expired_before(n, now);
            let last = self.order()[n - 1];
            assert forall|a: int, b: int| 0 <= a < b < ids.len() implies text_less(
                #[trigger] ids[a],
                #[trigger] ids[b],
            ) by {
                assert(shorter.contains(shorter[a]));
                let i = choose|i: int| 0 <= i < n - 1 && self.order()[i] == shorter[a];
                if b == shorter.len() {
                    assert(ids[b] == last);
                    assert(text_less(self.order()[i], self.order()[n - 1]));
                } else {
                    assert(text_less(shorter[a], shorter[b]));
                }
            }
            assert forall|id: Seq<char>| #[trigger] ids.contains(id) <==> (exists|i: int|
                0 <= i < n && self.order()[i] == id && self@[id].is_expired(now)) by {
                if ids.contains(id) {
                    let x = choose|x: int| 0 <= x < ids.len() && ids[x] == id;
                    if x < shorter.len() {
                        assert(shorter[x] == id);
                        assert(shorter.contains(id));
                    } else {
                        assert(self.order()[n - 1] == id);
                    }
                }
                if exists|i: int| 0 <= i < n && self.order()[i] == id && self@[id].is_expired(now) {
                    let i = choose|i: int|
                        0 <= i < n && self.order()[i] == id && self@[id].is_expired(now);
                    if i < n - 1 {
                        assert(shorter.contains(id));
                        let x = choose|x: int| 0 <= x < shorter.len() && shorter[x] == id;
                        assert(ids[x] == id);
                    } else {
                        assert(ids[ids.len() - 1] == id);
                    }
                }
            }
        }
    }

    /// The ids of the nodes that were not heard of for too long stand in ascending order, and are
    /// exactly those of the records that have expired.
    pub proof fn lemma_expired_ids(self, now: u128)
        requires
            self.wf(),
        ensures
            ascending(self.expired_ids(now)),
            forall|id: Seq<char>| #[trigger]
                self.expired_ids(now).contains(id) <==> self@.contains_key(id)
                    && self@[id].is_expired(now),
    {
        self.lemma_order();
        self.lemma_expired_before(self.order().len() as int, now);
        assert forall|id: Seq<char>| #[trigger]
            self.expired_ids(now).contains(id) <==> self@.contains_key(id)
                && self@[id].is_expired(now) by {
            assert(self@.contains_key(id) <==> self.order().to_set().contains(id));
            if self.order().to_set().contains(id) {
                let i = choose|i: int| 0 <= i < self.order().len() && self.order()[i] == id;
                assert(self.order()[i] == id);
            }
        }
    }

    /// Removes the nodes that were not heard of for too long, and tells of each, in ascending order
    /// of their ids.
    pub fn expire(&mut self, now: u128) -> (events: Vec<PresenterEvent>)
        requires
            old(self).wf(),
        ensures
            final(self).wf(),
            final(self)@ == after_expiry(old(self)@, now),
            events@ == old(self).expired_ids(now).map_values(
                |id: Seq<char>| PresenterEvent::Expired(old(self)@[id].beacon),
            ),
    {
        let ghost before = *self;
        let mut ids: Vec<String> = Vec::new();
        let mut i: usize = 0;
        proof {
            before.lemma_order();
            before.lemma_expired_ids(now);
        }
        while i < self.records.len()
            invariant
                *self == before,
                before.wf(),
                i <= before.order().len(),
                ids@.len() == before.expired_before(i as int, now).len(),
                forall|x: int|
                    0 <= x < ids@.len() ==> (#[trigger] ids@[x])@ == before.expired_before(
                        i as int,
                        now,
                    )[x],
            decreases before.order().len() - i,
        {
            let record = self.records.value(i);
            let age: u128 = if now >= record.last_seen {
                now - record.last_seen
            } else {
                0
            };
            if age >= PRESENTER_EXPIRY_NANOS {
                ids.push(self.records.key(i).clone());
            }
            i = i + 1;
        }
        let ghost gone = before.expired_ids(now);
        proof {
            lemma_ascending_distinct(gone);
        }
        let mut events: Vec<PresenterEvent> = Vec::new();
        let mut k: usize = 0;
        while k < ids.len()
            invariant
                before.wf(),
                self.wf(),
                gone == before.expired_ids(now),
                gone.no_duplicates(),
                k <= ids@.len(),
                ids@.len() == gone.len(),
                forall|x: int| 0 <= x < ids@.len() ==> (#[trigger] ids@[x])@ == gone[x],
                forall|id: Seq<char>| #[trigger]
                    gone.contains(id) <==> before@.contains_key(id) && before@[id].is_expired(now),
                self@ == before@.remove_keys(gone.take(k as int).to_set()),
                events@.len() == k,
                forall|x: int|
                    0 <= x < k ==> (#[trigger] events@[x]) == PresenterEvent::Expired(
                        before@[gone[x]].beacon,
                    ),
            decreases ids@.len() - k,
        {
            let ghost id = gone[k as int];
            proof {
                assert(gone.contains(id));
                assert(!gone.take(k as int).to_set().contains(id));
                lemma_one_more(gone, k as int);
            }
            match self.records.remove(ids[k].as_str()) {
                Some(record) => {
                    events.push(PresenterEvent::Expired(record.beacon));
                },
                None => {
                    assert(false);
                },
            }
            proof {
                assert(self@ =~= before@.remove_keys(gone.take(k + 1).to_set()));
            }
            k = k + 1;
        }
        proof {
            assert(gone.take(gone.len() as int) =~= gone);
            assert forall|id: Seq<char>| self@.contains_key(id) <==> after_expiry(
                before@,
                now,
            ).contains_key(id) by {
                assert(gone.to_set().contains(id) <==> gone.contains(id));
            }
            assert(self@ =~= after_expiry(before@, now));
            assert(events@ =~= gone.map_values(
                |id: Seq<char>| PresenterEvent::Expired(before@[id].beacon),
            ));
        }
        events
    }

    /// Looks for a method on a node: among the fields of its latest beacon, the first with the id.
    pub fn find_remote_method(&self, gid: &str, fid: &str) -> (found: Result<
        MethodField,
        GlycoError,
    >)
        requires
            self.wf(),
        ensures
            method_found(self@, gid@, fid@, found),
    {
        let record = match self.records.get(gid) {
            Some(record) => record,
            None => return Err(
                GlycoError::FieldNotFound { node: gid.to_owned(), field: fid.to_owned() },
            ),
        };
        let fields = &record.beacon.fields;
        let mut i: usize = 0;
        while i < fields.len()
            invariant
                self@.contains_key(gid@),
                fields@ == self@[gid@].beacon.fields@,
                i <= fields@.len(),
                field_with_id(fields@.take(i as int), fid@) is None,
            decreases fields@.len() - i,
        {
            proof {
                assert(fields@.take(i + 1).drop_last() =~= fields@.take(i as int));
            }
            if same_text(fields[i].id(), fid) {
                proof {
                    lemma_first_field(fields@, fid@, i + 1);
                }
                return match &fields[i] {
                    Field::Method(method) => Ok(method.clone()),
                    Field::Event(_) => Err(
                        GlycoError::NotAMethod { node: gid.to_owned(), field: fid.to_owned() },
                    ),
                };
            }
            i = i + 1;
        }
        assert(fields@.take(fields@.len() as int) =~= fields@);
        Err(GlycoError::FieldNotFound { node: gid.to_owned(), field: fid.to_owned() })
    }
}

/// The members of a list up to a position, and one more.
proof fn lemma_one_more(ids: Seq<Seq<char>>, k: int)
    requires
        0 <= k < ids.len(),
    ensures
        ids.take(k + 1).to_set() == ids.take(k).to_set().insert(ids[k]),
{
    let shorter = ids.take(k);
    let longer = ids.take(k + 1);
    assert(longer =~= shorter.push(ids[k]));
    assert forall|id: Seq<char>| longer.to_set().contains(id) == shorter.to_set().insert(
        ids[k],
    ).contains(id) by {
        if shorter.contains(id) {
            let x = choose|x: int| 0 <= x < shorter.len() && shorter[x] == id;
            assert(longer[x] == id);
        }
        assert(longer[k] == ids[k]);
        if longer.contains(id) {
            let x = choose|x: int| 0 <= x < longer.len() && longer[x] == id;
            if x < k {
                assert(shorter[x] == id);
            }
        }
    }
    assert(longer.to_set() =~= shorter.to_set().insert(ids[k]));
}

/// What is found among the first fields is found among all.
proof fn lemma_first_field(fields: Seq<Field>, id: Seq<char>, n: int)
    requires
        0 <= n <= fields.len(),
        field_with_id(fields.take(n), id) is Some,
    ensures
        field_with_id(fields, id) == field_with_id(fields.take(n), id),
    decreases fields.len(),
{
    if n < fields.len() {
        assert(fields.drop_last().take(n) =~= fields.take(n));
        lemma_first_field(fields.drop_last(), id, n);
    } else {
        assert(fields.take(n) =~= fields);
    }
}

} // verus!
