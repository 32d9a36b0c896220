use vstd::prelude::*;

verus! {

/// A stored event of a class.
#[derive(Clone, Copy, Debug, PartialEq, Eq, Structural)]
pub struct Event {
    /// The event's id, as the 128-bit value of its UUID.
    pub id: u128,
    /// The class the event belongs to.
    pub class: u128,
    /// Start, in milliseconds since the epoch.
    pub start: i64,
    /// End, if the event has one.
    pub end: Option<i64>,
}

/// Why a request to the stored events was not served.
#[derive(Clone, Copy, Debug, PartialEq, Eq, Structural)]
pub enum StoreError {
    /// No stored event has the id.
    NotFound,
    /// A stored event already has the id.
    Conflict,
}

/// Which events of a class a query asks for.
#[derive(Clone, Copy, Debug, PartialEq, Eq, Structural)]
pub struct EventQuery {
    /// The class whose events are wanted.
    pub class: u128,
    /// If set, only events that start before this time.
    pub before: Option<i64>,
    /// If set, only events that end after this time. An event without an end
    /// never does.
    pub after: Option<i64>,
}

/// Whether an event answers a query.
pub open spec fn answers(event: Event, query: EventQuery) -> bool {
    &&& event.class == query.class
    &&& query.before matches Some(before) ==> event.start < before
    &&& query.after matches Some(after) ==> (event.end matches Some(end) && end > after)
}

/// The test that picks the events answering a query.
pub open spec fn answering(query: EventQuery) -> spec_fn(Event) -> bool {
    |event: Event| answers(event, query)
}

/// The test that picks the events with another id.
pub open spec fn other_than(id: u128) -> spec_fn(Event) -> bool {
    |event: Event| event.id != id
}

/// Whether some row has the id.
pub open spec fn has_event(rows: Seq<Event>, id: u128) -> bool {
    exists|i: int| 0 <= i < rows.len() && (#[trigger] rows[i]).id == id
}

/// Whether `i` is the place of the first row with the id.
pub open spec fn first_with_id(rows: Seq<Event>, id: u128, i: int) -> bool {
    &&& 0 <= i < rows.len()
    &&& rows[i].id == id
    &&& forall|j: int| 0 <= j < i ==> (#[trigger] rows[j]).id != id
}

/// The rows after every row with the id of `event` took its values.
pub open spec fn with_update(rows: Seq<Event>, event: Event) -> Seq<Event> {
    Seq::new(
        rows.len(),
        |i: int|
            if rows[i].id == event.id {
                event
            } else {
                rows[i]
            },
    )
}

/// Tests one event against a query.
pub fn event_answers(event: &Event, query: &EventQuery) -> (yes: bool)
    ensures
        yes == answers(*event, *query),
{
    if event.class != query.class {
        return false;
    }
    let early = match query.before {
        Some(before) => event.start < before,
        None => true,
    };
    let late = match query.after {
        Some(after) => match event.end {
            Some(end) => end > after,
            None => false,
        },
        None => true,
    };
    early && late
}

/// The stored events that answer a query, in stored order.
pub fn select_events(db: &Vec<Event>, query: &EventQuery) -> (found: Vec<Event>)
    ensures
        found@ == db@.filter(answering(*query)),
{
    let mut found: Vec<Event> = Vec::new();
    let mut i: usize = 0;
    while i < db.len()
        invariant
            i <= db.len(),
            found@ == db@.take(i as int).filter(answering(*query)),
        decreases db.len() - i,
    {
        if event_answers(&db[i], query) {
            found.push(db[i]);
        }
        proof {
            let keep = answering(*query);
            let next = db@.take(i + 1);
            reveal(Seq::filter);
            assert(next.drop_last() =~= db@.take(i as int));
            assert(next.last() == db@[i as int]);
            assert(keep(db@[i as int]) == answers(db@[i as int], *query));
            assert(next.filter(keep) == if keep(next.last()) {
                next.drop_last().filter(keep).push(next.last())
            } else {
                next.drop_last().filter(keep)
            });
        }
        i += 1;
    }
    assert(db@.take(db@.len() as int) =~= db@);
    found
}

/// The events of a class.
pub fn get_events_by_class(db: &Vec<Event>, class_id: u128) -> (found: Vec<Event>)
    ensures
        found@ == db@.filter(
            answering((EventQuery { class: class_id, before: None, after: None })),
        ),
{
    select_events(db, &EventQuery { class: class_id, before: None, after: None })
}

/// The events of a class that end after a given time.
pub fn get_events_by_class_filtered_after(db: &Vec<Event>, class_id: u128, after: i64) -> (found:
    Vec<Event>)
    ensures
        found@ == db@.filter(
            answering((EventQuery { class: class_id, before: None, after: Some(after) })),
        ),
{
    select_events(db, &EventQuery { class: class_id, before: None, after: Some(after) })
}

/// The events of a class that start before one time and end after another.
pub fn get_events_by_class_filtered_both(
    db: &Vec<Event>,
    class_id: u128,
    before: i64,
    after: i64,
) -> (found: Vec<Event>)
    ensures
        found@ == db@.filter(
            answering((EventQuery { class: class_id, before: Some(before), after: Some(after) })),
        ),
{
    select_events(db, &EventQuery { class: class_id, before: Some(before), after: Some(after) })
}

/// The first stored event with the id.
pub fn get_event_by_id(db: &Vec<Event>, event_id: u128) -> (r: Result<Event, StoreError>)
    ensures
        match r {
            Ok(event) => exists|i: int| first_with_id(db@, event_id, i) && db@[i] == event,
            Err(e) => e == StoreError::NotFound && !has_event(db@, event_id),
        },
{
    let mut i: usize = 0;
    while i < db.len()
        invariant
            i <= db.len(),
            forall|j: int| 0 <= j < i ==> (#[trigger] db@[j]).id != event_id,
        decreases db.len() - i,
    {
        if db[i].id == event_id {
            assert(first_with_id(db@, event_id, i as int));
            return Ok(db[i]);
        }
        i += 1;
    }
    Err(StoreError::NotFound)
}

/// Saves the changed event over the stored one with the same id and returns
/// it as stored. Without such a row nothing changes and the result is
/// `NotFound`.
pub fn update_event(db: &mut Vec<Event>, new_event: Event) -> (r: Result<Event, StoreError>)
    ensures
        final(db)@ == with_update(old(db)@, new_event),
        r == (if has_event(old(db)@, new_event.id) {
            Ok::<Event, StoreError>(new_event)
        } else {
            Err::<Event, StoreError>(StoreError::NotFound)
        }),
{
    let ghost before = db@;
    let mut found = false;
    let mut i: usize = 0;
    while i < db.len()
        invariant
            i <= db.len(),
            db@.len() == before.len(),
            forall|j: int| 0 <= j < i ==> db@[j] == with_update(before, new_event)[j],
            forall|j: int| i <= j < db@.len() ==> db@[j] == before[j],
            found <==> exists|j: int| 0 <= j < i && (#[trigger] before[j]).id == new_event.id,
        decreases db.len() - i,
    {
        assert(db@[i as int] == before[i as int]);
        if db[i].id == new_event.id {
            db.set(i, new_event);
            found = true;
        }
        i += 1;
        assert(found <==> exists|j: int| 0 <= j < i && (#[trigger] before[j]).id == new_event.id) by {
            if before[i - 1].id != new_event.id && exists|j: int|
                0 <= j < i && (#[trigger] before[j]).id == new_event.id {
                let j = choose|j: int| 0 <= j < i && (#[trigger] before[j]).id == new_event.id;
                assert(0 <= j < i - 1);
            }
        }
    }
    assert(db@ =~= with_update(before, new_event));
    if found {
        Ok(new_event)
    } else {
        Err(StoreError::NotFound)
    }
}

/// Stores a new event after the others and returns it as stored. Where a
/// stored event has its id already, nothing changes and the result is
/// `Conflict`.
pub fn insert_event(db: &mut Vec<Event>, new_event: Event) -> (r: Result<Event, StoreError>)
    ensures
        has_event(old(db)@, new_event.id) ==> final(db)@ == old(db)@ && r == Err::<
            Event,
            StoreError,
        >(StoreError::Conflict),
        !has_event(old(db)@, new_event.id) ==> final(db)@ == old(db)@.push(new_event) && r == Ok::<
            Event,
            StoreError,
        >(new_event),
{
    match get_event_by_id(db, new_event.id) {
        Ok(_) => Err(StoreError::Conflict),
        Err(_) => {
            db.push(new_event);
            Ok(new_event)
        },
    }
}

/// Removes every stored event with the id and returns how many there were.
pub fn delete_event(db: &mut Vec<Event>, event_id: u128) -> (removed: usize)
    ensures
        final(db)@ == old(db)@.filter(other_than(event_id)),
        removed == old(db)@.len() - final(db)@.len(),
        removed > 0 <==> has_event(old(db)@, event_id),
{
    let ghost before = db@;
    let mut kept: Vec<Event> = Vec::new();
    let mut i: usize = 0;
    while i < db.len()
        invariant
            db@ == before,
            i <= db.len(),
            kept@ == before.take(i as int).filter(other_than(event_id)),
            kept@.len() <= i,
            kept@.len() < i <==> exists|j: int| 0 <= j < i && (#[trigger] before[j]).id == event_id,
        decreases db.len() - i,
    {
        if db[i].id != event_id {
            kept.push(db[i]);
        }
        proof {
            let keep = other_than(event_id);
            let next = before.take(i + 1);
            reveal(Seq::filter);
            assert(next.drop_last() =~= before.take(i as int));
            assert(next.last() == before[i as int]);
            assert(keep(before[i as int]) == (before[i as int].id != event_id));
            assert(next.filter(keep) == if keep(next.last()) {
                next.drop_last().filter(keep).push(next.last())
            } else {
                next.drop_last().filter(keep)
            });
        }
        i += 1;
        assert(kept@.len() < i <==> exists|j: int|
            0 <= j < i && (#[trigger] before[j]).id == event_id) by {
            if before[i - 1].id != event_id && exists|j: int|
                0 <= j < i && (#[trigger] before[j]).id == event_id {
                let j = choose|j: int| 0 <= j < i && (#[trigger] before[j]).id == event_id;
                assert(0 <= j < i - 1);
            }
        }
    }
    assert(before.take(before.len() as int) =~= before);
    let removed = db.len() - kept.len();
    *db = kept;
    removed
}

} // verus!
