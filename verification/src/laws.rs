//! What holds of the repository whatever its state: statements that relate
//! its operations to each other.

use crate::message::{decimal, missing_on_delete, missing_on_get, missing_on_update};
use crate::profile::{PayloadView, ProfileView};
use crate::query::{is_selection, FilterView};
use crate::repository::RepositoryView;
use vstd::prelude::*;

verus! {

/// One call that changes the repository.
pub enum Command {
    Create(PayloadView, u64),
    Update(u64, PayloadView, u64),
    Delete(u64),
}

impl RepositoryView {
    /// The repository after one call.
    pub open spec fn apply(self, command: Command) -> RepositoryView {
        match command {
            Command::Create(payload, timestamp) => self.create(payload, timestamp).0,
            Command::Update(id, payload, timestamp) => self.update(id, payload, timestamp).0,
            Command::Delete(id) => self.delete(id).0,
        }
    }

    /// The identifier that a call returns as newly created, if it creates.
    pub open spec fn issues(self, command: Command) -> Option<u64> {
        match command {
            Command::Create(payload, timestamp) => match self.create(payload, timestamp).1 {
                Some(made) => Some(made.id),
                None => None,
            },
            _ => None,
        }
    }

    /// The identifier of the record that a call is about.
    pub open spec fn target(self, command: Command) -> u64 {
        match command {
            Command::Create(_, _) => self.next_id,
            Command::Update(id, _, _) => id,
            Command::Delete(id) => id,
        }
    }

    /// The repository after a sequence of calls.
    pub open spec fn run(self, commands: Seq<Command>) -> RepositoryView
        decreases commands.len(),
    {
        if commands.len() == 0 {
            self
        } else {
            self.run(commands.drop_last()).apply(commands.last())
        }
    }
}

/// Tells whether a message holds the decimal form of `id`.
pub open spec fn mentions(msg: Seq<char>, id: u64) -> bool {
    exists|start: int|
        0 <= start && start + decimal(id as nat).len() <= msg.len() && #[trigger] msg.subrange(
            start,
            start + decimal(id as nat).len(),
        ) == decimal(id as nat)
}

proof fn lemma_middle_is_mentioned(before: Seq<char>, id: u64, after: Seq<char>)
    ensures
        mentions(before + decimal(id as nat) + after, id),
{
    let msg = before + decimal(id as nat) + after;
    let start = before.len() as int;
    assert(msg.subrange(start, start + decimal(id as nat).len()) =~= decimal(id as nat));
}

/// No call lowers the counter, and every call keeps each record under its
/// own, issued identifier.
pub proof fn lemma_step_preserves(state: RepositoryView, command: Command)
    requires
        state.wf(),
    ensures
        state.apply(command).wf(),
        state.apply(command).next_id >= state.next_id,
        state.issues(command) matches Some(id) ==> id == state.next_id && state.apply(
            command,
        ).next_id > id,
{
}

/// A call changes no record but the one that it is about.
pub proof fn lemma_step_touches_one_record(state: RepositoryView, command: Command, id: u64)
    requires
        state.wf(),
        id != state.target(command),
    ensures
        state.apply(command).records.contains_key(id) == state.records.contains_key(id),
        state.records.contains_key(id) ==> state.apply(command).records[id] == state.records[id],
{
}

/// A sequence of calls keeps every record under its own, issued identifier,
/// and does not lower the counter.
pub proof fn lemma_run_preserves(state: RepositoryView, commands: Seq<Command>)
    requires
        state.wf(),
    ensures
        state.run(commands).wf(),
        state.run(commands).next_id >= state.next_id,
    decreases commands.len(),
{
    if commands.len() > 0 {
        lemma_run_preserves(state, commands.drop_last());
        lemma_step_preserves(state.run(commands.drop_last()), commands.last());
    }
}

proof fn lemma_counter_along_run(state: RepositoryView, commands: Seq<Command>, i: int, j: int)
    requires
        state.wf(),
        0 <= i <= j <= commands.len(),
    ensures
        state.run(commands.take(j)).next_id >= state.run(commands.take(i)).next_id,
        state.run(commands.take(i)).wf(),
    decreases j - i,
{
    lemma_run_preserves(state, commands.take(i));
    if i < j {
        lemma_counter_along_run(state, commands, i, j - 1);
        lemma_run_preserves(state, commands.take(j - 1));
        assert(commands.take(j).drop_last() =~= commands.take(j - 1));
        lemma_step_preserves(state.run(commands.take(j - 1)), commands.take(j).last());
    }
}

/// Identifiers are unique and increase: of two creations in one sequence of
/// calls, the later returns the greater identifier.
pub proof fn lemma_created_ids_increase(
    state: RepositoryView,
    commands: Seq<Command>,
    i: int,
    j: int,
)
    requires
        state.wf(),
        0 <= i < j < commands.len(),
        state.run(commands.take(i)).issues(commands[i]).is_some(),
        state.run(commands.take(j)).issues(commands[j]).is_some(),
    ensures
        state.run(commands.take(i)).issues(commands[i]).unwrap() < state.run(
            commands.take(j),
        ).issues(commands[j]).unwrap(),
{
    lemma_counter_along_run(state, commands, i, i);
    lemma_counter_along_run(state, commands, i + 1, j);
    lemma_counter_along_run(state, commands, j, j);
    assert(commands.take(i + 1).drop_last() =~= commands.take(i));
    assert(commands.take(i + 1).last() == commands[i]);
    lemma_step_preserves(state.run(commands.take(i)), commands[i]);
    lemma_step_preserves(state.run(commands.take(j)), commands[j]);
}

/// A record that was just created is found under its identifier, as created.
pub proof fn lemma_create_then_get(state: RepositoryView, payload: PayloadView, timestamp: u64)
    ensures
        state.create(payload, timestamp).1 matches Some(made) ==> {
            &&& state.create(payload, timestamp).0.get(made.id) == Ok::<_, Seq<char>>(made)
            &&& made.id == state.next_id
            &&& made.allergies == payload.allergies
            &&& made.product_recommendations == payload.product_recommendations
            &&& made.created_at == timestamp
            &&& made.updated_at.is_none()
        },
        state.create(payload, timestamp).1.is_some() == state.can_create(payload, timestamp),
{
}

/// After an update the record under the identifier has the new content and
/// the update time, and its identifier and creation time as before. The
/// update time is later than the creation time where the clock has moved on
/// since the creation.
pub proof fn lemma_update_then_get(
    state: RepositoryView,
    id: u64,
    payload: PayloadView,
    timestamp: u64,
)
    requires
        state.wf(),
        state.records.contains_key(id),
    ensures
        match state.update(id, payload, timestamp).1 {
            Some(Ok(revised)) => {
                &&& state.update(id, payload, timestamp).0.get(id) == Ok::<_, Seq<char>>(revised)
                &&& revised.allergies == payload.allergies
                &&& revised.product_recommendations == payload.product_recommendations
                &&& revised.updated_at == Some(timestamp)
                &&& revised.id == id
                &&& revised.user_id == state.records[id].user_id
                &&& revised.created_at == state.records[id].created_at
                &&& timestamp > state.records[id].created_at ==> revised.updated_at.unwrap()
                    > revised.created_at
            },
            Some(Err(_)) => false,
            None => state.update(id, payload, timestamp).0 == state,
        },
{
}

/// After a deletion no record is found under the identifier.
pub proof fn lemma_delete_then_get(state: RepositoryView, id: u64)
    ensures
        state.delete(id).1.is_ok() ==> state.delete(id).0.get(id) == Err::<ProfileView, _>(
            missing_on_get(id),
        ),
        state.delete(id).1.is_ok() == state.records.contains_key(id),
        state.delete(id).1 matches Ok(removed) ==> removed == state.records[id],
{
}

/// Lookup, update and deletion of an identifier that was never issued change
/// nothing and report that the record is missing, in a message that holds
/// the identifier.
pub proof fn lemma_unknown_id_is_missing(
    state: RepositoryView,
    id: u64,
    payload: PayloadView,
    timestamp: u64,
)
    requires
        state.wf(),
        id >= state.next_id,
    ensures
        state.get(id) == Err::<ProfileView, _>(missing_on_get(id)),
        state.update(id, payload, timestamp) == (
            state,
            Some(Err::<ProfileView, _>(missing_on_update(id))),
        ),
        state.delete(id) == (state, Err::<ProfileView, _>(missing_on_delete(id))),
        mentions(missing_on_get(id), id),
        mentions(missing_on_update(id), id),
        mentions(missing_on_delete(id), id),
{
    lemma_middle_is_mentioned("a food allergy profile with id="@, id, " not found"@);
    lemma_middle_is_mentioned(
        "couldn't update a food allergy profile with id="@,
        id,
        ". profile not found"@,
    );
    lemma_middle_is_mentioned(
        "couldn't delete a food allergy profile with id="@,
        id,
        ". profile not found."@,
    );
}

/// The first record of a selection is the kept record with the least
/// identifier, so two selections start alike.
proof fn lemma_selection_head(
    first: Seq<ProfileView>,
    second: Seq<ProfileView>,
    records: Map<u64, ProfileView>,
    filter: FilterView,
)
    requires
        forall|id: u64| #[trigger] records.contains_key(id) ==> records[id].id == id,
        is_selection(first, records, filter),
        is_selection(second, records, filter),
        first.len() > 0,
    ensures
        second.len() > 0,
        first[0] == second[0],
{
    assert(records.contains_key(first[0].id));
    let k = choose|k: int| 0 <= k < second.len() && #[trigger] second[k] == records[first[0].id];
    assert(records.contains_key(second[0].id));
    let m = choose|m: int| 0 <= m < first.len() && #[trigger] first[m] == records[second[0].id];
    if k > 0 {
        assert(second[0].id < second[k].id);
    }
    if m > 0 {
        assert(first[0].id < first[m].id);
    }
}

/// Without its first record, a selection selects from the records without
/// that one.
proof fn lemma_selection_tail(
    found: Seq<ProfileView>,
    records: Map<u64, ProfileView>,
    filter: FilterView,
)
    requires
        forall|id: u64| #[trigger] records.contains_key(id) ==> records[id].id == id,
        is_selection(found, records, filter),
        found.len() > 0,
    ensures
        is_selection(found.skip(1), records.remove(found[0].id), filter),
{
    let rest = records.remove(found[0].id);
    let tail = found.skip(1);
    assert forall|i: int| 0 <= i < tail.len() implies rest.contains_key((#[trigger] tail[i]).id)
        && rest[tail[i].id] == tail[i] && filter.accepts(tail[i]) by {
        assert(tail[i] == found[i + 1]);
        assert(found[0].id < found[i + 1].id);
    }
    assert forall|i: int, j: int| 0 <= i < j < tail.len() implies (#[trigger] tail[i]).id < (
    #[trigger] tail[j]).id by {
        assert(tail[i] == found[i + 1]);
        assert(tail[j] == found[j + 1]);
    }
    assert forall|id: u64|
        #![trigger rest.contains_key(id)]
        rest.contains_key(id) && filter.accepts(rest[id]) implies exists|i: int|
        0 <= i < tail.len() && #[trigger] tail[i] == rest[id] by {
        assert(records.contains_key(id));
        let i = choose|i: int| 0 <= i < found.len() && #[trigger] found[i] == records[id];
        assert(tail[i - 1] == found[i]);
    }
}

/// A selection is determined by the records and the filter: two lists that
/// both are selections are the same list.
pub proof fn lemma_selection_is_unique(
    first: Seq<ProfileView>,
    second: Seq<ProfileView>,
    records: Map<u64, ProfileView>,
    filter: FilterView,
)
    requires
        forall|id: u64| #[trigger] records.contains_key(id) ==> records[id].id == id,
        is_selection(first, records, filter),
        is_selection(second, records, filter),
    ensures
        first == second,
    decreases first.len(),
{
    if first.len() == 0 {
        if second.len() > 0 {
            lemma_selection_head(second, first, records, filter);
        }
        assert(first =~= second);
    } else {
        lemma_selection_head(first, second, records, filter);
        lemma_selection_tail(first, records, filter);
        lemma_selection_tail(second, records, filter);
        lemma_selection_is_unique(
            first.skip(1),
            second.skip(1),
            records.remove(first[0].id),
            filter,
        );
        assert(first =~= seq![first[0]] + first.skip(1));
        assert(second =~= seq![second[0]] + second.skip(1));
    }
}

} // verus!
