//! What holds of the store as a whole, proved from the definitions that the
//! contracts of the store and of the handlers use.

use vstd::prelude::*;

use crate::data::{byte_len, DraftData, Status, TicketData, TITLE_MAX_BYTES};
use crate::model::StoreModel;
use crate::server::{
    after_create, body_verdict, create_reply, get_reply, param_verdict, ErrorData, FailureData,
    RequestData, StatusCode,
};

verus! {

/// Whether every draft of a sequence has acceptable fields.
pub open spec fn all_valid(drafts: Seq<DraftData>) -> bool {
    forall|i: int| 0 <= i < drafts.len() ==> (#[trigger] drafts[i]).is_valid()
}

/// The identifiers below `n`.
pub open spec fn ids_below(n: nat) -> Set<nat> {
    Set::new(|id: nat| id < n)
}

/// There are `n` identifiers below `n`.
pub proof fn lemma_ids_below(n: nat)
    ensures
        ids_below(n).finite(),
        ids_below(n).len() == n,
    decreases n,
{
    if n == 0 {
        assert(ids_below(0) =~= Set::empty());
    } else {
        lemma_ids_below((n - 1) as nat);
        assert(ids_below(n) =~= ids_below((n - 1) as nat).insert((n - 1) as nat));
    }
}

/// Adding a ticket keeps the invariant of the store: the new ticket gets
/// the identifier that comes next, and every ticket that was there stays as
/// it was.
pub proof fn law_add_keeps_invariant(store: StoreModel, draft: DraftData)
    requires
        store.wf(),
        draft.is_valid(),
    ensures
        store.add(draft).wf(),
        store.add(draft).counter == store.counter + 1,
        forall|id: nat| id < store.counter ==> store.add(draft).get(id) == store.get(id),
{
}

/// In a store that meets its invariant, the identifiers in use are those
/// below the counter, and there are as many tickets as the counter says.
pub proof fn law_identifiers_are_contiguous(store: StoreModel)
    requires
        store.wf(),
    ensures
        store.tickets.dom() =~= ids_below(store.counter),
        store.tickets.dom().finite(),
        store.len() == store.counter,
{
    lemma_ids_below(store.counter);
    assert(store.tickets.dom() =~= ids_below(store.counter));
}

/// Adding a sequence of tickets keeps the invariant, moves the counter on
/// by the length of the sequence, puts the draft at position `k` under the
/// `k`-th identifier from the old counter on, and leaves every ticket that
/// was there as it was.
pub proof fn lemma_add_all(store: StoreModel, drafts: Seq<DraftData>)
    requires
        store.wf(),
        all_valid(drafts),
    ensures
        store.add_all(drafts).wf(),
        store.add_all(drafts).counter == store.counter + drafts.len(),
        forall|id: nat| id < store.counter ==> store.add_all(drafts).get(id) == store.get(id),
        forall|k: int|
            0 <= k < drafts.len() ==> store.add_all(drafts).get((store.counter + k) as nat)
                == Some(TicketData::created((store.counter + k) as nat, #[trigger] drafts[k])),
    decreases drafts.len(),
{
    if drafts.len() > 0 {
        let front = drafts.drop_last();
        lemma_add_all(store, front);
        let before = store.add_all(front);
        law_add_keeps_invariant(before, drafts.last());
        assert forall|k: int| 0 <= k < drafts.len() implies store.add_all(drafts).get(
            (store.counter + k) as nat,
        ) == Some(TicketData::created((store.counter + k) as nat, #[trigger] drafts[k])) by {
            if k < front.len() {
                assert(front[k] == drafts[k]);
            }
        }
    }
}

/// However many tickets are created in a fresh store, and in whatever order
/// the write lock lets their creators in, the store ends up with exactly
/// that many tickets; their identifiers are distinct, start at zero and
/// leave no gap; and the creator that came `k`-th was given the identifier
/// `k`.
pub proof fn law_creates_are_numbered_from_zero(drafts: Seq<DraftData>)
    requires
        all_valid(drafts),
    ensures
        StoreModel::empty().add_all(drafts).wf(),
        StoreModel::empty().add_all(drafts).len() == drafts.len(),
        StoreModel::empty().add_all(drafts).tickets.dom() =~= ids_below(drafts.len()),
        forall|k: int|
            0 <= k < drafts.len() ==> (#[trigger] StoreModel::empty().add_all(
                drafts.take(k),
            )).next_id() == k,
        forall|k: int|
            0 <= k < drafts.len() ==> StoreModel::empty().add_all(drafts).get(k as nat) == Some(
                TicketData::created(k as nat, #[trigger] drafts[k]),
            ),
{
    let fresh = StoreModel::empty();
    lemma_add_all(fresh, drafts);
    law_identifiers_are_contiguous(fresh.add_all(drafts));
    assert forall|k: int| 0 <= k < drafts.len() implies (#[trigger] fresh.add_all(
        drafts.take(k),
    )).next_id() == k by {
        lemma_add_all(fresh, drafts.take(k));
    }
}

/// The drafts of which the tickets of `state` were made, in the order of
/// their identifiers, from the identifier `from` on.
pub open spec fn drafts_since(state: StoreModel, from: nat) -> Seq<DraftData> {
    Seq::new(
        (state.counter - from) as nat,
        |k: int|
            DraftData {
                title: state.tickets[(from + k) as nat].title,
                description: state.tickets[(from + k) as nat].description,
            },
    )
}

/// The store as it was when it held the first `count` tickets of `state`.
pub open spec fn first_tickets(state: StoreModel, count: nat) -> StoreModel {
    StoreModel { tickets: state.tickets.restrict(ids_below(count)), counter: count }
}

/// Creating the tickets of `state` from the identifier `from` on, one after
/// another, leads from its first `from` tickets to its first `from + n`.
pub proof fn lemma_creates_rebuild(state: StoreModel, from: nat, n: nat)
    requires
        state.wf(),
        from + n <= state.counter,
    ensures
        first_tickets(state, from).add_all(drafts_since(state, from).take(n as int))
            == first_tickets(state, from + n),
    decreases n,
{
    let drafts = drafts_since(state, from);
    if n == 0 {
        assert(drafts.take(0) =~= Seq::<DraftData>::empty());
    } else {
        let fewer = (n - 1) as nat;
        lemma_creates_rebuild(state, from, fewer);
        assert(drafts.take(n as int).drop_last() =~= drafts.take(fewer as int));
        assert(drafts.take(n as int).last() == drafts[fewer as int]);
        let before = first_tickets(state, from + fewer);
        let id = from + fewer;
        assert(state.tickets.contains_key(id));
        assert(TicketData::created(id, drafts[fewer as int]) == state.tickets[id]);
        assert(before.add(drafts[fewer as int]).tickets =~= first_tickets(
            state,
            from + n,
        ).tickets);
    }
}

/// Every state that has grown out of another was made from it by creating
/// tickets, one after another, and by nothing else: as many as the counter
/// has moved on, each of a draft with acceptable fields. So a store that
/// started empty holds, in every state in which it is met, exactly the
/// tickets that were created in it.
pub proof fn law_grown_store_is_made_by_creates(origin: StoreModel, state: StoreModel)
    requires
        origin.wf(),
        state.wf(),
        origin.grows_into(state),
    ensures
        drafts_since(state, origin.counter).len() == state.counter - origin.counter,
        all_valid(drafts_since(state, origin.counter)),
        state == origin.add_all(drafts_since(state, origin.counter)),
{
    let from = origin.counter;
    let drafts = drafts_since(state, from);
    let n = (state.counter - from) as nat;
    lemma_creates_rebuild(state, from, n);
    assert(drafts.take(n as int) =~= drafts);
    assert forall|id: nat|
        first_tickets(state, from).tickets.contains_key(id) == origin.tickets.contains_key(
            id,
        ) by {
        if id < from {
            assert(origin.tickets.contains_key(id));
            assert(state.tickets.contains_key(id));
        }
    }
    assert(first_tickets(state, from).tickets =~= origin.tickets);
    assert(first_tickets(state, state.counter).tickets =~= state.tickets);
    assert forall|k: int| 0 <= k < drafts.len() implies (#[trigger] drafts[k]).is_valid() by {
        assert(state.tickets.contains_key((from + k) as nat));
    }
}

/// A ticket that was created is found under the identifier that its
/// creator was given, with the title and the description of the draft and
/// in its first status, however many tickets are created after it.
pub proof fn law_created_ticket_is_found(store: StoreModel, draft: DraftData, later: Seq<DraftData>)
    requires
        store.wf(),
        draft.is_valid(),
        all_valid(later),
    ensures
        store.add(draft).add_all(later).get(store.next_id()) == Some(
            TicketData {
                id: store.next_id(),
                title: draft.title,
                description: draft.description,
                status: Status::ToDo,
            },
        ),
{
    law_add_keeps_invariant(store, draft);
    let first = store.add(draft);
    lemma_add_all(first, later);
    assert(first.add_all(later).get(store.next_id()) == first.get(store.next_id()));
}

/// The same through the handlers: where a request for a new ticket was
/// answered with an identifier, a request for that identifier is answered
/// with the ticket, whatever has been created in between.
pub proof fn law_get_after_create(
    store: StoreModel,
    request: RequestData,
    later: Seq<DraftData>,
    param: Seq<char>,
)
    requires
        store.wf(),
        all_valid(later),
        create_reply(store, Some(request)) is Ok,
        param_verdict(Some(param)) == Ok::<nat, ErrorData>(store.next_id()),
    ensures
        get_reply(after_create(store, Some(request)).add_all(later), Some(param)) == Ok::<
            _,
            ErrorData,
        >(
            TicketData {
                id: store.next_id(),
                title: request.title,
                description: request.description,
                status: Status::ToDo,
            },
        ),
{
    let draft = body_verdict(Some(request))->Ok_0;
    law_created_ticket_is_found(store, draft, later);
}

/// A request for a new ticket leaves the store in a state that meets the
/// invariant, whatever its body is: a draft is made only of fields that are
/// acceptable, and only a draft is stored.
pub proof fn law_create_keeps_invariant(store: StoreModel, body: Option<RequestData>)
    requires
        store.wf(),
    ensures
        after_create(store, body).wf(),
        body_verdict(body) matches Ok(draft) ==> draft.is_valid(),
        create_reply(store, body) matches Ok(id) ==> id == store.next_id() && after_create(
            store,
            body,
        ).counter == store.counter + 1,
        create_reply(store, body) is Err ==> after_create(store, body) == store,
{
}

/// An identifier that has not been handed out is answered with "not
/// found", and with nothing else.
pub proof fn law_unissued_id_is_not_found(store: StoreModel, param: Option<Seq<char>>, id: nat)
    requires
        store.wf(),
        param_verdict(param) == Ok::<_, ErrorData>(id),
        id >= store.counter,
    ensures
        store.get(id) is None,
        get_reply(store, param) == Err::<TicketData, _>(ErrorData::NotFound("Ticket not found"@)),
        get_reply(store, param)->Err_0.status().number() == 404,
{
}

/// A request for a new ticket whose body could not be decoded, or whose
/// fields are refused, is answered with "bad request" and leaves the store
/// as it was, with as many tickets as before.
pub proof fn law_malformed_create_changes_nothing(store: StoreModel, body: Option<RequestData>)
    requires
        body_verdict(body) is Err,
    ensures
        after_create(store, body) == store,
        after_create(store, body).len() == store.len(),
        create_reply(store, body) matches Err(FailureData::Rejected(error)) && error.status()
            == StatusCode::BadRequest && error.status().number() == 400,
{
}

/// A body that could not be decoded is malformed, and so is a body whose
/// title is empty or longer than the limit.
pub proof fn law_what_is_malformed(body: Option<RequestData>)
    requires
        body matches Some(request) ==> request.title.len() == 0 || byte_len(request.title)
            > TITLE_MAX_BYTES,
    ensures
        body_verdict(body) is Err,
{
}

} // verus!
