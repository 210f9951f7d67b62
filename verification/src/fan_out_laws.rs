//! What holds of every fan-out of a message event.

use vstd::prelude::*;

use crate::avatar::AvatarSettings;
use crate::events::{ClientEventView, MessageUserInternalData};
use crate::message::MessageView;
use crate::fan_out::{
    after_fan_out, deliver_all, deliver_one, deliver_realm, fan_out, lemma_off_zulip_same,
    lemma_user_ids_step, queues_of, realm_queues, serve_users, user_ids, user_outcome, FanOut,
    FanOutInput, MessageEvent, MessageUserView,
};
use crate::notice::{flavor_of, mirror_loop, payload_for, MessageUsers, Publication};
use crate::queues::{listed, ClientInfo, QueuesView};
use crate::types::UserId;

verus! {

/// A property of fan-outs that no delivery and no envelope breaks.
pub open spec fn kept_by_every_step(
    holds: spec_fn(FanOut) -> bool,
    infos: Map<Seq<char>, ClientInfo>,
    input: FanOutInput,
) -> bool {
    &&& forall|
        state: FanOut,
        id: Seq<char>,
        flags: Set<Seq<char>>,
        internal_data: Option<MessageUserInternalData>,
    |
        holds(state) ==> holds(
            #[trigger] deliver_one(state, infos, id, input, flags, internal_data),
        )
    &&& forall|state: FanOut, outbox: Seq<Publication>|
        holds(state) ==> holds(#[trigger] with_outbox(state, outbox))
}

/// A fan-out with another list of envelopes.
pub open spec fn with_outbox(state: FanOut, outbox: Seq<Publication>) -> FanOut {
    FanOut { outbox, ..state }
}

proof fn lemma_kept_by_deliver_all(
    holds: spec_fn(FanOut) -> bool,
    state: FanOut,
    infos: Map<Seq<char>, ClientInfo>,
    ids: Seq<Seq<char>>,
    input: FanOutInput,
    flags: Set<Seq<char>>,
    internal_data: Option<MessageUserInternalData>,
)
    requires
        kept_by_every_step(holds, infos, input),
        holds(state),
    ensures
        holds(deliver_all(state, infos, ids, input, flags, internal_data)),
    decreases ids.len(),
{
    if ids.len() > 0 {
        lemma_kept_by_deliver_all(holds, state, infos, ids.drop_last(), input, flags, internal_data);
    }
}

proof fn lemma_kept_by_deliver_realm(
    holds: spec_fn(FanOut) -> bool,
    state: FanOut,
    infos: Map<Seq<char>, ClientInfo>,
    ids: Seq<Seq<char>>,
    input: FanOutInput,
    processed: Set<UserId>,
)
    requires
        kept_by_every_step(holds, infos, input),
        holds(state),
    ensures
        holds(deliver_realm(state, infos, ids, input, processed)),
    decreases ids.len(),
{
    if ids.len() > 0 {
        lemma_kept_by_deliver_realm(holds, state, infos, ids.drop_last(), input, processed);
    }
}

proof fn lemma_kept_by_serve_users(
    holds: spec_fn(FanOut) -> bool,
    state: FanOut,
    view: QueuesView,
    input: FanOutInput,
    users: Seq<MessageUserView>,
)
    requires
        kept_by_every_step(holds, view.infos, input),
        holds(state),
    ensures
        holds(serve_users(state, view, input, users)),
    decreases users.len(),
{
    if users.len() > 0 {
        lemma_kept_by_serve_users(holds, state, view, input, users.drop_last());
        let before = serve_users(state, view, input, users.drop_last());
        let outcome = user_outcome(view, input, users.last());
        let asked = with_outbox(before, before.outbox + outcome.1);
        assert(holds(asked));
        assert(asked == FanOut { outbox: before.outbox + outcome.1, ..before });
        lemma_kept_by_deliver_all(
            holds,
            asked,
            view.infos,
            queues_of(view, users.last().id),
            input,
            users.last().flags,
            Some(outcome.0),
        );
    }
}

/// A property that holds before anything is done, and that no delivery
/// and no envelope breaks, holds of the whole fan-out.
pub proof fn lemma_kept_by_fan_out(
    holds: spec_fn(FanOut) -> bool,
    view: QueuesView,
    input: FanOutInput,
    users: Seq<MessageUserView>,
)
    requires
        kept_by_every_step(holds, view.infos, input),
        holds(FanOut::start()),
    ensures
        holds(fan_out(view, input, users)),
{
    lemma_kept_by_serve_users(holds, FanOut::start(), view, input, users);
    lemma_kept_by_deliver_realm(
        holds,
        serve_users(FanOut::start(), view, input, users),
        view.infos,
        realm_queues(view, input),
        input,
        user_ids(users),
    );
}

/// The payload of an event.
pub open spec fn payload_of_event(event: ClientEventView) -> MessageView {
    event->message
}

/// Every event that was appended carries the payload that the cache holds
/// for the flavor of its queue.
pub open spec fn payloads_come_from_cache(state: FanOut, infos: Map<Seq<char>, ClientInfo>) -> bool {
    forall|id: Seq<char>, at: int|
        0 <= at < (#[trigger] state.appended[id]).len() ==> {
            &&& infos.contains_key(id)
            &&& state.cache.contains_key(flavor_of(infos[id]))
            &&& payload_of_event(#[trigger] state.appended[id][at]) == state.cache[flavor_of(
                infos[id],
            )]
        }
}

/// Queues of one flavor get one payload: whatever two queues of the same
/// flavor receive in a fan-out carries the same payload, so that what is
/// written out for them is the same byte for byte.
pub proof fn law_one_payload_per_flavor(
    view: QueuesView,
    input: FanOutInput,
    users: Seq<MessageUserView>,
    first: Seq<char>,
    first_at: int,
    second: Seq<char>,
    second_at: int,
)
    requires
        0 <= first_at < fan_out(view, input, users).appended[first].len(),
        0 <= second_at < fan_out(view, input, users).appended[second].len(),
        flavor_of(view.infos[first]) == flavor_of(view.infos[second]),
    ensures
        view.infos.contains_key(first),
        view.infos.contains_key(second),
        payload_of_event(fan_out(view, input, users).appended[first][first_at])
            == payload_of_event(fan_out(view, input, users).appended[second][second_at]),
{
    let infos = view.infos;
    let holds = |state: FanOut| payloads_come_from_cache(state, infos);
    assert(kept_by_every_step(holds, infos, input)) by {
        assert forall|
            state: FanOut,
            id: Seq<char>,
            flags: Set<Seq<char>>,
            internal_data: Option<MessageUserInternalData>,
        | holds(state) implies holds(
            #[trigger] deliver_one(state, infos, id, input, flags, internal_data),
        ) by {
            let next = deliver_one(state, infos, id, input, flags, internal_data);
            if infos.contains_key(id) {
                let info = infos[id];
                let payload = payload_for(
                    state.cache,
                    &input.wide,
                    info,
                    input.invite_only,
                    &input.settings,
                );
                assert forall|other: Seq<char>, at: int|
                    0 <= at < (#[trigger] next.appended[other]).len() implies {
                    &&& infos.contains_key(other)
                    &&& next.cache.contains_key(flavor_of(infos[other]))
                    &&& payload_of_event(#[trigger] next.appended[other][at])
                        == next.cache[flavor_of(infos[other])]
                } by {
                    if other == id {
                        if at < state.appended[id].len() {
                            assert(next.appended[id][at] == state.appended[id][at]);
                        }
                    } else {
                        assert(next.appended[other] == state.appended[other]);
                    }
                }
            }
        }
        assert forall|state: FanOut, outbox: Seq<Publication>| holds(state) implies holds(
            #[trigger] with_outbox(state, outbox),
        ) by {
            let next = with_outbox(state, outbox);
            assert forall|other: Seq<char>, at: int|
                0 <= at < (#[trigger] next.appended[other]).len() implies {
                &&& infos.contains_key(other)
                &&& next.cache.contains_key(flavor_of(infos[other]))
                &&& payload_of_event(#[trigger] next.appended[other][at]) == next.cache[flavor_of(
                    infos[other],
                )]
            } by {
                assert(next.appended[other] == state.appended[other]);
            }
        }
    }
    assert(holds(FanOut::start()));
    lemma_kept_by_fan_out(holds, view, input, users);
    let done = fan_out(view, input, users);
    assert(payloads_come_from_cache(done, infos));
    assert(0 <= first_at < done.appended[first].len());
    assert(0 <= second_at < done.appended[second].len());
}

/// No queue of a mirroring client that is the client that sent the message
/// has received anything.
pub open spec fn nothing_mirrored(
    state: FanOut,
    infos: Map<Seq<char>, ClientInfo>,
    sending_client: Seq<char>,
) -> bool {
    forall|id: Seq<char>|
        infos.contains_key(id) && mirror_loop(sending_client, infos[id]) ==> (
        #[trigger] state.appended[id]).len() == 0
}

/// A mirroring client never gets back what it sent: where the sending
/// client is a mirroring client and the client of a queue has the same
/// name but for case, the queue receives nothing.
pub proof fn law_no_mirror_loop(
    view: QueuesView,
    input: FanOutInput,
    users: Seq<MessageUserView>,
    id: Seq<char>,
)
    requires
        view.infos.contains_key(id),
        mirror_loop(input.wide.client@, view.infos[id]),
    ensures
        fan_out(view, input, users).appended[id].len() == 0,
{
    let infos = view.infos;
    let sending_client = input.wide.client@;
    let holds = |state: FanOut| nothing_mirrored(state, infos, sending_client);
    assert(kept_by_every_step(holds, infos, input)) by {
        assert forall|
            state: FanOut,
            target: Seq<char>,
            flags: Set<Seq<char>>,
            internal_data: Option<MessageUserInternalData>,
        | holds(state) implies holds(
            #[trigger] deliver_one(state, infos, target, input, flags, internal_data),
        ) by {
            let next = deliver_one(state, infos, target, input, flags, internal_data);
            assert forall|other: Seq<char>|
                infos.contains_key(other) && mirror_loop(sending_client, infos[other]) implies (
            #[trigger] next.appended[other]).len() == 0 by {
                assert(state.appended[other].len() == 0);
            }
        }
        assert forall|state: FanOut, outbox: Seq<Publication>| holds(state) implies holds(
            #[trigger] with_outbox(state, outbox),
        ) by {
            let next = with_outbox(state, outbox);
            assert forall|other: Seq<char>|
                infos.contains_key(other) && mirror_loop(sending_client, infos[other]) implies (
            #[trigger] next.appended[other]).len() == 0 by {
                assert(state.appended[other].len() == 0);
            }
        }
    }
    assert(holds(FanOut::start()));
    lemma_kept_by_fan_out(holds, view, input, users);
    assert(nothing_mirrored(fan_out(view, input, users), infos, sending_client));
}

/// One more event at most, and only at a queue of the registry that is
/// among `ids`.
proof fn lemma_deliver_all_growth(
    state: FanOut,
    infos: Map<Seq<char>, ClientInfo>,
    ids: Seq<Seq<char>>,
    input: FanOutInput,
    flags: Set<Seq<char>>,
    internal_data: Option<MessageUserInternalData>,
)
    requires
        ids.no_duplicates(),
    ensures
        forall|id: Seq<char>|
            (#[trigger] deliver_all(state, infos, ids, input, flags, internal_data).appended[id]).len()
                <= state.appended[id].len() + (if ids.contains(id) && infos.contains_key(id) {
                1int
            } else {
                0int
            }),
    decreases ids.len(),
{
    if ids.len() > 0 {
        let rest = ids.drop_last();
        let last = ids.last();
        lemma_deliver_all_growth(state, infos, rest, input, flags, internal_data);
        let before = deliver_all(state, infos, rest, input, flags, internal_data);
        let after = deliver_all(state, infos, ids, input, flags, internal_data);
        assert(!rest.contains(last)) by {
            if rest.contains(last) {
                let j = choose|j: int| 0 <= j < rest.len() && rest[j] == last;
                assert(ids[j] == ids[ids.len() - 1]);
            }
        }
        assert forall|id: Seq<char>| (#[trigger] after.appended[id]).len() <= state.appended[id].len()
            + (if ids.contains(id) && infos.contains_key(id) {
            1int
        } else {
            0int
        }) by {
            assert(before.appended[id].len() <= state.appended[id].len() + (if rest.contains(id)
                && infos.contains_key(id) {
                1int
            } else {
                0int
            }));
            if rest.contains(id) {
                let j = choose|j: int| 0 <= j < rest.len() && rest[j] == id;
                assert(ids[j] == id);
            }
            if id == last {
                assert(ids[ids.len() - 1] == id);
            }
        }
    }
}

/// One more event at most, and only at a queue of the registry that is
/// among `ids` and whose user was not served.
proof fn lemma_deliver_realm_growth(
    state: FanOut,
    infos: Map<Seq<char>, ClientInfo>,
    ids: Seq<Seq<char>>,
    input: FanOutInput,
    processed: Set<UserId>,
)
    requires
        ids.no_duplicates(),
    ensures
        forall|id: Seq<char>|
            (#[trigger] deliver_realm(state, infos, ids, input, processed).appended[id]).len()
                <= state.appended[id].len() + (if ids.contains(id) && infos.contains_key(id)
                && !processed.contains(infos[id].user_profile_id) {
                1int
            } else {
                0int
            }),
    decreases ids.len(),
{
    if ids.len() > 0 {
        let rest = ids.drop_last();
        let last = ids.last();
        lemma_deliver_realm_growth(state, infos, rest, input, processed);
        let before = deliver_realm(state, infos, rest, input, processed);
        let after = deliver_realm(state, infos, ids, input, processed);
        assert(!rest.contains(last)) by {
            if rest.contains(last) {
                let j = choose|j: int| 0 <= j < rest.len() && rest[j] == last;
                assert(ids[j] == ids[ids.len() - 1]);
            }
        }
        assert forall|id: Seq<char>| (#[trigger] after.appended[id]).len() <= state.appended[id].len()
            + (if ids.contains(id) && infos.contains_key(id) && !processed.contains(
            infos[id].user_profile_id,
        ) {
            1int
        } else {
            0int
        }) by {
            assert(before.appended[id].len() <= state.appended[id].len() + (if rest.contains(id)
                && infos.contains_key(id) && !processed.contains(infos[id].user_profile_id) {
                1int
            } else {
                0int
            }));
            if rest.contains(id) {
                let j = choose|j: int| 0 <= j < rest.len() && rest[j] == id;
                assert(ids[j] == id);
            }
            if id == last {
                assert(ids[ids.len() - 1] == id);
            }
        }
    }
}

/// The user `user_id` is named at most once in the list.
pub open spec fn named_at_most_once(users: Seq<MessageUserView>, user_id: UserId) -> bool {
    forall|i: int, j: int|
        0 <= i < j < users.len() && (#[trigger] users[i]).id == user_id ==> (
        #[trigger] users[j]).id != user_id
}

/// The ids of a list are those of the list without its last user, and the
/// id of that user.
proof fn lemma_user_ids_last(users: Seq<MessageUserView>)
    requires
        users.len() > 0,
    ensures
        user_ids(users) == user_ids(users.drop_last()).insert(users.last().id),
{
    lemma_user_ids_step(users, users.len() - 1);
    assert(users.take(users.len() as int) =~= users);
    assert(users.take(users.len() - 1) =~= users.drop_last());
}

/// Serving the users appends nothing to a queue whose user is not among
/// them, and one event at most to a queue whose user is named once.
proof fn lemma_serve_users_once(
    view: QueuesView,
    input: FanOutInput,
    users: Seq<MessageUserView>,
    id: Seq<char>,
)
    requires
        view.consistent(),
        view.infos.contains_key(id) ==> named_at_most_once(users, view.infos[id].user_profile_id),
    ensures
        serve_users(FanOut::start(), view, input, users).appended[id].len() <= (if
            view.infos.contains_key(id) && user_ids(users).contains(
            view.infos[id].user_profile_id,
        ) {
            1int
        } else {
            0int
        }),
    decreases users.len(),
{
    if users.len() > 0 {
        let rest = users.drop_last();
        let user = users.last();
        lemma_user_ids_last(users);
        if view.infos.contains_key(id) {
            let owner = view.infos[id].user_profile_id;
            assert forall|i: int, j: int|
                0 <= i < j < rest.len() && (#[trigger] rest[i]).id == owner implies (
            #[trigger] rest[j]).id != owner by {
                assert(users[i].id == owner);
                assert(users[j].id == rest[j].id);
            }
        }
        lemma_serve_users_once(view, input, rest, id);
        let before = serve_users(FanOut::start(), view, input, rest);
        let outcome = user_outcome(view, input, user);
        let asked = FanOut { outbox: before.outbox + outcome.1, ..before };
        let ids = queues_of(view, user.id);
        let after = serve_users(FanOut::start(), view, input, users);
        assert(after == deliver_all(asked, view.infos, ids, input, user.flags, Some(outcome.0)));
        assert(ids.no_duplicates()) by {
            if view.by_user.contains_key(user.id as int) {
            }
        }
        lemma_deliver_all_growth(asked, view.infos, ids, input, user.flags, Some(outcome.0));
        assert(after.appended[id].len() <= asked.appended[id].len() + (if ids.contains(id)
            && view.infos.contains_key(id) {
            1int
        } else {
            0int
        }));
        assert(asked.appended[id] == before.appended[id]);
        if ids.contains(id) && view.infos.contains_key(id) {
            let owner = view.infos[id].user_profile_id;
            assert(listed(view.by_user, user.id as int, id));
            assert(owner == user.id);
            if user_ids(rest).contains(owner) {
                let j = choose|j: int| 0 <= j < rest.len() && (#[trigger] rest[j]).id == owner;
                assert(users[j].id == owner);
                assert(users[users.len() - 1].id == owner);
            }
            assert(before.appended[id].len() == 0);
        }
    }
}

proof fn lemma_serve_users_stay(view: QueuesView, input: FanOutInput, users: Seq<MessageUserView>)
    requires
        view.consistent(),
    ensures
        forall|id: Seq<char>|
            (#[trigger] serve_users(FanOut::start(), view, input, users).appended[id]).len() > 0
                ==> view.infos.contains_key(id) && user_ids(users).contains(
                view.infos[id].user_profile_id,
            ),
    decreases users.len(),
{
    if users.len() > 0 {
        let rest = users.drop_last();
        let user = users.last();
        lemma_user_ids_last(users);
        lemma_serve_users_stay(view, input, rest);
        let before = serve_users(FanOut::start(), view, input, rest);
        let outcome = user_outcome(view, input, user);
        let asked = FanOut { outbox: before.outbox + outcome.1, ..before };
        let ids = queues_of(view, user.id);
        let after = serve_users(FanOut::start(), view, input, users);
        assert(after == deliver_all(asked, view.infos, ids, input, user.flags, Some(outcome.0)));
        lemma_deliver_all_reach(asked, view.infos, ids, input, user.flags, Some(outcome.0));
        assert forall|id: Seq<char>| (#[trigger] after.appended[id]).len() > 0 implies
            view.infos.contains_key(id) && user_ids(users).contains(
            view.infos[id].user_profile_id,
        ) by {
            assert(asked.appended[id] == before.appended[id]);
            if ids.contains(id) && view.infos.contains_key(id) {
                assert(listed(view.by_user, user.id as int, id));
            } else {
                assert(after.appended[id] == before.appended[id]);
            }
        }
    }
}

/// What is appended to a queue that is not among `ids`, or not in the
/// registry, is what was appended before.
proof fn lemma_deliver_all_reach(
    state: FanOut,
    infos: Map<Seq<char>, ClientInfo>,
    ids: Seq<Seq<char>>,
    input: FanOutInput,
    flags: Set<Seq<char>>,
    internal_data: Option<MessageUserInternalData>,
)
    ensures
        forall|id: Seq<char>|
            !(ids.contains(id) && infos.contains_key(id)) ==> (#[trigger] deliver_all(
                state,
                infos,
                ids,
                input,
                flags,
                internal_data,
            ).appended[id]) == state.appended[id],
    decreases ids.len(),
{
    if ids.len() > 0 {
        let rest = ids.drop_last();
        lemma_deliver_all_reach(state, infos, rest, input, flags, internal_data);
        let before = deliver_all(state, infos, rest, input, flags, internal_data);
        let after = deliver_all(state, infos, ids, input, flags, internal_data);
        assert forall|id: Seq<char>| !(ids.contains(id) && infos.contains_key(id)) implies (
        #[trigger] after.appended[id]) == state.appended[id] by {
            if rest.contains(id) {
                let j = choose|j: int| 0 <= j < rest.len() && rest[j] == id;
                assert(ids[j] == id);
            }
            if id == ids.last() {
                assert(ids[ids.len() - 1] == id);
            }
            assert(before.appended[id] == state.appended[id]);
        }
    }
}

/// A queue receives at most one event for a notice that names the queue's
/// user at most once.
pub proof fn law_at_most_one_event_per_queue(
    view: QueuesView,
    input: FanOutInput,
    users: Seq<MessageUserView>,
    id: Seq<char>,
)
    requires
        view.consistent(),
        view.infos.contains_key(id) ==> named_at_most_once(users, view.infos[id].user_profile_id),
    ensures
        fan_out(view, input, users).appended[id].len() <= 1,
{
    lemma_serve_users_once(view, input, users, id);
    let served = serve_users(FanOut::start(), view, input, users);
    let ids = realm_queues(view, input);
    assert(ids.no_duplicates()) by {
        if input.public_realm is Some && view.by_realm_all_streams.contains_key(
            input.public_realm->0 as int,
        ) {
        }
    }
    lemma_deliver_realm_growth(served, view.infos, ids, input, user_ids(users));
    assert(fan_out(view, input, users).appended[id].len() <= served.appended[id].len() + (if
        ids.contains(id) && view.infos.contains_key(id) && !user_ids(users).contains(
        view.infos[id].user_profile_id,
    ) {
        1int
    } else {
        0int
    }));
}

/// A message that is not public stays with its users: where the stream is
/// invite-only, or the event names no stream or no realm, every queue that
/// receives the message belongs to one of the users of the notice.
pub proof fn law_only_public_messages_reach_followers(
    view: QueuesView,
    event: MessageEvent,
    users: MessageUsers,
    settings: &AvatarSettings,
    id: Seq<char>,
)
    requires
        view.consistent(),
        event.invite_only || event.stream_name is None || event.realm_id is None,
        fan_out(view, event.input(&users, settings), users.recipients()).appended[id].len() > 0,
    ensures
        view.infos.contains_key(id),
        user_ids(users.recipients()).contains(view.infos[id].user_profile_id),
{
    let input = event.input(&users, settings);
    assert(input.public_realm is None);
    assert(realm_queues(view, input) =~= Seq::<Seq<char>>::empty());
    lemma_serve_users_stay(view, input, users.recipients());
}

proof fn lemma_serve_users_reads_directory(
    state: FanOut,
    view: QueuesView,
    again: QueuesView,
    input: FanOutInput,
    users: Seq<MessageUserView>,
)
    requires
        again.infos == view.infos,
        again.by_user == view.by_user,
    ensures
        serve_users(state, again, input, users) == serve_users(state, view, input, users),
    decreases users.len(),
{
    if users.len() > 0 {
        lemma_serve_users_reads_directory(state, view, again, input, users.drop_last());
        let user = users.last();
        lemma_off_zulip_same(again, view, user.id);
        assert(user_outcome(again, input, user) == user_outcome(view, input, user));
        assert(queues_of(again, user.id) == queues_of(view, user.id));
    }
}

/// A notice that is delivered again is processed as it was the first
/// time: the same events are appended once more, and the same envelopes
/// are asked for. Nothing is held back as a duplicate.
pub proof fn law_replay_repeats_the_fan_out(
    view: QueuesView,
    input: FanOutInput,
    users: Seq<MessageUserView>,
)
    ensures
        fan_out(
            after_fan_out(view, fan_out(view, input, users).appended),
            input,
            users,
        ) == fan_out(view, input, users),
{
    let again = after_fan_out(view, fan_out(view, input, users).appended);
    lemma_serve_users_reads_directory(FanOut::start(), view, again, input, users);
    assert(realm_queues(again, input) == realm_queues(view, input));
}

} // verus!
