//! The registry of client event queues.
//!
//! A queue is found by its id, through its user, and, where it follows all
//! public streams of its realm, through that realm. The three indices are
//! kept consistent: every id that a secondary index holds is the id of a
//! queue in the registry.

use std::collections::HashMap;
use vstd::hash_map::StringHashMap;
use vstd::prelude::*;

use crate::events::{events_view, ClientEvent, ClientEventView};
use crate::narrow::{matches_narrow, narrow_matches, Narrow};
use crate::text::{str_eq, texts_view};
use crate::types::{RealmId, UserId};

verus! {

broadcast use vstd::std_specs::hash::group_hash_axioms;

/// The id of a queue: an opaque text.
#[derive(Debug, PartialEq, Eq, Hash)]
pub struct QueueId {
    id: String,
}

impl View for QueueId {
    type V = Seq<char>;

    closed spec fn view(&self) -> Seq<char> {
        self.id@
    }
}

impl QueueId {
    /// The queue id that is written as `id`.
    pub fn new(id: String) -> (r: QueueId)
        ensures
            r@ == id@,
    {
        QueueId { id }
    }

    /// The text of the id.
    pub fn as_str(&self) -> (r: &str)
        ensures
            r@ == self@,
    {
        self.id.as_str()
    }

    /// Whether two ids are the same.
    pub fn same(&self, other: &QueueId) -> (r: bool)
        ensures
            r == (self@ == other@),
    {
        self.id == other.id
    }
}

impl Clone for QueueId {
    fn clone(&self) -> (r: QueueId)
        ensures
            r@ == self@,
    {
        QueueId { id: self.id.clone() }
    }
}

/// The texts of a list of queue ids.
pub open spec fn ids_view(ids: Seq<QueueId>) -> Seq<Seq<char>> {
    ids.map_values(|q: QueueId| q@)
}

/// A copy of a list of queue ids.
pub fn clone_ids(ids: &Vec<QueueId>) -> (r: Vec<QueueId>)
    ensures
        ids_view(r@) == ids_view(ids@),
{
    let mut out: Vec<QueueId> = Vec::new();
    let mut i: usize = 0;
    while i < ids.len()
        invariant
            i <= ids.len(),
            out@.len() == i,
            forall|j: int| 0 <= j < i ==> out@[j]@ == ids@[j]@,
        decreases ids.len() - i,
    {
        out.push(ids[i].clone());
        i += 1;
    }
    assert(ids_view(out@) =~= ids_view(ids@));
    out
}

/// No queue has the id that was asked for.
#[derive(Clone, Copy, Debug, PartialEq, Eq, Structural)]
pub struct UnknownQueue;

/// What a client said of itself when it registered its queue.
#[derive(Debug)]
pub struct ClientInfo {
    pub user_profile_id: UserId,
    pub realm_id: RealmId,
    pub client_type_name: String,
    /// The client wants rendered HTML, not the Markdown source.
    pub apply_markdown: bool,
    /// The client computes Gravatar URLs itself.
    pub client_gravatar: bool,
    /// The queue follows all public streams of its realm.
    pub all_public_streams: bool,
    /// The terms that a message must meet to enter the queue.
    pub narrow: Narrow,
    /// The kinds of event that the queue takes; all of them where absent.
    pub event_types: Option<Vec<String>>,
}

/// Whether a queue takes message events at all.
pub open spec fn info_accepts_messages(info: ClientInfo) -> bool {
    match info.event_types {
        None => true,
        Some(types) => texts_view(types@).contains("message"@),
    }
}

/// Whether a queue takes `event`: it takes message events, and the message
/// meets the queue's narrow.
pub open spec fn info_accepts_event(info: ClientInfo, event: ClientEventView) -> bool {
    match event {
        ClientEventView::Message { message, flags, internal_data, local_message_id } => {
            info_accepts_messages(info) && narrow_matches(message, flags, info.narrow@)
        },
    }
}

impl ClientInfo {
    /// Whether the queue takes message events at all.
    pub fn accepts_messages(&self) -> (r: bool)
        ensures
            r == info_accepts_messages(*self),
    {
        match &self.event_types {
            None => true,
            Some(types) => {
                let mut i: usize = 0;
                while i < types.len()
                    invariant
                        i <= types.len(),
                        self.event_types == Some(*types),
                        forall|j: int| 0 <= j < i ==> texts_view(types@)[j] != "message"@,
                    decreases types.len() - i,
                {
                    if str_eq(types[i].as_str(), "message") {
                        assert(texts_view(types@)[i as int] == "message"@);
                        assert(texts_view(types@).contains("message"@));
                        return true;
                    }
                    i += 1;
                }
                false
            },
        }
    }

    /// Whether the queue takes `event`.
    pub fn accepts_event(&self, event: &ClientEvent) -> (r: bool)
        ensures
            r == info_accepts_event(*self, event@),
    {
        match event {
            ClientEvent::Message { message, flags, .. } => {
                self.accepts_messages() && matches_narrow(message, flags, &self.narrow)
            },
        }
    }
}

/// A client's queue: who the client is, and the events that wait for it.
#[derive(Debug)]
pub struct Client {
    queue_id: QueueId,
    info: ClientInfo,
    events: Vec<ClientEvent>,
    last_connection_time: i64,
}

impl Client {
    /// The queue's id.
    pub closed spec fn id(&self) -> Seq<char> {
        self.queue_id@
    }

    /// What the client said of itself.
    pub closed spec fn info_spec(&self) -> ClientInfo {
        self.info
    }

    /// The events that wait, oldest first.
    pub closed spec fn log(&self) -> Seq<ClientEventView> {
        events_view(self.events@)
    }

    /// When the client was last connected.
    pub closed spec fn connected_at(&self) -> i64 {
        self.last_connection_time
    }

    /// Whether `self` is the queue `other` with, possibly, other events and
    /// another time of connection.
    pub open spec fn same_queue(&self, other: &Client) -> bool {
        self.id() == other.id() && self.info_spec() == other.info_spec()
    }

    /// An empty queue for a client that connects at `now`.
    pub fn new(queue_id: QueueId, info: ClientInfo, now: i64) -> (r: Client)
        ensures
            r.id() == queue_id@,
            r.info_spec() == info,
            r.log() == Seq::<ClientEventView>::empty(),
            r.connected_at() == now,
    {
        let r = Client { queue_id, info, events: Vec::new(), last_connection_time: now };
        assert(r.log() =~= Seq::<ClientEventView>::empty());
        r
    }

    /// The queue's id.
    pub fn queue_id(&self) -> (r: &QueueId)
        ensures
            r@ == self.id(),
    {
        &self.queue_id
    }

    /// What the client said of itself.
    pub fn info(&self) -> (r: &ClientInfo)
        ensures
            *r == self.info_spec(),
    {
        &self.info
    }

    /// The events that wait, oldest first.
    pub fn events(&self) -> (r: &Vec<ClientEvent>)
        ensures
            events_view(r@) == self.log(),
    {
        &self.events
    }

    /// When the client was last connected.
    pub fn last_connection_time(&self) -> (r: i64)
        ensures
            r == self.connected_at(),
    {
        self.last_connection_time
    }

    /// Whether the queue takes message events at all.
    pub fn accepts_messages(&self) -> (r: bool)
        ensures
            r == info_accepts_messages(self.info_spec()),
    {
        self.info.accepts_messages()
    }

    /// Whether the queue takes `event`.
    pub fn accepts_event(&self, event: &ClientEvent) -> (r: bool)
        ensures
            r == info_accepts_event(self.info_spec(), event@),
    {
        self.info.accepts_event(event)
    }

    /// Appends `event` to the queue.
    pub fn add_event(&mut self, event: ClientEvent)
        ensures
            final(self).log() == old(self).log().push(event@),
            final(self).same_queue(old(self)),
            final(self).connected_at() == old(self).connected_at(),
    {
        self.events.push(event);
        assert(self.log() =~= old(self).log().push(event@));
    }

    /// Hands out the events that wait and leaves the queue empty.
    pub fn take_events(&mut self) -> (r: Vec<ClientEvent>)
        ensures
            events_view(r@) == old(self).log(),
            final(self).log() == Seq::<ClientEventView>::empty(),
            final(self).same_queue(old(self)),
            final(self).connected_at() == old(self).connected_at(),
    {
        let mut taken: Vec<ClientEvent> = Vec::new();
        std::mem::swap(&mut self.events, &mut taken);
        assert(self.log() =~= Seq::<ClientEventView>::empty());
        taken
    }

    /// Records that the client is connected at `now`.
    pub fn touch(&mut self, now: i64)
        ensures
            final(self).connected_at() == now,
            final(self).log() == old(self).log(),
            final(self).same_queue(old(self)),
    {
        self.last_connection_time = now;
    }
}

/// A secondary index: for each key the ids of its queues, in the order in
/// which they were added.
pub type Index = Map<int, Seq<Seq<char>>>;

/// Whether `index` holds `id` under `key`.
pub open spec fn listed(index: Index, key: int, id: Seq<char>) -> bool {
    index.contains_key(key) && index[key].contains(id)
}

/// No key of `index` has an empty list or holds an id twice.
pub open spec fn index_tidy(index: Index) -> bool {
    forall|key: int| #[trigger]
        index.contains_key(key) ==> index[key].len() > 0 && index[key].no_duplicates()
}

/// `index` with `id` added at the end of the list of `key`.
pub open spec fn index_with(index: Index, key: int, id: Seq<char>) -> Index {
    index.insert(
        key,
        if index.contains_key(key) {
            index[key].push(id)
        } else {
            seq![id]
        },
    )
}

/// `index` without `id` under `key`; a key whose list becomes empty leaves
/// the index.
pub open spec fn index_without(index: Index, key: int, id: Seq<char>) -> Index {
    if listed(index, key, id) {
        let rest = index[key].remove(index[key].index_of(id));
        if rest.len() == 0 {
            index.remove(key)
        } else {
            index.insert(key, rest)
        }
    } else {
        index
    }
}

/// What an index of the registry holds.
pub open spec fn index_view(index: Map<i32, Vec<QueueId>>) -> Index {
    Map::new(
        |key: int| i32::MIN <= key <= i32::MAX && index.contains_key(key as i32),
        |key: int| ids_view(index[key as i32]@),
    )
}

/// Adding an id that a key does not hold yet keeps an index tidy, and adds
/// this one entry and no other.
pub proof fn lemma_index_with(index: Index, key: int, id: Seq<char>)
    requires
        index_tidy(index),
        !listed(index, key, id),
    ensures
        index_tidy(index_with(index, key, id)),
        forall|k: int, i: Seq<char>|
            listed(index_with(index, key, id), k, i) <==> (listed(index, k, i) || (k == key && i
                == id)),
{
    let after = index_with(index, key, id);
    assert forall|k: int, i: Seq<char>| listed(after, k, i) <==> (listed(index, k, i) || (k == key
        && i == id)) by {
        if k == key {
            if index.contains_key(key) {
                let before = index[key];
                assert(after[key] == before.push(id));
                if before.contains(i) {
                    let j = choose|j: int| 0 <= j < before.len() && before[j] == i;
                    assert(before.push(id)[j] == i);
                }
                if i == id {
                    assert(before.push(id)[before.len() as int] == i);
                }
                if after[key].contains(i) {
                    let j = choose|j: int| 0 <= j < after[key].len() && after[key][j] == i;
                    if j < before.len() {
                        assert(before[j] == i);
                    }
                }
            } else {
                assert(after[key] == seq![id]);
                if i == id {
                    assert(seq![id][0] == i);
                }
            }
        }
    }
    assert forall|k: int| #[trigger] after.contains_key(k) implies after[k].len() > 0
        && after[k].no_duplicates() by {
        if k == key && index.contains_key(key) {
            let before = index[key];
            assert forall|a: int, b: int|
                0 <= a < after[k].len() && 0 <= b < after[k].len() && a != b implies after[k][a]
                != after[k][b] by {
                if a == before.len() {
                    assert(before.contains(before[b]));
                } else if b == before.len() {
                    assert(before.contains(before[a]));
                }
            }
        } else if k != key {
            assert(index.contains_key(k));
        }
    }
}

/// Taking an id away keeps an index tidy, and removes this one entry and
/// no other.
pub proof fn lemma_index_without(index: Index, key: int, id: Seq<char>)
    requires
        index_tidy(index),
    ensures
        index_tidy(index_without(index, key, id)),
        forall|k: int, i: Seq<char>|
            listed(index_without(index, key, id), k, i) <==> (listed(index, k, i) && !(k == key
                && i == id)),
{
    let after = index_without(index, key, id);
    if listed(index, key, id) {
        let before = index[key];
        let at = before.index_of(id);
        let rest = before.remove(at);
        assert(0 <= at < before.len() && before[at] == id);
        assert forall|i: Seq<char>| rest.contains(i) <==> (before.contains(i) && i != id) by {
            if rest.contains(i) {
                let j = choose|j: int| 0 <= j < rest.len() && rest[j] == i;
                if j < at {
                    assert(before[j] == i);
                } else {
                    assert(before[j + 1] == i);
                }
            }
            if before.contains(i) && i != id {
                let j = choose|j: int| 0 <= j < before.len() && before[j] == i;
                if j < at {
                    assert(rest[j] == i);
                } else {
                    assert(rest[j - 1] == i);
                }
            }
        }
        assert(rest.no_duplicates()) by {
            assert forall|a: int, b: int|
                0 <= a < rest.len() && 0 <= b < rest.len() && a != b implies rest[a] != rest[b] by {
                let a2 = if a < at {
                    a
                } else {
                    a + 1
                };
                let b2 = if b < at {
                    b
                } else {
                    b + 1
                };
                assert(before[a2] != before[b2]);
            }
        }
        assert forall|k: int, i: Seq<char>| listed(after, k, i) <==> (listed(index, k, i) && !(k
            == key && i == id)) by {
            if k == key {
                if rest.len() == 0 {
                    assert(!after.contains_key(key));
                    if before.contains(i) && i != id {
                        assert(rest.contains(i));
                        let j = choose|j: int| 0 <= j < rest.len() && rest[j] == i;
                    }
                } else {
                    assert(after[key] == rest);
                }
            }
        }
        assert forall|k: int| #[trigger] after.contains_key(k) implies after[k].len() > 0
            && after[k].no_duplicates() by {
            if k != key {
                assert(index.contains_key(k));
            }
        }
    }
}

fn position_of(list: &Vec<QueueId>, id: &QueueId) -> (r: Option<usize>)
    ensures
        match r {
            Some(at) => at < list.len() && list@[at as int]@ == id@,
            None => !ids_view(list@).contains(id@),
        },
{
    let mut i: usize = 0;
    while i < list.len()
        invariant
            i <= list.len(),
            forall|j: int| 0 <= j < i ==> ids_view(list@)[j] != id@,
        decreases list.len() - i,
    {
        if list[i].same(id) {
            return Some(i);
        }
        i += 1;
    }
    None
}

fn enlist(index: &mut HashMap<i32, Vec<QueueId>>, key: i32, id: QueueId)
    ensures
        index_view(final(index)@) == index_with(index_view(old(index)@), key as int, id@),
{
    let mut list = match index.remove(&key) {
        Some(list) => list,
        None => Vec::new(),
    };
    let ghost before = ids_view(list@);
    list.push(id);
    assert(ids_view(list@) =~= before.push(id@));
    index.insert(key, list);
    assert(index_view(index@) =~= index_with(index_view(old(index)@), key as int, id@)) by {
        if !old(index)@.contains_key(key) {
            assert(before =~= Seq::<Seq<char>>::empty());
            assert(before.push(id@) =~= seq![id@]);
        }
    }
}

fn unlist(index: &mut HashMap<i32, Vec<QueueId>>, key: i32, id: &QueueId)
    requires
        index_tidy(index_view(old(index)@)),
    ensures
        index_view(final(index)@) == index_without(index_view(old(index)@), key as int, id@),
{
    let ghost before = index_view(old(index)@);
    match index.remove(&key) {
        Some(mut list) => {
            let ghost ids = ids_view(list@);
            assert(before.contains_key(key as int) && before[key as int] == ids);
            match position_of(&list, id) {
                Some(at) => {
                    assert(ids[at as int] == id@);
                    assert(ids.contains(id@));
                    assert(ids.index_of(id@) == at) by {
                        let chosen = ids.index_of(id@);
                        assert(0 <= chosen < ids.len() && ids[chosen] == id@);
                    }
                    list.remove(at);
                    assert(ids_view(list@) =~= ids.remove(at as int));
                    if list.len() > 0 {
                        index.insert(key, list);
                    }
                    assert(index_view(index@) =~= index_without(before, key as int, id@));
                },
                None => {
                    index.insert(key, list);
                    assert(index_view(index@) =~= before);
                },
            }
        },
        None => {
            assert(index_view(index@) =~= before);
        },
    }
}

/// What the registry holds.
pub struct QueuesView {
    /// For each queue, by its id, what the client said of itself.
    pub infos: Map<Seq<char>, ClientInfo>,
    /// For each queue the events that wait, oldest first.
    pub logs: Map<Seq<char>, Seq<ClientEventView>>,
    /// For each queue the time at which its client was last connected.
    pub connected_at: Map<Seq<char>, i64>,
    /// For each user the ids of the user's queues.
    pub by_user: Index,
    /// For each realm the ids of the queues that follow all public streams.
    pub by_realm_all_streams: Index,
}

impl QueuesView {
    /// Whether there is a queue with this id.
    pub open spec fn contains(self, id: Seq<char>) -> bool {
        self.infos.contains_key(id)
    }

    /// The three indices agree: the secondary indices hold exactly the
    /// queues of the primary one, each under its user and, where it follows
    /// all public streams, under its realm, and none twice.
    pub open spec fn consistent(self) -> bool {
        &&& self.logs.dom() == self.infos.dom()
        &&& self.connected_at.dom() == self.infos.dom()
        &&& index_tidy(self.by_user)
        &&& index_tidy(self.by_realm_all_streams)
        &&& forall|user: int, id: Seq<char>| #[trigger]
            listed(self.by_user, user, id) ==> self.infos.contains_key(id)
                && self.infos[id].user_profile_id == user
        &&& forall|id: Seq<char>| #[trigger]
            self.infos.contains_key(id) ==> listed(
                self.by_user,
                self.infos[id].user_profile_id as int,
                id,
            )
        &&& forall|realm: int, id: Seq<char>| #[trigger]
            listed(self.by_realm_all_streams, realm, id) ==> self.infos.contains_key(id)
                && self.infos[id].realm_id == realm && self.infos[id].all_public_streams
        &&& forall|id: Seq<char>| #[trigger]
            self.infos.contains_key(id) && self.infos[id].all_public_streams ==> listed(
                self.by_realm_all_streams,
                self.infos[id].realm_id as int,
                id,
            )
    }

    /// The registry without the queue `id`.
    pub open spec fn removed(self, id: Seq<char>) -> QueuesView {
        if self.infos.contains_key(id) {
            let info = self.infos[id];
            QueuesView {
                infos: self.infos.remove(id),
                logs: self.logs.remove(id),
                connected_at: self.connected_at.remove(id),
                by_user: index_without(self.by_user, info.user_profile_id as int, id),
                by_realm_all_streams: if info.all_public_streams {
                    index_without(self.by_realm_all_streams, info.realm_id as int, id)
                } else {
                    self.by_realm_all_streams
                },
            }
        } else {
            self
        }
    }

    /// The registry with a queue added under an id that it does not hold.
    pub open spec fn added(
        self,
        id: Seq<char>,
        info: ClientInfo,
        log: Seq<ClientEventView>,
        connected_at: i64,
    ) -> QueuesView {
        QueuesView {
            infos: self.infos.insert(id, info),
            logs: self.logs.insert(id, log),
            connected_at: self.connected_at.insert(id, connected_at),
            by_user: index_with(self.by_user, info.user_profile_id as int, id),
            by_realm_all_streams: if info.all_public_streams {
                index_with(self.by_realm_all_streams, info.realm_id as int, id)
            } else {
                self.by_realm_all_streams
            },
        }
    }

    /// The registry in which the queue `id` holds `log` and was last
    /// connected at `connected_at`.
    pub open spec fn updated(
        self,
        id: Seq<char>,
        log: Seq<ClientEventView>,
        connected_at: i64,
    ) -> QueuesView {
        QueuesView {
            logs: self.logs.insert(id, log),
            connected_at: self.connected_at.insert(id, connected_at),
            ..self
        }
    }
}

/// Removing a queue keeps the indices in agreement.
pub proof fn lemma_removed_consistent(view: QueuesView, id: Seq<char>)
    requires
        view.consistent(),
    ensures
        view.removed(id).consistent(),
        !view.removed(id).contains(id),
{
    if view.infos.contains_key(id) {
        let info = view.infos[id];
        let after = view.removed(id);
        lemma_index_without(view.by_user, info.user_profile_id as int, id);
        lemma_index_without(view.by_realm_all_streams, info.realm_id as int, id);
        assert(after.logs.dom() =~= after.infos.dom());
        assert(after.connected_at.dom() =~= after.infos.dom());
        assert forall|user: int, i: Seq<char>| #[trigger]
            listed(after.by_user, user, i) implies after.infos.contains_key(i)
            && after.infos[i].user_profile_id == user by {
            assert(listed(view.by_user, user, i));
        }
        assert forall|i: Seq<char>| #[trigger] after.infos.contains_key(i) implies listed(
            after.by_user,
            after.infos[i].user_profile_id as int,
            i,
        ) by {
            assert(view.infos.contains_key(i));
            assert(listed(view.by_user, view.infos[i].user_profile_id as int, i));
        }
        assert forall|realm: int, i: Seq<char>| #[trigger]
            listed(after.by_realm_all_streams, realm, i) implies after.infos.contains_key(i)
            && after.infos[i].realm_id == realm && after.infos[i].all_public_streams by {
            assert(listed(view.by_realm_all_streams, realm, i));
        }
        assert forall|i: Seq<char>| #[trigger]
            after.infos.contains_key(i) && after.infos[i].all_public_streams implies listed(
            after.by_realm_all_streams,
            after.infos[i].realm_id as int,
            i,
        ) by {
            assert(view.infos.contains_key(i));
            assert(listed(view.by_realm_all_streams, view.infos[i].realm_id as int, i));
        }
    }
}

/// Adding a queue under a new id keeps the indices in agreement.
pub proof fn lemma_added_consistent(
    view: QueuesView,
    id: Seq<char>,
    info: ClientInfo,
    log: Seq<ClientEventView>,
    connected_at: i64,
)
    requires
        view.consistent(),
        !view.contains(id),
    ensures
        view.added(id, info, log, connected_at).consistent(),
{
    let after = view.added(id, info, log, connected_at);
    assert(!listed(view.by_user, info.user_profile_id as int, id));
    assert(!listed(view.by_realm_all_streams, info.realm_id as int, id));
    lemma_index_with(view.by_user, info.user_profile_id as int, id);
    lemma_index_with(view.by_realm_all_streams, info.realm_id as int, id);
    assert(after.logs.dom() =~= after.infos.dom());
    assert(after.connected_at.dom() =~= after.infos.dom());
    assert forall|user: int, i: Seq<char>| #[trigger]
        listed(after.by_user, user, i) implies after.infos.contains_key(i)
        && after.infos[i].user_profile_id == user by {
        if !(user == info.user_profile_id && i == id) {
            assert(listed(view.by_user, user, i));
        }
    }
    assert forall|i: Seq<char>| #[trigger] after.infos.contains_key(i) implies listed(
        after.by_user,
        after.infos[i].user_profile_id as int,
        i,
    ) by {
        if i != id {
            assert(view.infos.contains_key(i));
            assert(listed(view.by_user, view.infos[i].user_profile_id as int, i));
        }
    }
    assert forall|realm: int, i: Seq<char>| #[trigger]
        listed(after.by_realm_all_streams, realm, i) implies after.infos.contains_key(i)
        && after.infos[i].realm_id == realm && after.infos[i].all_public_streams by {
        if !(info.all_public_streams && realm == info.realm_id && i == id) {
            assert(listed(view.by_realm_all_streams, realm, i));
        }
    }
    assert forall|i: Seq<char>| #[trigger]
        after.infos.contains_key(i) && after.infos[i].all_public_streams implies listed(
        after.by_realm_all_streams,
        after.infos[i].realm_id as int,
        i,
    ) by {
        if i != id {
            assert(view.infos.contains_key(i));
            assert(listed(view.by_realm_all_streams, view.infos[i].realm_id as int, i));
        }
    }
}

/// The registry of the queues that this process owns.
pub struct Queues {
    /// The queues; a slot is empty once its queue is removed.
    slots: Vec<Option<Client>>,
    /// For each queue id the slot of its queue.
    index: StringHashMap<usize>,
    /// Slots that were emptied and can be filled again.
    free: Vec<usize>,
    by_user: HashMap<UserId, Vec<QueueId>>,
    by_realm_all_streams: HashMap<RealmId, Vec<QueueId>>,
}

impl View for Queues {
    type V = QueuesView;

    closed spec fn view(&self) -> QueuesView {
        QueuesView {
            infos: Map::new(
                |id: Seq<char>| self.index@.contains_key(id),
                |id: Seq<char>| self.client_at(id).info,
            ),
            logs: Map::new(
                |id: Seq<char>| self.index@.contains_key(id),
                |id: Seq<char>| self.client_at(id).log(),
            ),
            connected_at: Map::new(
                |id: Seq<char>| self.index@.contains_key(id),
                |id: Seq<char>| self.client_at(id).last_connection_time,
            ),
            by_user: index_view(self.by_user@),
            by_realm_all_streams: index_view(self.by_realm_all_streams@),
        }
    }
}

impl Queues {
    spec fn client_at(&self, id: Seq<char>) -> Client {
        self.slots@[self.index@[id] as int]->0
    }

    /// The slots and the index of ids agree.
    spec fn primary_ok(&self) -> bool {
        &&& forall|id: Seq<char>| #[trigger]
            self.index@.contains_key(id) ==> {
                &&& self.index@[id] < self.slots@.len()
                &&& self.slots@[self.index@[id] as int] is Some
                &&& self.client_at(id).queue_id@ == id
            }
        &&& forall|i: int|
            0 <= i < self.slots@.len() && (#[trigger] self.slots@[i]) is Some ==> {
                &&& self.index@.contains_key(self.slots@[i]->0.queue_id@)
                &&& self.index@[self.slots@[i]->0.queue_id@] == i
            }
    }

    /// The registry is well formed: its indices agree.
    pub closed spec fn wf(&self) -> bool {
        self.primary_ok() && self@.consistent()
    }

    /// In a well-formed registry the indices agree.
    pub proof fn lemma_wf_consistent(&self)
        requires
            self.wf(),
        ensures
            self@.consistent(),
    {
    }

    /// The registry that holds no queue.
    pub fn new() -> (r: Queues)
        ensures
            r.wf(),
            r@.infos == Map::<Seq<char>, ClientInfo>::empty(),
            r@.logs == Map::<Seq<char>, Seq<ClientEventView>>::empty(),
            r@.connected_at == Map::<Seq<char>, i64>::empty(),
            r@.by_user == Map::<int, Seq<Seq<char>>>::empty(),
            r@.by_realm_all_streams == Map::<int, Seq<Seq<char>>>::empty(),
    {
        let r = Queues {
            slots: Vec::new(),
            index: StringHashMap::new(),
            free: Vec::new(),
            by_user: HashMap::new(),
            by_realm_all_streams: HashMap::new(),
        };
        assert(r@.infos =~= Map::<Seq<char>, ClientInfo>::empty());
        assert(r@.logs =~= Map::<Seq<char>, Seq<ClientEventView>>::empty());
        assert(r@.connected_at =~= Map::<Seq<char>, i64>::empty());
        assert(r@.by_user =~= Map::<int, Seq<Seq<char>>>::empty());
        assert(r@.by_realm_all_streams =~= Map::<int, Seq<Seq<char>>>::empty());
        r
    }

    /// How many queues there are.
    pub fn len(&self) -> (r: usize)
        ensures
            r == self@.infos.dom().len(),
    {
        broadcast use vstd::hash_map::group_hash_map_axioms;

        assert(self@.infos.dom() =~= self.index@.dom());
        self.index.len()
    }

    /// Whether there is a queue with this id.
    pub fn contains(&self, id: &QueueId) -> (r: bool)
        ensures
            r == self@.contains(id@),
    {
        self.index.contains_key(id.as_str())
    }

    /// The queue with this id.
    pub fn get(&self, id: &QueueId) -> (r: Result<&Client, UnknownQueue>)
        requires
            self.wf(),
        ensures
            match r {
                Ok(client) => {
                    &&& self@.contains(id@)
                    &&& client.id() == id@
                    &&& client.info_spec() == self@.infos[id@]
                    &&& client.log() == self@.logs[id@]
                    &&& client.connected_at() == self@.connected_at[id@]
                },
                Err(_) => !self@.contains(id@),
            },
    {
        match self.index.get(id.as_str()) {
            Some(slot) => match &self.slots[*slot] {
                Some(client) => Ok(client),
                None => Err(UnknownQueue),
            },
            None => Err(UnknownQueue),
        }
    }

    /// The queue with this id, to be changed in place. The registry stays
    /// well formed as long as the queue is left the queue it was: its
    /// events and its time of connection may change.
    pub fn get_mut(&mut self, id: &QueueId) -> (r: Result<&mut Client, UnknownQueue>)
        requires
            old(self).wf(),
        ensures
            r is Ok <==> old(self)@.contains(id@),
            r is Err ==> *final(self) == *old(self),
            r matches Ok(client) ==> {
                &&& client.id() == id@
                &&& client.info_spec() == old(self)@.infos[id@]
                &&& client.log() == old(self)@.logs[id@]
                &&& client.connected_at() == old(self)@.connected_at[id@]
            },
            r matches Ok(client) ==> (final(client).same_queue(client) ==> final(self).wf()),
            r matches Ok(client) ==> (final(client).same_queue(client) ==> final(self)@ == old(
                self,
            )@.updated(id@, final(client).log(), final(client).connected_at())),
    {
        let slot = match self.index.get(id.as_str()) {
            Some(slot) => *slot,
            None => {
                return Err(UnknownQueue);
            },
        };
        proof {
            let before = *self;
            assert forall|after: Queues|
                #![trigger after.wf()]
                #![trigger after.view()]
                before.refilled(after, slot as int) implies after.wf() && after@
                == before@.updated(
                id@,
                after.slots@[slot as int]->0.log(),
                after.slots@[slot as int]->0.connected_at(),
            ) by {
                before.lemma_refilled(after, slot as int, id@);
            }
        }
        match &mut self.slots[slot] {
            Some(client) => Ok(client),
            None => Err(UnknownQueue),
        }
    }

    /// `after` is `self` but for the events and the time of connection of
    /// the queue in `slot`.
    spec fn refilled(&self, after: Queues, slot: int) -> bool {
        &&& 0 <= slot < self.slots@.len()
        &&& self.slots@[slot] is Some
        &&& after.slots@[slot] is Some
        &&& after.slots@ == self.slots@.update(slot, after.slots@[slot])
        &&& after.slots@[slot]->0.same_queue(&self.slots@[slot]->0)
        &&& after.index == self.index
        &&& after.by_user == self.by_user
        &&& after.by_realm_all_streams == self.by_realm_all_streams
    }

    proof fn lemma_refilled(&self, after: Queues, slot: int, id: Seq<char>)
        requires
            self.wf(),
            self.refilled(after, slot),
            self.index@.contains_key(id),
            self.index@[id] == slot,
        ensures
            after.wf(),
            after@ == self@.updated(
                id,
                after.slots@[slot]->0.log(),
                after.slots@[slot]->0.connected_at(),
            ),
    {
        let target = self@.updated(
            id,
            after.slots@[slot]->0.log(),
            after.slots@[slot]->0.connected_at(),
        );
        assert forall|k: Seq<char>| #[trigger] self.index@.contains_key(k) && k != id implies
            after.client_at(k) == self.client_at(k) by {
            assert(self.client_at(k).queue_id@ == k);
        }
        assert(after@.infos =~= target.infos);
        assert(after@.logs =~= target.logs);
        assert(after@.connected_at =~= target.connected_at);
        assert(after@ == target);
        assert(target.logs.dom() =~= target.infos.dom());
        assert(target.connected_at.dom() =~= target.infos.dom());
    }

    /// The ids of the queues of `user_id`, if the user has any.
    pub fn for_user(&self, user_id: UserId) -> (r: Option<&Vec<QueueId>>)
        ensures
            match r {
                Some(ids) => self@.by_user.contains_key(user_id as int) && ids_view(ids@)
                    == self@.by_user[user_id as int],
                None => !self@.by_user.contains_key(user_id as int),
            },
    {
        self.by_user.get(&user_id)
    }

    /// The ids of the queues that follow all public streams of `realm_id`,
    /// if there are any.
    pub fn for_realm_all_streams(&self, realm_id: RealmId) -> (r: Option<&Vec<QueueId>>)
        ensures
            match r {
                Some(ids) => self@.by_realm_all_streams.contains_key(realm_id as int) && ids_view(
                    ids@,
                ) == self@.by_realm_all_streams[realm_id as int],
                None => !self@.by_realm_all_streams.contains_key(realm_id as int),
            },
    {
        self.by_realm_all_streams.get(&realm_id)
    }

    /// Appends `event` to the queue `id`.
    pub fn append(&mut self, id: &QueueId, event: ClientEvent) -> (r: Result<(), UnknownQueue>)
        requires
            old(self).wf(),
        ensures
            final(self).wf(),
            match r {
                Ok(_) => old(self)@.contains(id@) && final(self)@ == old(self)@.updated(
                    id@,
                    old(self)@.logs[id@].push(event@),
                    old(self)@.connected_at[id@],
                ),
                Err(_) => !old(self)@.contains(id@) && final(self)@ == old(self)@,
            },
    {
        match self.get_mut(id) {
            Ok(client) => {
                client.add_event(event);
                Ok(())
            },
            Err(e) => Err(e),
        }
    }

    /// Records that the client of the queue `id` is connected at `now`.
    pub fn touch(&mut self, id: &QueueId, now: i64) -> (r: Result<(), UnknownQueue>)
        requires
            old(self).wf(),
        ensures
            final(self).wf(),
            match r {
                Ok(_) => old(self)@.contains(id@) && final(self)@ == old(self)@.updated(
                    id@,
                    old(self)@.logs[id@],
                    now,
                ),
                Err(_) => !old(self)@.contains(id@) && final(self)@ == old(self)@,
            },
    {
        match self.get_mut(id) {
            Ok(client) => {
                client.touch(now);
                Ok(())
            },
            Err(e) => Err(e),
        }
    }

    /// Removes the queue `id` from all indices and hands it out. Where
    /// there is no such queue nothing changes.
    pub fn remove(&mut self, id: &QueueId) -> (r: Option<Client>)
        requires
            old(self).wf(),
        ensures
            final(self).wf(),
            final(self)@ == old(self)@.removed(id@),
            match r {
                Some(client) => {
                    &&& old(self)@.contains(id@)
                    &&& client.id() == id@
                    &&& client.info_spec() == old(self)@.infos[id@]
                    &&& client.log() == old(self)@.logs[id@]
                    &&& client.connected_at() == old(self)@.connected_at[id@]
                },
                None => !old(self)@.contains(id@),
            },
    {
        let slot = match self.index.get(id.as_str()) {
            Some(slot) => *slot,
            None => {
                return None;
            },
        };
        let ghost before = *self;
        let mut taken: Option<Client> = None;
        std::mem::swap(&mut self.slots[slot], &mut taken);
        match taken {
            Some(client) => {
                self.index.remove(id.as_str());
                self.free.push(slot);
                let user = client.info.user_profile_id;
                let realm = client.info.realm_id;
                unlist(&mut self.by_user, user, id);
                if client.info.all_public_streams {
                    unlist(&mut self.by_realm_all_streams, realm, id);
                }
                proof {
                    assert(self.slots@ == before.slots@.update(slot as int, None));
                    assert forall|k: Seq<char>| #[trigger]
                        self.index@.contains_key(k) implies self.client_at(k) == before.client_at(
                        k,
                    ) by {
                        assert(before.index@.contains_key(k));
                    }
                    assert(self@.infos =~= before@.removed(id@).infos);
                    assert(self@.logs =~= before@.removed(id@).logs);
                    assert(self@.connected_at =~= before@.removed(id@).connected_at);
                    assert(self@ == before@.removed(id@));
                    lemma_removed_consistent(before@, id@);
                    assert(self.primary_ok());
                }
                Some(client)
            },
            None => None,
        }
    }

    /// Adds `client` to the registry, under its id, its user and, where it
    /// follows all public streams, its realm. A queue that had the same id
    /// is replaced.
    pub fn insert(&mut self, client: Client)
        requires
            old(self).wf(),
        ensures
            final(self).wf(),
            final(self)@ == old(self)@.removed(client.id()).added(
                client.id(),
                client.info_spec(),
                client.log(),
                client.connected_at(),
            ),
    {
        proof {
            lemma_removed_consistent(self@, client.id());
        }
        self.remove(&client.queue_id);
        let ghost before = *self;
        assert(!before.index@.contains_key(client.id())) by {
            assert(!before@.infos.contains_key(client.id()));
        }
        let slot = self.vacant_slot();
        let ghost mid = *self;
        let id = client.queue_id.clone();
        let user = client.info.user_profile_id;
        let realm = client.info.realm_id;
        let all_public_streams = client.info.all_public_streams;
        self.index.insert(client.queue_id.id.clone(), slot);
        enlist(&mut self.by_user, user, id.clone());
        if all_public_streams {
            enlist(&mut self.by_realm_all_streams, realm, id);
        }
        self.slots.set(slot, Some(client));
        proof {
            let target = before@.added(
                client.id(),
                client.info_spec(),
                client.log(),
                client.connected_at(),
            );
            assert forall|k: Seq<char>| #[trigger]
                before.index@.contains_key(k) implies self.client_at(k) == before.client_at(k) by {
                assert(mid.index@.contains_key(k));
                assert(mid.client_at(k) == before.client_at(k));
                assert(k != client.id());
            }
            assert(self.client_at(client.id()) == client);
            assert(self@.infos =~= target.infos);
            assert(self@.logs =~= target.logs);
            assert(self@.connected_at =~= target.connected_at);
            assert(self@ == target);
            lemma_added_consistent(
                before@,
                client.id(),
                client.info_spec(),
                client.log(),
                client.connected_at(),
            );
            assert(self.primary_ok());
        }
    }

    /// An empty slot: one that was emptied before, or a new one.
    fn vacant_slot(&mut self) -> (r: usize)
        requires
            old(self).primary_ok(),
        ensures
            r < final(self).slots@.len(),
            final(self).slots@[r as int] is None,
            final(self).primary_ok(),
            final(self).index == old(self).index,
            final(self).by_user == old(self).by_user,
            final(self).by_realm_all_streams == old(self).by_realm_all_streams,
            final(self)@ == old(self)@,
            forall|id: Seq<char>| #[trigger]
                old(self).index@.contains_key(id) ==> final(self).client_at(id) == old(
                    self,
                ).client_at(id),
    {
        loop
            invariant
                self.slots == old(self).slots,
                self.index == old(self).index,
                self.by_user == old(self).by_user,
                self.by_realm_all_streams == old(self).by_realm_all_streams,
                self.primary_ok(),
            decreases self.free@.len(),
        {
            match self.free.pop() {
                Some(slot) => {
                    if slot < self.slots.len() && self.slots[slot].is_none() {
                        assert(self@.infos =~= old(self)@.infos);
                        assert(self@.logs =~= old(self)@.logs);
                        assert(self@.connected_at =~= old(self)@.connected_at);
                        return slot;
                    }
                },
                None => {
                    break ;
                },
            }
        }
        self.slots.push(None);
        assert(self@.infos =~= old(self)@.infos);
        assert(self@.logs =~= old(self)@.logs);
        assert(self@.connected_at =~= old(self)@.connected_at);
        self.slots.len() - 1
    }
}

/// Removing a queue twice is removing it once.
pub proof fn law_remove_is_idempotent(view: QueuesView, id: Seq<char>)
    ensures
        view.removed(id).removed(id) == view.removed(id),
{
}

/// Every id that a secondary index holds is the id of a queue of the
/// registry, so that the primary lookup of it succeeds.
pub proof fn law_secondary_entries_are_live(queues: &Queues, key: int, id: Seq<char>)
    requires
        queues.wf(),
        listed(queues@.by_user, key, id) || listed(queues@.by_realm_all_streams, key, id),
    ensures
        queues@.contains(id),
{
}

/// A queue is listed under its realm exactly when it follows all public
/// streams, and under its user always.
pub proof fn law_queues_are_listed(queues: &Queues, id: Seq<char>)
    requires
        queues.wf(),
        queues@.contains(id),
    ensures
        listed(queues@.by_user, queues@.infos[id].user_profile_id as int, id),
        listed(queues@.by_realm_all_streams, queues@.infos[id].realm_id as int, id)
            <==> queues@.infos[id].all_public_streams,
{
    if listed(queues@.by_realm_all_streams, queues@.infos[id].realm_id as int, id) {
    }
}

} // verus!
