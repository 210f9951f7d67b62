//! Identifiers and the per-message flag set.

use vstd::prelude::*;

use crate::text::str_eq;

verus! {

/// Identifier of a realm (a tenant).
pub type RealmId = i32;

/// Identifier of a user.
pub type UserId = i32;

/// Identifier of a user group.
pub type UserGroupId = i32;

/// Identifier of a message.
pub type MessageId = i64;

/// One flag on a message, such as `read` or `mentioned`.
pub type MessageFlag = String;

/// The flags of one message for one user: an unordered set of short tags.
///
/// A flag set is well formed when it holds no tag twice; every flag set made
/// by this module is.
#[derive(Debug)]
pub struct MessageFlags {
    tags: Vec<String>,
}

impl View for MessageFlags {
    type V = Set<Seq<char>>;

    closed spec fn view(&self) -> Set<Seq<char>> {
        self.tag_seq().to_set()
    }
}

impl MessageFlags {
    /// The tags in the order in which they are stored.
    pub closed spec fn tag_seq(&self) -> Seq<Seq<char>> {
        self.tags@.map_values(|t: String| t@)
    }

    /// No tag is stored twice.
    pub closed spec fn wf(&self) -> bool {
        self.tag_seq().no_duplicates()
    }

    /// The empty flag set.
    pub fn new() -> (r: MessageFlags)
        ensures
            r@ == Set::<Seq<char>>::empty(),
            r.wf(),
    {
        let r = MessageFlags { tags: Vec::new() };
        assert(r.tag_seq() =~= Seq::<Seq<char>>::empty());
        assert(r@ =~= Set::<Seq<char>>::empty());
        r
    }

    /// Whether `tag` is one of the flags.
    pub fn contains(&self, tag: &str) -> (r: bool)
        ensures
            r == self@.contains(tag@),
    {
        let mut i: usize = 0;
        while i < self.tags.len()
            invariant
                i <= self.tags.len(),
                forall|j: int| 0 <= j < i ==> self.tag_seq()[j] != tag@,
            decreases self.tags.len() - i,
        {
            if str_eq(self.tags[i].as_str(), tag) {
                assert(self.tag_seq()[i as int] == tag@);
                return true;
            }
            i += 1;
        }
        false
    }

    /// Adds `tag`; returns whether it was new.
    pub fn insert(&mut self, tag: String) -> (r: bool)
        ensures
            final(self)@ == old(self)@.insert(tag@),
            r == !old(self)@.contains(tag@),
            old(self).wf() ==> final(self).wf(),
    {
        if self.contains(tag.as_str()) {
            assert(old(self)@.insert(tag@) =~= old(self)@);
            return false;
        }
        let ghost before = self.tag_seq();
        self.tags.push(tag);
        proof {
            assert(self.tag_seq() =~= before.push(tag@));
            assert(self@ =~= old(self)@.insert(tag@)) by {
                assert forall|t: Seq<char>| self@.contains(t) <==> old(self)@.insert(tag@).contains(
                    t,
                ) by {
                    if before.push(tag@).contains(t) {
                        let k = choose|k: int| 0 <= k < before.len() + 1 && before.push(tag@)[k] == t;
                        if k < before.len() {
                            assert(before[k] == t);
                        }
                    }
                    if before.contains(t) {
                        let k = choose|k: int| 0 <= k < before.len() && before[k] == t;
                        assert(before.push(tag@)[k] == t);
                    }
                    if t == tag@ {
                        assert(before.push(tag@)[before.len() as int] == t);
                    }
                }
            }
        }
        true
    }

    /// How many flags are set.
    pub fn len(&self) -> (r: usize)
        requires
            self.wf(),
        ensures
            r == self@.len(),
    {
        proof {
            self.tag_seq().unique_seq_to_set();
        }
        self.tags.len()
    }

    /// Whether no flag is set.
    pub fn is_empty(&self) -> (r: bool)
        ensures
            r == (self@ == Set::<Seq<char>>::empty()),
    {
        let r = self.tags.len() == 0;
        proof {
            if r {
                assert(self.tag_seq() =~= Seq::<Seq<char>>::empty());
                assert(self@ =~= Set::<Seq<char>>::empty());
            } else {
                assert(self.tag_seq()[0] == self.tags@[0]@);
                assert(self@.contains(self.tag_seq()[0]));
            }
        }
        r
    }

    /// The flag set that holds the tags of `tags`.
    pub fn from_tags(tags: Vec<String>) -> (r: MessageFlags)
        ensures
            r@ == tags@.map_values(|t: String| t@).to_set(),
            r.wf(),
    {
        let ghost all = tags@.map_values(|t: String| t@);
        let mut flags = MessageFlags::new();
        let mut i: usize = 0;
        while i < tags.len()
            invariant
                i <= tags.len(),
                all == tags@.map_values(|t: String| t@),
                flags@ == all.take(i as int).to_set(),
                flags.wf(),
            decreases tags.len() - i,
        {
            flags.insert(tags[i].clone());
            proof {
                let next = all.take(i + 1);
                assert(next =~= all.take(i as int).push(all[i as int]));
                assert(next.to_set() =~= all.take(i as int).to_set().insert(all[i as int])) by {
                    assert forall|t: Seq<char>| next.to_set().contains(t) <==> all.take(
                        i as int,
                    ).to_set().insert(all[i as int]).contains(t) by {
                        if next.contains(t) {
                            let k = choose|k: int| 0 <= k < next.len() && next[k] == t;
                            if k < i {
                                assert(all.take(i as int)[k] == t);
                            }
                        }
                        if all.take(i as int).contains(t) {
                            let k = choose|k: int| 0 <= k < i && all.take(i as int)[k] == t;
                            assert(next[k] == t);
                        }
                        if t == all[i as int] {
                            assert(next[i as int] == t);
                        }
                    }
                }
            }
            i += 1;
        }
        assert(all.take(tags.len() as int) =~= all);
        flags
    }

    /// The tags, each once, in the order in which they were added.
    pub fn to_vec(&self) -> (r: Vec<String>)
        ensures
            r@.map_values(|t: String| t@) == self.tag_seq(),
            self.tag_seq().to_set() == self@,
            self.wf() ==> self.tag_seq().no_duplicates(),
    {
        let mut out: Vec<String> = Vec::new();
        let mut i: usize = 0;
        while i < self.tags.len()
            invariant
                i <= self.tags.len(),
                out@.len() == i,
                forall|j: int| 0 <= j < i ==> out@[j]@ == self.tags@[j]@,
            decreases self.tags.len() - i,
        {
            out.push(self.tags[i].clone());
            i += 1;
        }
        assert(out@.map_values(|t: String| t@) =~= self.tag_seq());
        out
    }
}

impl Clone for MessageFlags {
    fn clone(&self) -> (r: MessageFlags)
        ensures
            r@ == self@,
            r.tag_seq() == self.tag_seq(),
            r.wf() == self.wf(),
    {
        let tags = self.to_vec();
        MessageFlags { tags }
    }
}

} // verus!
