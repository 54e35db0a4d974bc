//! Who receives the periodic alerts: one chat per user.
use vstd::prelude::*;

verus! {

/// No user appears twice.
pub open spec fn unique_users(s: Seq<(u64, i64)>) -> bool {
    forall|i: int, j: int| 0 <= i < j < s.len() ==> (#[trigger] s[i]).0 != (#[trigger] s[j]).0
}

/// The registrations after `user` registers `chat`: the user's entry takes
/// the new chat where it stands, or a new entry goes at the end.
pub open spec fn register_spec(s: Seq<(u64, i64)>, user: u64, chat: i64) -> Seq<(u64, i64)> {
    if exists|i: int| 0 <= i < s.len() && (#[trigger] s[i]).0 == user {
        let i = choose|i: int| 0 <= i < s.len() && (#[trigger] s[i]).0 == user;
        s.update(i, (user, chat))
    } else {
        s.push((user, chat))
    }
}

/// The chats of the registrations `s`, in order.
pub open spec fn addresses(s: Seq<(u64, i64)>) -> Seq<i64> {
    s.map_values(|e: (u64, i64)| e.1)
}

/// The registered chats, one per user, in the order in which the users
/// first registered.
pub struct RecipientRegistry {
    entries: Vec<(u64, i64)>,
}

impl View for RecipientRegistry {
    type V = Seq<(u64, i64)>;

    closed spec fn view(&self) -> Seq<(u64, i64)> {
        self.entries@
    }
}

impl RecipientRegistry {
    pub open spec fn wf(&self) -> bool {
        unique_users(self@)
    }

    /// A registry with no one in it.
    pub fn new() -> (r: RecipientRegistry)
        ensures
            r@ == Seq::<(u64, i64)>::empty(),
            r.wf(),
    {
        RecipientRegistry { entries: Vec::new() }
    }

    /// Records that alerts for `user_id` go to `chat_id`; a later
    /// registration of the same user replaces the chat.
    pub fn register(&mut self, user_id: u64, chat_id: i64)
        requires
            old(self).wf(),
        ensures
            final(self)@ == register_spec(old(self)@, user_id, chat_id),
            final(self).wf(),
    {
        let mut i: usize = 0;
        while i < self.entries.len()
            invariant
                self@ == old(self)@,
                unique_users(old(self)@),
                i <= self@.len(),
                forall|j: int| 0 <= j < i ==> (#[trigger] self@[j]).0 != user_id,
            decreases self.entries.len() - i,
        {
            if self.entries[i].0 == user_id {
                proof {
                    let s = old(self)@;
                    assert(0 <= i < s.len() && s[i as int].0 == user_id);
                    let k = choose|k: int| 0 <= k < s.len() && (#[trigger] s[k]).0 == user_id;
                    if k != i {
                        assert(s[k].0 == s[i as int].0);
                    }
                }
                self.entries.set(i, (user_id, chat_id));
                proof {
                    let s = final(self)@;
                    assert forall|a: int, b: int| 0 <= a < b < s.len() implies (#[trigger] s[a]).0 != (#[trigger] s[b]).0 by {
                        let o = old(self)@;
                        if a != i && b != i {
                            assert(s[a] == o[a] && s[b] == o[b]);
                        } else if a == i {
                            assert(o[a].0 == user_id);
                            assert(o[a].0 != o[b].0);
                            assert(s[b] == o[b]);
                        } else {
                            assert(o[b].0 == user_id);
                            assert(o[a].0 != o[b].0);
                            assert(s[a] == o[a]);
                        }
                    }
                }
                return;
            }
            i = i + 1;
        }
        self.entries.push((user_id, chat_id));
        proof {
            let s = final(self)@;
            assert forall|a: int, b: int| 0 <= a < b < s.len() implies (#[trigger] s[a]).0 != (#[trigger] s[b]).0 by {
                if b < s.len() - 1 {
                    assert(s[a] == old(self)@[a] && s[b] == old(self)@[b]);
                }
            }
        }
    }

    /// A copy of the registered chats, in registration order; later
    /// registrations do not change it.
    pub fn snapshot(&self) -> (r: Vec<i64>)
        ensures
            r@ == addresses(self@),
    {
        let mut r: Vec<i64> = Vec::new();
        let mut i: usize = 0;
        while i < self.entries.len()
            invariant
                i <= self@.len(),
                r@ == addresses(self@.subrange(0, i as int)),
            decreases self.entries.len() - i,
        {
            r.push(self.entries[i].1);
            i = i + 1;
            assert(addresses(self@.subrange(0, i as int)) =~= addresses(self@.subrange(0, i - 1)).push(
                self@[i - 1].1,
            ));
        }
        assert(self@.subrange(0, i as int) =~= self@);
        r
    }
}

/// A snapshot taken after a registration holds every chat of one taken
/// before it, at the same place, except the registering user's own entry,
/// which now holds the new chat; and each of its entries is a whole
/// registration: one that stood before, or the new one.
pub proof fn lemma_snapshot_isolation(s: Seq<(u64, i64)>, user: u64, chat: i64)
    requires
        unique_users(s),
    ensures
        unique_users(register_spec(s, user, chat)),
        addresses(register_spec(s, user, chat)).len() >= addresses(s).len(),
        forall|i: int| 0 <= i < s.len() && s[i].0 != user ==> #[trigger] addresses(register_spec(s, user, chat))[i] == addresses(s)[i],
        forall|i: int| 0 <= i < register_spec(s, user, chat).len() ==> {
            let e = #[trigger] register_spec(s, user, chat)[i];
            e == (user, chat) || (i < s.len() && e == s[i])
        },
        exists|i: int| 0 <= i < register_spec(s, user, chat).len() && #[trigger] register_spec(s, user, chat)[i] == (user, chat),
{
    let r = register_spec(s, user, chat);
    if exists|i: int| 0 <= i < s.len() && (#[trigger] s[i]).0 == user {
        let k = choose|i: int| 0 <= i < s.len() && (#[trigger] s[i]).0 == user;
        assert(r[k] == (user, chat));
        assert forall|a: int, b: int| 0 <= a < b < r.len() implies (#[trigger] r[a]).0 != (#[trigger] r[b]).0 by {
            if a != k && b != k {
                assert(r[a] == s[a] && r[b] == s[b]);
            } else if a == k {
                assert(s[b].0 != s[a].0);
            } else {
                assert(s[b].0 != s[a].0);
            }
        }
    } else {
        assert(r[s.len() as int] == (user, chat));
        assert forall|a: int, b: int| 0 <= a < b < r.len() implies (#[trigger] r[a]).0 != (#[trigger] r[b]).0 by {
            if b < s.len() {
                assert(r[a] == s[a] && r[b] == s[b]);
            } else {
                assert(r[a] == s[a]);
            }
        }
    }
}

} // verus!
