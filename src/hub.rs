use std::collections::HashMap;
use vstd::prelude::*;

verus! {

broadcast use vstd::std_specs::hash::group_hash_axioms;

/// The sessions whose current subscription, in `joined`, is document `d`.
pub open spec fn subscribers(joined: Map<u128, u128>, d: u128) -> Set<u128> {
    Set::new(|s: u128| joined.contains_key(s) && joined[s] == d)
}

/// The document that session `s` is subscribed to in `joined`, if any.
pub open spec fn membership(joined: Map<u128, u128>, s: u128) -> Option<u128> {
    if joined.contains_key(s) {
        Some(joined[s])
    } else {
        None
    }
}

/// `r` lists, once each, the subscribers of `d` in `joined` other than `exclude`.
pub open spec fn is_recipient_list(
    r: Seq<u128>,
    joined: Map<u128, u128>,
    d: u128,
    exclude: Option<u128>,
) -> bool {
    &&& r.no_duplicates()
    &&& forall|x: u128| #[trigger]
        r.contains(x) <==> (subscribers(joined, d).contains(x) && exclude != Some(x))
}

/// One call on the hub, as recorded for reasoning about interleavings.
#[derive(Clone, Copy, Debug, PartialEq, Eq, Structural)]
pub enum HubOp {
    Subscribe { session: u128, document: u128 },
    Unsubscribe { session: u128 },
}

/// The membership map after one hub call.
pub open spec fn step(joined: Map<u128, u128>, op: HubOp) -> Map<u128, u128> {
    match op {
        HubOp::Subscribe { session, document } => joined.insert(session, document),
        HubOp::Unsubscribe { session } => joined.remove(session),
    }
}

/// The membership map after a sequence of hub calls, in order.
pub open spec fn replay(joined: Map<u128, u128>, ops: Seq<HubOp>) -> Map<u128, u128>
    decreases ops.len(),
{
    if ops.len() == 0 {
        joined
    } else {
        step(replay(joined, ops.drop_last()), ops.last())
    }
}

/// The membership of session `s` that the last call on `s` in `ops` leaves,
/// or `initial` when no call in `ops` concerns `s`.
pub open spec fn last_word(ops: Seq<HubOp>, s: u128, initial: Option<u128>) -> Option<u128>
    decreases ops.len(),
{
    if ops.len() == 0 {
        initial
    } else {
        match ops.last() {
            HubOp::Subscribe { session, document } if session == s => Some(document),
            HubOp::Unsubscribe { session } if session == s => None,
            _ => last_word(ops.drop_last(), s, initial),
        }
    }
}

/// After a session joins document `d`, it is a subscriber of `d` and of no
/// other document, whatever it had joined before.
pub proof fn lemma_join_is_exclusive(joined: Map<u128, u128>, s: u128, d: u128, e: u128)
    ensures
        subscribers(joined.insert(s, d), e).contains(s) <==> e == d,
{
}

/// After a session leaves, it is a subscriber of no document, and every
/// other session keeps exactly the subscription it had.
pub proof fn lemma_leave_removes_only_leaver(joined: Map<u128, u128>, s: u128, d: u128, x: u128)
    ensures
        !subscribers(joined.remove(s), d).contains(s),
        x != s ==> (subscribers(joined.remove(s), d).contains(x) <==> subscribers(
            joined,
            d,
        ).contains(x)),
{
}

/// A subscriber of one document is never among the subscribers of another.
pub proof fn lemma_channels_are_disjoint(joined: Map<u128, u128>, d: u128, e: u128, x: u128)
    requires
        d != e,
        subscribers(joined, e).contains(x),
    ensures
        !subscribers(joined, d).contains(x),
{
}

/// Whatever order the hub calls of many sessions come in, each session ends
/// with the membership that its own last call set.
pub proof fn lemma_last_call_wins(start: Map<u128, u128>, ops: Seq<HubOp>, s: u128)
    ensures
        membership(replay(start, ops), s) == last_word(ops, s, membership(start, s)),
    decreases ops.len(),
{
    if ops.len() > 0 {
        lemma_last_call_wins(start, ops.drop_last(), s);
    }
}

/// The registry of which session is subscribed to which document.
///
/// `joined` maps each subscribed session to its document; `channels` maps
/// each document with at least one subscriber to the list of them.
pub struct Hub {
    channels: HashMap<u128, Vec<u128>>,
    joined: HashMap<u128, u128>,
}

impl View for Hub {
    type V = Map<u128, u128>;

    closed spec fn view(&self) -> Map<u128, u128> {
        self.joined@
    }
}

/// Membership in a sequence after a push.
proof fn lemma_push_contains(s: Seq<u128>, x: u128, y: u128)
    ensures
        s.push(x).contains(y) <==> (s.contains(y) || y == x),
{
    if s.push(x).contains(y) {
        let j = choose|j: int| 0 <= j < s.push(x).len() && s.push(x)[j] == y;
        if j < s.len() {
            assert(s[j] == y);
        }
    }
    if s.contains(y) {
        let j = choose|j: int| 0 <= j < s.len() && s[j] == y;
        assert(s.push(x)[j] == y);
    }
    if y == x {
        assert(s.push(x)[s.len() as int] == y);
    }
}

/// Pushing a value not yet present keeps a sequence free of duplicates.
proof fn lemma_push_no_duplicates(s: Seq<u128>, x: u128)
    requires
        s.no_duplicates(),
        !s.contains(x),
    ensures
        s.push(x).no_duplicates(),
{
    assert forall|i: int, j: int|
        0 <= i < s.push(x).len() && 0 <= j < s.push(x).len() && i != j implies s.push(x)[i]
        != s.push(x)[j] by {
        if i == s.len() as int {
            assert(s[j] == s.push(x)[j]);
        } else if j == s.len() as int {
            assert(s[i] == s.push(x)[i]);
        }
    }
}

/// A copy of `v` without the value `exclude`, in the same order.
fn copy_except(v: &Vec<u128>, exclude: Option<u128>) -> (r: Vec<u128>)
    requires
        v@.no_duplicates(),
    ensures
        r@.no_duplicates(),
        forall|x: u128| #[trigger] r@.contains(x) <==> (v@.contains(x) && exclude != Some(x)),
{
    let mut r: Vec<u128> = Vec::new();
    let mut i: usize = 0;
    while i < v.len()
        invariant
            i <= v@.len(),
            v@.no_duplicates(),
            r@.no_duplicates(),
            forall|x: u128| #[trigger]
                r@.contains(x) <==> (v@.subrange(0, i as int).contains(x) && exclude != Some(x)),
        decreases v@.len() - i,
    {
        let x = v[i];
        let keep = match exclude {
            Some(e) => e != x,
            None => true,
        };
        proof {
            let prefix = v@.subrange(0, i as int);
            assert(v@.subrange(0, i + 1 as int) == prefix.push(x));
            if prefix.contains(x) {
                let j = choose|j: int| 0 <= j < prefix.len() && prefix[j] == x;
                assert(v@[j] == v@[i as int]);
            }
            assert forall|y: u128| #[trigger]
                prefix.push(x).contains(y) <==> (prefix.contains(y) || y == x) by {
                lemma_push_contains(prefix, x, y);
            }
        }
        if keep {
            proof {
                lemma_push_no_duplicates(r@, x);
                assert forall|y: u128| #[trigger]
                    r@.push(x).contains(y) <==> (r@.contains(y) || y == x) by {
                    lemma_push_contains(r@, x, y);
                }
            }
            r.push(x);
        }
        i = i + 1;
    }
    assert(v@.subrange(0, v@.len() as int) == v@);
    r
}

impl Hub {
    /// Each subscribed session is listed, once, in the channel of its
    /// document and in no other; no channel is empty.
    pub closed spec fn wf(&self) -> bool {
        &&& forall|s: u128| #[trigger]
            self.joined@.contains_key(s) ==> self.channels@.contains_key(self.joined@[s])
                && self.channels@[self.joined@[s]]@.contains(s)
        &&& forall|d: u128, s: u128|
            self.channels@.contains_key(d) && #[trigger] self.channels@[d]@.contains(s)
                ==> self.joined@.contains_key(s) && self.joined@[s] == d
        &&& forall|d: u128| #[trigger]
            self.channels@.contains_key(d) ==> self.channels@[d]@.no_duplicates()
                && self.channels@[d]@.len() > 0
    }

    /// A hub with no subscriptions.
    pub fn new() -> (h: Hub)
        ensures
            h.wf(),
            h@ == Map::<u128, u128>::empty(),
    {
        Hub { channels: HashMap::new(), joined: HashMap::new() }
    }

    /// The document that `session` is subscribed to, if any.
    pub fn document_of(&self, session: u128) -> (r: Option<u128>)
        ensures
            r == membership(self@, session),
    {
        match self.joined.get(&session) {
            Some(d) => Some(*d),
            None => None,
        }
    }

    /// Removes `session` from whichever document it is subscribed to; no-op
    /// when it is subscribed to none.
    pub fn unsubscribe(&mut self, session: u128)
        requires
            old(self).wf(),
        ensures
            final(self).wf(),
            final(self)@ == old(self)@.remove(session),
    {
        let ghost old_channels = self.channels@;
        match self.joined.remove(&session) {
            None => {},
            Some(d) => {
                assert(old_channels.contains_key(d));
                match self.channels.remove(&d) {
                    None => {},
                    Some(ch) => {
                        let rest = copy_except(&ch, Some(session));
                        if rest.len() > 0 {
                            self.channels.insert(d, rest);
                        } else {
                            assert forall|s: u128| #[trigger]
                                ch@.contains(s) implies s == session by {
                                if s != session {
                                    assert(rest@.contains(s));
                                }
                            }
                        }
                    },
                }
            },
        }
    }

    /// Subscribes `session` to `document`, first leaving any other document.
    pub fn subscribe(&mut self, document: u128, session: u128)
        requires
            old(self).wf(),
        ensures
            final(self).wf(),
            final(self)@ == old(self)@.insert(session, document),
    {
        match self.joined.get(&session) {
            Some(cur) => {
                if *cur == document {
                    assert(self@.insert(session, document) == self@);
                    return ;
                }
            },
            None => {},
        }
        self.unsubscribe(session);
        assert(forall|d: u128| #[trigger]
            self.channels@.contains_key(d) ==> !self.channels@[d]@.contains(session));
        let mut ch = match self.channels.remove(&document) {
            Some(v) => v,
            None => Vec::new(),
        };
        proof {
            lemma_push_no_duplicates(ch@, session);
            assert forall|y: u128| #[trigger]
                ch@.push(session).contains(y) <==> (ch@.contains(y) || y == session) by {
                lemma_push_contains(ch@, session, y);
            }
        }
        ch.push(session);
        self.channels.insert(document, ch);
        self.joined.insert(session, document);
    }

    /// The subscribers of `document` other than `exclude`, copied out of the
    /// registry: the recipients of one broadcast.
    pub fn recipients(&self, document: u128, exclude: Option<u128>) -> (r: Vec<u128>)
        requires
            self.wf(),
        ensures
            is_recipient_list(r@, self@, document, exclude),
    {
        match self.channels.get(&document) {
            None => {
                let r: Vec<u128> = Vec::new();
                assert forall|x: u128| #[trigger]
                    subscribers(self@, document).contains(x) implies false by {
                    assert(self.joined@.contains_key(x));
                }
                r
            },
            Some(ch) => {
                let r = copy_except(ch, exclude);
                assert forall|x: u128| #[trigger]
                    r@.contains(x) <==> (subscribers(self@, document).contains(x) && exclude
                        != Some(x)) by {
                    if subscribers(self@, document).contains(x) {
                        assert(self.joined@.contains_key(x));
                    }
                }
                r
            },
        }
    }

    /// Performs one recorded hub call.
    pub fn apply(&mut self, op: HubOp)
        requires
            old(self).wf(),
        ensures
            final(self).wf(),
            final(self)@ == step(old(self)@, op),
    {
        match op {
            HubOp::Subscribe { session, document } => self.subscribe(document, session),
            HubOp::Unsubscribe { session } => self.unsubscribe(session),
        }
    }
}

} // verus!
