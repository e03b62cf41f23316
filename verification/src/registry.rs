//! The correlation registry: outstanding request identifiers mapped to
//! their waiters.
//!
//! The requester mints a fresh 128-bit identifier for each request and
//! registers it together with a waiter ticket — the number under which the
//! surrounding runtime keeps the single-use completion signal. When a
//! response arrives, completing the identifier removes the entry and hands
//! back the ticket of exactly the originator, whatever order responses
//! arrive in. A response with no matching entry is an orphan: reported,
//! dropped, never fatal.

use crate::assoc::{distinct_keys, has_key, lemma_push, lemma_remove_first, lookup, remove_first};
use crate::errors::AgentError;
use vstd::prelude::*;

verus! {

/// One outstanding request.
#[derive(Debug, Clone, Copy, PartialEq, Eq, Structural)]
pub struct PendingRequest {
    pub id: u128,
    pub ticket: u64,
}

/// The pair view of a pending request.
pub open spec fn pending_view(p: PendingRequest) -> (u128, u64) {
    (p.id, p.ticket)
}

/// The mapping a sequence of pending requests denotes.
pub open spec fn pending_entries(s: Seq<PendingRequest>) -> Seq<(u128, u64)> {
    s.map_values(|p: PendingRequest| pending_view(p))
}

/// Relies on uuid::Uuid::new_v4 for a freshly drawn random 128-bit
/// identifier. Nothing can be promised of a random value; uniqueness is
/// enforced by the registry, not assumed here.
#[verifier::external_body]
fn fresh_correlation_id() -> u128 {
    uuid::Uuid::new_v4().as_u128()
}

/// The outstanding requests of one connection.
pub struct CorrelationRegistry {
    entries: Vec<PendingRequest>,
}

impl View for CorrelationRegistry {
    type V = Seq<(u128, u64)>;

    closed spec fn view(&self) -> Seq<(u128, u64)> {
        pending_entries(self.entries@)
    }
}

impl CorrelationRegistry {
    /// An empty registry.
    pub fn new() -> (r: CorrelationRegistry)
        ensures
            r@ == Seq::<(u128, u64)>::empty(),
    {
        let r = CorrelationRegistry { entries: Vec::new() };
        proof {
            assert(r@ =~= Seq::<(u128, u64)>::empty());
        }
        r
    }

    /// How many requests are outstanding.
    pub fn pending_count(&self) -> (r: usize)
        ensures
            r == self@.len(),
    {
        self.entries.len()
    }

    /// The position of the entry with the identifier, if any.
    fn find_id(&self, id: u128) -> (r: Option<usize>)
        ensures
            match r {
                Some(i) => i < self@.len() && self@[i as int].0 == id && forall|j: int|
                    0 <= j < i ==> self@[j].0 != id,
                None => !has_key(self@, id),
            },
    {
        proof {
            assert(forall|j: int|
                0 <= j < self@.len() ==> (#[trigger] self@[j]) == pending_view(self.entries@[j]));
        }
        let n = self.entries.len();
        let mut i: usize = 0;
        while i < n
            invariant
                n == self.entries@.len(),
                n == self@.len(),
                i <= n,
                forall|j: int|
                    0 <= j < self@.len() ==> (#[trigger] self@[j]) == pending_view(
                        self.entries@[j],
                    ),
                forall|j: int| 0 <= j < i ==> self@[j].0 != id,
            decreases n - i,
        {
            if self.entries[i].id == id {
                return Some(i);
            }
            i += 1;
        }
        None
    }

    /// Reserves an identifier for a waiter: fails with a distinct error if
    /// the identifier is already outstanding, otherwise appends the entry.
    pub fn register(&mut self, id: u128, ticket: u64) -> (r: Result<(), AgentError>)
        ensures
            match r {
                Ok(()) => !has_key(old(self)@, id) && final(self)@ == old(self)@.push((id, ticket)),
                Err(e) => e == AgentError::DuplicateCorrelationId
                    && has_key(old(self)@, id)
                    && *final(self) == *old(self),
            },
    {
        match self.find_id(id) {
            Some(_) => Err(AgentError::DuplicateCorrelationId),
            None => {
                let ghost before = self.entries@;
                self.entries.push(PendingRequest { id, ticket });
                proof {
                    assert(self@ =~= pending_entries(before).push((id, ticket)));
                }
                Ok(())
            },
        }
    }

    /// Mints a fresh identifier and registers it for the waiter ticket.
    /// The identifier is random; in the overwhelmingly likely case that it
    /// is new, it is now outstanding.
    pub fn begin_request(&mut self, ticket: u64) -> (r: Result<u128, AgentError>)
        ensures
            match r {
                Ok(id) => !has_key(old(self)@, id) && final(self)@ == old(self)@.push(
                    (id, ticket),
                ),
                Err(e) => e == AgentError::DuplicateCorrelationId && *final(self) == *old(self),
            },
    {
        let id = fresh_correlation_id();
        match self.register(id, ticket) {
            Ok(()) => Ok(id),
            Err(e) => Err(e),
        }
    }

    /// Matches a response to its originator: removes the entry and hands
    /// back its waiter ticket, exactly once per identifier. An unknown
    /// identifier is an orphan: the registry is untouched and the error
    /// never disturbs other outstanding requests.
    pub fn complete(&mut self, id: u128) -> (r: Result<u64, AgentError>)
        ensures
            match r {
                Ok(ticket) => has_key(old(self)@, id)
                    && ticket == lookup(old(self)@, id)
                    && final(self)@ == remove_first(old(self)@, id),
                Err(e) => e == AgentError::UnknownCorrelationId
                    && !has_key(old(self)@, id)
                    && *final(self) == *old(self),
            },
    {
        match self.find_id(id) {
            Some(i) => {
                proof {
                    crate::assoc::lemma_lookup_at(self@, id, i as int);
                    lemma_remove_first_at(self@, id, i as int);
                }
                let entry = self.entries.remove(i);
                proof {
                    assert(self@ =~= pending_entries(old(self).entries@).remove(i as int));
                }
                Ok(entry.ticket)
            },
            None => Err(AgentError::UnknownCorrelationId),
        }
    }
}

/// Removing the first pair with a key removes exactly its position.
proof fn lemma_remove_first_at<K, V>(m: Seq<(K, V)>, k: K, i: int)
    requires
        0 <= i < m.len(),
        m[i].0 == k,
        forall|j: int| 0 <= j < i ==> m[j].0 != k,
    ensures
        remove_first(m, k) == m.remove(i),
    decreases i,
{
    if i == 0 {
        assert(remove_first(m, k) == m.skip(1));
        assert(m.skip(1) =~= m.remove(0));
    } else {
        lemma_remove_first_at(m.skip(1), k, i - 1);
        assert(remove_first(m, k) == seq![m[0]] + m.skip(1).remove(i - 1));
        assert(seq![m[0]] + m.skip(1).remove(i - 1) =~= m.remove(i));
    }
}

/// Completions commute: with two distinct identifiers outstanding, each is
/// delivered to its own waiter whichever response arrives first, and the
/// registry left behind is the same either way.
pub proof fn lemma_completion_order_irrelevant(m: Seq<(u128, u64)>, a: u128, b: u128)
    requires
        distinct_keys(m),
        has_key(m, a),
        has_key(m, b),
        a != b,
    ensures
        has_key(remove_first(m, b), a),
        lookup(remove_first(m, b), a) == lookup(m, a),
        has_key(remove_first(m, a), b),
        lookup(remove_first(m, a), b) == lookup(m, b),
        remove_first(remove_first(m, a), b) =~= remove_first(remove_first(m, b), a),
    decreases m.len(),
{
    lemma_remove_first(m, b, a);
    lemma_remove_first(m, a, b);
    if m.len() > 0 {
        if m[0].0 == a {
            assert(remove_first(m, a) == m.skip(1));
            lemma_remove_first_head_other(m, b);
        } else if m[0].0 == b {
            assert(remove_first(m, b) == m.skip(1));
            lemma_remove_first_head_other(m, a);
        } else {
            assert(distinct_keys(m.skip(1))) by {
                assert(forall|i: int, j: int|
                    0 <= i < j < m.skip(1).len() ==> m.skip(1)[i] == m[i + 1] && m.skip(1)[j]
                        == m[j + 1]);
            }
            crate::assoc::lemma_has_key_cons(m, a);
            crate::assoc::lemma_has_key_cons(m, b);
            lemma_completion_order_irrelevant(m.skip(1), a, b);
            assert(remove_first(m, a) == seq![m[0]] + remove_first(m.skip(1), a));
            assert(remove_first(m, b) == seq![m[0]] + remove_first(m.skip(1), b));
            assert((seq![m[0]] + remove_first(m.skip(1), a)).skip(1) =~= remove_first(
                m.skip(1),
                a,
            ));
            assert((seq![m[0]] + remove_first(m.skip(1), b)).skip(1) =~= remove_first(
                m.skip(1),
                b,
            ));
            assert(remove_first(remove_first(m, a), b) =~= seq![m[0]] + remove_first(
                remove_first(m.skip(1), a),
                b,
            ));
            assert(remove_first(remove_first(m, b), a) =~= seq![m[0]] + remove_first(
                remove_first(m.skip(1), b),
                a,
            ));
        }
    }
}

/// After removing the head's key, removing another key just walks the
/// tail.
proof fn lemma_remove_first_head_other(m: Seq<(u128, u64)>, k: u128)
    requires
        m.len() > 0,
        m[0].0 != k,
    ensures
        remove_first(m, k).skip(1) =~= remove_first(m.skip(1), k),
        remove_first(m, k)[0] == m[0],
{
    assert(remove_first(m, k) == seq![m[0]] + remove_first(m.skip(1), k));
}

/// The registry left after completing the identifiers in order.
pub open spec fn after_completing(m: Seq<(u128, u64)>, ids: Seq<u128>) -> Seq<(u128, u64)>
    decreases ids.len(),
{
    if ids.len() == 0 {
        m
    } else {
        after_completing(remove_first(m, ids[0]), ids.skip(1))
    }
}

/// Completions keep identifiers distinct.
proof fn lemma_after_completing_distinct(m: Seq<(u128, u64)>, ids: Seq<u128>)
    requires
        distinct_keys(m),
    ensures
        distinct_keys(after_completing(m, ids)),
    decreases ids.len(),
{
    if ids.len() > 0 {
        lemma_remove_first(m, ids[0], ids[0]);
        lemma_after_completing_distinct(remove_first(m, ids[0]), ids.skip(1));
    }
}

/// One more completion at the end is one more removal.
proof fn lemma_after_completing_snoc(m: Seq<(u128, u64)>, ids: Seq<u128>, x: u128)
    ensures
        after_completing(m, ids.push(x)) == remove_first(after_completing(m, ids), x),
    decreases ids.len(),
{
    if ids.len() == 0 {
        assert(ids.push(x)[0] == x);
        assert(ids.push(x).skip(1) =~= Seq::<u128>::empty());
        assert(after_completing(remove_first(m, x), ids.push(x).skip(1)) == remove_first(m, x));
    } else {
        assert(ids.push(x)[0] == ids[0]);
        assert(ids.push(x).skip(1) =~= ids.skip(1).push(x));
        lemma_after_completing_snoc(remove_first(m, ids[0]), ids.skip(1), x);
    }
}

/// Responses may arrive in any order: with any number of distinct
/// identifiers outstanding, completing them in any permutation delivers,
/// at each step, exactly the ticket originally registered for that
/// identifier — and afterwards that identifier is no longer outstanding,
/// so a repeat is an orphan.
pub proof fn lemma_any_permutation_delivers(m: Seq<(u128, u64)>, ids: Seq<u128>, i: int)
    requires
        distinct_keys(m),
        forall|j: int| 0 <= j < ids.len() ==> has_key(m, #[trigger] ids[j]),
        forall|j: int, k: int| 0 <= j < k < ids.len() ==> ids[j] != ids[k],
        0 <= i < ids.len(),
    ensures
        has_key(after_completing(m, ids.take(i)), ids[i]),
        lookup(after_completing(m, ids.take(i)), ids[i]) == lookup(m, ids[i]),
        !has_key(after_completing(m, ids.take(i + 1)), ids[i]),
    decreases i,
{
    if i == 0 {
        assert(ids.take(0) =~= Seq::<u128>::empty());
    } else {
        let m1 = remove_first(m, ids[0]);
        let rest = ids.skip(1);
        lemma_remove_first(m, ids[0], ids[0]);
        assert forall|j: int| 0 <= j < rest.len() implies has_key(m1, #[trigger] rest[j]) by {
            assert(rest[j] == ids[j + 1]);
            lemma_remove_first(m, ids[0], ids[j + 1]);
        }
        assert(forall|j: int, k: int|
            0 <= j < k < rest.len() ==> rest[j] == ids[j + 1] && rest[k] == ids[k + 1]);
        lemma_any_permutation_delivers(m1, rest, i - 1);
        assert(ids.take(i)[0] == ids[0]);
        assert(ids.take(i).skip(1) =~= rest.take(i - 1));
        assert(after_completing(m, ids.take(i)) == after_completing(m1, rest.take(i - 1)));
        assert(rest[i - 1] == ids[i]);
        lemma_remove_first(m, ids[0], ids[i]);
        assert(ids.take(i + 1)[0] == ids[0]);
        assert(ids.take(i + 1).skip(1) =~= rest.take(i));
        assert(after_completing(m, ids.take(i + 1)) == after_completing(m1, rest.take(i)));
    }
    lemma_after_completing_distinct(m, ids.take(i));
    lemma_after_completing_snoc(m, ids.take(i), ids[i]);
    assert(ids.take(i).push(ids[i]) =~= ids.take(i + 1));
    lemma_remove_first(after_completing(m, ids.take(i)), ids[i], ids[i]);
}

/// Exactly-once delivery: once an identifier is completed it is no longer
/// outstanding, so completing it again reports an orphan; every other
/// outstanding identifier still reads its own waiter.
pub proof fn lemma_exactly_once(m: Seq<(u128, u64)>, id: u128, q: u128)
    requires
        distinct_keys(m),
    ensures
        !has_key(remove_first(m, id), id),
        distinct_keys(remove_first(m, id)),
        q != id && has_key(m, q) ==> has_key(remove_first(m, id), q) && lookup(
            remove_first(m, id),
            q,
        ) == lookup(m, q),
        !has_key(m, id) ==> remove_first(m, id) == m,
{
    lemma_remove_first(m, id, q);
}

/// Registering a fresh identifier disturbs no outstanding request, and
/// keeps identifiers distinct.
pub proof fn lemma_register_preserves(m: Seq<(u128, u64)>, id: u128, ticket: u64, q: u128)
    requires
        distinct_keys(m),
        !has_key(m, id),
    ensures
        distinct_keys(m.push((id, ticket))),
        lookup(m.push((id, ticket)), id) == ticket,
        q != id && has_key(m, q) ==> lookup(m.push((id, ticket)), q) == lookup(m, q),
        has_key(m.push((id, ticket)), q) == (has_key(m, q) || q == id),
{
    lemma_push(m, id, ticket, q);
    lemma_push(m, id, ticket, id);
    crate::assoc::lemma_distinct_preserved(m, id, ticket);
    assert(crate::assoc::upsert(m, id, ticket) == m.push((id, ticket)));
}

} // verus!
