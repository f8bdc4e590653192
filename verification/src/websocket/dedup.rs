//! Duplicate suppression across the overlap of two physical connections.
//!
//! While a session swaps one physical connection for another, the server may
//! seem to say the same thing twice, once on each socket. Every physical
//! connection carries a one-bit tag that alternates from one connection to
//! the next, and the deduplicator keeps, for each message seen in the current
//! window, a balance of sightings: `+1` when the tagged side leads, `-1` when
//! the untagged side leads, `0` when each side has reported the message
//! equally often. The balance saturates at one sighting per side.
//!
//! This is a heuristic. Two distinct messages with the same content, sent in
//! quick succession on different connections, are taken for one. Handlers
//! whose messages carry unique identifiers are the ones that should turn
//! suppression on.

use super::message::{MessageView, WebSocketMessage};
use vstd::prelude::*;

verus! {

/// What a sighting on a connection with this tag adds to a balance.
pub open spec fn sign_of(tag: bool) -> int {
    if tag {
        1
    } else {
        -1
    }
}

/// A balance cut off at one sighting per side.
pub open spec fn saturate(balance: int) -> int {
    if balance > 1 {
        1
    } else if balance < -1 {
        -1
    } else {
        balance
    }
}

/// The side that leads a balance: `1`, `-1`, or `0` when neither does.
pub open spec fn signum(balance: int) -> int {
    if balance > 0 {
        1
    } else if balance < 0 {
        -1
    } else {
        0
    }
}

/// The balance of `message` once a connection tagged `tag` has reported it.
pub open spec fn balance_after(tally: Map<MessageView, int>, tag: bool, message: MessageView) -> int {
    if tally.dom().contains(message) {
        saturate(tally[message] + sign_of(tag))
    } else {
        sign_of(tag)
    }
}

/// The balances after a sighting inside a reconnect window. With suppression
/// off nothing is recorded.
pub open spec fn tally_after(
    tally: Map<MessageView, int>,
    suppress: bool,
    tag: bool,
    message: MessageView,
) -> Map<MessageView, int> {
    if suppress {
        tally.insert(message, balance_after(tally, tag, message))
    } else {
        tally
    }
}

/// Whether a sighting inside a reconnect window reaches the handler.
///
/// With suppression off, always. With suppression on, a message is delivered
/// when, counting this sighting, its own side leads the balance: the first
/// sighting of a message, and a repeat on the connection that already
/// reported it. It is withheld when the sighting only evens the balance out,
/// which makes it the other half of a cross-connection duplicate.
pub open spec fn delivers(
    tally: Map<MessageView, int>,
    suppress: bool,
    tag: bool,
    message: MessageView,
) -> bool {
    !suppress || signum(balance_after(tally, tag, message)) == sign_of(tag)
}

/// When each of the two connections reports a message once in a fresh window,
/// in either order, the handler sees it exactly once: the first report is
/// delivered and the second, from the other connection, is withheld.
pub proof fn lemma_cross_connection_duplicate_delivered_once(
    tally: Map<MessageView, int>,
    first: bool,
    message: MessageView,
)
    requires
        !tally.dom().contains(message),
    ensures
        delivers(tally, true, first, message),
        !delivers(tally_after(tally, true, first, message), true, !first, message),
{
}

/// When one connection reports a message twice in a fresh window, the handler
/// sees it both times.
pub proof fn lemma_same_connection_repeat_delivered_twice(
    tally: Map<MessageView, int>,
    tag: bool,
    message: MessageView,
)
    requires
        !tally.dom().contains(message),
    ensures
        delivers(tally, true, tag, message),
        delivers(tally_after(tally, true, tag, message), true, tag, message),
{
}

/// With suppression off every report is delivered, whichever connection makes
/// it, and nothing is recorded.
pub proof fn lemma_no_suppression_delivers_all(
    tally: Map<MessageView, int>,
    first: bool,
    second: bool,
    message: MessageView,
)
    ensures
        delivers(tally, false, first, message),
        tally_after(tally, false, first, message) == tally,
        delivers(tally_after(tally, false, first, message), false, second, message),
{
}

/// A sighting of one message changes neither the balance of another nor
/// what becomes of the other's next sighting.
pub proof fn lemma_other_messages_untouched(
    tally: Map<MessageView, int>,
    suppress: bool,
    tag: bool,
    seen: MessageView,
    other: MessageView,
    other_tag: bool,
)
    requires
        seen != other,
    ensures
        tally_after(tally, suppress, tag, seen).dom().contains(other) == tally.dom().contains(other),
        tally.dom().contains(other) ==> tally_after(tally, suppress, tag, seen)[other] == tally[other],
        delivers(tally_after(tally, suppress, tag, seen), suppress, other_tag, other) == delivers(
            tally,
            suppress,
            other_tag,
            other,
        ),
{
}

/// With balances that saturate at one sighting per side, a sighting is
/// withheld exactly when suppression is on and the other side alone leads.
pub proof fn lemma_withheld_iff_other_side_leads(
    tally: Map<MessageView, int>,
    suppress: bool,
    tag: bool,
    message: MessageView,
)
    requires
        tally.dom().contains(message) ==> -1 <= tally[message] <= 1,
    ensures
        !delivers(tally, suppress, tag, message) <==> suppress && tally.dom().contains(message)
            && tally[message] == -sign_of(tag),
        -1 <= balance_after(tally, tag, message) <= 1,
{
}

/// The balances after a run of sightings inside one reconnect window. A
/// sighting is the tag of the connection that made it and the message.
pub open spec fn tally_after_all(
    tally: Map<MessageView, int>,
    suppress: bool,
    sightings: Seq<(bool, MessageView)>,
) -> Map<MessageView, int>
    decreases sightings.len(),
{
    if sightings.len() == 0 {
        tally
    } else {
        tally_after(
            tally_after_all(tally, suppress, sightings.drop_last()),
            suppress,
            sightings.last().0,
            sightings.last().1,
        )
    }
}

/// How often `message` reaches the handler in a run of sightings inside one
/// reconnect window.
pub open spec fn deliveries_of(
    tally: Map<MessageView, int>,
    suppress: bool,
    sightings: Seq<(bool, MessageView)>,
    message: MessageView,
) -> nat
    decreases sightings.len(),
{
    if sightings.len() == 0 {
        0
    } else {
        let earlier = deliveries_of(tally, suppress, sightings.drop_last(), message);
        if sightings.last().1 == message && delivers(
            tally_after_all(tally, suppress, sightings.drop_last()),
            suppress,
            sightings.last().0,
            message,
        ) {
            earlier + 1
        } else {
            earlier
        }
    }
}

/// How often `message` is sighted in a run of sightings.
pub open spec fn sightings_of(sightings: Seq<(bool, MessageView)>, message: MessageView) -> nat
    decreases sightings.len(),
{
    if sightings.len() == 0 {
        0
    } else if sightings.last().1 == message {
        sightings_of(sightings.drop_last(), message) + 1
    } else {
        sightings_of(sightings.drop_last(), message)
    }
}

/// In a fresh window in which each of the two connections reports a message
/// exactly once, at the places `first` and `second`, the handler sees the
/// message exactly once, whatever else is reported before, between and after.
pub proof fn lemma_once_per_side_delivered_once(
    tally: Map<MessageView, int>,
    sightings: Seq<(bool, MessageView)>,
    message: MessageView,
    first: int,
    second: int,
)
    requires
        !tally.dom().contains(message),
        0 <= first < second < sightings.len(),
        sightings[first].1 == message,
        sightings[second].1 == message,
        sightings[first].0 != sightings[second].0,
        forall|k: int|
            0 <= k < sightings.len() && k != first && k != second ==> (#[trigger] sightings[k]).1
                != message,
    ensures
        deliveries_of(tally, true, sightings, message) == 1,
{
    lemma_once_per_side_prefix(tally, sightings, message, first, second, sightings.len() as int);
    assert(sightings.subrange(0, sightings.len() as int) =~= sightings);
}

/// The state of a window in which each side reports a message once, after
/// the first `n` sightings: before the first report the message is unknown
/// and undelivered; between the reports it is delivered once and its side
/// leads; after the second report it is still delivered once and the balance
/// is even.
proof fn lemma_once_per_side_prefix(
    tally: Map<MessageView, int>,
    sightings: Seq<(bool, MessageView)>,
    message: MessageView,
    first: int,
    second: int,
    n: int,
)
    requires
        !tally.dom().contains(message),
        0 <= first < second < sightings.len(),
        sightings[first].1 == message,
        sightings[second].1 == message,
        sightings[first].0 != sightings[second].0,
        forall|k: int|
            0 <= k < sightings.len() && k != first && k != second ==> (#[trigger] sightings[k]).1
                != message,
        0 <= n <= sightings.len(),
    ensures
        n <= first ==> !tally_after_all(tally, true, sightings.subrange(0, n)).dom().contains(message)
            && deliveries_of(tally, true, sightings.subrange(0, n), message) == 0,
        first < n <= second ==> tally_after_all(tally, true, sightings.subrange(0, n)).dom().contains(
            message,
        ) && tally_after_all(tally, true, sightings.subrange(0, n))[message] == sign_of(
            sightings[first].0,
        ) && deliveries_of(tally, true, sightings.subrange(0, n), message) == 1,
        second < n ==> tally_after_all(tally, true, sightings.subrange(0, n)).dom().contains(message)
            && tally_after_all(tally, true, sightings.subrange(0, n))[message] == 0 && deliveries_of(
            tally,
            true,
            sightings.subrange(0, n),
            message,
        ) == 1,
    decreases n,
{
    let prefix = sightings.subrange(0, n);
    if n > 0 {
        lemma_once_per_side_prefix(tally, sightings, message, first, second, n - 1);
        assert(prefix.drop_last() =~= sightings.subrange(0, n - 1));
        assert(prefix.last() == sightings[n - 1]);
    }
}

/// In a fresh window in which only one connection reports a message, the
/// handler sees every one of its reports, whatever else is reported in
/// between.
pub proof fn lemma_one_side_all_delivered(
    tally: Map<MessageView, int>,
    sightings: Seq<(bool, MessageView)>,
    message: MessageView,
    tag: bool,
)
    requires
        !tally.dom().contains(message),
        forall|k: int|
            0 <= k < sightings.len() && (#[trigger] sightings[k]).1 == message ==> sightings[k].0
                == tag,
    ensures
        deliveries_of(tally, true, sightings, message) == sightings_of(sightings, message),
        tally_after_all(tally, true, sightings).dom().contains(message) ==> tally_after_all(
            tally,
            true,
            sightings,
        )[message] == sign_of(tag),
        tally_after_all(tally, true, sightings).dom().contains(message) == (sightings_of(
            sightings,
            message,
        ) > 0),
    decreases sightings.len(),
{
    if sightings.len() > 0 {
        let earlier = sightings.drop_last();
        assert forall|k: int| 0 <= k < earlier.len() && (#[trigger] earlier[k]).1 == message implies earlier[k].0
            == tag by {
            assert(earlier[k] == sightings[k]);
        }
        lemma_one_side_all_delivered(tally, earlier, message, tag);
    }
}

/// With suppression off the handler sees every report of every message, and
/// nothing is recorded.
pub proof fn lemma_no_suppression_all_delivered(
    tally: Map<MessageView, int>,
    sightings: Seq<(bool, MessageView)>,
    message: MessageView,
)
    ensures
        deliveries_of(tally, false, sightings, message) == sightings_of(sightings, message),
        tally_after_all(tally, false, sightings) == tally,
    decreases sightings.len(),
{
    if sightings.len() > 0 {
        lemma_no_suppression_all_delivered(tally, sightings.drop_last(), message);
    }
}

/// One message of the working set with its balance.
struct Sighting {
    message: WebSocketMessage,
    balance: i8,
}

/// The place of `message` among `entries`, if it is there.
spec fn position(entries: Seq<Sighting>, message: MessageView) -> int {
    choose|i: int| 0 <= i < entries.len() && entries[i].message@ == message
}

/// The working set of the duplicate filter: a balance for each message seen
/// in the current reconnect window.
pub struct MessageDeduplicator {
    entries: Vec<Sighting>,
}

impl View for MessageDeduplicator {
    type V = Map<MessageView, int>;

    closed spec fn view(&self) -> Map<MessageView, int> {
        Map::new(
            |m: MessageView| exists|i: int| 0 <= i < self.entries@.len() && self.entries@[i].message@ == m,
            |m: MessageView| self.entries@[position(self.entries@, m)].balance as int,
        )
    }
}

impl MessageDeduplicator {
    #[verifier::type_invariant]
    spec fn well_formed(self) -> bool {
        &&& forall|i: int, j: int|
            0 <= i < j < self.entries@.len() ==> self.entries@[i].message@ != self.entries@[j].message@
        &&& forall|i: int| 0 <= i < self.entries@.len() ==> -1 <= #[trigger] self.entries@[i].balance <= 1
    }

    /// An empty working set.
    pub fn new() -> (fresh: Self)
        ensures
            fresh@ == Map::<MessageView, int>::empty(),
    {
        let fresh = MessageDeduplicator { entries: Vec::new() };
        assert(fresh@ =~= Map::<MessageView, int>::empty());
        fresh
    }

    /// Forgets every sighting.
    pub fn clear(&mut self)
        ensures
            final(self)@ == Map::<MessageView, int>::empty(),
    {
        self.entries = Vec::new();
        assert(self@ =~= Map::<MessageView, int>::empty());
    }

    /// The number of distinct messages seen in the current window.
    pub fn len(&self) -> (count: usize)
        ensures
            self@.dom().finite(),
            count == self@.dom().len(),
    {
        proof {
            use_type_invariant(self);
            self.lemma_domain_size();
        }
        self.entries.len()
    }

    /// The balance recorded for `message`, if it was seen in this window.
    pub fn balance(&self, message: &WebSocketMessage) -> (balance: Option<i8>)
        ensures
            balance.is_some() == self@.dom().contains(message@),
            balance.is_some() ==> balance.unwrap() == self@[message@],
    {
        match self.find(message) {
            Some(at) => Some(self.entries[at].balance),
            None => None,
        }
    }

    /// Records one sighting of `message`, made inside a reconnect window on a
    /// connection tagged `tag`, and says whether the handler is to see it.
    pub fn observe(&mut self, suppress: bool, tag: bool, message: &WebSocketMessage) -> (deliver: bool)
        ensures
            deliver == delivers(old(self)@, suppress, tag, message@),
            final(self)@ == tally_after(old(self)@, suppress, tag, message@),
    {
        proof {
            use_type_invariant(&*self);
        }
        if !suppress {
            return true;
        }
        let sign: i8 = if tag {
            1
        } else {
            -1
        };
        match self.find(message) {
            Some(at) => {
                let sum: i8 = self.entries[at].balance + sign;
                let balance: i8 = if sum > 1 {
                    1
                } else if sum < -1 {
                    -1
                } else {
                    sum
                };
                let mut entries: Vec<Sighting> = Vec::new();
                core::mem::swap(&mut self.entries, &mut entries);
                entries.set(at, Sighting { message: message.clone(), balance });
                self.entries = entries;
                proof {
                    assert forall|m: MessageView| self@.dom().contains(m) implies #[trigger] self@[m]
                        == old(self)@.insert(message@, balance as int)[m] by {
                        let p = position(self.entries@, m);
                        let q = position(old(self).entries@, m);
                        assert(old(self).entries@[p].message@ == m);
                        assert(p == q);
                    }
                    assert forall|m: MessageView| #[trigger] old(self)@.dom().contains(m)
                        implies self@.dom().contains(m) by {
                        let q = position(old(self).entries@, m);
                        assert(self.entries@[q].message@ == m);
                    }
                    assert forall|m: MessageView| #[trigger] self@.dom().contains(m)
                        implies old(self)@.dom().contains(m) by {
                        let p = position(self.entries@, m);
                        assert(old(self).entries@[p].message@ == m);
                    }
                    assert(self@ =~= old(self)@.insert(message@, balance as int));
                }
                balance == sign
            },
            None => {
                let mut entries: Vec<Sighting> = Vec::new();
                core::mem::swap(&mut self.entries, &mut entries);
                entries.push(Sighting { message: message.clone(), balance: sign });
                self.entries = entries;
                proof {
                    let fresh = old(self).entries@.len() as int;
                    assert(self.entries@[fresh].message@ == message@);
                    assert forall|m: MessageView| #[trigger]
                        old(self)@.insert(message@, sign as int).dom().contains(m)
                        implies self@.dom().contains(m) by {
                        if m == message@ {
                            assert(self.entries@[fresh].message@ == m);
                        } else {
                            let i = position(old(self).entries@, m);
                            assert(self.entries@[i].message@ == m);
                        }
                    }
                    assert forall|m: MessageView| self@.dom().contains(m) implies #[trigger] self@[m]
                        == old(self)@.insert(message@, sign as int)[m] by {
                        let p = position(self.entries@, m);
                        if m == message@ {
                            assert(p == fresh);
                        } else {
                            assert(p != fresh);
                            assert(old(self).entries@[p].message@ == m);
                            assert(position(old(self).entries@, m) == p);
                        }
                    }
                    assert(self@ =~= old(self)@.insert(message@, sign as int));
                }
                true
            },
        }
    }

    /// Where `message` stands in the working set.
    fn find(&self, message: &WebSocketMessage) -> (found: Option<usize>)
        ensures
            found.is_some() == self@.dom().contains(message@),
            found.is_some() ==> found.unwrap() < self.entries@.len()
                && self.entries@[found.unwrap() as int].message@ == message@
                && self@[message@] == self.entries@[found.unwrap() as int].balance,
    {
        proof {
            use_type_invariant(self);
        }
        let mut i: usize = 0;
        while i < self.entries.len()
            invariant
                self.well_formed(),
                i <= self.entries@.len(),
                forall|j: int| 0 <= j < i ==> self.entries@[j].message@ != message@,
            decreases self.entries@.len() - i,
        {
            if self.entries[i].message.same(message) {
                proof {
                    let p = position(self.entries@, message@);
                    assert(self.entries@[i as int].message@ == message@);
                    assert(p == i);
                }
                return Some(i);
            }
            i += 1;
        }
        None
    }

    /// The working set holds each message once, so it is as large as the
    /// set of messages it knows.
    proof fn lemma_domain_size(self)
        requires
            self.well_formed(),
        ensures
            self@.dom().finite(),
            self@.dom().len() == self.entries@.len(),
    {
        let keys = self.entries@.map_values(|e: Sighting| e.message@);
        assert(keys.no_duplicates());
        assert(keys.to_set() =~= self@.dom()) by {
            assert forall|m: MessageView| self@.dom().contains(m) implies keys.to_set().contains(m) by {
                let i = position(self.entries@, m);
                assert(keys[i] == m);
            }
        }
        keys.unique_seq_to_set();
    }
}

} // verus!
