//! The persisted state the confirmation workflow runs against: a
//! subscribers relation keyed by subscriber id with a status field, and
//! a tokens relation keyed by token string with a reference to a
//! subscriber id — together with the unit of work through which the
//! workflow's writes become visible atomically.
use vstd::prelude::*;

verus! {

/// An opaque unique subscriber identity.
#[derive(Clone, Copy, PartialEq, Eq, Structural, Debug)]
pub struct SubscriberId {
    pub value: u128,
}

/// A subscriber's confirmation status. Transitions are monotonic:
/// pending to confirmed, never backward.
#[derive(Clone, Copy, PartialEq, Eq, Structural, Debug)]
pub enum SubscriberStatus {
    PendingConfirmation,
    Confirmed,
}

/// One row of the subscribers relation.
pub struct SubscriberRow {
    pub id: SubscriberId,
    pub status: SubscriberStatus,
}

/// One row of the tokens relation.
pub struct TokenRow {
    pub token: String,
    pub subscriber_id: SubscriberId,
}

/// The mathematical content of the store: the two relations as maps.
pub ghost struct StoreModel {
    pub subscribers: Map<SubscriberId, SubscriberStatus>,
    pub tokens: Map<Seq<char>, SubscriberId>,
}

/// Reference integrity: every live token is bound to a subscriber that
/// exists.
pub open spec fn model_wf(m: StoreModel) -> bool {
    forall|t: Seq<char>| #[trigger]
        m.tokens.contains_key(t) ==> m.subscribers.contains_key(m.tokens[t])
}

/// Whether this subscriber exists and is confirmed.
pub open spec fn subscriber_confirmed(m: StoreModel, id: SubscriberId) -> bool {
    m.subscribers.contains_key(id) && m.subscribers[id] is Confirmed
}

/// The subscriber a token resolves to, if a live mapping exists.
pub open spec fn resolved_subscriber(m: StoreModel, token: Seq<char>) -> Option<SubscriberId> {
    if m.tokens.contains_key(token) {
        Some(m.tokens[token])
    } else {
        None
    }
}

/// The tokens relation with every binding of one subscriber removed.
pub open spec fn tokens_without_subscriber(
    tokens: Map<Seq<char>, SubscriberId>,
    id: SubscriberId,
) -> Map<Seq<char>, SubscriberId> {
    Map::new(
        |t: Seq<char>| tokens.contains_key(t) && tokens[t] != id,
        |t: Seq<char>| tokens[t],
    )
}

/// One write recorded inside a unit of work.
#[derive(Clone, Copy, PartialEq, Eq, Structural, Debug)]
pub enum StoreWrite {
    /// Set the subscriber's status to confirmed (a no-op on a
    /// subscriber that does not exist).
    MarkConfirmed(SubscriberId),
    /// Remove every token bound to the subscriber (idempotent).
    DeleteTokens(SubscriberId),
}

/// The effect of one write on the model.
pub open spec fn apply_write(m: StoreModel, w: StoreWrite) -> StoreModel {
    match w {
        StoreWrite::MarkConfirmed(id) => if m.subscribers.contains_key(id) {
            StoreModel {
                subscribers: m.subscribers.insert(id, SubscriberStatus::Confirmed),
                tokens: m.tokens,
            }
        } else {
            m
        },
        StoreWrite::DeleteTokens(id) => StoreModel {
            subscribers: m.subscribers,
            tokens: tokens_without_subscriber(m.tokens, id),
        },
    }
}

/// The effect of a whole unit of work, applied in order.
pub open spec fn apply_writes(m: StoreModel, ws: Seq<StoreWrite>) -> StoreModel
    decreases ws.len(),
{
    if ws.len() == 0 {
        m
    } else {
        apply_write(apply_writes(m, ws.drop_last()), ws.last())
    }
}

/// The subscribers relation a row sequence denotes.
pub open spec fn subscriber_map(rows: Seq<SubscriberRow>) -> Map<SubscriberId, SubscriberStatus>
    decreases rows.len(),
{
    if rows.len() == 0 {
        Map::empty()
    } else {
        subscriber_map(rows.drop_last()).insert(rows.last().id, rows.last().status)
    }
}

/// The tokens relation a row sequence denotes.
pub open spec fn token_map(rows: Seq<TokenRow>) -> Map<Seq<char>, SubscriberId>
    decreases rows.len(),
{
    if rows.len() == 0 {
        Map::empty()
    } else {
        token_map(rows.drop_last()).insert(rows.last().token@, rows.last().subscriber_id)
    }
}

pub open spec fn subscriber_ids_distinct(rows: Seq<SubscriberRow>) -> bool {
    forall|i: int, j: int|
        0 <= i < j < rows.len() ==> #[trigger] rows[i].id != #[trigger] rows[j].id
}

pub open spec fn token_keys_distinct(rows: Seq<TokenRow>) -> bool {
    forall|i: int, j: int|
        0 <= i < j < rows.len() ==> #[trigger] rows[i].token@ != #[trigger] rows[j].token@
}

proof fn lemma_subscriber_map_contains(rows: Seq<SubscriberRow>, id: SubscriberId)
    ensures
        subscriber_map(rows).contains_key(id) <==> exists|i: int|
            0 <= i < rows.len() && #[trigger] rows[i].id == id,
    decreases rows.len(),
{
    if rows.len() > 0 {
        lemma_subscriber_map_contains(rows.drop_last(), id);
        if subscriber_map(rows).contains_key(id) {
            if rows.last().id == id {
                assert(rows[rows.len() - 1].id == id);
            } else {
                let i = choose|i: int|
                    0 <= i < rows.drop_last().len() && #[trigger] rows.drop_last()[i].id == id;
                assert(rows[i].id == id);
            }
        }
        if exists|i: int| 0 <= i < rows.len() && #[trigger] rows[i].id == id {
            let i = choose|i: int| 0 <= i < rows.len() && #[trigger] rows[i].id == id;
            if i < rows.len() - 1 {
                assert(rows.drop_last()[i].id == id);
            }
        }
    }
}

proof fn lemma_token_map_contains(rows: Seq<TokenRow>, t: Seq<char>)
    ensures
        token_map(rows).contains_key(t) <==> exists|i: int|
            0 <= i < rows.len() && #[trigger] rows[i].token@ == t,
    decreases rows.len(),
{
    if rows.len() > 0 {
        lemma_token_map_contains(rows.drop_last(), t);
        if token_map(rows).contains_key(t) {
            if rows.last().token@ == t {
                assert(rows[rows.len() - 1].token@ == t);
            } else {
                let i = choose|i: int|
                    0 <= i < rows.drop_last().len() && #[trigger] rows.drop_last()[i].token@ == t;
                assert(rows[i].token@ == t);
            }
        }
        if exists|i: int| 0 <= i < rows.len() && #[trigger] rows[i].token@ == t {
            let i = choose|i: int| 0 <= i < rows.len() && #[trigger] rows[i].token@ == t;
            if i < rows.len() - 1 {
                assert(rows.drop_last()[i].token@ == t);
            }
        }
    }
}

proof fn lemma_subscriber_map_at(rows: Seq<SubscriberRow>, i: int)
    requires
        subscriber_ids_distinct(rows),
        0 <= i < rows.len(),
    ensures
        subscriber_map(rows).contains_key(rows[i].id),
        subscriber_map(rows)[rows[i].id] == rows[i].status,
    decreases rows.len(),
{
    if i < rows.len() - 1 {
        assert(subscriber_ids_distinct(rows.drop_last()));
        lemma_subscriber_map_at(rows.drop_last(), i);
        assert(rows.last().id != rows[i].id);
    }
}

proof fn lemma_token_map_at(rows: Seq<TokenRow>, i: int)
    requires
        token_keys_distinct(rows),
        0 <= i < rows.len(),
    ensures
        token_map(rows).contains_key(rows[i].token@),
        token_map(rows)[rows[i].token@] == rows[i].subscriber_id,
    decreases rows.len(),
{
    if i < rows.len() - 1 {
        assert(token_keys_distinct(rows.drop_last()));
        lemma_token_map_at(rows.drop_last(), i);
        assert(rows.last().token@ != rows[i].token@);
    }
}

proof fn lemma_subscriber_map_update(rows: Seq<SubscriberRow>, i: int, status: SubscriberStatus)
    requires
        subscriber_ids_distinct(rows),
        0 <= i < rows.len(),
    ensures
        subscriber_map(rows.update(i, SubscriberRow { id: rows[i].id, status }))
            == subscriber_map(rows).insert(rows[i].id, status),
    decreases rows.len(),
{
    let updated = rows.update(i, SubscriberRow { id: rows[i].id, status });
    if i == rows.len() - 1 {
        assert(updated.drop_last() =~= rows.drop_last());
        assert(subscriber_map(updated) =~= subscriber_map(rows).insert(rows[i].id, status));
    } else {
        assert(subscriber_ids_distinct(rows.drop_last()));
        assert(updated.drop_last() =~= rows.drop_last().update(
            i,
            SubscriberRow { id: rows[i].id, status },
        ));
        lemma_subscriber_map_update(rows.drop_last(), i, status);
        assert(rows.last().id != rows[i].id);
        assert(subscriber_map(updated) =~= subscriber_map(rows).insert(rows[i].id, status));
    }
}

/// The store itself. The row vectors are kept key-distinct, so that the
/// maps of [`StoreModel`] describe them faithfully.
pub struct Store {
    subscribers: Vec<SubscriberRow>,
    tokens: Vec<TokenRow>,
}

impl View for Store {
    type V = StoreModel;

    closed spec fn view(&self) -> StoreModel {
        StoreModel {
            subscribers: subscriber_map(self.subscribers@),
            tokens: token_map(self.tokens@),
        }
    }
}

/// A unit of work: writes recorded now, visible all together only when
/// the store commits them — or never, if the unit is dropped instead.
pub struct UnitOfWork {
    writes: Vec<StoreWrite>,
}

impl View for UnitOfWork {
    type V = Seq<StoreWrite>;

    closed spec fn view(&self) -> Seq<StoreWrite> {
        self.writes@
    }
}

impl Store {
    /// Representation invariant: distinct keys in both relations, and
    /// every token bound to an existing subscriber.
    pub closed spec fn inv(&self) -> bool {
        &&& subscriber_ids_distinct(self.subscribers@)
        &&& token_keys_distinct(self.tokens@)
        &&& forall|j: int|
            0 <= j < self.tokens@.len() ==> subscriber_map(self.subscribers@).contains_key(
                (#[trigger] self.tokens@[j]).subscriber_id,
            )
    }

    /// The representation invariant carries the model-level reference
    /// integrity: a live token always resolves to an existing
    /// subscriber.
    pub proof fn lemma_inv_implies_wf(&self)
        requires
            self.inv(),
        ensures
            model_wf(self@),
    {
        assert forall|t: Seq<char>| #[trigger] self@.tokens.contains_key(t) implies
            self@.subscribers.contains_key(self@.tokens[t]) by {
            lemma_token_map_contains(self.tokens@, t);
            let i = choose|i: int|
                0 <= i < self.tokens@.len() && #[trigger] self.tokens@[i].token@ == t;
            lemma_token_map_at(self.tokens@, i);
        }
    }

    /// An empty store.
    pub fn new() -> (r: Store)
        ensures
            r.inv(),
            r@.subscribers == Map::<SubscriberId, SubscriberStatus>::empty(),
            r@.tokens == Map::<Seq<char>, SubscriberId>::empty(),
    {
        Store { subscribers: Vec::new(), tokens: Vec::new() }
    }

    /// Intake: registers a new subscriber.
    pub fn add_subscriber(&mut self, id: SubscriberId, status: SubscriberStatus)
        requires
            old(self).inv(),
            !old(self)@.subscribers.contains_key(id),
        ensures
            final(self).inv(),
            final(self)@.subscribers == old(self)@.subscribers.insert(id, status),
            final(self)@.tokens == old(self)@.tokens,
    {
        proof {
            lemma_subscriber_map_contains(self.subscribers@, id);
        }
        self.subscribers.push(SubscriberRow { id, status });
        proof {
            let rows = old(self).subscribers@;
            let pushed = self.subscribers@;
            assert(pushed.drop_last() =~= rows);
            assert(subscriber_ids_distinct(pushed));
            assert(final(self)@.tokens == old(self)@.tokens);
        }
    }

    /// Intake: issues a confirmation token for an existing subscriber.
    pub fn add_token(&mut self, token: String, subscriber_id: SubscriberId)
        requires
            old(self).inv(),
            !old(self)@.tokens.contains_key(token@),
            old(self)@.subscribers.contains_key(subscriber_id),
        ensures
            final(self).inv(),
            final(self)@.tokens == old(self)@.tokens.insert(token@, subscriber_id),
            final(self)@.subscribers == old(self)@.subscribers,
    {
        proof {
            lemma_token_map_contains(self.tokens@, token@);
        }
        self.tokens.push(TokenRow { token, subscriber_id });
        proof {
            let rows = old(self).tokens@;
            let pushed = self.tokens@;
            assert(pushed.drop_last() =~= rows);
            assert(token_keys_distinct(pushed));
        }
    }

    /// Opens a unit of work with no writes recorded yet.
    pub fn begin(&self) -> (r: UnitOfWork)
        ensures
            r@ == Seq::<StoreWrite>::empty(),
    {
        UnitOfWork { writes: Vec::new() }
    }

    /// Closes the unit of work: every recorded write becomes visible,
    /// in order, in one step. Nothing of the unit was visible before
    /// this call.
    pub fn commit(&mut self, transaction: UnitOfWork)
        requires
            old(self).inv(),
        ensures
            final(self).inv(),
            final(self)@ == apply_writes(old(self)@, transaction@),
    {
        let mut k: usize = 0;
        let ghost all = transaction.writes@;
        while k < transaction.writes.len()
            invariant
                k <= all.len(),
                transaction.writes@ == all,
                self.inv(),
                self@ == apply_writes(old(self)@, all.subrange(0, k as int)),
            decreases all.len() - k,
        {
            let ghost prefix = all.subrange(0, k as int);
            match transaction.writes[k] {
                StoreWrite::MarkConfirmed(id) => {
                    self.apply_mark_confirmed(id);
                },
                StoreWrite::DeleteTokens(id) => {
                    self.apply_delete_tokens(id);
                },
            }
            proof {
                assert(all.subrange(0, k + 1 as int) =~= prefix.push(all[k as int]));
                assert(all.subrange(0, k + 1 as int).drop_last() =~= prefix);
            }
            k = k + 1;
        }
        proof {
            assert(all.subrange(0, all.len() as int) =~= all);
        }
    }

    fn apply_mark_confirmed(&mut self, id: SubscriberId)
        requires
            old(self).inv(),
        ensures
            final(self).inv(),
            final(self)@ == apply_write(old(self)@, StoreWrite::MarkConfirmed(id)),
    {
        let n = self.subscribers.len();
        let mut i: usize = 0;
        while i < n
            invariant
                old(self).inv(),
                n == self.subscribers.len(),
                i <= n,
                *self == *old(self),
                forall|j: int| 0 <= j < i ==> (#[trigger] self.subscribers@[j]).id != id,
            decreases n - i,
        {
            if self.subscribers[i].id == id {
                let ghost rows = self.subscribers@;
                self.subscribers[i] = SubscriberRow { id, status: SubscriberStatus::Confirmed };
                proof {
                    lemma_subscriber_map_at(rows, i as int);
                    lemma_subscriber_map_update(rows, i as int, SubscriberStatus::Confirmed);
                    assert(subscriber_ids_distinct(self.subscribers@));
                    assert(self@ == apply_write(old(self)@, StoreWrite::MarkConfirmed(id)));
                }
                return ;
            }
            i = i + 1;
        }
        proof {
            lemma_subscriber_map_contains(self.subscribers@, id);
            assert(!self@.subscribers.contains_key(id));
        }
    }

    fn apply_delete_tokens(&mut self, id: SubscriberId)
        requires
            old(self).inv(),
        ensures
            final(self).inv(),
            final(self)@ == apply_write(old(self)@, StoreWrite::DeleteTokens(id)),
    {
        let ghost all = self.tokens@;
        let mut kept: Vec<TokenRow> = Vec::new();
        let mut i: usize = 0;
        while i < self.tokens.len()
            invariant
                old(self).inv(),
                i <= all.len(),
                *self == *old(self),
                self.tokens@ == all,
                token_keys_distinct(kept@),
                token_map(kept@) == tokens_without_subscriber(
                    token_map(all.subrange(0, i as int)),
                    id,
                ),
                forall|j: int|
                    0 <= j < kept@.len() ==> subscriber_map(self.subscribers@).contains_key(
                        (#[trigger] kept@[j]).subscriber_id,
                    ),
                forall|j: int|
                    0 <= j < kept@.len() ==> exists|l: int|
                        0 <= l < i && (#[trigger] kept@[j]).token@ == all[l].token@,
            decreases all.len() - i,
        {
            let ghost prefix = all.subrange(0, i as int);
            let ghost kept_before = kept@;
            let keep = self.tokens[i].subscriber_id.value != id.value;
            if keep {
                let row = TokenRow {
                    token: self.tokens[i].token.clone(),
                    subscriber_id: self.tokens[i].subscriber_id,
                };
                kept.push(row);
            }
            proof {
                assert(all.subrange(0, i + 1 as int) =~= prefix.push(all[i as int]));
                assert(all.subrange(0, i + 1 as int).drop_last() =~= prefix);
                lemma_token_map_contains(prefix, all[i as int].token@);
                // the token at position i is new to the prefix, hence to kept
                assert(forall|l: int|
                    0 <= l < i ==> (#[trigger] all[l].token@) != all[i as int].token@);
                if keep {
                    assert(kept@.drop_last() =~= kept_before);
                    assert forall|j: int| 0 <= j < kept_before.len() implies
                        (#[trigger] kept_before[j]).token@ != all[i as int].token@ by {
                        let l = choose|l: int|
                            0 <= l < i && (#[trigger] kept_before[j]).token@ == all[l].token@;
                    }
                    assert(token_keys_distinct(kept@));
                    assert(token_map(kept@) =~= tokens_without_subscriber(
                        token_map(all.subrange(0, i + 1 as int)),
                        id,
                    ));
                } else {
                    assert(all[i as int].subscriber_id == id);
                    assert(token_map(kept@) =~= tokens_without_subscriber(
                        token_map(all.subrange(0, i + 1 as int)),
                        id,
                    ));
                }
            }
            i = i + 1;
        }
        proof {
            assert(all.subrange(0, all.len() as int) =~= all);
        }
        self.tokens = kept;
    }
}

/// Resolves a caller-supplied token to the subscriber it is bound to,
/// if a live mapping exists; an unknown or already-consumed token is
/// expected traffic and yields no subscriber, not an error.
pub fn get_subscriber_id_from_token(subscription_token: &str, store: &Store) -> (r: Option<
    SubscriberId,
>)
    requires
        store.inv(),
    ensures
        r == resolved_subscriber(store@, subscription_token@),
{
    let wanted = subscription_token.to_owned();
    let n = store.tokens.len();
    let mut i: usize = 0;
    while i < n
        invariant
            store.inv(),
            n == store.tokens.len(),
            i <= n,
            wanted@ == subscription_token@,
            forall|j: int| 0 <= j < i ==> (#[trigger] store.tokens@[j]).token@ != wanted@,
        decreases n - i,
    {
        if store.tokens[i].token == wanted {
            proof {
                lemma_token_map_at(store.tokens@, i as int);
            }
            return Some(store.tokens[i].subscriber_id);
        }
        i = i + 1;
    }
    proof {
        lemma_token_map_contains(store.tokens@, wanted@);
    }
    None
}

/// Point-in-time read of a subscriber's status: true only when the
/// subscriber exists and is confirmed.
pub fn is_user_confirmed(subscriber_id: SubscriberId, store: &Store) -> (r: bool)
    requires
        store.inv(),
    ensures
        r == subscriber_confirmed(store@, subscriber_id),
{
    let n = store.subscribers.len();
    let mut i: usize = 0;
    while i < n
        invariant
            store.inv(),
            n == store.subscribers.len(),
            i <= n,
            forall|j: int| 0 <= j < i ==> (#[trigger] store.subscribers@[j]).id != subscriber_id,
        decreases n - i,
    {
        if store.subscribers[i].id == subscriber_id {
            proof {
                lemma_subscriber_map_at(store.subscribers@, i as int);
            }
            return match store.subscribers[i].status {
                SubscriberStatus::Confirmed => true,
                SubscriberStatus::PendingConfirmation => false,
            };
        }
        i = i + 1;
    }
    proof {
        lemma_subscriber_map_contains(store.subscribers@, subscriber_id);
    }
    false
}

/// Records, inside the unit of work, the status transition of this
/// subscriber to confirmed. Nothing is visible until the commit.
pub fn confirm_subscriber(subscriber_id: SubscriberId, transaction: &mut UnitOfWork)
    ensures
        final(transaction)@ == old(transaction)@.push(StoreWrite::MarkConfirmed(subscriber_id)),
{
    transaction.writes.push(StoreWrite::MarkConfirmed(subscriber_id));
}

/// Records, inside the unit of work, the deletion of every token bound
/// to this subscriber. Deleting tokens that are already gone is not an
/// error. Nothing is visible until the commit.
pub fn delete_old_token(subscriber_id: SubscriberId, transaction: &mut UnitOfWork)
    ensures
        final(transaction)@ == old(transaction)@.push(StoreWrite::DeleteTokens(subscriber_id)),
{
    transaction.writes.push(StoreWrite::DeleteTokens(subscriber_id));
}

} // verus!
