//! The subscription store: the transactional persistence boundary. It
//! creates a subscriber row and its confirmation token as one all-or-nothing
//! write, and later resolves a token to confirm a subscriber. Uniqueness of
//! subscriber identifiers and of token strings is the store's constraint;
//! a write that would break it is refused wholesale, leaving the store
//! unchanged.

use vstd::prelude::*;

use crate::domain::{valid_email, valid_name, NewSubscriber, SubscriberEmail, SubscriberName};

verus! {

/// Lifecycle state of a subscriber: created pending, confirmed exactly
/// once a valid token was presented. The transition is one-way.
#[derive(Clone, Copy, Debug, PartialEq, Eq, Structural)]
pub enum SubscriberStatus {
    PendingConfirmation,
    Confirmed,
}

/// One persisted subscriber row.
pub struct Subscriber {
    pub id: u128,
    pub email: SubscriberEmail,
    pub name: SubscriberName,
    pub subscribed_at: i64,
    pub status: SubscriberStatus,
}

/// The mathematical image of a subscriber row.
#[verifier::ext_equal]
pub struct SubscriberModel {
    pub id: u128,
    pub email: Seq<char>,
    pub name: Seq<char>,
    pub subscribed_at: i64,
    pub status: SubscriberStatus,
}

impl View for Subscriber {
    type V = SubscriberModel;

    open spec fn view(&self) -> SubscriberModel {
        SubscriberModel {
            id: self.id,
            email: self.email@,
            name: self.name@,
            subscribed_at: self.subscribed_at,
            status: self.status,
        }
    }
}

/// One persisted confirmation-token row, owned by a subscriber.
pub struct TokenRecord {
    pub token: String,
    pub subscriber_id: u128,
}

/// The mathematical image of a token row.
#[verifier::ext_equal]
pub struct TokenModel {
    pub token: Seq<char>,
    pub subscriber_id: u128,
}

impl View for TokenRecord {
    type V = TokenModel;

    open spec fn view(&self) -> TokenModel {
        TokenModel { token: self.token@, subscriber_id: self.subscriber_id }
    }
}

/// The mathematical image of the whole store: the subscriber rows and the
/// token rows, in insertion order.
#[verifier::ext_equal]
pub struct StoreModel {
    pub subscribers: Seq<SubscriberModel>,
    pub tokens: Seq<TokenModel>,
}

/// What resolving a token can come to: the subscriber is (now) confirmed,
/// the token matches no issued token, or the backing store failed
/// transiently. The in-memory store of this crate never fails transiently;
/// the variant exists because the taxonomy of outcomes does not depend on
/// the backing store.
#[derive(Clone, Copy, Debug, PartialEq, Eq, Structural)]
pub enum ConfirmationOutcome {
    Confirmed,
    TokenNotFound,
    StoreError,
}

/// Why an atomic create was refused: the write would break the uniqueness
/// constraint on subscriber identifiers or on token strings.
#[derive(Clone, Copy, Debug, PartialEq, Eq, Structural)]
pub enum StoreWriteError {
    DuplicateSubscriberId,
    DuplicateToken,
}

impl StoreModel {
    /// Some subscriber row carries this identifier.
    pub open spec fn has_subscriber_id(self, id: u128) -> bool {
        exists|i: int| 0 <= i < self.subscribers.len() && #[trigger] self.subscribers[i].id == id
    }

    /// The position of the subscriber row carrying `id` (meaningful only
    /// when `has_subscriber_id(id)` holds; unique under `wf`).
    pub open spec fn subscriber_index(self, id: u128) -> int {
        choose|i: int| 0 <= i < self.subscribers.len() && #[trigger] self.subscribers[i].id == id
    }

    /// Some token row carries this token string.
    pub open spec fn has_token(self, t: Seq<char>) -> bool {
        exists|i: int| 0 <= i < self.tokens.len() && #[trigger] self.tokens[i].token == t
    }

    /// The position of the token row carrying `t` (meaningful only when
    /// `has_token(t)` holds; unique under `wf`).
    pub open spec fn token_index(self, t: Seq<char>) -> int {
        choose|i: int| 0 <= i < self.tokens.len() && #[trigger] self.tokens[i].token == t
    }

    /// The subscriber a token belongs to.
    pub open spec fn token_owner(self, t: Seq<char>) -> u128 {
        self.tokens[self.token_index(t)].subscriber_id
    }

    /// The status of the subscriber carrying `id`.
    pub open spec fn status_of(self, id: u128) -> SubscriberStatus {
        self.subscribers[self.subscriber_index(id)].status
    }

    /// The store's invariant: subscriber identifiers are unique, token
    /// strings are unique, every token belongs to an existing subscriber,
    /// and every subscriber carries a validated identity.
    pub open spec fn wf(self) -> bool {
        &&& forall|i: int, j: int|
            0 <= i < j < self.subscribers.len() ==> #[trigger] self.subscribers[i].id
                != #[trigger] self.subscribers[j].id
        &&& forall|i: int, j: int|
            0 <= i < j < self.tokens.len() ==> #[trigger] self.tokens[i].token
                != #[trigger] self.tokens[j].token
        &&& forall|i: int|
            0 <= i < self.tokens.len() ==> self.has_subscriber_id(
                #[trigger] self.tokens[i].subscriber_id,
            )
        &&& forall|i: int|
            0 <= i < self.subscribers.len() ==> valid_email(#[trigger] self.subscribers[i].email)
                && valid_name(self.subscribers[i].name)
    }

    /// The store after an accepted atomic create: one more pending
    /// subscriber row and one more token row belonging to it.
    pub open spec fn with_pending(
        self,
        id: u128,
        email: Seq<char>,
        name: Seq<char>,
        subscribed_at: i64,
        token: Seq<char>,
    ) -> StoreModel {
        StoreModel {
            subscribers: self.subscribers.push(
                SubscriberModel {
                    id,
                    email,
                    name,
                    subscribed_at,
                    status: SubscriberStatus::PendingConfirmation,
                },
            ),
            tokens: self.tokens.push(TokenModel { token, subscriber_id: id }),
        }
    }

    /// The store after confirming the subscriber carrying `id`: that row's
    /// status becomes `Confirmed`, everything else is untouched.
    pub open spec fn confirm_subscriber(self, id: u128) -> StoreModel {
        StoreModel {
            subscribers: Seq::new(
                self.subscribers.len(),
                |i: int|
                    if self.subscribers[i].id == id {
                        SubscriberModel { status: SubscriberStatus::Confirmed, ..self.subscribers[i] }
                    } else {
                        self.subscribers[i]
                    },
            ),
            tokens: self.tokens,
        }
    }

    /// What resolving a token does to the store, and what it answers: a
    /// known token confirms its owner (again, harmlessly, if it already
    /// did), an unknown token changes nothing.
    pub open spec fn confirm_transition(self, t: Seq<char>) -> (StoreModel, ConfirmationOutcome) {
        if self.has_token(t) {
            (self.confirm_subscriber(self.token_owner(t)), ConfirmationOutcome::Confirmed)
        } else {
            (self, ConfirmationOutcome::TokenNotFound)
        }
    }
}

/// The in-memory subscription store: subscriber rows and token rows kept
/// under the store invariant.
pub struct SubscriptionStore {
    subscribers: Vec<Subscriber>,
    tokens: Vec<TokenRecord>,
}

impl View for SubscriptionStore {
    type V = StoreModel;

    closed spec fn view(&self) -> StoreModel {
        StoreModel {
            subscribers: Seq::new(self.subscribers@.len(), |i: int| self.subscribers@[i]@),
            tokens: Seq::new(self.tokens@.len(), |i: int| self.tokens@[i]@),
        }
    }
}

impl SubscriptionStore {
    /// An empty store.
    pub fn new() -> (r: SubscriptionStore)
        ensures
            r@.subscribers.len() == 0,
            r@.tokens.len() == 0,
            r@.wf(),
    {
        SubscriptionStore { subscribers: Vec::new(), tokens: Vec::new() }
    }

    /// Whether some subscriber row carries `id`.
    fn contains_subscriber_id(&self, id: u128) -> (r: bool)
        ensures
            r == self@.has_subscriber_id(id),
    {
        let n = self.subscribers.len();
        let mut i: usize = 0;
        while i < n
            invariant
                n == self@.subscribers.len(),
                i <= n,
                forall|j: int| 0 <= j < i ==> #[trigger] self@.subscribers[j].id != id,
            decreases n - i,
        {
            if self.subscribers[i].id == id {
                proof {
                    assert(self@.subscribers[i as int].id == id);
                }
                return true;
            }
            proof {
                assert(self@.subscribers[i as int].id != id);
            }
            i += 1;
        }
        false
    }

    /// Whether some token row carries `t`, and at which position.
    fn find_token(&self, t: &str) -> (r: Option<usize>)
        ensures
            r is Some <==> self@.has_token(t@),
            r matches Some(i) ==> i < self@.tokens.len() && self@.tokens[i as int].token == t@,
    {
        let needle: String = t.to_owned();
        let n = self.tokens.len();
        let mut i: usize = 0;
        while i < n
            invariant
                n == self@.tokens.len(),
                needle@ == t@,
                i <= n,
                forall|j: int| 0 <= j < i ==> #[trigger] self@.tokens[j].token != t@,
            decreases n - i,
        {
            if self.tokens[i].token == needle {
                proof {
                    assert(self@.tokens[i as int].token == t@);
                }
                return Some(i);
            }
            proof {
                assert(self@.tokens[i as int].token != t@);
            }
            i += 1;
        }
        None
    }

    /// Atomically create one pending subscriber row and its token row. Both
    /// are written, or — when the uniqueness constraint on identifiers or
    /// on token strings would break — neither is, and the error names the
    /// constraint that refused the write.
    pub fn create_pending_subscriber(
        &mut self,
        subscriber: NewSubscriber,
        id: u128,
        token: String,
        subscribed_at: i64,
    ) -> (r: Result<(), StoreWriteError>)
        requires
            old(self)@.wf(),
            subscriber.wf(),
        ensures
            final(self)@.wf(),
            r is Ok <==> !old(self)@.has_subscriber_id(id) && !old(self)@.has_token(token@),
            r is Ok ==> final(self)@ == old(self)@.with_pending(
                id,
                subscriber.email@,
                subscriber.name@,
                subscribed_at,
                token@,
            ),
            r matches Err(e) ==> final(self)@ == old(self)@ && (e
                == StoreWriteError::DuplicateSubscriberId <==> old(self)@.has_subscriber_id(id)),
    {
        if self.contains_subscriber_id(id) {
            return Err(StoreWriteError::DuplicateSubscriberId);
        }
        if self.find_token(token.as_str()).is_some() {
            return Err(StoreWriteError::DuplicateToken);
        }
        let ghost pre = self@;
        let row = Subscriber {
            id,
            email: subscriber.email,
            name: subscriber.name,
            subscribed_at,
            status: SubscriberStatus::PendingConfirmation,
        };
        let ghost row_model = row@;
        self.subscribers.push(row);
        self.tokens.push(TokenRecord { token, subscriber_id: id });
        proof {
            let post = self@;
            let target = pre.with_pending(id, subscriber.email@, subscriber.name@, subscribed_at, token@);
            assert(post.subscribers =~= target.subscribers);
            assert(post.tokens =~= target.tokens);
            assert(post =~= target);
            lemma_with_pending_preserves_wf(pre, row_model, token@);
        }
        Ok(())
    }

    /// Resolve a token and confirm its subscriber. A known token answers
    /// `Confirmed`, also when the subscriber was already confirmed by an
    /// earlier presentation of the same token: re-presenting an exhausted
    /// token is a harmless no-op, not an error. An unknown token answers
    /// `TokenNotFound` and changes nothing. This store never answers
    /// `StoreError`.
    pub fn confirm_by_token(&mut self, token: &str) -> (r: ConfirmationOutcome)
        requires
            old(self)@.wf(),
        ensures
            final(self)@.wf(),
            r == old(self)@.confirm_transition(token@).1,
            final(self)@ == old(self)@.confirm_transition(token@).0,
            r != ConfirmationOutcome::StoreError,
    {
        let ghost pre = self@;
        let ti = match self.find_token(token) {
            None => {
                return ConfirmationOutcome::TokenNotFound;
            },
            Some(ti) => ti,
        };
        let owner: u128 = self.tokens[ti].subscriber_id;
        proof {
            assert(pre.token_index(token@) == choose|i: int|
                0 <= i < pre.tokens.len() && #[trigger] pre.tokens[i].token == token@);
            lemma_unique_token_index(pre, token@, ti as int);
            assert(pre.token_owner(token@) == owner);
            assert(pre.has_subscriber_id(owner));
        }
        let n = self.subscribers.len();
        let mut i: usize = 0;
        while i < n
            invariant
                self@ == pre,
                pre == old(self)@,
                pre.wf(),
                n == pre.subscribers.len(),
                i <= n,
                pre.has_token(token@),
                pre.token_owner(token@) == owner,
                pre.has_subscriber_id(owner),
                forall|j: int| 0 <= j < i ==> #[trigger] pre.subscribers[j].id != owner,
            decreases n - i,
        {
            if self.subscribers[i].id == owner {
                proof {
                    assert(self@.subscribers[i as int].id == owner);
                }
                self.subscribers[i].status = SubscriberStatus::Confirmed;
                proof {
                    let post = self@;
                    let target = pre.confirm_subscriber(owner);
                    assert(pre.subscribers[i as int].id == owner);
                    assert(post.subscribers[i as int] =~= SubscriberModel {
                        status: SubscriberStatus::Confirmed,
                        ..pre.subscribers[i as int]
                    });
                    assert forall|k: int| 0 <= k < post.subscribers.len() implies
                        post.subscribers[k] =~= target.subscribers[k] by {
                        if k != i {
                            assert(pre.subscribers[k] == post.subscribers[k]);
                        }
                    }
                    assert(post.subscribers =~= target.subscribers);
                    assert(post.tokens =~= target.tokens);
                    assert(post =~= target);
                    lemma_confirm_preserves_wf(pre, owner);
                }
                return ConfirmationOutcome::Confirmed;
            }
            proof {
                assert(self@.subscribers[i as int].id != owner);
            }
            i += 1;
        }
        proof {
            let w = choose|w: int|
                0 <= w < pre.subscribers.len() && #[trigger] pre.subscribers[w].id == owner;
            assert(false);
        }
        ConfirmationOutcome::StoreError
    }

    /// How many subscriber rows the store holds.
    pub fn subscriber_count(&self) -> (r: usize)
        ensures
            r == self@.subscribers.len(),
    {
        self.subscribers.len()
    }

    /// How many token rows the store holds.
    pub fn token_count(&self) -> (r: usize)
        ensures
            r == self@.tokens.len(),
    {
        self.tokens.len()
    }

    /// The subscriber row at position `i`, in insertion order.
    pub fn subscriber_at(&self, i: usize) -> (r: &Subscriber)
        requires
            i < self@.subscribers.len(),
        ensures
            r@ == self@.subscribers[i as int],
    {
        &self.subscribers[i]
    }

    /// The token row at position `i`, in insertion order.
    pub fn token_at(&self, i: usize) -> (r: &TokenRecord)
        requires
            i < self@.tokens.len(),
        ensures
            r@ == self@.tokens[i as int],
    {
        &self.tokens[i]
    }
}

/// Under the store invariant, any position whose token row carries `t` is
/// the one `token_index` picks.
pub proof fn lemma_unique_token_index(m: StoreModel, t: Seq<char>, i: int)
    requires
        m.wf(),
        0 <= i < m.tokens.len(),
        m.tokens[i].token == t,
    ensures
        m.has_token(t),
        m.token_index(t) == i,
{
    assert(m.has_token(t));
    let j = m.token_index(t);
    assert(0 <= j < m.tokens.len() && m.tokens[j].token == t);
    if i < j {
        assert(m.tokens[i].token != m.tokens[j].token);
    } else if j < i {
        assert(m.tokens[j].token != m.tokens[i].token);
    }
}

/// Under the store invariant, any position whose subscriber row carries
/// `id` is the one `subscriber_index` picks.
pub proof fn lemma_unique_subscriber_index(m: StoreModel, id: u128, i: int)
    requires
        m.wf(),
        0 <= i < m.subscribers.len(),
        m.subscribers[i].id == id,
    ensures
        m.has_subscriber_id(id),
        m.subscriber_index(id) == i,
{
    assert(m.has_subscriber_id(id));
    let j = m.subscriber_index(id);
    assert(0 <= j < m.subscribers.len() && m.subscribers[j].id == id);
    if i < j {
        assert(m.subscribers[i].id != m.subscribers[j].id);
    } else if j < i {
        assert(m.subscribers[j].id != m.subscribers[i].id);
    }
}

/// An accepted atomic create preserves the store invariant.
pub proof fn lemma_with_pending_preserves_wf(m: StoreModel, row: SubscriberModel, token: Seq<char>)
    requires
        m.wf(),
        !m.has_subscriber_id(row.id),
        !m.has_token(token),
        valid_email(row.email),
        valid_name(row.name),
        row.status == SubscriberStatus::PendingConfirmation,
    ensures
        m.with_pending(row.id, row.email, row.name, row.subscribed_at, token).wf(),
{
    let m2 = m.with_pending(row.id, row.email, row.name, row.subscribed_at, token);
    assert(m2.subscribers.last() =~= SubscriberModel {
        id: row.id,
        email: row.email,
        name: row.name,
        subscribed_at: row.subscribed_at,
        status: SubscriberStatus::PendingConfirmation,
    });
    assert forall|i: int, j: int| 0 <= i < j < m2.subscribers.len() implies #[trigger] m2
        .subscribers[i].id != #[trigger] m2.subscribers[j].id by {
        if j == m2.subscribers.len() - 1 {
            assert(m2.subscribers[i] == m.subscribers[i]);
            assert(m.subscribers[i].id != row.id);
        }
    }
    assert forall|i: int, j: int| 0 <= i < j < m2.tokens.len() implies #[trigger] m2.tokens[i].token
        != #[trigger] m2.tokens[j].token by {
        if j == m2.tokens.len() - 1 {
            assert(m2.tokens[i] == m.tokens[i]);
            assert(m.tokens[i].token != token);
        }
    }
    assert forall|i: int| 0 <= i < m2.tokens.len() implies m2.has_subscriber_id(
        #[trigger] m2.tokens[i].subscriber_id,
    ) by {
        if i < m2.tokens.len() - 1 {
            assert(m.has_subscriber_id(m.tokens[i].subscriber_id));
            let w = m.subscriber_index(m.tokens[i].subscriber_id);
            assert(0 <= w < m.subscribers.len() && m.subscribers[w].id == m.tokens[i].subscriber_id);
            assert(m2.subscribers[w].id == m.tokens[i].subscriber_id);
        } else {
            assert(m2.subscribers[m2.subscribers.len() - 1].id == row.id);
        }
    }
}

/// Confirming a subscriber preserves the store invariant: identifiers,
/// token rows and identities are untouched, only one status changes.
pub proof fn lemma_confirm_preserves_wf(m: StoreModel, id: u128)
    requires
        m.wf(),
    ensures
        m.confirm_subscriber(id).wf(),
        m.confirm_subscriber(id).subscribers.len() == m.subscribers.len(),
        forall|i: int| 0 <= i < m.subscribers.len() ==> #[trigger] m.confirm_subscriber(
            id,
        ).subscribers[i].id == m.subscribers[i].id,
        m.confirm_subscriber(id).tokens == m.tokens,
{
    let m2 = m.confirm_subscriber(id);
    assert forall|i: int| 0 <= i < m2.tokens.len() implies m2.has_subscriber_id(
        #[trigger] m2.tokens[i].subscriber_id,
    ) by {
        assert(m.has_subscriber_id(m.tokens[i].subscriber_id));
        let w = m.subscriber_index(m.tokens[i].subscriber_id);
        assert(m2.subscribers[w].id == m.tokens[i].subscriber_id);
    }
}

} // verus!
