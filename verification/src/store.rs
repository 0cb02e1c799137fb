//! The local store: the queue of readings with its retention cap, the cached
//! credential, the diagnostic log and the ledger of applied migrations.
//!
//! Timestamps are nanoseconds since the Unix epoch.
use vstd::prelude::*;
use crate::pending::{distinct_ids, pending_oldest_first};

verus! {

/// The number of readings that the store keeps unless it is told otherwise.
pub const DEFAULT_ROW_CAP: usize = 10_000_000;

/// One stored reading.
#[derive(Clone, Copy, Debug, PartialEq, Eq)]
pub struct DBData {
    /// Identifier assigned by the store; later rows have larger ones.
    pub id: i32,
    /// When the reading was captured.
    pub timestamp: i64,
    /// Energy drawn from the grid, as a binary64 bit pattern.
    pub value: u64,
    /// Energy fed into the grid.
    pub value_out: Option<u64>,
    /// Instantaneous power.
    pub value_current: Option<u64>,
    /// Whether the remote service has acknowledged the reading.
    pub synced: bool,
}

/// The cached access token with the moment from which it is no longer used.
#[derive(Clone, Debug, PartialEq, Eq)]
pub struct Credential {
    pub token: String,
    pub expires_at: i64,
}

impl Credential {
    /// Whether the token may still be used at `now`: only before its expiry.
    pub fn is_fresh(&self, now: i64) -> (fresh: bool)
        ensures
            fresh == (self.expires_at > now),
    {
        self.expires_at > now
    }
}

/// What a credential, or the lack of one, holds.
pub open spec fn credential_view(credential: Option<Credential>) -> Option<(Seq<char>, i64)> {
    match credential {
        Some(c) => Some((c.token@, c.expires_at)),
        None => None,
    }
}

/// Why the store refused a write.
#[derive(Clone, Copy, Debug, PartialEq, Eq)]
pub enum StorageError {
    /// Every row identifier has been handed out.
    IdentifiersExhausted,
    /// A stored moment cannot be read.
    UnreadableTimestamp,
}

/// What the log says of a write that was refused for want of identifiers.
pub open spec fn exhausted_detail() -> Seq<char> {
    "No row identifier is left"@
}

/// What the log says of a stored moment that cannot be read.
pub open spec fn unreadable_detail() -> Seq<char> {
    "A stored timestamp cannot be read"@
}

impl StorageError {
    /// The text of the failure.
    pub open spec fn detail(self) -> Seq<char> {
        match self {
            StorageError::IdentifiersExhausted => exhausted_detail(),
            StorageError::UnreadableTimestamp => unreadable_detail(),
        }
    }

    /// The text that goes to the diagnostic log.
    pub fn message(&self) -> (m: String)
        ensures
            m@ == self.detail(),
    {
        match self {
            StorageError::IdentifiersExhausted => "No row identifier is left".to_owned(),
            StorageError::UnreadableTimestamp => "A stored timestamp cannot be read".to_owned(),
        }
    }
}

/// The views of a sequence of strings.
pub open spec fn texts(v: Seq<String>) -> Seq<Seq<char>> {
    Seq::new(v.len(), |i: int| v[i]@)
}

/// Whether `rows[k]` is the row to evict: none is older, and every row
/// before it is strictly younger.
pub open spec fn is_oldest(rows: Seq<DBData>, k: int) -> bool {
    &&& 0 <= k < rows.len()
    &&& forall|j: int| 0 <= j < rows.len() ==> rows[k].timestamp <= (#[trigger] rows[j]).timestamp
    &&& forall|j: int| 0 <= j < k ==> rows[k].timestamp < (#[trigger] rows[j]).timestamp
}

/// The position of the oldest row of a non-empty sequence.
pub open spec fn oldest_index(rows: Seq<DBData>) -> int {
    choose|k: int| is_oldest(rows, k)
}

/// The rows that remain under a cap: the oldest one leaves when there are
/// more than `cap`, whatever its delivery state.
pub open spec fn evicted(rows: Seq<DBData>, cap: nat) -> Seq<DBData> {
    if rows.len() > cap {
        rows.remove(oldest_index(rows))
    } else {
        rows
    }
}

/// The row as it is once the remote service has acknowledged it.
pub open spec fn acknowledged(row: DBData) -> DBData {
    DBData { synced: true, ..row }
}

/// The rows after the one with identifier `id` was acknowledged.
pub open spec fn marked(rows: Seq<DBData>, id: i32) -> Seq<DBData> {
    Seq::new(rows.len(), |i: int| if rows[i].id == id { acknowledged(rows[i]) } else { rows[i] })
}

/// Whether `a` is listed before `b`: by capture time, then by identifier.
pub open spec fn listed_before(a: DBData, b: DBData) -> bool {
    a.timestamp < b.timestamp || (a.timestamp == b.timestamp && a.id < b.id)
}

/// Whether `out` lists exactly the pending rows of `rows`, oldest first.
pub open spec fn is_pending_listing(rows: Seq<DBData>, out: Seq<DBData>) -> bool {
    &&& forall|i: int, j: int| 0 <= i < j < out.len() ==> listed_before(out[i], out[j])
    &&& forall|r: DBData| out.contains(r) <==> (rows.contains(r) && !r.synced)
}

/// What the store holds.
pub struct StoreState {
    /// The readings, in the order in which they were stored.
    pub rows: Seq<DBData>,
    /// The cached token and its expiry.
    pub credential: Option<(Seq<char>, i64)>,
    /// The diagnostic messages, oldest first.
    pub logs: Seq<Seq<char>>,
    /// The identifiers of the applied migrations, in the order of application.
    pub ledger: Seq<Seq<char>>,
    /// The identifier that the next reading gets.
    pub next_id: int,
    /// The most readings that stay after a write.
    pub cap: nat,
}

impl StoreState {
    /// A store without content.
    pub open spec fn empty(cap: nat) -> StoreState {
        StoreState {
            rows: Seq::empty(),
            credential: None,
            logs: Seq::empty(),
            ledger: Seq::empty(),
            next_id: 1,
            cap,
        }
    }

    /// Identifiers grow along the rows and lie below the next one; the
    /// ledger names no migration twice.
    pub open spec fn wf(self) -> bool {
        &&& 1 <= self.next_id <= i32::MAX
        &&& forall|i: int| 0 <= i < self.rows.len() ==> 1 <= (#[trigger] self.rows[i]).id < self.next_id
        &&& forall|i: int, j: int|
            0 <= i < j < self.rows.len() ==> (#[trigger] self.rows[i]).id < (#[trigger] self.rows[j]).id
        &&& self.ledger.no_duplicates()
    }

    /// The row that a new reading becomes.
    pub open spec fn new_row(
        self,
        value: u64,
        value_out: Option<u64>,
        value_current: Option<u64>,
        synced: bool,
        time: i64,
    ) -> DBData {
        DBData { id: self.next_id as i32, timestamp: time, value, value_out, value_current, synced }
    }

    /// The store after `row` was appended and the cap enforced.
    pub open spec fn with_row(self, row: DBData) -> StoreState {
        StoreState {
            rows: evicted(self.rows.push(row), self.cap),
            next_id: self.next_id + 1,
            ..self
        }
    }

    /// The store after one more diagnostic message.
    pub open spec fn with_log(self, message: Seq<char>) -> StoreState {
        StoreState { logs: self.logs.push(message), ..self }
    }

    /// The store after the credential was replaced.
    pub open spec fn with_credential(self, token: Seq<char>, expires_at: i64) -> StoreState {
        StoreState { credential: Some((token, expires_at)), ..self }
    }

    /// The store after the credential was dropped.
    pub open spec fn without_credential(self) -> StoreState {
        StoreState { credential: None, ..self }
    }

    /// The store after the reading `id` was acknowledged.
    pub open spec fn with_synced(self, id: i32) -> StoreState {
        StoreState { rows: marked(self.rows, id), ..self }
    }

    /// The store after the migration `id` was entered in the ledger, unless
    /// it stands there already.
    pub open spec fn with_migration(self, id: Seq<char>) -> StoreState {
        if self.ledger.contains(id) {
            self
        } else {
            StoreState { ledger: self.ledger.push(id), ..self }
        }
    }

    /// The cached token, if it may still be used at `now`.
    pub open spec fn fresh_token(self, now: i64) -> Option<Seq<char>> {
        match self.credential {
            Some((token, expires_at)) => if expires_at > now { Some(token) } else { None },
            None => None,
        }
    }
}

/// The local store.
pub struct Store {
    data: Vec<DBData>,
    token: Option<Credential>,
    logs: Vec<String>,
    applied: Vec<String>,
    next_id: i32,
    cap: usize,
}

impl View for Store {
    type V = StoreState;

    closed spec fn view(&self) -> StoreState {
        StoreState {
            rows: self.data@,
            credential: credential_view(self.token),
            logs: texts(self.logs@),
            ledger: texts(self.applied@),
            next_id: self.next_id as int,
            cap: self.cap as nat,
        }
    }
}

/// A sequence has at most one oldest row.
pub proof fn lemma_oldest_unique(rows: Seq<DBData>, a: int, b: int)
    requires
        is_oldest(rows, a),
        is_oldest(rows, b),
    ensures
        a == b,
{
    if a < b {
        assert(rows[b].timestamp < rows[a].timestamp);
        assert(rows[a].timestamp <= rows[b].timestamp);
    } else if b < a {
        assert(rows[a].timestamp < rows[b].timestamp);
        assert(rows[b].timestamp <= rows[a].timestamp);
    }
}

impl Store {
    /// An empty store that keeps at most `cap` readings.
    pub fn new(cap: usize) -> (s: Store)
        ensures
            s@ == StoreState::empty(cap as nat),
            s@.wf(),
    {
        let s = Store {
            data: Vec::new(),
            token: None,
            logs: Vec::new(),
            applied: Vec::new(),
            next_id: 1,
            cap,
        };
        assert(s@.logs =~= Seq::empty());
        assert(s@.ledger =~= Seq::empty());
        s
    }

    /// An empty store that keeps at most `cap` readings and hands out the
    /// identifiers from `first_id` on, or from 1 on where `first_id` is
    /// below 1.
    pub fn starting_at(cap: usize, first_id: i32) -> (s: Store)
        ensures
            s@ == (StoreState {
                next_id: if first_id >= 1 {
                    first_id as int
                } else {
                    1
                },
                ..StoreState::empty(cap as nat)
            }),
            s@.wf(),
    {
        let next_id: i32 = if first_id >= 1 {
            first_id
        } else {
            1
        };
        let s = Store { data: Vec::new(), token: None, logs: Vec::new(), applied: Vec::new(), next_id, cap };
        assert(s@.logs =~= Seq::empty());
        assert(s@.ledger =~= Seq::empty());
        s
    }

    /// The number of stored readings.
    pub fn row_count(&self) -> (n: usize)
        ensures
            n == self@.rows.len(),
    {
        self.data.len()
    }

    /// The stored readings, in the order in which they were stored.
    pub fn rows(&self) -> (out: Vec<DBData>)
        ensures
            out@ == self@.rows,
    {
        let mut out: Vec<DBData> = Vec::new();
        let mut i: usize = 0;
        while i < self.data.len()
            invariant
                i <= self.data.len(),
                out@ == self.data@.take(i as int),
            decreases self.data.len() - i,
        {
            out.push(self.data[i]);
            assert(self.data@.take(i + 1) =~= self.data@.take(i as int).push(self.data@[i as int]));
            i += 1;
        }
        assert(self.data@.take(i as int) =~= self.data@);
        out
    }

    /// Whether the ledger names the migration `id`.
    pub fn is_applied(&self, id: &String) -> (b: bool)
        ensures
            b == self@.ledger.contains(id@),
    {
        let mut k: usize = 0;
        while k < self.applied.len()
            invariant
                k <= self.applied.len(),
                forall|j: int| 0 <= j < k ==> self.applied@[j]@ != id@,
            decreases self.applied.len() - k,
        {
            if self.applied[k] == *id {
                assert(texts(self.applied@)[k as int] == id@);
                return true;
            }
            k += 1;
        }
        assert forall|j: int| 0 <= j < texts(self.applied@).len() implies texts(self.applied@)[j]
            != id@ by {
            assert(texts(self.applied@)[j] == self.applied@[j]@);
        }
        false
    }

    /// Enters the migration `id` in the ledger and says whether it was new.
    /// An identifier that the ledger names already is not entered again.
    pub fn record_migration(&mut self, id: &String) -> (fresh: bool)
        requires
            old(self)@.wf(),
        ensures
            final(self)@.wf(),
            fresh == !old(self)@.ledger.contains(id@),
            final(self)@ == old(self)@.with_migration(id@),
    {
        if self.is_applied(id) {
            return false;
        }
        self.applied.push(id.clone());
        proof {
            let before = texts(old(self).applied@);
            let after = texts(self.applied@);
            assert(after =~= before.push(id@));
            assert forall|i: int, j: int| 0 <= i < after.len() && 0 <= j < after.len() && i != j implies after[i]
                != after[j] by {
                if i < before.len() {
                    assert(after[i] == before[i]);
                }
                if j < before.len() {
                    assert(after[j] == before[j]);
                }
            }
        }
        true
    }

    /// The number of migrations that the ledger names.
    pub fn applied_count(&self) -> (n: usize)
        ensures
            n == self@.ledger.len(),
    {
        self.applied.len()
    }

    /// The identifier at position `i` of the ledger, in the order of
    /// application.
    pub fn applied_id(&self, i: usize) -> (m: Option<String>)
        ensures
            i < self@.ledger.len() ==> m is Some && m->0@ == self@.ledger[i as int],
            i >= self@.ledger.len() ==> m is None,
    {
        if i < self.applied.len() {
            Some(self.applied[i].clone())
        } else {
            None
        }
    }

    /// The number of diagnostic messages.
    pub fn log_count(&self) -> (n: usize)
        ensures
            n == self@.logs.len(),
    {
        self.logs.len()
    }

    /// The diagnostic message at position `i`, oldest first.
    pub fn log_message(&self, i: usize) -> (m: Option<String>)
        ensures
            i < self@.logs.len() ==> m is Some && m->0@ == self@.logs[i as int],
            i >= self@.logs.len() ==> m is None,
    {
        if i < self.logs.len() {
            Some(self.logs[i].clone())
        } else {
            None
        }
    }
}

/// Discards the oldest reading if the store holds more than `cap`.
pub fn evict_if_over_capacity(cap: usize, store: &mut Store)
    requires
        old(store)@.wf(),
    ensures
        final(store)@.wf(),
        final(store)@ == (StoreState { rows: evicted(old(store)@.rows, cap as nat), ..old(store)@ }),
{
    let n: usize = store.data.len();
    if n > cap {
        let mut k: usize = 0;
        let mut i: usize = 1;
        while i < n
            invariant
                n == store.data.len(),
                store.data@ == old(store).data@,
                k < i <= n,
                forall|j: int| 0 <= j < i ==> store.data@[k as int].timestamp <= (#[trigger] store.data@[j]).timestamp,
                forall|j: int| 0 <= j < k ==> store.data@[k as int].timestamp < (#[trigger] store.data@[j]).timestamp,
            decreases n - i,
        {
            if store.data[i].timestamp < store.data[k].timestamp {
                k = i;
            }
            i += 1;
        }
        proof {
            assert(is_oldest(store.data@, k as int));
            lemma_oldest_unique(store.data@, k as int, oldest_index(store.data@));
        }
        store.data.remove(k);
    }
}

/// Stores a reading with its delivery state, then enforces the cap.
///
/// The reading gets the next identifier, which is returned. Once the
/// identifiers are used up the store refuses and stays as it was.
pub fn add_sensor_value(
    value_in: u64,
    value_out: Option<u64>,
    value_current: Option<u64>,
    synced: bool,
    time: i64,
    store: &mut Store,
) -> (r: Result<i32, StorageError>)
    requires
        old(store)@.wf(),
    ensures
        final(store)@.wf(),
        old(store)@.next_id == i32::MAX ==> r == Err::<i32, StorageError>(
            StorageError::IdentifiersExhausted,
        ) && final(store)@ == old(store)@,
        old(store)@.next_id < i32::MAX ==> r == Ok::<i32, StorageError>(old(store)@.next_id as i32)
            && final(store)@ == old(store)@.with_row(
            old(store)@.new_row(value_in, value_out, value_current, synced, time),
        ),
{
    if store.next_id == i32::MAX {
        return Err(StorageError::IdentifiersExhausted);
    }
    let id: i32 = store.next_id;
    store.data.push(DBData { id, timestamp: time, value: value_in, value_out, value_current, synced });
    store.next_id = id + 1;
    let cap: usize = store.cap;
    evict_if_over_capacity(cap, store);
    Ok(id)
}

/// Appends a diagnostic message.
pub fn add_log(value: &str, store: &mut Store)
    ensures
        final(store)@ == old(store)@.with_log(value@),
{
    store.logs.push(value.to_owned());
    assert(texts(store.logs@) =~= texts(old(store).logs@).push(value@));
}

/// Replaces the cached credential: whatever was cached is gone, and exactly
/// the given one is there.
pub fn update_token(value: &str, expires_at: i64, store: &mut Store)
    ensures
        final(store)@ == old(store)@.with_credential(value@, expires_at),
{
    store.token = Some(Credential { token: value.to_owned(), expires_at });
}

/// Drops the cached credential, if there is one.
pub fn clear_token(store: &mut Store)
    ensures
        final(store)@ == old(store)@.without_credential(),
{
    store.token = None;
}

/// The cached credential as it stands, whether or not it has expired.
pub fn get_credential(store: &Store) -> (c: Option<Credential>)
    ensures
        credential_view(c) == store@.credential,
{
    match &store.token {
        Some(c) => Some(Credential { token: c.token.clone(), expires_at: c.expires_at }),
        None => None,
    }
}

/// The cached token, if it may still be used at `now`.
///
/// A credential whose expiry is not after `now` is dropped from the store.
pub fn get_local_token(now: i64, store: &mut Store) -> (t: Option<String>)
    ensures
        old(store)@.fresh_token(now) is Some ==> t is Some && t->0@ == old(store)@.fresh_token(now)->0
            && final(store)@ == old(store)@,
        old(store)@.fresh_token(now) is None ==> t is None && final(store)@
            == old(store)@.without_credential(),
{
    let fresh: Option<String> = match &store.token {
        Some(c) => if c.is_fresh(now) { Some(c.token.clone()) } else { None },
        None => None,
    };
    if fresh.is_none() {
        store.token = None;
    }
    fresh
}

/// Records that the remote service acknowledged the reading `id`.
///
/// Nothing changes if the reading is already acknowledged or not stored.
pub fn mark_data_as_synced(id: i32, store: &mut Store)
    requires
        old(store)@.wf(),
    ensures
        final(store)@.wf(),
        final(store)@ == old(store)@.with_synced(id),
{
    let n: usize = store.data.len();
    let mut i: usize = 0;
    while i < n
        invariant
            i <= n,
            n == store.data.len(),
            n == old(store).data.len(),
            store.token == old(store).token,
            store.logs == old(store).logs,
            store.applied == old(store).applied,
            store.next_id == old(store).next_id,
            store.cap == old(store).cap,
            forall|j: int| 0 <= j < i ==> store.data@[j] == marked(old(store).data@, id)[j],
            forall|j: int| i <= j < n ==> store.data@[j] == old(store).data@[j],
        decreases n - i,
    {
        let row: DBData = store.data[i];
        if row.id == id {
            store.data[i] = DBData { synced: true, ..row };
        }
        i += 1;
    }
    assert(store.data@ =~= marked(old(store).data@, id));
}

/// The readings that still wait for delivery, oldest first.
pub fn get_unsync_entries(store: &Store) -> (out: Vec<DBData>)
    requires
        store@.wf(),
    ensures
        is_pending_listing(store@.rows, out@),
{
    assert(distinct_ids(store.data@));
    pending_oldest_first(&store.data)
}

} // verus!
