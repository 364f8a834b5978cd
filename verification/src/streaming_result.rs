//! The streaming query cursor: a state machine over a named server-side
//! cursor that yields a large result set in bounded-memory batches.
//!
//! The cursor itself never touches the wire. Every operation is split into a
//! decision — which statement to send, if any — and a transition that absorbs
//! what the server answered. The surrounding application performs the
//! statement on its live session and hands the outcome back, so the whole
//! lifecycle (open, fetch loop, finish, close, with a disconnect-absorbing
//! state) is decided and accounted for here, under contract.
//!
//! A transaction is required for a cursor. At open time the caller attempts
//! `BEGIN` on the session: success means no transaction was active and this
//! cursor owns the one just opened; failure means one was already active and
//! is left alone. Ownership is fixed for the cursor's whole life and decides
//! whether closing also commits.

use vstd::math::min;
use vstd::prelude::*;

use crate::result::PgRow;
use crate::sql::{
    close_cursor_sql, commit_sql, fetch_forward_sql, move_backward_sql, metadata_only_sql,
    spec_close_cursor_sql, spec_fetch_forward_sql, spec_metadata_only_sql, spec_move_backward_sql,
};
use crate::value::{decode_spec, decoded_eq, WireCell};

verus! {

/// The abstract state of a streaming cursor.
#[verifier::ext_equal]
pub ghost struct CursorModel {
    pub cursor_name: Seq<char>,
    pub columns: Seq<Seq<char>>,
    pub type_oids: Seq<u32>,
    /// Total row count; `-1` until the caller has exhausted the stream and
    /// determined it retroactively.
    pub total_rows: int,
    /// The one in-flight batch, each row a sequence of wire values.
    pub batch: Seq<Seq<WireCell>>,
    /// How many rows preceded the in-flight batch.
    pub batch_start: int,
    pub batch_size: int,
    pub finished: bool,
    pub owns_transaction: bool,
    pub disconnected: bool,
    pub closed: bool,
}

/// The rows of a fetched batch as the model sees them.
pub open spec fn rows_view(rows: Seq<PgRow>) -> Seq<Seq<WireCell>> {
    rows.map_values(|r: PgRow| r.cells@)
}

/// The view of a column-name list.
pub open spec fn column_names_view(names: Seq<String>) -> Seq<Seq<char>> {
    names.map_values(|s: String| s@)
}

/// Whether the cursor still wants to fetch: nothing is sent once the stream
/// is finished or the session is gone.
pub open spec fn wants_fetch(m: CursorModel) -> bool {
    !m.finished && !m.disconnected
}

/// Whether closing still has server-side work to do: nothing is sent once
/// the cursor was closed or the session is gone.
pub open spec fn wants_close(m: CursorModel) -> bool {
    !m.closed && !m.disconnected
}

/// The fetch transition: a finished or disconnected cursor ignores the call;
/// an empty answer ends the stream and drops the held batch; otherwise the
/// held batch is replaced — never accumulated — and the start offset moves
/// past the rows it held.
pub open spec fn step_fetch(m: CursorModel, fetched: Seq<Seq<WireCell>>) -> CursorModel {
    if !wants_fetch(m) {
        m
    } else if fetched.len() == 0 {
        CursorModel { finished: true, batch: Seq::empty(), ..m }
    } else {
        CursorModel { batch_start: m.batch_start + m.batch.len(), batch: fetched, ..m }
    }
}

/// The disconnect transition: absorbing; the cursor is finished and no
/// further statement is ever requested.
pub open spec fn step_disconnect(m: CursorModel) -> CursorModel {
    CursorModel { disconnected: true, finished: true, ..m }
}

/// The close transition: idempotent; a closed or disconnected cursor is left
/// as it is.
pub open spec fn step_close(m: CursorModel) -> CursorModel {
    if !wants_close(m) {
        m
    } else {
        CursorModel { closed: true, finished: true, ..m }
    }
}

/// A cursor as `new` hands it out: at the start of the stream, nothing
/// fetched, nothing finished.
pub open spec fn fresh_open(m: CursorModel) -> bool {
    &&& m.batch_start == 0
    &&& m.batch.len() == 0
    &&& !m.finished
    &&& !m.disconnected
    &&& !m.closed
    &&& m.batch_size >= 1
    &&& m.total_rows == -1
}

/// The canonical text at (`row`, `col`) of the in-flight batch, or `None`
/// when the value is a logical null or either index is out of range.
pub open spec fn spec_batch_value(m: CursorModel, row: int, col: int) -> Option<Seq<char>> {
    if 0 <= row < m.batch.len() && 0 <= col < m.batch[row].len() {
        decode_spec(m.batch[row][col])
    } else {
        None
    }
}

/// What the open sequence does right after the one-row metadata probe.
pub enum OpenAction {
    /// A probe row came back: step the cursor one row back, so the first
    /// real batch starts at the first row.
    MoveBack(String),
    /// The result set is empty: prepare this zero-row statement over the
    /// same query, whose metadata still names the columns.
    PrepareMetadata(String),
}

/// Decides the follow-up to the metadata probe. This path exists so that a
/// query with no matching rows still exposes correct column metadata.
pub fn probe_followup(probe_returned_row: bool, cursor_name: &str, query: &str) -> (a: OpenAction)
    ensures
        probe_returned_row ==> (a matches OpenAction::MoveBack(s) && s@ == spec_move_backward_sql(
            cursor_name@,
        )),
        !probe_returned_row ==> (a matches OpenAction::PrepareMetadata(s) && s@
            == spec_metadata_only_sql(query@)),
{
    if probe_returned_row {
        OpenAction::MoveBack(move_backward_sql(cursor_name))
    } else {
        OpenAction::PrepareMetadata(metadata_only_sql(query))
    }
}

/// Everything the server-side half of a close amounts to: close the cursor,
/// and commit exactly when this cursor owns the transaction.
pub struct CloseActions {
    pub close_cursor: String,
    pub commit: Option<String>,
}

/// A streaming result over a named server-side cursor. Only the current
/// batch is held in memory; the total row count stays unknown (`-1`) until
/// the caller has exhausted the stream.
pub struct PostgreSQLStreamingResult {
    pub cursor_name: String,
    pub columns: Vec<String>,
    pub type_oids: Vec<u32>,
    pub total_rows: i64,
    pub current_batch: Vec<PgRow>,
    pub current_batch_start_index: usize,
    pub batch_size: usize,
    pub finished: bool,
    pub owns_transaction: bool,
    pub client_disconnected: bool,
    pub cursor_closed: bool,
}

impl View for PostgreSQLStreamingResult {
    type V = CursorModel;

    open spec fn view(&self) -> CursorModel {
        CursorModel {
            cursor_name: self.cursor_name@,
            columns: column_names_view(self.columns@),
            type_oids: self.type_oids@,
            total_rows: self.total_rows as int,
            batch: rows_view(self.current_batch@),
            batch_start: self.current_batch_start_index as int,
            batch_size: self.batch_size as int,
            finished: self.finished,
            owns_transaction: self.owns_transaction,
            disconnected: self.client_disconnected,
            closed: self.cursor_closed,
        }
    }
}

impl PostgreSQLStreamingResult {
    pub open spec fn wf(self) -> bool {
        &&& self.columns@.len() == self.type_oids@.len()
        &&& self.batch_size >= 1
        &&& (self.cursor_closed ==> self.finished)
        &&& (self.client_disconnected ==> self.finished)
        &&& forall|i: int|
            0 <= i < self.current_batch@.len() ==> (#[trigger] self.current_batch@[i]).wf()
    }

    /// Builds the cursor state after the open sequence succeeded on the
    /// session: the transaction was negotiated (`begin_ok` says whether the
    /// `BEGIN` attempt succeeded, which is exactly whether no transaction
    /// was active and this cursor now owns one), the cursor was declared
    /// under `cursor_name`, and the column metadata was recovered.
    pub fn new(
        cursor_name: String,
        begin_ok: bool,
        columns: Vec<String>,
        type_oids: Vec<u32>,
        batch_size: usize,
    ) -> (r: Self)
        requires
            batch_size >= 1,
            columns@.len() == type_oids@.len(),
        ensures
            r.wf(),
            fresh_open(r@),
            r@.cursor_name == cursor_name@,
            r@.columns == column_names_view(columns@),
            r@.type_oids == type_oids@,
            r@.batch_size == batch_size as int,
            r@.owns_transaction == begin_ok,
    {
        PostgreSQLStreamingResult {
            cursor_name,
            columns,
            type_oids,
            total_rows: -1,
            current_batch: Vec::new(),
            current_batch_start_index: 0,
            batch_size,
            finished: false,
            owns_transaction: begin_ok,
            client_disconnected: false,
            cursor_closed: false,
        }
    }

    /// The fetch statement to send for the next batch, or `None` — send
    /// nothing — once the stream is finished or the session is gone.
    pub fn next_batch_sql(&self) -> (r: Option<String>)
        ensures
            r is Some <==> wants_fetch(self@),
            r matches Some(s) ==> s@ == spec_fetch_forward_sql(
                self@.batch_size as nat,
                self@.cursor_name,
            ),
    {
        if self.finished || self.client_disconnected {
            None
        } else {
            Some(fetch_forward_sql(self.batch_size, self.cursor_name.as_str()))
        }
    }

    /// Absorbs the answer to the fetch statement and returns how many rows
    /// this call yielded. When no fetch was wanted the call yields an empty
    /// batch and changes nothing; an empty answer ends the stream; otherwise
    /// the held batch is entirely replaced, so memory stays bounded by one
    /// batch however large the result set is.
    pub fn next_batch(&mut self, fetched: Vec<PgRow>) -> (n: usize)
        requires
            old(self).wf(),
            forall|i: int| 0 <= i < fetched@.len() ==> (#[trigger] fetched@[i]).wf(),
            old(self)@.batch_start + old(self)@.batch.len() + fetched@.len() <= usize::MAX,
        ensures
            final(self).wf(),
            final(self)@ == step_fetch(old(self)@, rows_view(fetched@)),
            wants_fetch(old(self)@) ==> n == final(self)@.batch.len(),
            !wants_fetch(old(self)@) ==> n == 0,
    {
        if self.finished || self.client_disconnected {
            proof {
                assert(self@ =~= step_fetch(old(self)@, rows_view(fetched@)));
            }
            return 0;
        }
        if fetched.len() == 0 {
            self.finished = true;
            self.current_batch = Vec::new();
            proof {
                assert(rows_view(self.current_batch@) =~= Seq::<Seq<WireCell>>::empty());
                assert(self@ =~= step_fetch(old(self)@, rows_view(fetched@)));
            }
            return 0;
        }
        let prev_len = self.current_batch.len();
        self.current_batch_start_index = self.current_batch_start_index + prev_len;
        let n = fetched.len();
        self.current_batch = fetched;
        proof {
            assert(self@ =~= step_fetch(old(self)@, rows_view(fetched@)));
        }
        n
    }

    /// Whether more rows may still come: false only once a fetch came back
    /// empty, the cursor was closed, or the session is gone.
    pub fn has_more(&self) -> (r: bool)
        ensures
            r == !self@.finished,
    {
        !self.finished
    }

    /// The total row count, `-1` while unknown. It stays unknown until the
    /// caller has exhausted the stream and counted for itself.
    pub fn total_rows(&self) -> (r: i64)
        ensures
            r as int == self@.total_rows,
    {
        self.total_rows
    }

    /// The column names recovered at open time, also for a zero-row result.
    pub fn column_names(&self) -> (r: &Vec<String>)
        ensures
            column_names_view(r@) == self@.columns,
    {
        &self.columns
    }

    /// The number of columns recovered at open time.
    pub fn num_columns(&self) -> (r: usize)
        ensures
            r == self@.columns.len(),
    {
        self.columns.len()
    }

    /// The type identifier of column `index`, or `None` when out of range.
    pub fn type_oid(&self, index: usize) -> (r: Option<u32>)
        ensures
            r is Some <==> index < self@.type_oids.len(),
            r matches Some(oid) ==> oid == self@.type_oids[index as int],
    {
        if index < self.type_oids.len() {
            Some(self.type_oids[index])
        } else {
            None
        }
    }

    /// The canonical text at (`batch_relative_row`, `col`) of the held
    /// batch; `None` for a logical null and for any out-of-range index.
    pub fn get_batch_value(&self, batch_relative_row: usize, col: usize) -> (r: Option<String>)
        requires
            self.wf(),
        ensures
            decoded_eq(r, spec_batch_value(self@, batch_relative_row as int, col as int)),
    {
        if batch_relative_row < self.current_batch.len() {
            crate::result::get_value(&self.current_batch[batch_relative_row], col)
        } else {
            None
        }
    }

    /// How many rows the held batch has.
    pub fn current_batch_size(&self) -> (r: usize)
        ensures
            r == self@.batch.len(),
    {
        self.current_batch.len()
    }

    /// Notifies the cursor that its session is no longer valid. The state
    /// absorbs: every later fetch or close decision requests nothing, so no
    /// statement can ever again reach the dangling session.
    pub fn mark_client_disconnected(&mut self)
        requires
            old(self).wf(),
        ensures
            final(self).wf(),
            final(self)@ == step_disconnect(old(self)@),
    {
        self.client_disconnected = true;
        self.finished = true;
        proof {
            assert(self@ =~= step_disconnect(old(self)@));
        }
    }

    /// The server-side half of a close, or `None` — send nothing — when the
    /// cursor is already closed or the session is gone. The commit statement
    /// is present exactly when this cursor owns the transaction. Failures of
    /// either statement are to be swallowed by the sender: cleanup never
    /// fails a traversal that already succeeded.
    pub fn close_request(&self) -> (r: Option<CloseActions>)
        ensures
            r is Some <==> wants_close(self@),
            r matches Some(a) ==> {
                &&& a.close_cursor@ == spec_close_cursor_sql(self@.cursor_name)
                &&& (a.commit is Some <==> self@.owns_transaction)
                &&& (a.commit matches Some(c) ==> c@ == "COMMIT"@)
            },
    {
        if self.cursor_closed || self.client_disconnected {
            None
        } else {
            Some(
                CloseActions {
                    close_cursor: close_cursor_sql(self.cursor_name.as_str()),
                    commit: if self.owns_transaction {
                        Some(commit_sql())
                    } else {
                        None
                    },
                },
            )
        }
    }

    /// Records the close, whatever the server said. Idempotent: once closed
    /// (or disconnected) the state no longer changes and `close_request`
    /// returns `None`, so the server-side close and commit happen at most
    /// once.
    pub fn close(&mut self)
        requires
            old(self).wf(),
        ensures
            final(self).wf(),
            final(self)@ == step_close(old(self)@),
    {
        if self.cursor_closed || self.client_disconnected {
            proof {
                assert(self@ =~= step_close(old(self)@));
            }
            return;
        }
        self.cursor_closed = true;
        self.finished = true;
        proof {
            assert(self@ =~= step_close(old(self)@));
        }
    }
}

/// The number of batches a result set of `n` rows yields under batch size
/// `b`: `n / b` rounded up.
pub open spec fn ceil_div(n: int, b: int) -> int {
    (n + b - 1) / b
}

/// What a correct server answers to the `k`-th fetch (counting from zero)
/// over a result set `rows`: the next up-to-`b` rows from its cursor
/// position.
pub open spec fn server_batch(rows: Seq<Seq<WireCell>>, b: int, k: int) -> Seq<Seq<WireCell>> {
    rows.subrange(k * b, min((k + 1) * b, rows.len() as int))
}

/// The cursor state after the first `k` fetches of a traversal over `rows`,
/// each answered by a correct server.
pub open spec fn run_batches(m0: CursorModel, rows: Seq<Seq<WireCell>>, k: nat) -> CursorModel
    decreases k,
{
    if k == 0 {
        m0
    } else {
        step_fetch(run_batches(m0, rows, (k - 1) as nat), server_batch(rows, m0.batch_size, k - 1))
    }
}

/// The concatenation of the first `k` server batches, in order.
pub open spec fn delivered(rows: Seq<Seq<WireCell>>, b: int, k: nat) -> Seq<Seq<WireCell>>
    decreases k,
{
    if k == 0 {
        Seq::empty()
    } else {
        delivered(rows, b, (k - 1) as nat) + server_batch(rows, b, k - 1)
    }
}

proof fn lemma_ceil_div_bounds(n: int, b: int)
    requires
        n >= 0,
        b >= 1,
    ensures
        ceil_div(n, b) >= 0,
        ceil_div(n, b) * b >= n,
        (ceil_div(n, b) - 1) * b < n,
{
    let q = (n + b - 1) / b;
    let r = (n + b - 1) % b;
    vstd::arithmetic::div_mod::lemma_fundamental_div_mod(n + b - 1, b);
    vstd::arithmetic::div_mod::lemma_mod_division_less_than_divisor(n + b - 1, b);
    assert(n + b - 1 == b * q + r);
    assert(q >= 0) by (nonlinear_arith)
        requires
            b >= 1,
            n + b - 1 == b * q + r,
            n >= 0,
            0 <= r < b,
    ;
    assert(q * b == n + b - 1 - r) by (nonlinear_arith)
        requires
            n + b - 1 == b * q + r,
    ;
    assert((q - 1) * b == q * b - b) by (nonlinear_arith);
}

/// After `k` correct fetches a fresh cursor holds exactly the `k`-th server
/// batch (non-empty), placed right where the previous batches ended, and the
/// stream is not finished.
pub proof fn lemma_run_batches(m0: CursorModel, rows: Seq<Seq<WireCell>>, k: nat)
    requires
        fresh_open(m0),
        k == 0 || (k - 1) * m0.batch_size < rows.len(),
    ensures
        run_batches(m0, rows, k).cursor_name == m0.cursor_name,
        run_batches(m0, rows, k).columns == m0.columns,
        run_batches(m0, rows, k).type_oids == m0.type_oids,
        run_batches(m0, rows, k).total_rows == m0.total_rows,
        run_batches(m0, rows, k).batch_size == m0.batch_size,
        run_batches(m0, rows, k).owns_transaction == m0.owns_transaction,
        !run_batches(m0, rows, k).finished,
        !run_batches(m0, rows, k).disconnected,
        !run_batches(m0, rows, k).closed,
        run_batches(m0, rows, k).batch_start + run_batches(m0, rows, k).batch.len() == min(
            k * m0.batch_size,
            rows.len() as int,
        ),
        k >= 1 ==> run_batches(m0, rows, k).batch_start == (k - 1) * m0.batch_size,
        k >= 1 ==> run_batches(m0, rows, k).batch == server_batch(rows, m0.batch_size, k - 1),
        k >= 1 ==> run_batches(m0, rows, k).batch.len() >= 1,
    decreases k,
{
    let b = m0.batch_size;
    let n = rows.len() as int;
    if k == 0 {
        assert(min(0 * b, n) == 0) by (nonlinear_arith)
            requires
                n >= 0,
        ;
    } else {
        assert((k - 1) * b >= 0 && (k - 1) * b + b == k * b && (k >= 2 ==> (k - 2) * b < (k - 1)
            * b)) by (nonlinear_arith)
            requires
                k >= 1,
                b >= 1,
        ;
        lemma_run_batches(m0, rows, (k - 1) as nat);
        let prev = run_batches(m0, rows, (k - 1) as nat);
        let fetched = server_batch(rows, b, k - 1);
        assert(prev.batch_start + prev.batch.len() == min((k - 1) * b, n));
        assert(min((k - 1) * b, n) == (k - 1) * b);
        assert(fetched.len() == min(k * b, n) - (k - 1) * b);
        assert(fetched.len() >= 1);
        assert(run_batches(m0, rows, k) == step_fetch(prev, fetched));
    }
}

/// The concatenation of the first `k` server batches is exactly the first
/// `min(k * b, n)` rows, in order.
pub proof fn lemma_delivered_prefix(rows: Seq<Seq<WireCell>>, b: int, k: nat)
    requires
        b >= 1,
        k == 0 || (k - 1) * b < rows.len(),
    ensures
        delivered(rows, b, k) == rows.subrange(0, min(k * b, rows.len() as int)),
    decreases k,
{
    let n = rows.len() as int;
    if k == 0 {
        assert(min(0 * b, n) == 0) by (nonlinear_arith)
            requires
                n >= 0,
        ;
        assert(delivered(rows, b, 0) =~= rows.subrange(0, 0));
    } else {
        assert((k - 1) * b >= 0 && (k - 1) * b + b == k * b && (k >= 2 ==> (k - 2) * b < (k - 1)
            * b)) by (nonlinear_arith)
            requires
                k >= 1,
                b >= 1,
        ;
        lemma_delivered_prefix(rows, b, (k - 1) as nat);
        assert(min((k - 1) * b, n) == (k - 1) * b);
        assert(rows.subrange(0, (k - 1) * b) + rows.subrange((k - 1) * b, min(k * b, n))
            =~= rows.subrange(0, min(k * b, n)));
    }
}

/// A finished stream absorbs every further fetch: nothing is requested and
/// no answer changes the state.
pub proof fn lemma_finished_absorbs(m: CursorModel, fetched: Seq<Seq<WireCell>>)
    requires
        m.finished,
    ensures
        !wants_fetch(m),
        step_fetch(m, fetched) == m,
{
}

/// Traversing a result set of `N` rows with batch size `B` yields exactly
/// `ceil_div(N, B)` non-empty batches — each one the next slice of the
/// ordered row set, so their concatenation reproduces it in full — and the
/// one fetch after that comes back empty, finishes the stream and drops the
/// held batch; from then on nothing more is requested.
pub proof fn lemma_stream_traversal(m0: CursorModel, rows: Seq<Seq<WireCell>>)
    requires
        fresh_open(m0),
    ensures
        forall|k: int|
            1 <= k <= ceil_div(rows.len() as int, m0.batch_size) ==> {
                &&& (#[trigger] run_batches(m0, rows, k as nat)).batch == server_batch(
                    rows,
                    m0.batch_size,
                    k - 1,
                )
                &&& run_batches(m0, rows, k as nat).batch.len() >= 1
                &&& run_batches(m0, rows, k as nat).batch_start == (k - 1) * m0.batch_size
                &&& !run_batches(m0, rows, k as nat).finished
            },
        delivered(rows, m0.batch_size, ceil_div(rows.len() as int, m0.batch_size) as nat) == rows,
        step_fetch(
            run_batches(m0, rows, ceil_div(rows.len() as int, m0.batch_size) as nat),
            Seq::<Seq<WireCell>>::empty(),
        ).finished,
        step_fetch(
            run_batches(m0, rows, ceil_div(rows.len() as int, m0.batch_size) as nat),
            Seq::<Seq<WireCell>>::empty(),
        ).batch.len() == 0,
        step_fetch(
            run_batches(m0, rows, ceil_div(rows.len() as int, m0.batch_size) as nat),
            Seq::<Seq<WireCell>>::empty(),
        ).total_rows == m0.total_rows,
        step_fetch(
            run_batches(m0, rows, ceil_div(rows.len() as int, m0.batch_size) as nat),
            Seq::<Seq<WireCell>>::empty(),
        ).owns_transaction == m0.owns_transaction,
{
    let b = m0.batch_size;
    let n = rows.len() as int;
    let kstar = ceil_div(n, b);
    lemma_ceil_div_bounds(n, b);
    assert forall|k: int| 1 <= k <= kstar implies {
        &&& (#[trigger] run_batches(m0, rows, k as nat)).batch == server_batch(rows, b, k - 1)
        &&& run_batches(m0, rows, k as nat).batch.len() >= 1
        &&& run_batches(m0, rows, k as nat).batch_start == (k - 1) * b
        &&& !run_batches(m0, rows, k as nat).finished
    } by {
        assert((k - 1) * b <= (kstar - 1) * b) by (nonlinear_arith)
            requires
                k <= kstar,
                b >= 1,
        ;
        lemma_run_batches(m0, rows, k as nat);
    }
    assert((kstar - 1) * b < n);
    lemma_delivered_prefix(rows, b, kstar as nat);
    assert(min(kstar * b, n) == n);
    assert(delivered(rows, b, kstar as nat) =~= rows);
    lemma_run_batches(m0, rows, kstar as nat);
}

/// Closing twice performs the server-side close and commit at most once:
/// after one close nothing more is requested and the state no longer
/// changes, so the second close succeeds as a no-op.
pub proof fn lemma_close_idempotent(m: CursorModel)
    ensures
        !wants_close(step_close(m)),
        step_close(step_close(m)) == step_close(m),
{
}

/// A disconnect absorbs: the cursor is finished, and every later fetch or
/// close requests no statement and leaves the state unchanged — no network
/// operation can follow through the dangling session reference.
pub proof fn lemma_disconnect_absorbs(m: CursorModel, fetched: Seq<Seq<WireCell>>)
    ensures
        step_disconnect(m).disconnected,
        step_disconnect(m).finished,
        !wants_fetch(step_disconnect(m)),
        !wants_close(step_disconnect(m)),
        step_fetch(step_disconnect(m), fetched) == step_disconnect(m),
        step_close(step_disconnect(m)) == step_disconnect(m),
{
}

/// Transaction ownership is fixed at open time: no transition changes it,
/// and a close requests a commit exactly when the cursor owns the
/// transaction.
pub proof fn lemma_ownership_fixed(m: CursorModel, fetched: Seq<Seq<WireCell>>)
    ensures
        step_fetch(m, fetched).owns_transaction == m.owns_transaction,
        step_disconnect(m).owns_transaction == m.owns_transaction,
        step_close(m).owns_transaction == m.owns_transaction,
{
}

} // verus!
