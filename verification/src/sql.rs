//! The SQL text this library hands to the session: cursor statements, the
//! metadata-only probe, string escaping and the command/query classification.
//! Each builder's contract gives the exact text, so a caller knows what goes
//! over the wire.

use vstd::prelude::*;
use vstd::string::StringExecFns;

use crate::text::{dec_rep, push_dec};

verus! {

/// Cursor identifier text for one process and one instant:
/// `sequel_ace_cursor_<pid>_<timestamp>`. Uniqueness within a process and
/// across time comes from the caller handing in its own process identity and
/// a high-resolution timestamp.
pub open spec fn spec_cursor_name(pid: nat, timestamp_micros: nat) -> Seq<char> {
    "sequel_ace_cursor_"@ + dec_rep(pid) + "_"@ + dec_rep(timestamp_micros)
}

/// `DECLARE <name> SCROLL CURSOR FOR <query>`.
pub open spec fn spec_declare_sql(name: Seq<char>, query: Seq<char>) -> Seq<char> {
    "DECLARE "@ + name + " SCROLL CURSOR FOR "@ + query
}

/// `FETCH FORWARD <n> FROM <name>`.
pub open spec fn spec_fetch_forward_sql(n: nat, name: Seq<char>) -> Seq<char> {
    "FETCH FORWARD "@ + dec_rep(n) + " FROM "@ + name
}

/// `MOVE BACKWARD 1 FROM <name>`.
pub open spec fn spec_move_backward_sql(name: Seq<char>) -> Seq<char> {
    "MOVE BACKWARD 1 FROM "@ + name
}

/// `SELECT * FROM (<query>) AS meta_query LIMIT 0`: a statement over the same
/// columns as `query` that matches no row, prepared only for its metadata.
pub open spec fn spec_metadata_only_sql(query: Seq<char>) -> Seq<char> {
    "SELECT * FROM ("@ + query + ") AS meta_query LIMIT 0"@
}

/// `CLOSE <name>`.
pub open spec fn spec_close_cursor_sql(name: Seq<char>) -> Seq<char> {
    "CLOSE "@ + name
}

/// The cursor identifier for this process and instant.
pub fn cursor_name_for(pid: u32, timestamp_micros: u64) -> (s: String)
    ensures
        s@ == spec_cursor_name(pid as nat, timestamp_micros as nat),
{
    let mut s = String::from_str("sequel_ace_cursor_");
    push_dec(&mut s, pid as u64);
    s.append("_");
    push_dec(&mut s, timestamp_micros);
    proof {
        assert(s@ =~= spec_cursor_name(pid as nat, timestamp_micros as nat));
    }
    s
}

/// The statement that declares the scrollable cursor over `query`.
pub fn declare_sql(name: &str, query: &str) -> (s: String)
    ensures
        s@ == spec_declare_sql(name@, query@),
{
    let mut s = String::from_str("DECLARE ");
    s.append(name);
    s.append(" SCROLL CURSOR FOR ");
    s.append(query);
    proof {
        assert(s@ =~= spec_declare_sql(name@, query@));
    }
    s
}

/// The statement that fetches up to `n` rows forward from the cursor.
pub fn fetch_forward_sql(n: usize, name: &str) -> (s: String)
    ensures
        s@ == spec_fetch_forward_sql(n as nat, name@),
{
    let mut s = String::from_str("FETCH FORWARD ");
    push_dec(&mut s, n as u64);
    s.append(" FROM ");
    s.append(name);
    proof {
        assert(s@ =~= spec_fetch_forward_sql(n as nat, name@));
    }
    s
}

/// The statement that steps the cursor one row back after the metadata probe.
pub fn move_backward_sql(name: &str) -> (s: String)
    ensures
        s@ == spec_move_backward_sql(name@),
{
    let mut s = String::from_str("MOVE BACKWARD 1 FROM ");
    s.append(name);
    proof {
        assert(s@ =~= spec_move_backward_sql(name@));
    }
    s
}

/// The zero-row statement prepared for column metadata when the probe found
/// an empty result set.
pub fn metadata_only_sql(query: &str) -> (s: String)
    ensures
        s@ == spec_metadata_only_sql(query@),
{
    let mut s = String::from_str("SELECT * FROM (");
    s.append(query);
    s.append(") AS meta_query LIMIT 0");
    proof {
        assert(s@ =~= spec_metadata_only_sql(query@));
    }
    s
}

/// The statement that closes the server-side cursor.
pub fn close_cursor_sql(name: &str) -> (s: String)
    ensures
        s@ == spec_close_cursor_sql(name@),
{
    let mut s = String::from_str("CLOSE ");
    s.append(name);
    proof {
        assert(s@ =~= spec_close_cursor_sql(name@));
    }
    s
}

/// The statement that opens a transaction.
pub fn begin_sql() -> (s: String)
    ensures
        s@ == "BEGIN"@,
{
    String::from_str("BEGIN")
}

/// The statement that commits the transaction this library opened.
pub fn commit_sql() -> (s: String)
    ensures
        s@ == "COMMIT"@,
{
    String::from_str("COMMIT")
}

/// SQL string escaping: every single quote is doubled, all else is kept.
pub open spec fn spec_escaped(s: Seq<char>) -> Seq<char>
    decreases s.len(),
{
    if s.len() == 0 {
        Seq::empty()
    } else {
        spec_escaped(s.drop_last()) + (if s.last() == '\'' {
            seq!['\'', '\'']
        } else {
            seq![s.last()]
        })
    }
}

/// Escapes a string for inclusion in a single-quoted SQL literal by doubling
/// each single quote.
pub fn escape_string(input: &str) -> (r: String)
    ensures
        r@ == spec_escaped(input@),
{
    let n = input.unicode_len();
    let mut out = String::new();
    let mut i: usize = 0;
    while i < n
        invariant
            i <= n,
            n == input@.len(),
            out@ == spec_escaped(input@.take(i as int)),
        decreases n - i,
    {
        let c = input.get_char(i);
        if c == '\'' {
            out.append("''");
            proof {
                reveal_strlit("''");
            }
        } else {
            crate::text::push_char(&mut out, c);
        }
        proof {
            assert(input@.take(i + 1 as int).drop_last() =~= input@.take(i as int));
            assert(input@.take(i + 1 as int).last() == input@[i as int]);
            assert(out@ =~= spec_escaped(input@.take(i + 1 as int)));
        }
        i = i + 1;
    }
    proof {
        assert(input@.take(n as int) =~= input@);
    }
    out
}

/// The catalog query that lists the tables of one schema, with the schema
/// name escaped into its single-quoted literal.
pub open spec fn spec_list_tables_sql(schema: Seq<char>) -> Seq<char> {
    "SELECT tablename FROM pg_tables WHERE schemaname = '"@ + spec_escaped(schema)
        + "' ORDER BY tablename"@
}

/// Builds the catalog query that lists the tables of `schema`.
pub fn list_tables_sql(schema: &str) -> (s: String)
    ensures
        s@ == spec_list_tables_sql(schema@),
{
    let mut s = String::from_str("SELECT tablename FROM pg_tables WHERE schemaname = '");
    let escaped = escape_string(schema);
    s.append(escaped.as_str());
    s.append("' ORDER BY tablename");
    proof {
        assert(s@ =~= spec_list_tables_sql(schema@));
    }
    s
}

/// An ASCII space as SQL text knows it.
pub open spec fn is_space(c: char) -> bool {
    c == ' ' || c == '\t' || c == '\n' || c == '\r'
}

/// Whether `c` matches the upper-case ASCII letter `up` ignoring case.
pub open spec fn char_eq_upper(c: char, up: char) -> bool {
    c == up || c as int == up as int + 32
}

/// Whether `s` starts with the upper-case keyword `kw`, ignoring case.
pub open spec fn starts_with_keyword(s: Seq<char>, kw: Seq<char>) -> bool {
    kw.len() <= s.len() && forall|j: int| 0 <= j < kw.len() ==> char_eq_upper(s[j], #[trigger] kw[j])
}

/// Whether the statement is a row-affecting command rather than a query:
/// after leading spaces it begins with `UPDATE`, `DELETE` or `INSERT`,
/// ignoring case. A command is executed for its affected-row count; a query
/// is prepared so that its column metadata survives even a zero-row result.
pub open spec fn spec_is_command(s: Seq<char>) -> bool
    decreases s.len(),
{
    if s.len() == 0 {
        false
    } else if is_space(s[0]) {
        spec_is_command(s.drop_first())
    } else {
        starts_with_keyword(s, "UPDATE"@) || starts_with_keyword(s, "DELETE"@)
            || starts_with_keyword(s, "INSERT"@)
    }
}

fn is_space_char(c: char) -> (r: bool)
    ensures
        r == is_space(c),
{
    c == ' ' || c == '\t' || c == '\n' || c == '\r'
}

fn check_keyword(s: &str, start: usize, kw: &str) -> (r: bool)
    requires
        start <= s@.len(),
    ensures
        r == starts_with_keyword(s@.skip(start as int), kw@),
{
    let n = s.unicode_len();
    let k = kw.unicode_len();
    if n - start < k {
        return false;
    }
    let mut j: usize = 0;
    while j < k
        invariant
            j <= k,
            k == kw@.len(),
            n == s@.len(),
            start + k <= n,
            forall|t: int| 0 <= t < j ==> char_eq_upper(s@.skip(start as int)[t], #[trigger] kw@[t]),
        decreases k - j,
    {
        let c = s.get_char(start + j);
        let u = kw.get_char(j);
        if !(c == u || (c as u32) == (u as u32) + 32) {
            return false;
        }
        j = j + 1;
    }
    true
}

/// Classifies a statement as a row-affecting command or a query.
pub fn is_command(query: &str) -> (r: bool)
    ensures
        r == spec_is_command(query@),
{
    let n = query.unicode_len();
    let mut i: usize = 0;
    proof {
        assert(query@.skip(0) =~= query@);
    }
    while i < n && is_space_char(query.get_char(i))
        invariant
            i <= n,
            n == query@.len(),
            spec_is_command(query@) == spec_is_command(query@.skip(i as int)),
        decreases n - i,
    {
        proof {
            assert(query@.skip(i as int).drop_first() =~= query@.skip(i + 1 as int));
        }
        i = i + 1;
    }
    if i >= n {
        return false;
    }
    let r = check_keyword(query, i, "UPDATE") || check_keyword(query, i, "DELETE")
        || check_keyword(query, i, "INSERT");
    proof {
        assert(!is_space(query@.skip(i as int)[0]));
    }
    r
}

} // verus!
