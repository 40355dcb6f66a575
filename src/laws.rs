use vstd::prelude::*;
use crate::coordinator::{failure_of, plan, SubmitError};
use crate::csv_log::{data_row, header_row};
use crate::ledger::{apply, lookup, rows_of, run, Effect, Ledger};
use crate::user_state::{log_entry_of, DataLogView, UserStateView};

verus! {

/// A user that the stores know nothing of: no snapshot, no log row, no file.
pub open spec fn unseen(w: Ledger, u: Seq<char>) -> bool {
    &&& !w.snapshots.contains_key(u)
    &&& rows_of(w.log_rows, u).len() == 0
    &&& !w.files.contains_key(u)
}

proof fn lemma_run_push(w: Ledger, es: Seq<Effect>, e: Effect)
    ensures
        run(w, es.push(e)) == apply(run(w, es), e),
{
    assert(es.push(e).drop_last() =~= es);
}

proof fn lemma_rows_push(rows: Seq<DataLogView>, e: DataLogView, u: Seq<char>)
    ensures
        rows_of(rows.push(e), u) == (if e.username == u {
            rows_of(rows, u).push(e)
        } else {
            rows_of(rows, u)
        }),
{
    assert(rows.push(e).drop_last() =~= rows);
}

/// The stores after a whole submit, step by step.
proof fn lemma_run_plan(w: Ledger, s: UserStateView, t: Seq<char>)
    ensures
        ({
            let e = log_entry_of(s, t);
            let w1 = apply(w, Effect::Put(s));
            let w2 = apply(w1, Effect::Open(s.username));
            let w3 = apply(w2, Effect::Insert(e));
            let w4 = apply(w3, Effect::Append(s.username, data_row(e)));
            &&& run(w, plan(s, t).take(1)) == w1
            &&& s.is_recording ==> run(w, plan(s, t).take(2)) == w2
            &&& s.is_recording ==> run(w, plan(s, t).take(3)) == w3
            &&& s.is_recording ==> run(w, plan(s, t).take(4)) == w4
            &&& run(w, plan(s, t)) == if s.is_recording { w4 } else { w1 }
        }),
{
    let p = plan(s, t);
    let e = log_entry_of(s, t);
    let empty = Seq::<Effect>::empty();
    lemma_run_push(w, empty, Effect::Put(s));
    assert(p.take(1) =~= empty.push(Effect::Put(s)));
    if s.is_recording {
        lemma_run_push(w, p.take(1), Effect::Open(s.username));
        assert(p.take(2) =~= p.take(1).push(Effect::Open(s.username)));
        lemma_run_push(w, p.take(2), Effect::Insert(e));
        assert(p.take(3) =~= p.take(2).push(Effect::Insert(e)));
        lemma_run_push(w, p.take(3), Effect::Append(s.username, data_row(e)));
        assert(p.take(4) =~= p.take(3).push(Effect::Append(s.username, data_row(e))));
        assert(p.take(4) =~= p);
    } else {
        assert(p.take(1) =~= p);
    }
}

/// A submit that is not recording, for a user the stores have never seen,
/// leaves exactly one snapshot for the user (the submitted state), and adds
/// no log row and no log file.
pub proof fn lemma_unrecorded_submit(w: Ledger, s: UserStateView, t: Seq<char>)
    requires
        !s.is_recording,
        unseen(w, s.username),
    ensures
        ({
            let after = run(w, plan(s, t));
            &&& after.snapshots == w.snapshots.insert(s.username, s)
            &&& after.snapshots.dom() == w.snapshots.dom().insert(s.username)
            &&& after.log_rows == w.log_rows
            &&& rows_of(after.log_rows, s.username).len() == 0
            &&& after.files == w.files
            &&& !after.files.contains_key(s.username)
        }),
{
    lemma_run_plan(w, s, t);
}

/// The first recording submit of a user leaves one snapshot (the submitted
/// state), one relational row for the user (its content stamped with the
/// server time), and one log file that holds the header row followed by
/// that entry's data row.
pub proof fn lemma_first_recorded_submit(w: Ledger, s: UserStateView, t: Seq<char>)
    requires
        s.is_recording,
        unseen(w, s.username),
    ensures
        ({
            let after = run(w, plan(s, t));
            let e = log_entry_of(s, t);
            &&& after.snapshots == w.snapshots.insert(s.username, s)
            &&& after.snapshots.dom() == w.snapshots.dom().insert(s.username)
            &&& after.log_rows == w.log_rows.push(e)
            &&& rows_of(after.log_rows, s.username) == seq![e]
            &&& after.files == w.files.insert(s.username, header_row() + data_row(e))
        }),
{
    let u = s.username;
    let e = log_entry_of(s, t);
    lemma_run_plan(w, s, t);
    lemma_rows_push(w.log_rows, e, u);
    assert(rows_of(w.log_rows, u) =~= Seq::<DataLogView>::empty());
    assert(rows_of(w.log_rows, u).push(e) =~= seq![e]);
    let w2 = apply(apply(w, Effect::Put(s)), Effect::Open(u));
    assert(w2.files[u] == header_row());
}

/// A second recording submit of the same user appends a second relational
/// row and a second data row to the same file, with no second header row.
pub proof fn lemma_second_recorded_submit(
    w: Ledger,
    s1: UserStateView,
    t1: Seq<char>,
    s2: UserStateView,
    t2: Seq<char>,
)
    requires
        s1.is_recording,
        s2.is_recording,
        s1.username == s2.username,
        unseen(w, s1.username),
    ensures
        ({
            let first = run(w, plan(s1, t1));
            let after = run(first, plan(s2, t2));
            let e1 = log_entry_of(s1, t1);
            let e2 = log_entry_of(s2, t2);
            &&& after.snapshots == first.snapshots.insert(s2.username, s2)
            &&& after.log_rows == first.log_rows.push(e2)
            &&& rows_of(after.log_rows, s2.username) == seq![e1, e2]
            &&& after.files[s2.username] == first.files[s2.username] + data_row(e2)
            &&& after.files[s2.username] == header_row() + data_row(e1) + data_row(e2)
            &&& after.files.dom() == first.files.dom()
        }),
{
    let u = s1.username;
    let e1 = log_entry_of(s1, t1);
    let e2 = log_entry_of(s2, t2);
    lemma_first_recorded_submit(w, s1, t1);
    let first = run(w, plan(s1, t1));
    lemma_run_plan(first, s2, t2);
    lemma_rows_push(first.log_rows, e2, u);
    assert(seq![e1].push(e2) =~= seq![e1, e2]);
    let w2 = apply(apply(first, Effect::Put(s2)), Effect::Open(u));
    assert(w2.files == first.files);
    assert(first.files.insert(u, first.files[u] + data_row(e2)).dom() =~= first.files.dom());
}

/// Reads are last-write-wins: once a submit has written its snapshot,
/// whatever happens to the rest of it, a read of the user returns exactly
/// the submitted state, and a read of any other user returns what it did
/// before (in particular, a user never submitted is still not found).
pub proof fn lemma_read_after_submit(
    w: Ledger,
    s: UserStateView,
    t: Seq<char>,
    done: int,
    u: Seq<char>,
)
    requires
        1 <= done <= plan(s, t).len(),
    ensures
        lookup(run(w, plan(s, t).take(done)), u) == if u == s.username {
            Some(s)
        } else {
            lookup(w, u)
        },
{
    lemma_run_plan(w, s, t);
    let e = log_entry_of(s, t);
    let w1 = apply(w, Effect::Put(s));
    let w2 = apply(w1, Effect::Open(s.username));
    let w3 = apply(w2, Effect::Insert(e));
    let w4 = apply(w3, Effect::Append(s.username, data_row(e)));
    assert(w2.snapshots == w1.snapshots);
    assert(w4.snapshots == w1.snapshots);
}

/// The accepted inconsistency of a recording submit: when the relational
/// row is written and the file append then fails, the row stays, the file
/// holds no row for the entry, and the submit reports an I/O failure.
pub proof fn lemma_append_failure_window(w: Ledger, s: UserStateView, t: Seq<char>, msg: String)
    requires
        s.is_recording,
    ensures
        ({
            let stored = run(w, plan(s, t).take(3));
            let opened = apply(w, Effect::Open(s.username));
            &&& stored.log_rows == w.log_rows.push(log_entry_of(s, t))
            &&& stored.files == opened.files
            &&& failure_of(plan(s, t)[3], msg) == SubmitError::IoDenied(msg)
        }),
{
    lemma_run_plan(w, s, t);
}

} // verus!
