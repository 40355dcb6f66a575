use vstd::prelude::*;
use crate::csv_log::header_row;
use crate::user_state::{DataLogView, UserStateView};

verus! {

/// What the persistent stores hold: one snapshot per user, the relational
/// log in insertion order, and the contents of each user's log file.
pub struct Ledger {
    pub snapshots: Map<Seq<char>, UserStateView>,
    pub log_rows: Seq<DataLogView>,
    pub files: Map<Seq<char>, Seq<u8>>,
}

/// One storage action, as it changes the stores when it succeeds.
pub enum Effect {
    /// Create-or-replace the user's snapshot with the full record.
    Put(UserStateView),
    /// Open the user's log file for appending, creating it with its header
    /// row when it does not exist yet.
    Open(Seq<char>),
    /// Insert one row into the relational log.
    Insert(DataLogView),
    /// Append bytes to the user's log file.
    Append(Seq<char>, Seq<u8>),
}

/// The stores after a successful action.
pub open spec fn apply(w: Ledger, e: Effect) -> Ledger {
    match e {
        Effect::Put(s) => Ledger { snapshots: w.snapshots.insert(s.username, s), ..w },
        Effect::Open(u) => if w.files.contains_key(u) {
            w
        } else {
            Ledger { files: w.files.insert(u, header_row()), ..w }
        },
        Effect::Insert(e) => Ledger { log_rows: w.log_rows.push(e), ..w },
        Effect::Append(u, bytes) => {
            let before = if w.files.contains_key(u) { w.files[u] } else { Seq::empty() };
            Ledger { files: w.files.insert(u, before + bytes), ..w }
        },
    }
}

/// The stores after a sequence of successful actions, in order.
pub open spec fn run(w: Ledger, effects: Seq<Effect>) -> Ledger
    decreases effects.len(),
{
    if effects.len() == 0 {
        w
    } else {
        apply(run(w, effects.drop_last()), effects.last())
    }
}

/// The relational log rows of one user, in insertion order.
pub open spec fn rows_of(rows: Seq<DataLogView>, u: Seq<char>) -> Seq<DataLogView>
    decreases rows.len(),
{
    if rows.len() == 0 {
        Seq::empty()
    } else if rows.last().username == u {
        rows_of(rows.drop_last(), u).push(rows.last())
    } else {
        rows_of(rows.drop_last(), u)
    }
}

/// What a read of a user's snapshot finds.
pub open spec fn lookup(w: Ledger, u: Seq<char>) -> Option<UserStateView> {
    if w.snapshots.contains_key(u) {
        Some(w.snapshots[u])
    } else {
        None
    }
}

} // verus!
