use vstd::prelude::*;
use crate::csv_log::{data_row, row_bytes};
use crate::ledger::Effect;
use crate::user_state::{log_entry_of, DataLog, UserState, UserStateView};

verus! {

/// Why a submit failed.
#[derive(Debug)]
pub enum SubmitError {
    /// The state names no user.
    MalformedInput,
    /// The snapshot store or the relational log refused a write; the store's
    /// own message is kept as it came.
    StorageUnavailable(String),
    /// The log file could not be opened or written; the message is kept as
    /// it came.
    IoDenied(String),
}

/// A storage action that the host performs for a submit, then reports on.
#[derive(Debug)]
pub enum Action {
    /// Upsert the full state as the user's snapshot.
    PutSnapshot(UserState),
    /// Take the user's log writer from the registry, creating it (and the
    /// file with its header row, if the file is new) on first use, and hold
    /// its lock until the submit is done.
    OpenLog(String),
    /// Insert the entry into the relational log.
    InsertLogRow(DataLog),
    /// Append these bytes to the user's log file and flush it.
    AppendLogRow(String, Vec<u8>),
}

impl View for Action {
    type V = Effect;

    open spec fn view(&self) -> Effect {
        match self {
            Action::PutSnapshot(s) => Effect::Put(s@),
            Action::OpenLog(u) => Effect::Open(u@),
            Action::InsertLogRow(e) => Effect::Insert(e@),
            Action::AppendLogRow(u, b) => Effect::Append(u@, b@),
        }
    }
}

/// What the host does next for a submit.
#[derive(Debug)]
pub enum Step {
    Perform(Action),
    Done(Result<(), SubmitError>),
}

/// The actions of one submit of `s` whose log entry is stamped `t`, in
/// order: the snapshot write, and only when recording, the dual append
/// (the writer, the relational row, then the file row).
pub open spec fn plan(s: UserStateView, t: Seq<char>) -> Seq<Effect> {
    if s.is_recording {
        let e = log_entry_of(s, t);
        seq![
            Effect::Put(s),
            Effect::Open(s.username),
            Effect::Insert(e),
            Effect::Append(s.username, data_row(e)),
        ]
    } else {
        seq![Effect::Put(s)]
    }
}

/// The error reported when an action fails with `msg`: a store error for
/// the snapshot and the relational row, an I/O error for the file.
pub open spec fn failure_of(e: Effect, msg: String) -> SubmitError {
    match e {
        Effect::Put(_) => SubmitError::StorageUnavailable(msg),
        Effect::Insert(_) => SubmitError::StorageUnavailable(msg),
        Effect::Open(_) => SubmitError::IoDenied(msg),
        Effect::Append(_, _) => SubmitError::IoDenied(msg),
    }
}

/// Relies on `chrono::Utc::now` for the current time and on
/// `DateTime::to_rfc3339` for its text. Nothing is promised of the value.
#[verifier::external_body]
fn current_timestamp() -> (r: String) {
    chrono::Utc::now().to_rfc3339()
}

/// One submit in progress. Each action runs exactly once; the first failure
/// ends the submit with nothing undone.
pub struct Submission {
    state: UserState,
    stamp: String,
    position: usize,
    finished: bool,
}

impl Submission {
    /// The submitted state.
    pub closed spec fn user(&self) -> UserStateView {
        self.state@
    }

    /// The server-side timestamp of the log entry (chosen once the snapshot
    /// is written).
    pub closed spec fn stamp(&self) -> Seq<char> {
        self.stamp@
    }

    /// The index in the plan of the action in flight.
    pub closed spec fn position(&self) -> nat {
        self.position as nat
    }

    pub closed spec fn is_finished(&self) -> bool {
        self.finished
    }

    pub open spec fn plan(&self) -> Seq<Effect> {
        plan(self.user(), self.stamp())
    }

    pub closed spec fn wf(&self) -> bool {
        !self.finished ==> self.position < plan(self.state@, self.stamp@).len()
    }

    /// Whether the submit has ended.
    pub fn finished(&self) -> (r: bool)
        ensures
            r == self.is_finished(),
    {
        self.finished
    }

    /// Starts a submit: a state without a user name is refused; otherwise
    /// the first action is the snapshot write.
    pub fn begin(state: UserState) -> (r: (Submission, Step))
        ensures
            r.0.wf(),
            r.0.user() == state@,
            state@.username.len() == 0 ==> r.0.is_finished() && r.1 == Step::Done(
                Err(SubmitError::MalformedInput),
            ),
            state@.username.len() > 0 ==> {
                &&& !r.0.is_finished()
                &&& r.0.position() == 0
                &&& r.1 matches Step::Perform(a)
                &&& a@ == r.0.plan()[0]
                &&& a@ == Effect::Put(state@)
            },
    {
        if state.username.as_str().is_empty() {
            let sub = Submission { state, stamp: String::new(), position: 0, finished: true };
            (sub, Step::Done(Err(SubmitError::MalformedInput)))
        } else {
            let put = Action::PutSnapshot(state.clone());
            let sub = Submission { state, stamp: String::new(), position: 0, finished: false };
            (sub, Step::Perform(put))
        }
    }

    /// Takes the result of the action in flight and returns what comes next:
    /// on failure the submit ends with the matching error; on success the
    /// next action of the plan, or the end of the submit after the last one.
    pub fn resume(&mut self, result: Result<(), String>) -> (r: Step)
        requires
            old(self).wf(),
            !old(self).is_finished(),
        ensures
            final(self).wf(),
            final(self).user() == old(self).user(),
            old(self).position() > 0 ==> final(self).stamp() == old(self).stamp(),
            final(self).plan().len() == old(self).plan().len(),
            match result {
                Err(msg) => {
                    &&& final(self).is_finished()
                    &&& r == Step::Done(Err(failure_of(old(self).plan()[old(self).position() as int], msg)))
                },
                Ok(()) => if old(self).position() + 1 == old(self).plan().len() {
                    &&& final(self).is_finished()
                    &&& r == Step::Done(Ok(()))
                } else {
                    &&& !final(self).is_finished()
                    &&& final(self).position() == old(self).position() + 1
                    &&& r matches Step::Perform(a)
                    &&& a@ == final(self).plan()[final(self).position() as int]
                },
            },
    {
        match result {
            Err(msg) => {
                self.finished = true;
                if self.position == 0 || self.position == 2 {
                    Step::Done(Err(SubmitError::StorageUnavailable(msg)))
                } else {
                    Step::Done(Err(SubmitError::IoDenied(msg)))
                }
            },
            Ok(()) => {
                if self.position == 0 && self.state.is_recording {
                    self.stamp = current_timestamp();
                    self.position = 1;
                    Step::Perform(Action::OpenLog(self.state.username.clone()))
                } else if self.position == 1 {
                    self.position = 2;
                    let entry = DataLog::from_state(&self.state, self.stamp.clone());
                    Step::Perform(Action::InsertLogRow(entry))
                } else if self.position == 2 {
                    self.position = 3;
                    let entry = DataLog::from_state(&self.state, self.stamp.clone());
                    let row = row_bytes(&entry);
                    Step::Perform(Action::AppendLogRow(self.state.username.clone(), row))
                } else {
                    self.finished = true;
                    Step::Done(Ok(()))
                }
            },
        }
    }
}

/// The HTTP status that answers a submit: 200 on success, 500 on any
/// failure (a single failure status, whatever the cause).
pub fn submit_status(outcome: &Result<(), SubmitError>) -> (r: u16)
    ensures
        r == if outcome is Ok { 200u16 } else { 500u16 },
{
    match outcome {
        Ok(()) => 200,
        Err(_) => 500,
    }
}

/// The HTTP status that answers a read of a snapshot: 200 when found, 404
/// for an unknown user, 500 when the store failed.
pub fn read_status(found: &Result<Option<UserState>, String>) -> (r: u16)
    ensures
        r == match found {
            Ok(Some(_)) => 200u16,
            Ok(None) => 404u16,
            Err(_) => 500u16,
        },
{
    match found {
        Ok(Some(_)) => 200,
        Ok(None) => 404,
        Err(_) => 500,
    }
}

} // verus!
