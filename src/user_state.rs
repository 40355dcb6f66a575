use vstd::prelude::*;
use vstd::string::StringExecFns;

verus! {

/// The latest form state of one user: what the snapshot store keeps.
#[derive(Debug)]
pub struct UserState {
    pub username: String,
    pub text_entry: String,
    pub category1: String,
    pub category2: String,
    pub category3: String,
    pub category4: String,
    pub is_recording: bool,
    pub last_saved: Option<String>,
    pub last_data: Option<String>,
}

/// The mathematical value of a [`UserState`].
pub struct UserStateView {
    pub username: Seq<char>,
    pub text_entry: Seq<char>,
    pub category1: Seq<char>,
    pub category2: Seq<char>,
    pub category3: Seq<char>,
    pub category4: Seq<char>,
    pub is_recording: bool,
    pub last_saved: Option<Seq<char>>,
    pub last_data: Option<Seq<char>>,
}

pub open spec fn opt_view(o: Option<String>) -> Option<Seq<char>> {
    match o {
        Some(s) => Some(s@),
        None => None,
    }
}

impl View for UserState {
    type V = UserStateView;

    open spec fn view(&self) -> UserStateView {
        UserStateView {
            username: self.username@,
            text_entry: self.text_entry@,
            category1: self.category1@,
            category2: self.category2@,
            category3: self.category3@,
            category4: self.category4@,
            is_recording: self.is_recording,
            last_saved: opt_view(self.last_saved),
            last_data: opt_view(self.last_data),
        }
    }
}

fn copy_opt(o: &Option<String>) -> (r: Option<String>)
    ensures
        opt_view(r) == opt_view(*o),
{
    match o {
        Some(s) => Some(s.clone()),
        None => None,
    }
}

impl Clone for UserState {
    fn clone(&self) -> (r: Self)
        ensures
            r@ == self@,
    {
        UserState {
            username: self.username.clone(),
            text_entry: self.text_entry.clone(),
            category1: self.category1.clone(),
            category2: self.category2.clone(),
            category3: self.category3.clone(),
            category4: self.category4.clone(),
            is_recording: self.is_recording,
            last_saved: copy_opt(&self.last_saved),
            last_data: copy_opt(&self.last_data),
        }
    }
}

impl Default for UserState {
    /// An empty form: every text empty, not recording, nothing saved yet.
    fn default() -> (r: Self)
        ensures
            r@ == empty_state(),
    {
        UserState {
            username: String::new(),
            text_entry: String::new(),
            category1: String::new(),
            category2: String::new(),
            category3: String::new(),
            category4: String::new(),
            is_recording: false,
            last_saved: None,
            last_data: None,
        }
    }
}

pub open spec fn empty_state() -> UserStateView {
    UserStateView {
        username: Seq::empty(),
        text_entry: Seq::empty(),
        category1: Seq::empty(),
        category2: Seq::empty(),
        category3: Seq::empty(),
        category4: Seq::empty(),
        is_recording: false,
        last_saved: None,
        last_data: None,
    }
}

/// One of the editable content fields of a form.
#[derive(Clone, Copy, Debug, PartialEq, Eq, Structural)]
pub enum Field {
    TextEntry,
    Category1,
    Category2,
    Category3,
    Category4,
}

impl UserStateView {
    /// This state with one content field replaced; nothing else changes.
    pub open spec fn with_field(self, field: Field, value: Seq<char>) -> UserStateView {
        match field {
            Field::TextEntry => UserStateView { text_entry: value, ..self },
            Field::Category1 => UserStateView { category1: value, ..self },
            Field::Category2 => UserStateView { category2: value, ..self },
            Field::Category3 => UserStateView { category3: value, ..self },
            Field::Category4 => UserStateView { category4: value, ..self },
        }
    }

    /// The human-readable line that describes the content fields.
    pub open spec fn summary(self) -> Seq<char> {
        "Text: "@ + self.text_entry + ", Categories: "@ + self.category1 + ", "@
            + self.category2 + ", "@ + self.category3 + ", "@ + self.category4
    }
}

impl UserState {
    /// Replaces the value of one content field.
    pub fn set_field(&mut self, field: Field, value: String)
        ensures
            final(self)@ == old(self)@.with_field(field, value@),
    {
        match field {
            Field::TextEntry => self.text_entry = value,
            Field::Category1 => self.category1 = value,
            Field::Category2 => self.category2 = value,
            Field::Category3 => self.category3 = value,
            Field::Category4 => self.category4 = value,
        }
    }

    /// `Text: <text>, Categories: <c1>, <c2>, <c3>, <c4>`.
    pub fn summary(&self) -> (r: String)
        ensures
            r@ == self@.summary(),
    {
        let mut s = String::from_str("Text: ");
        s.append(self.text_entry.as_str());
        s.append(", Categories: ");
        s.append(self.category1.as_str());
        s.append(", ");
        s.append(self.category2.as_str());
        s.append(", ");
        s.append(self.category3.as_str());
        s.append(", ");
        s.append(self.category4.as_str());
        s
    }

    /// Notes a successful save: the time it happened and the summary of the
    /// content that was saved. The content fields stay as they are.
    pub fn mark_saved(&mut self, timestamp: String)
        ensures
            final(self)@ == (UserStateView {
                last_saved: Some(timestamp@),
                last_data: Some(old(self)@.summary()),
                ..old(self)@
            }),
    {
        let data = self.summary();
        self.last_saved = Some(timestamp);
        self.last_data = Some(data);
    }
}

/// One recorded sample, as the log keeps it. `id` is the surrogate key that
/// the relational log assigns; a sample that is not stored yet has none.
#[derive(Debug)]
pub struct DataLog {
    pub id: Option<i64>,
    pub username: String,
    pub text_entry: String,
    pub category1: String,
    pub category2: String,
    pub category3: String,
    pub category4: String,
    pub timestamp: String,
}

/// The mathematical value of a [`DataLog`].
pub struct DataLogView {
    pub id: Option<i64>,
    pub username: Seq<char>,
    pub text_entry: Seq<char>,
    pub category1: Seq<char>,
    pub category2: Seq<char>,
    pub category3: Seq<char>,
    pub category4: Seq<char>,
    pub timestamp: Seq<char>,
}

impl View for DataLog {
    type V = DataLogView;

    open spec fn view(&self) -> DataLogView {
        DataLogView {
            id: self.id,
            username: self.username@,
            text_entry: self.text_entry@,
            category1: self.category1@,
            category2: self.category2@,
            category3: self.category3@,
            category4: self.category4@,
            timestamp: self.timestamp@,
        }
    }
}

impl Clone for DataLog {
    fn clone(&self) -> (r: Self)
        ensures
            r@ == self@,
    {
        DataLog {
            id: self.id,
            username: self.username.clone(),
            text_entry: self.text_entry.clone(),
            category1: self.category1.clone(),
            category2: self.category2.clone(),
            category3: self.category3.clone(),
            category4: self.category4.clone(),
            timestamp: self.timestamp.clone(),
        }
    }
}

/// The log entry for a state recorded at `timestamp`: the state's content
/// fields, without the recording flag or the saved-at details.
pub open spec fn log_entry_of(s: UserStateView, timestamp: Seq<char>) -> DataLogView {
    DataLogView {
        id: None,
        username: s.username,
        text_entry: s.text_entry,
        category1: s.category1,
        category2: s.category2,
        category3: s.category3,
        category4: s.category4,
        timestamp,
    }
}

impl DataLog {
    /// The entry that records `state` at `timestamp`.
    pub fn from_state(state: &UserState, timestamp: String) -> (r: DataLog)
        ensures
            r@ == log_entry_of(state@, timestamp@),
    {
        DataLog {
            id: None,
            username: state.username.clone(),
            text_entry: state.text_entry.clone(),
            category1: state.category1.clone(),
            category2: state.category2.clone(),
            category3: state.category3.clone(),
            category4: state.category4.clone(),
            timestamp,
        }
    }
}

} // verus!
