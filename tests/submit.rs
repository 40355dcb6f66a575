use std::collections::HashMap;

use data_logger::coordinator::{read_status, submit_status, Action, Step, SubmitError, Submission};
use data_logger::csv_log::{header_bytes, row_bytes, CsvExporter};
use data_logger::user_state::{DataLog, UserState};

/// In-memory stores that perform the actions of a submit.
#[derive(Default)]
struct Host {
    snapshots: HashMap<String, UserState>,
    rows: Vec<DataLog>,
    files: HashMap<String, Vec<u8>>,
    actions: Vec<String>,
    fail_on: Option<&'static str>,
}

impl Host {
    fn perform(&mut self, action: Action) -> Result<(), String> {
        let kind = match &action {
            Action::PutSnapshot(_) => "put",
            Action::OpenLog(_) => "open",
            Action::InsertLogRow(_) => "insert",
            Action::AppendLogRow(_, _) => "append",
        };
        self.actions.push(kind.to_string());
        if self.fail_on == Some(kind) {
            return Err(format!("{} refused", kind));
        }
        match action {
            Action::PutSnapshot(s) => {
                self.snapshots.insert(s.username.clone(), s);
            }
            Action::OpenLog(u) => {
                let existed = self.files.contains_key(&u);
                let opening = CsvExporter::opening_bytes(existed);
                self.files.entry(u).or_default().extend(opening);
            }
            Action::InsertLogRow(mut e) => {
                e.id = Some(self.rows.len() as i64 + 1);
                self.rows.push(e);
            }
            Action::AppendLogRow(u, bytes) => {
                self.files.entry(u).or_default().extend(bytes);
            }
        }
        Ok(())
    }

    fn submit(&mut self, state: UserState) -> Result<(), SubmitError> {
        let (mut sub, mut step) = Submission::begin(state);
        loop {
            match step {
                Step::Done(r) => return r,
                Step::Perform(a) => {
                    let r = self.perform(a);
                    step = sub.resume(r);
                }
            }
        }
    }

    fn get(&self, username: &str) -> Result<Option<UserState>, String> {
        Ok(self.snapshots.get(username).cloned())
    }

    fn rows_of(&self, username: &str) -> Vec<&DataLog> {
        self.rows.iter().filter(|r| r.username == username).collect()
    }
}

fn state(user: &str, text: &str, cats: [&str; 4], recording: bool) -> UserState {
    UserState {
        username: user.to_string(),
        text_entry: text.to_string(),
        category1: cats[0].to_string(),
        category2: cats[1].to_string(),
        category3: cats[2].to_string(),
        category4: cats[3].to_string(),
        is_recording: recording,
        last_saved: None,
        last_data: None,
    }
}

const HEADER: &str = "username,text_entry,category1,category2,category3,category4,timestamp\n";

#[test]
fn test_update_and_get_user_state() {
    let mut host = Host::default();
    let test_state = state("testuser", "test text", ["option1a", "option2a", "option3a", "option4a"], false);
    let r = host.submit(test_state.clone());
    assert_eq!(submit_status(&r), 200);

    let found = host.get("testuser");
    assert_eq!(read_status(&found), 200);
    let retrieved = found.unwrap().unwrap();
    assert_eq!(retrieved.username, test_state.username);
    assert_eq!(retrieved.text_entry, test_state.text_entry);
    assert_eq!(retrieved.category1, test_state.category1);
    assert_eq!(retrieved.is_recording, test_state.is_recording);
}

#[test]
fn test_recording_state() {
    let mut host = Host::default();
    let mut test_state = state("recordinguser", "recording text", ["option1b", "option2b", "option3b", "option4b"], true);
    test_state.last_saved = Some("2023-01-01T00:00:00Z".to_string());
    test_state.last_data = Some("test data".to_string());
    let r = host.submit(test_state);
    assert_eq!(submit_status(&r), 200);

    let file = CsvExporter::file_name("recordinguser");
    assert_eq!(file, "recordinguser.csv");
    assert!(host.files.contains_key("recordinguser"));
    assert_eq!(host.rows_of("recordinguser").len(), 1);
}

#[test]
fn unrecorded_submit_of_new_user_writes_only_the_snapshot() {
    let mut host = Host::default();
    let r = host.submit(state("bob", "x", ["a", "b", "c", "d"], false));
    assert!(r.is_ok());
    assert_eq!(host.snapshots.len(), 1);
    assert!(host.rows.is_empty());
    assert!(host.files.is_empty());
    assert_eq!(host.actions, vec!["put"]);
}

#[test]
fn first_recorded_submit_writes_header_and_one_row() {
    let mut host = Host::default();
    let s = state("carol", "t", ["a", "b", "c", "d"], true);
    assert!(host.submit(s).is_ok());
    assert_eq!(host.actions, vec!["put", "open", "insert", "append"]);
    assert_eq!(host.snapshots.len(), 1);
    let rows = host.rows_of("carol");
    assert_eq!(rows.len(), 1);
    let ts = rows[0].timestamp.clone();
    let expected = format!("{}carol,t,a,b,c,d,{}\n", HEADER, ts);
    assert_eq!(String::from_utf8(host.files["carol"].clone()).unwrap(), expected);
}

#[test]
fn second_recorded_submit_appends_without_header() {
    let mut host = Host::default();
    assert!(host.submit(state("dave", "one", ["a", "b", "c", "d"], true)).is_ok());
    assert!(host.submit(state("dave", "two", ["e", "f", "g", "h"], true)).is_ok());
    let rows = host.rows_of("dave");
    assert_eq!(rows.len(), 2);
    let expected = format!(
        "{}dave,one,a,b,c,d,{}\ndave,two,e,f,g,h,{}\n",
        HEADER, rows[0].timestamp, rows[1].timestamp
    );
    assert_eq!(String::from_utf8(host.files["dave"].clone()).unwrap(), expected);
    assert_eq!(host.files.len(), 1);
}

#[test]
fn get_unknown_user_is_not_found() {
    let mut host = Host::default();
    assert_eq!(read_status(&host.get("nobody")), 404);
    assert!(host.submit(state("someone", "x", ["a", "b", "c", "d"], true)).is_ok());
    assert_eq!(read_status(&host.get("nobody")), 404);
    assert_eq!(read_status(&Err("pool closed".to_string())), 500);
}

#[test]
fn get_returns_last_submitted_state_exactly() {
    let mut host = Host::default();
    let mut first = state("erin", "first", ["a", "b", "c", "d"], true);
    first.last_data = Some("old".to_string());
    assert!(host.submit(first).is_ok());
    let second = state("erin", "second", ["w", "x", "y", "z"], false);
    assert!(host.submit(second).is_ok());
    let got = host.get("erin").unwrap().unwrap();
    assert_eq!(got.text_entry, "second");
    assert_eq!(got.category1, "w");
    assert_eq!(got.category4, "z");
    assert!(!got.is_recording);
    assert_eq!(got.last_data, None);
    assert_eq!(got.last_saved, None);
}

#[test]
fn alice_recorded_submit_is_logged_twice() {
    let mut host = Host::default();
    let mut s = state("alice", "hi", ["A", "B", "C", "D"], true);
    s.last_saved = Some("client-time".to_string());
    assert!(host.submit(s).is_ok());
    let snap = &host.snapshots["alice"];
    assert_eq!(
        (snap.text_entry.as_str(), snap.category1.as_str(), snap.category2.as_str(), snap.category3.as_str(), snap.category4.as_str()),
        ("hi", "A", "B", "C", "D")
    );
    assert!(snap.is_recording);
    let rows = host.rows_of("alice");
    assert_eq!(rows.len(), 1);
    let ts = &rows[0].timestamp;
    assert!(!ts.is_empty());
    assert_ne!(ts, "client-time");
    assert!(ts.contains('T'));
    let text = String::from_utf8(host.files["alice"].clone()).unwrap();
    let lines: Vec<&str> = text.lines().collect();
    assert_eq!(lines.len(), 2);
    assert_eq!(format!("{}\n", lines[0]), HEADER);
    assert!(lines[1].ends_with(ts.as_str()));
    assert_eq!(CsvExporter::file_name("alice"), "alice.csv");
}

#[test]
fn alice_unrecorded_submit_touches_no_log() {
    let mut host = Host::default();
    assert!(host.submit(state("alice", "hi", ["A", "B", "C", "D"], false)).is_ok());
    assert_eq!(host.snapshots["alice"].text_entry, "hi");
    assert!(!host.snapshots["alice"].is_recording);
    assert!(host.rows.is_empty());
    assert!(!host.files.contains_key("alice"));
}

#[test]
fn empty_username_is_malformed() {
    let mut host = Host::default();
    let r = host.submit(state("", "x", ["a", "b", "c", "d"], true));
    assert!(matches!(r, Err(SubmitError::MalformedInput)));
    assert!(host.actions.is_empty());
    assert_eq!(submit_status(&r), 500);
}

#[test]
fn snapshot_failure_stops_the_submit() {
    let mut host = Host { fail_on: Some("put"), ..Default::default() };
    let r = host.submit(state("fay", "x", ["a", "b", "c", "d"], true));
    match r {
        Err(SubmitError::StorageUnavailable(m)) => assert_eq!(m, "put refused"),
        other => panic!("unexpected {:?}", other),
    }
    assert_eq!(host.actions, vec!["put"]);
    assert!(host.rows.is_empty());
    assert!(host.files.is_empty());
}

#[test]
fn relational_failure_skips_the_file_row() {
    let mut host = Host { fail_on: Some("insert"), ..Default::default() };
    let r = host.submit(state("gus", "x", ["a", "b", "c", "d"], true));
    assert!(matches!(r, Err(SubmitError::StorageUnavailable(_))));
    assert_eq!(host.actions, vec!["put", "open", "insert"]);
    assert_eq!(host.snapshots["gus"].text_entry, "x");
    assert!(host.rows.is_empty());
    assert_eq!(String::from_utf8(host.files["gus"].clone()).unwrap(), HEADER);
}

#[test]
fn file_failure_keeps_relational_row_and_reports_failure() {
    let mut host = Host { fail_on: Some("append"), ..Default::default() };
    let r = host.submit(state("hal", "x", ["a", "b", "c", "d"], true));
    assert!(matches!(r, Err(SubmitError::IoDenied(_))));
    assert_eq!(host.rows_of("hal").len(), 1);
    assert_eq!(host.snapshots["hal"].text_entry, "x");
    assert_eq!(String::from_utf8(host.files["hal"].clone()).unwrap(), HEADER);
    assert_eq!(submit_status(&r), 500);
}

#[test]
fn open_failure_reports_io_error() {
    let mut host = Host { fail_on: Some("open"), ..Default::default() };
    let r = host.submit(state("ivy", "x", ["a", "b", "c", "d"], true));
    assert!(matches!(r, Err(SubmitError::IoDenied(_))));
    assert!(host.rows.is_empty());
}

#[test]
fn log_rows_match_snapshot_content() {
    let mut host = Host::default();
    assert!(host.submit(state("jo", "note", ["p", "q", "r", "s"], true)).is_ok());
    let row = &host.rows[0];
    assert_eq!(row.id, Some(1));
    assert_eq!(
        (row.username.as_str(), row.text_entry.as_str(), row.category1.as_str(), row.category4.as_str()),
        ("jo", "note", "p", "s")
    );
    let mut copy = row.clone();
    copy.id = None;
    assert_eq!(row_bytes(&copy), host.files["jo"][header_bytes().len()..].to_vec());
}
