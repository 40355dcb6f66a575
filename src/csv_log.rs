use vstd::prelude::*;
use vstd::string::StringExecFns;
use crate::user_state::{DataLog, DataLogView};

verus! {

/// The bytes of one delimited record with these fields, as the csv crate's
/// default writer encodes it (separators, quoting and the terminator).
pub uninterp spec fn csv_record(fields: Seq<Seq<char>>) -> Seq<u8>;

/// Relies on `csv::Writer::write_record` of a writer built by
/// `csv::WriterBuilder::new()` over a `Vec<u8>`, and on `Writer::into_inner`:
/// the bytes written for one record depend on its fields alone. Writing into
/// a vector does not fail, and the first record of a writer has no length to
/// match, so neither call returns an error here.
#[verifier::external_body]
fn encode_record(fields: &Vec<String>) -> (r: Vec<u8>)
    ensures
        r@ == csv_record(fields.deep_view()),
{
    let mut writer = csv::WriterBuilder::new().from_writer(Vec::new());
    match writer.write_record(fields) {
        Ok(()) => writer.into_inner().unwrap_or_default(),
        Err(_) => Vec::new(),
    }
}

/// The column names of a log file, in their fixed order.
pub open spec fn header_names() -> Seq<Seq<char>> {
    seq![
        "username"@,
        "text_entry"@,
        "category1"@,
        "category2"@,
        "category3"@,
        "category4"@,
        "timestamp"@,
    ]
}

impl DataLogView {
    /// The seven values of an entry's data row, in the column order.
    pub open spec fn fields(self) -> Seq<Seq<char>> {
        seq![
            self.username,
            self.text_entry,
            self.category1,
            self.category2,
            self.category3,
            self.category4,
            self.timestamp,
        ]
    }
}

/// The header row of a log file.
pub open spec fn header_row() -> Seq<u8> {
    csv_record(header_names())
}

/// The data row of an entry.
pub open spec fn data_row(e: DataLogView) -> Seq<u8> {
    csv_record(e.fields())
}

/// The name of a user's log file.
pub open spec fn log_file_name(username: Seq<char>) -> Seq<char> {
    username + ".csv"@
}

/// The column names of a log file.
pub fn header_fields() -> (r: Vec<String>)
    ensures
        r.deep_view() == header_names(),
{
    let r = vec![
        String::from_str("username"),
        String::from_str("text_entry"),
        String::from_str("category1"),
        String::from_str("category2"),
        String::from_str("category3"),
        String::from_str("category4"),
        String::from_str("timestamp"),
    ];
    assert(r.deep_view() =~= header_names());
    r
}

/// The values of an entry's data row.
pub fn row_fields(entry: &DataLog) -> (r: Vec<String>)
    ensures
        r.deep_view() == entry@.fields(),
{
    let r = vec![
        entry.username.clone(),
        entry.text_entry.clone(),
        entry.category1.clone(),
        entry.category2.clone(),
        entry.category3.clone(),
        entry.category4.clone(),
        entry.timestamp.clone(),
    ];
    assert(r.deep_view() =~= entry@.fields());
    r
}

/// The encoded header row.
pub fn header_bytes() -> (r: Vec<u8>)
    ensures
        r@ == header_row(),
{
    encode_record(&header_fields())
}

/// The encoded data row of an entry.
pub fn row_bytes(entry: &DataLog) -> (r: Vec<u8>)
    ensures
        r@ == data_row(entry@),
{
    encode_record(&row_fields(entry))
}

/// Where the per-user log files live, and how they are named and begun.
pub struct CsvExporter {
    base_dir: String,
}

impl CsvExporter {
    pub fn new(base_dir: &str) -> (r: CsvExporter)
        ensures
            r.dir()@ == base_dir@,
    {
        CsvExporter { base_dir: base_dir.to_owned() }
    }

    pub closed spec fn dir(&self) -> String {
        self.base_dir
    }

    /// The directory that holds the log files.
    pub fn base_dir(&self) -> (r: &str)
        ensures
            r@ == self.dir()@,
    {
        self.base_dir.as_str()
    }

    /// The file name of a user's log: the user name followed by `.csv`.
    pub fn file_name(username: &str) -> (r: String)
        ensures
            r@ == log_file_name(username@),
    {
        let mut name = username.to_owned();
        name.append(".csv");
        name
    }

    /// What is written to a log file when it is opened for appending: the
    /// header row when the file did not exist before, nothing otherwise.
    pub fn opening_bytes(file_existed: bool) -> (r: Vec<u8>)
        ensures
            r@ == (if file_existed { Seq::<u8>::empty() } else { header_row() }),
    {
        if file_existed {
            Vec::new()
        } else {
            header_bytes()
        }
    }
}

} // verus!
