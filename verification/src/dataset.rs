//! The dataset: tab-separated rows under a header row, four columns in the
//! order three-letter code, two-letter code, English name, autonym.

use vstd::prelude::*;

use crate::error::BuildError;

verus! {

/// One row of the dataset, as it was read.
#[derive(Debug, Clone, PartialEq, Eq)]
pub struct LanguageRecord {
    /// The three-letter code.
    pub tag3: String,
    /// The two-letter code; blank where the language has none.
    pub tag1: String,
    /// The English name.
    pub name: String,
    /// The autonym; blank where none is recorded.
    pub autonym: String,
}

/// What a [`LanguageRecord`] is in contracts.
pub struct RecordView {
    pub tag3: Seq<char>,
    pub tag1: Seq<char>,
    pub name: Seq<char>,
    pub autonym: Seq<char>,
}

impl View for LanguageRecord {
    type V = RecordView;

    open spec fn view(&self) -> RecordView {
        RecordView { tag3: self.tag3@, tag1: self.tag1@, name: self.name@, autonym: self.autonym@ }
    }
}

/// The records of a sequence, each by its view.
pub open spec fn record_views(records: Seq<LanguageRecord>) -> Seq<RecordView> {
    records.map_values(|r: LanguageRecord| r@)
}

/// A row as the reader hands it out: its fields, or `None` where the reader
/// could not hand the row out as text.
pub type Row = Option<Seq<Seq<char>>>;

/// What the csv reader yields for `data`, one item for each record that it
/// reads: the fields of the record, or `None` where the reader reports an
/// error in place of the record. The reader splits fields at `delimiter`;
/// with `headed` it takes the first record for a header and leaves it out;
/// with `flexible` it lets the number of fields differ from record to
/// record.
pub uninterp spec fn csv_rows(data: Seq<u8>, delimiter: u8, headed: bool, flexible: bool) -> Seq<
    Row,
>;

/// Reads `data` with `csv::Reader::records`, the reader built by
/// `csv::ReaderBuilder` with `delimiter`, `has_headers` and `flexible` set as
/// given and `from_reader` on the bytes. What the reader yields depends on
/// these arguments alone; the contract gives it its name and claims no more.
#[verifier::external_body]
fn read_rows(data: &[u8], delimiter: u8, headed: bool, flexible: bool) -> (rows: Vec<
    Option<Vec<String>>,
>)
    ensures
        rows.deep_view() == csv_rows(data@, delimiter, headed, flexible),
{
    let mut builder = csv::ReaderBuilder::new();
    builder.delimiter(delimiter).has_headers(headed).flexible(flexible);
    let mut reader = builder.from_reader(data);
    let mut rows = Vec::new();
    for record in reader.records() {
        rows.push(
            match record {
                Ok(fields) => Some(fields.iter().map(String::from).collect()),
                Err(_) => None,
            },
        );
    }
    rows
}

/// The byte between two fields of a row: a tab.
pub const DELIMITER: u8 = 0x09;

/// The rows of a dataset: what the csv reader finds in `data` below the
/// header row, the fields split at tabs, each row with as many fields as it
/// has.
pub open spec fn dataset_rows(data: Seq<u8>) -> Seq<Row> {
    csv_rows(data, DELIMITER, true, true)
}

/// The row consists of exactly four text fields.
pub open spec fn is_record_row(row: Row) -> bool {
    row matches Some(fields) && fields.len() == 4
}

/// The record that a row of four fields holds.
pub open spec fn record_of(row: Row) -> RecordView {
    let fields = row->0;
    RecordView { tag3: fields[0], tag1: fields[1], name: fields[2], autonym: fields[3] }
}

/// The records that the rows hold, in the order of the rows.
pub open spec fn records_of(rows: Seq<Row>) -> Seq<RecordView> {
    rows.map_values(|row: Row| record_of(row))
}

/// Every row before `n` consists of exactly four text fields.
pub open spec fn well_formed_before(rows: Seq<Row>, n: int) -> bool {
    forall|i: int| 0 <= i < n ==> is_record_row(#[trigger] rows[i])
}

/// The error `e` reports the first row that does not consist of exactly four
/// text fields.
pub open spec fn is_first_malformed(rows: Seq<Row>, e: BuildError) -> bool {
    &&& e == BuildError::MalformedRecord(e.row())
    &&& e.row() < rows.len()
    &&& !is_record_row(rows[e.row() as int])
    &&& well_formed_before(rows, e.row() as int)
}

/// Turns rows into records. Succeeds exactly where every row has four text
/// fields; otherwise reports the first row that has not.
pub fn records_from_rows(rows: &Vec<Option<Vec<String>>>) -> (r: Result<
    Vec<LanguageRecord>,
    BuildError,
>)
    ensures
        match r {
            Ok(records) => {
                &&& well_formed_before(rows.deep_view(), rows.len() as int)
                &&& records.len() == rows.len()
                &&& record_views(records@) == records_of(rows.deep_view())
            },
            Err(e) => is_first_malformed(rows.deep_view(), e),
        },
{
    let ghost all = rows.deep_view();
    let mut records: Vec<LanguageRecord> = Vec::new();
    for i in 0..rows.len()
        invariant
            all == rows.deep_view(),
            well_formed_before(all, i as int),
            records@.len() == i,
            record_views(records@) == records_of(all.subrange(0, i as int)),
    {
        assert(all[i as int] == rows@[i as int].deep_view());
        let malformed = match &rows[i] {
            Some(fields) => fields.len() != 4,
            None => true,
        };
        if malformed {
            return Err(BuildError::MalformedRecord(i));
        }
        match &rows[i] {
            Some(fields) => {
                let record = LanguageRecord {
                    tag3: fields[0].clone(),
                    tag1: fields[1].clone(),
                    name: fields[2].clone(),
                    autonym: fields[3].clone(),
                };
                proof {
                    let texts = fields.deep_view();
                    assert(all[i as int] == Some(texts));
                    assert(texts[0] == fields@[0]@ && texts[1] == fields@[1]@ && texts[2]
                        == fields@[2]@ && texts[3] == fields@[3]@);
                    assert(record@ == record_of(all[i as int]));
                    let before = records_of(all.subrange(0, i as int));
                    let after = records_of(all.subrange(0, i + 1));
                    assert(record_views(records@) == before);
                    let views = record_views(records@.push(record));
                    assert(views.len() == i + 1 && after.len() == i + 1);
                    assert forall|j: int| 0 <= j < i + 1 implies views[j] == after[j] by {
                        if j < i {
                            assert(records@.push(record)[j] == records@[j]);
                            assert(record_views(records@)[j] == before[j]);
                            assert(all.subrange(0, i as int)[j] == all.subrange(0, i + 1)[j]);
                        } else {
                            assert(records@.push(record)[j] == record);
                            assert(all.subrange(0, i + 1)[j] == all[i as int]);
                        }
                    }
                    assert(views =~= after);
                }
                records.push(record);
            },
            None => {},
        }
    }
    assert(all.subrange(0, rows.len() as int) =~= all);
    Ok(records)
}

/// Reads the records of a dataset. Succeeds exactly where every row that the
/// reader finds below the header has four text fields.
pub fn parse_dataset(data: &[u8]) -> (r: Result<Vec<LanguageRecord>, BuildError>)
    ensures
        match r {
            Ok(records) => {
                &&& well_formed_before(dataset_rows(data@), dataset_rows(data@).len() as int)
                &&& records.len() == dataset_rows(data@).len()
                &&& record_views(records@) == records_of(dataset_rows(data@))
            },
            Err(e) => is_first_malformed(dataset_rows(data@), e),
        },
{
    let rows = read_rows(data, DELIMITER, true, true);
    records_from_rows(&rows)
}

} // verus!
