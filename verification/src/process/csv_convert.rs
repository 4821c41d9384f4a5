//! Converting a CSV table to JSON, YAML or TOML: each record becomes an
//! object that maps the field names of the header row to its fields.
use crate::cli::csv::OutputFormat;
use vstd::prelude::*;

verus! {

/// The error of the `csv` crate's reader.
#[verifier::external_type_specification]
#[verifier::external_body]
pub struct ExCsvError(csv::Error);

/// The error of `serde_json`.
#[verifier::external_type_specification]
#[verifier::external_body]
pub struct ExJsonError(serde_json::Error);

/// The error of `serde_yaml`.
#[verifier::external_type_specification]
#[verifier::external_body]
pub struct ExYamlError(serde_yaml::Error);

/// The error of the `toml` crate's serializer.
#[verifier::external_type_specification]
#[verifier::external_body]
pub struct ExTomlError(toml::ser::Error);

/// Why a table was not converted.
#[derive(Clone, Copy, Debug, PartialEq, Eq, Structural)]
pub enum ConvertError {
    /// The input is not a CSV table that the reader takes.
    InvalidCsv,
    /// The records cannot be written in the format asked for.
    Unwritable,
}

impl ConvertError {
    /// What the error says to the user.
    pub open spec fn text(self) -> Seq<char> {
        match self {
            ConvertError::InvalidCsv => "Invalid CSV input"@,
            ConvertError::Unwritable => "Records cannot be written in this format"@,
        }
    }

    /// The error as a message for the user.
    pub fn message(&self) -> (text: &'static str)
        ensures
            text@ == self.text(),
    {
        match self {
            ConvertError::InvalidCsv => "Invalid CSV input",
            ConvertError::Unwritable => "Records cannot be written in this format",
        }
    }
}

/// The fields of the header row that `csv::Reader::headers` reads from
/// CSV data, with the reader's default settings; `None` where it reports
/// an error.
pub uninterp spec fn csv_header_row(data: Seq<u8>) -> Option<Seq<Seq<char>>>;

/// The records after the header row that `csv::Reader::records` reads
/// from CSV data, with the reader's default settings; `None` where any
/// record is an error.
pub uninterp spec fn csv_record_rows(data: Seq<u8>) -> Option<Seq<Seq<Seq<char>>>>;

/// The text that `serde_json::to_string_pretty` writes for an array of
/// objects, each object collected from pairs of a name and a text.
pub uninterp spec fn json_pretty(objects: Seq<Seq<(Seq<char>, Seq<char>)>>) -> Option<Seq<char>>;

/// The text that `serde_yaml::to_string` writes for the same array.
pub uninterp spec fn yaml_document(objects: Seq<Seq<(Seq<char>, Seq<char>)>>) -> Option<Seq<char>>;

/// The text that `toml::to_string` writes for one such object, if there
/// is one; `None` where it reports an error.
pub uninterp spec fn toml_document(object: Option<Seq<(Seq<char>, Seq<char>)>>) -> Option<Seq<char>>;

/// `csv::Reader::headers` on a reader over the data, each field as a
/// `String`.
#[verifier::external_body]
fn csv_headers(data: &[u8]) -> (row: Result<Vec<String>, csv::Error>)
    ensures
        match row {
            Ok(fields) => csv_header_row(data@) == Some(fields.deep_view()),
            Err(_) => csv_header_row(data@) is None,
        },
{
    let mut reader = csv::Reader::from_reader(data);
    Ok(reader.headers()?.iter().map(String::from).collect())
}

/// `csv::Reader::records` on a reader over the data, each field as a
/// `String`; the first record that is an error is returned.
#[verifier::external_body]
fn csv_records(data: &[u8]) -> (rows: Result<Vec<Vec<String>>, csv::Error>)
    ensures
        match rows {
            Ok(records) => csv_record_rows(data@) == Some(records.deep_view()),
            Err(_) => csv_record_rows(data@) is None,
        },
{
    let mut reader = csv::Reader::from_reader(data);
    reader.records().map(|record| Ok(record?.iter().map(String::from).collect())).collect()
}

/// `serde_json::to_string_pretty` on the objects, each collected into a
/// `serde_json::Value` from its pairs.
#[verifier::external_body]
fn to_json(objects: &Vec<Vec<(String, String)>>) -> (text: Result<String, serde_json::Error>)
    ensures
        match text {
            Ok(written) => json_pretty(objects.deep_view()) == Some(written@),
            Err(_) => json_pretty(objects.deep_view()) is None,
        },
{
    let values: Vec<serde_json::Value> =
        objects.iter().map(|object| object.iter().cloned().collect()).collect();
    serde_json::to_string_pretty(&values)
}

/// `serde_yaml::to_string` on the objects, each collected into a
/// `serde_json::Value` from its pairs.
#[verifier::external_body]
fn to_yaml(objects: &Vec<Vec<(String, String)>>) -> (text: Result<String, serde_yaml::Error>)
    ensures
        match text {
            Ok(written) => yaml_document(objects.deep_view()) == Some(written@),
            Err(_) => yaml_document(objects.deep_view()) is None,
        },
{
    let values: Vec<serde_json::Value> =
        objects.iter().map(|object| object.iter().cloned().collect()).collect();
    serde_yaml::to_string(&values)
}

/// `toml::to_string` on the object, collected into a `serde_json::Value`
/// from its pairs, or on no object.
#[verifier::external_body]
fn to_toml(object: Option<&Vec<(String, String)>>) -> (text: Result<String, toml::ser::Error>)
    ensures
        match text {
            Ok(written) => toml_document(object.deep_view()) == Some(written@),
            Err(_) => toml_document(object.deep_view()) is None,
        },
{
    let value: Option<serde_json::Value> = object.map(|pairs| pairs.iter().cloned().collect());
    toml::to_string(&value)
}

/// The smaller of two lengths.
pub open spec fn shorter(a: nat, b: nat) -> nat {
    if a <= b {
        a
    } else {
        b
    }
}

/// A record as an object: each field under the name at the same place of
/// the header row, as far as both go.
pub open spec fn zipped(headers: Seq<Seq<char>>, record: Seq<Seq<char>>) -> Seq<
    (Seq<char>, Seq<char>),
> {
    Seq::new(shorter(headers.len(), record.len()), |i: int| (headers[i], record[i]))
}

/// The records as objects, in their order.
pub open spec fn objects_of(headers: Seq<Seq<char>>, records: Seq<Seq<Seq<char>>>) -> Seq<
    Seq<(Seq<char>, Seq<char>)>,
> {
    Seq::new(records.len(), |i: int| zipped(headers, records[i]))
}

/// Pairs the fields of a record with the names of the header row.
pub fn zip_fields(headers: &Vec<String>, record: &Vec<String>) -> (object: Vec<(String, String)>)
    ensures
        object.deep_view() == zipped(headers.deep_view(), record.deep_view()),
{
    let n = if headers.len() <= record.len() {
        headers.len()
    } else {
        record.len()
    };
    let mut object: Vec<(String, String)> = Vec::new();
    let mut i: usize = 0;
    while i < n
        invariant
            n == shorter(headers@.len(), record@.len()),
            i <= n,
            object@.len() == i,
            forall|j: int| 0 <= j < i ==> object@[j].0@ == headers@[j]@ && object@[j].1@ == record@[j]@,
        decreases n - i,
    {
        object.push((headers[i].clone(), record[i].clone()));
        i += 1;
    }
    proof {
        let got = object.deep_view();
        let want = zipped(headers.deep_view(), record.deep_view());
        assert(got.len() == want.len());
        assert forall|j: int| 0 <= j < got.len() implies got[j] == want[j] by {
            assert(got[j] == object@[j].deep_view());
            assert(headers.deep_view()[j] == headers@[j]@);
            assert(record.deep_view()[j] == record@[j]@);
        }
        assert(got =~= want);
    }
    object
}

/// What writing the objects in a format yields: all of them as JSON or
/// YAML, the first alone as TOML.
pub open spec fn written(objects: Seq<Seq<(Seq<char>, Seq<char>)>>, format: OutputFormat) -> Option<
    Seq<char>,
> {
    match format {
        OutputFormat::Json => json_pretty(objects),
        OutputFormat::Yaml => yaml_document(objects),
        OutputFormat::Toml => toml_document(
            if objects.len() > 0 {
                Some(objects[0])
            } else {
                None
            },
        ),
    }
}

/// Writes the objects in a format.
pub fn write_objects(objects: &Vec<Vec<(String, String)>>, format: OutputFormat) -> (text: Result<
    String,
    ConvertError,
>)
    ensures
        match text {
            Ok(content) => written(objects.deep_view(), format) == Some(content@),
            Err(e) => written(objects.deep_view(), format) is None && e == ConvertError::Unwritable,
        },
{
    match format {
        OutputFormat::Json => match to_json(objects) {
            Ok(content) => Ok(content),
            Err(_) => Err(ConvertError::Unwritable),
        },
        OutputFormat::Yaml => match to_yaml(objects) {
            Ok(content) => Ok(content),
            Err(_) => Err(ConvertError::Unwritable),
        },
        OutputFormat::Toml => {
            let first = if objects.len() > 0 {
                Some(&objects[0])
            } else {
                None
            };
            match to_toml(first) {
                Ok(content) => Ok(content),
                Err(_) => Err(ConvertError::Unwritable),
            }
        },
    }
}

/// What converting CSV data to a format yields: the header row is read,
/// then the records, each record becomes an object, and the objects are
/// written in the format.
pub open spec fn converted(data: Seq<u8>, format: OutputFormat) -> Result<Seq<char>, ConvertError> {
    match (csv_header_row(data), csv_record_rows(data)) {
        (Some(headers), Some(records)) => match written(objects_of(headers, records), format) {
            Some(content) => Ok(content),
            None => Err(ConvertError::Unwritable),
        },
        _ => Err(ConvertError::InvalidCsv),
    }
}

/// Converts the CSV table in `data` to text in the given format.
pub fn process_csv(data: &[u8], format: OutputFormat) -> (content: Result<String, ConvertError>)
    ensures
        match content {
            Ok(text) => converted(data@, format) == Ok::<Seq<char>, ConvertError>(text@),
            Err(e) => converted(data@, format) == Err::<Seq<char>, ConvertError>(e),
        },
{
    let headers = match csv_headers(data) {
        Ok(headers) => headers,
        Err(_) => return Err(ConvertError::InvalidCsv),
    };
    let records = match csv_records(data) {
        Ok(records) => records,
        Err(_) => return Err(ConvertError::InvalidCsv),
    };
    let mut objects: Vec<Vec<(String, String)>> = Vec::new();
    let mut i: usize = 0;
    while i < records.len()
        invariant
            i <= records@.len(),
            objects@.len() == i,
            forall|j: int|
                0 <= j < i ==> #[trigger] objects@[j].deep_view() == zipped(
                    headers.deep_view(),
                    records@[j].deep_view(),
                ),
        decreases records@.len() - i,
    {
        objects.push(zip_fields(&headers, &records[i]));
        i += 1;
    }
    proof {
        let got = objects.deep_view();
        let want = objects_of(headers.deep_view(), records.deep_view());
        assert forall|j: int| 0 <= j < got.len() implies got[j] == want[j] by {
            assert(got[j] == objects@[j].deep_view());
            assert(records.deep_view()[j] == records@[j].deep_view());
        }
        assert(got =~= want);
    }
    write_objects(&objects, format)
}

} // verus!
