use std::io::Read;
use std::io::Write;
use vstd::prelude::*;
use vstd::string::StringExecFns;

use crate::extract::{BlockRecord, RecordView, SubChunkVolume, column_records, extract_blocks, records_view};
use crate::text::{decimal, decimal_text};

verus! {

/// Bytes that `bincode::serialize` gives for a list of `(i32, i32, i32, String)` records.
pub uninterp spec fn bincode_of(records: Seq<RecordView>) -> Seq<u8>;

/// Bytes of the gzip stream that flate2 writes for `data` at its fast level.
pub uninterp spec fn gzip_fast_of(data: Seq<u8>) -> Seq<u8>;

/// Whether every coordinate of every record fits in `i32`.
pub open spec fn records_fit(s: Seq<RecordView>) -> bool {
    forall|i: int|
        0 <= i < s.len() ==> {
            let r = #[trigger] s[i];
            &&& i32::MIN <= r.0 <= i32::MAX
            &&& i32::MIN <= r.1 <= i32::MAX
            &&& i32::MIN <= r.2 <= i32::MAX
        }
}

/// Relies on `bincode::serialize` on a `Vec<(i32, i32, i32, String)>`; the
/// records are handed over field by field. With no size limit, into a `Vec`,
/// and with only integers and strings to write, it does not fail.
#[verifier::external_body]
fn serialize_records(records: &Vec<BlockRecord>) -> (r: Option<Vec<u8>>)
    ensures
        r is Some,
        r matches Some(b) ==> b@ == bincode_of(records_view(records@)),
{
    let tuples: Vec<(i32, i32, i32, String)> =
        records.iter().map(|b| (b.x, b.y, b.z, b.name.clone())).collect();
    bincode::serialize(&tuples).ok()
}

/// Relies on `bincode::deserialize` into a `Vec<(i32, i32, i32, String)>`:
/// the encoding is lossless, so the bytes that `bincode::serialize` wrote for a
/// record list read back as that list.
#[verifier::external_body]
fn deserialize_records(bytes: &Vec<u8>) -> (r: Option<Vec<BlockRecord>>)
    ensures
        forall|s: Seq<RecordView>|
            records_fit(s) && #[trigger] bincode_of(s) == bytes@ ==> r.is_some() && records_view(r.unwrap()@) == s,
{
    let tuples: Vec<(i32, i32, i32, String)> = bincode::deserialize(bytes.as_slice()).ok()?;
    Some(tuples.into_iter().map(|(x, y, z, name)| BlockRecord { x, y, z, name }).collect())
}

/// Relies on flate2's `GzEncoder` at `Compression::fast()`, written in full and
/// finished. Writing into a `Vec` does not fail, and the stream always holds
/// the gzip header and trailer, so it is never empty.
#[verifier::external_body]
fn gzip_fast(data: &Vec<u8>) -> (r: Option<Vec<u8>>)
    ensures
        r is Some,
        r matches Some(b) ==> b@ == gzip_fast_of(data@) && b@.len() > 0,
{
    let mut encoder = flate2::write::GzEncoder::new(Vec::new(), flate2::Compression::fast());
    encoder.write_all(data.as_slice()).ok()?;
    encoder.finish().ok()
}

/// Relies on flate2's `GzDecoder`: a gzip stream that `GzEncoder` wrote reads
/// back as the bytes it compressed.
#[verifier::external_body]
fn gunzip(data: &Vec<u8>) -> (r: Option<Vec<u8>>)
    ensures
        forall|x: Seq<u8>| #[trigger] gzip_fast_of(x) == data@ ==> r.is_some() && r.unwrap()@ == x,
{
    let mut decoder = flate2::read::GzDecoder::new(data.as_slice());
    let mut out: Vec<u8> = Vec::new();
    decoder.read_to_end(&mut out).ok()?;
    Some(out)
}

/// The binary file body of a record list: its bincode encoding, gzip-compressed.
pub open spec fn binary_image(s: Seq<RecordView>) -> Seq<u8> {
    gzip_fast_of(bincode_of(s))
}

/// Encodes records for the binary output: serialized, then compressed at the
/// fast level.
pub fn encode_binary(records: &Vec<BlockRecord>) -> (r: Vec<u8>)
    ensures
        r@ == binary_image(records_view(records@)),
        r@.len() > 0,
{
    let raw = serialize_records(records).unwrap();
    gzip_fast(&raw).unwrap()
}

/// Reads back a binary output body. Round trip: the body written for any
/// record list decodes to exactly that list, in order.
pub fn decode_binary(bytes: &Vec<u8>) -> (r: Option<Vec<BlockRecord>>)
    ensures
        forall|s: Seq<RecordView>|
            records_fit(s) && #[trigger] binary_image(s) == bytes@ ==> (r matches Some(v) && records_view(v@) == s),
{
    match gunzip(bytes) {
        Some(raw) => deserialize_records(&raw),
        None => None,
    }
}

/// Coordinates held in `BlockRecord`s always fit in `i32`.
pub proof fn lemma_records_fit(records: Seq<BlockRecord>)
    ensures
        records_fit(records_view(records)),
{
}

/// Encodes records as a binary body and reads that body back. Round trip:
/// the body always decodes, and to exactly the same records in the same order.
pub fn binary_round_trip(records: &Vec<BlockRecord>) -> (r: (Vec<u8>, Vec<BlockRecord>))
    ensures
        r.0@ == binary_image(records_view(records@)),
        records_view(r.1@) == records_view(records@),
{
    let bytes = encode_binary(records);
    proof {
        lemma_records_fit(records@);
    }
    let back = decode_binary(&bytes).unwrap();
    (bytes, back)
}

/// The text output line of a record: `x,y,z,"name"` and a newline.
pub open spec fn csv_line(r: RecordView) -> Seq<char> {
    decimal_text(r.0) + seq![','] + decimal_text(r.1) + seq![','] + decimal_text(r.2) + seq![',', '"']
        + r.3 + seq!['"', '\n']
}

/// Renders one record as a text output line.
pub fn record_line(rec: &BlockRecord) -> (r: String)
    ensures
        r@ == csv_line(rec@),
{
    let mut line = decimal(rec.x);
    line.append(",");
    line.append(decimal(rec.y).as_str());
    line.append(",");
    line.append(decimal(rec.z).as_str());
    line.append(",\"");
    line.append(rec.name.as_str());
    line.append("\"\n");
    proof {
        reveal_strlit(",");
        reveal_strlit(",\"");
        reveal_strlit("\"\n");
    }
    assert(line@ =~= csv_line(rec@));
    line
}

/// Renders records as text output lines, one per record, in order.
pub fn csv_lines(records: &Vec<BlockRecord>) -> (r: Vec<String>)
    ensures
        r@.len() == records@.len(),
        forall|i: int| 0 <= i < r@.len() ==> #[trigger] r@[i]@ == csv_line(records@[i]@),
{
    let mut out: Vec<String> = Vec::new();
    let mut i: usize = 0;
    while i < records.len()
        invariant
            i <= records@.len(),
            out@.len() == i,
            forall|j: int| 0 <= j < i ==> #[trigger] out@[j]@ == csv_line(records@[j]@),
        decreases records@.len() - i,
    {
        out.push(record_line(&records[i]));
        i = i + 1;
    }
    out
}

/// The two output serializations.
#[derive(Clone, Copy, Debug, PartialEq, Eq, Structural)]
pub enum OutputFormat {
    /// One `x,y,z,"name"` line per record under `./csvs/`.
    Text,
    /// The gzip-compressed bincode record list under `./chunk_binary_data/`.
    Binary,
}

/// Directory that holds the output files of a format.
pub open spec fn output_dir(format: OutputFormat) -> Seq<char> {
    match format {
        OutputFormat::Text => seq!['.', '/', 'c', 's', 'v', 's'],
        OutputFormat::Binary => seq![
            '.', '/', 'c', 'h', 'u', 'n', 'k', '_', 'b', 'i', 'n', 'a', 'r', 'y', '_', 'd', 'a', 't', 'a',
        ],
    }
}

/// File extension of the output files of a format, with its dot.
pub open spec fn output_extension(format: OutputFormat) -> Seq<char> {
    match format {
        OutputFormat::Text => seq!['.', 'c', 's', 'v'],
        OutputFormat::Binary => seq!['.', 'm', 'm', 'b', 'f'],
    }
}

/// Path of a column's output file: named by the world x and z of the
/// column's first record (not by the column's own coordinates).
pub open spec fn output_path(format: OutputFormat, first: RecordView) -> Seq<char> {
    output_dir(format) + seq!['/'] + decimal_text(first.0) + seq!['_'] + decimal_text(first.2)
        + output_extension(format)
}

/// The directory of a format's output files.
pub fn output_directory(format: OutputFormat) -> (r: String)
    ensures
        r@ == output_dir(format),
{
    let r = match format {
        OutputFormat::Text => String::from_str("./csvs"),
        OutputFormat::Binary => String::from_str("./chunk_binary_data"),
    };
    proof {
        reveal_strlit("./csvs");
        reveal_strlit("./chunk_binary_data");
    }
    assert(r@ =~= output_dir(format));
    r
}

/// The output path for a column whose first record is `first`.
pub fn output_file_path(format: OutputFormat, first: &BlockRecord) -> (r: String)
    ensures
        r@ == output_path(format, first@),
{
    let mut path = output_directory(format);
    path.append("/");
    path.append(decimal(first.x).as_str());
    path.append("_");
    path.append(decimal(first.z).as_str());
    match format {
        OutputFormat::Text => path.append(".csv"),
        OutputFormat::Binary => path.append(".mmbf"),
    }
    proof {
        reveal_strlit("/");
        reveal_strlit("_");
        reveal_strlit(".csv");
        reveal_strlit(".mmbf");
    }
    assert(path@ =~= output_path(format, first@));
    path
}

/// What is written to an output file.
pub enum OutputBody {
    /// Text lines, written one after another.
    Lines(Vec<String>),
    /// Bytes, written in one pass.
    Bytes(Vec<u8>),
}

/// One output file: where it goes and what it holds.
pub struct OutputFile {
    pub path: String,
    pub body: OutputBody,
}

/// Prepares the output file of one column's records. No records: no file.
/// Otherwise exactly one file, named by the first record's world x and z;
/// as text it holds one line per record, in binary the compressed encoding
/// of the whole list.
pub fn export_records(records: &Vec<BlockRecord>, format: OutputFormat) -> (r: Option<OutputFile>)
    ensures
        records@.len() == 0 <==> r is None,
        r matches Some(f) ==> f.path@ == output_path(format, records@[0]@),
        r matches Some(f) ==> (format == OutputFormat::Text ==> (f.body matches OutputBody::Lines(ls)
            && ls@.len() == records@.len()
            && forall|i: int| 0 <= i < ls@.len() ==> #[trigger] ls@[i]@ == csv_line(records@[i]@))),
        r matches Some(f) ==> (format == OutputFormat::Binary ==> (f.body matches OutputBody::Bytes(b)
            && b@ == binary_image(records_view(records@)) && b@.len() > 0)),
{
    if records.len() == 0 {
        return None;
    }
    let path = output_file_path(format, &records[0]);
    let body = match format {
        OutputFormat::Text => OutputBody::Lines(csv_lines(records)),
        OutputFormat::Binary => OutputBody::Bytes(encode_binary(records)),
    };
    Some(OutputFile { path, body })
}

/// Extracts one column's records from its fetched volumes and prepares its
/// output file: none when the column holds no non-air block, else exactly one,
/// named by the first extracted record's world x and z.
pub fn export_column(volumes: &Vec<SubChunkVolume>, format: OutputFormat) -> (r: Option<OutputFile>)
    requires
        forall|k: int| 0 <= k < volumes@.len() ==> (#[trigger] volumes@[k]).wf(),
    ensures
        column_records(volumes@).len() == 0 <==> r is None,
        r matches Some(f) ==> f.path@ == output_path(format, column_records(volumes@)[0]),
        r matches Some(f) ==> (format == OutputFormat::Text ==> (f.body matches OutputBody::Lines(ls)
            && ls@.len() == column_records(volumes@).len()
            && forall|i: int| 0 <= i < ls@.len() ==> #[trigger] ls@[i]@ == csv_line(column_records(volumes@)[i]))),
        r matches Some(f) ==> (format == OutputFormat::Binary ==> (f.body matches OutputBody::Bytes(b)
            && b@ == binary_image(column_records(volumes@)) && b@.len() > 0)),
{
    let records = extract_blocks(volumes);
    let r = export_records(&records, format);
    assert(records_view(records@).len() == records@.len());
    assert(forall|i: int| 0 <= i < records@.len() ==> #[trigger] records_view(records@)[i] == records@[i]@);
    r
}

/// Whether a written output file is kept: an empty file is removed.
pub fn keep_written_file(len: u64) -> (r: bool)
    ensures
        r == (len > 0),
{
    len > 0
}

} // verus!
