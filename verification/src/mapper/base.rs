//! The record schema: one dataset row, its validated identifier fields, the
//! raw rows the tab-separated decoder hands over, and the policy-gated scan
//! that turns raw rows into records.

use std::str::FromStr;
use vstd::prelude::*;
use vstd::string::StrSliceExecFns;
use vstd::utf8::is_ascii_chars;

use crate::mapper::index::{multi_map_model, one_map_model};
use crate::mapper::index::{
    spec_gene_to_diseases, spec_gene_to_hpo, spec_hpo_name_to_ncbi_ids, spec_hpo_to_genes,
    spec_ncbi_to_symbol,
};
use vstd::hash_map::StringHashMap;
use vstd::hash_set::StringHashSet;

verus! {

/// Longest identifier text, counted in characters, that is handed to the
/// identifier parser. The full validation boundary is stated at
/// `parse_term_id`: only ASCII texts of at most this many characters reach
/// the parser; everything outside is an invalid identifier.
pub const TERM_TEXT_MAX: usize = 255;

/// A validated ontology term identifier, held in its canonical
/// `PREFIX:LOCALID` text form. Values only come from `parse_term_id`, which
/// delegates the ontology-identifier grammar to the `ontolius` crate.
#[derive(Debug)]
pub struct TermId {
    canonical: String,
}

impl View for TermId {
    type V = Seq<char>;

    closed spec fn view(&self) -> Seq<char> {
        self.canonical@
    }
}

impl Clone for TermId {
    fn clone(&self) -> (r: Self)
        ensures
            r@ == self@,
    {
        TermId { canonical: self.canonical.clone() }
    }
}

impl TermId {
    /// The canonical text of the identifier.
    pub fn as_str(&self) -> (r: &str)
        ensures
            r@ == self@,
    {
        self.canonical.as_str()
    }

    /// The canonical text of the identifier, as an owned string.
    pub fn into_text(self) -> (r: String)
        ensures
            r@ == self@,
    {
        self.canonical
    }
}

/// The canonical form that the ontology-identifier grammar assigns to a text,
/// or `None` where the text is not a valid identifier.
pub uninterp spec fn term_parse(s: Seq<char>) -> Option<Seq<char>>;

/// Relies on `ontolius::TermId::from_str`, which accepts or rejects an
/// identifier text by the CURIE grammar, and on its `Display`, which writes
/// the canonical `PREFIX:LOCALID` text; the outcome depends on the text
/// alone. The `requires` states the library's whole validation boundary in
/// one place: only ASCII texts of at most `TERM_TEXT_MAX` characters are
/// handed over, because ontolius does not return on some texts outside it —
/// an over-255-character component trips its conversion, and a non-ASCII
/// prefix trips its canonical writer, which slices the stored text at a
/// character count taken as a byte index. `parse_row` screens both bounds
/// and treats what falls outside as an invalid identifier.
#[verifier::external_body]
fn parse_term_id(s: &str) -> (r: Option<TermId>)
    requires
        s@.len() <= TERM_TEXT_MAX,
        is_ascii_chars(s@),
    ensures
        (match r {
            Some(t) => term_parse(s@) == Some(t@),
            None => term_parse(s@) is None,
        }),
{
    match ontolius::TermId::from_str(s) {
        Ok(t) => Some(TermId { canonical: t.to_string() }),
        Err(_) => None,
    }
}

/// One dataset row: a phenotype term and its name, a gene, and a disease.
#[derive(Debug)]
pub struct PhenotypeRecord {
    pub hpo_id: TermId,
    pub hpo_name: String,
    pub ncbi_gene_id: String,
    pub gene_symbol: String,
    pub disease_id: TermId,
}

/// The mathematical content of one record: each field as a character sequence,
/// the identifier fields in canonical form.
pub struct RecordModel {
    pub hpo_id: Seq<char>,
    pub hpo_name: Seq<char>,
    pub ncbi_gene_id: Seq<char>,
    pub gene_symbol: Seq<char>,
    pub disease_id: Seq<char>,
}

impl View for PhenotypeRecord {
    type V = RecordModel;

    open spec fn view(&self) -> RecordModel {
        RecordModel {
            hpo_id: self.hpo_id@,
            hpo_name: self.hpo_name@,
            ncbi_gene_id: self.ncbi_gene_id@,
            gene_symbol: self.gene_symbol@,
            disease_id: self.disease_id@,
        }
    }
}

/// The records of a sequence, each as its model.
pub open spec fn records_model(records: Seq<PhenotypeRecord>) -> Seq<RecordModel> {
    records.map_values(|r: PhenotypeRecord| r@)
}

/// The record fields that hold plain text.
#[derive(Debug, Clone, Copy)]
pub enum StringField {
    HpoName,
    NcbiGeneId,
    GeneSymbol,
}

/// The record fields that hold a term identifier.
#[derive(Debug, Clone, Copy)]
pub enum TermIdField {
    HpoId,
    DiseaseId,
}

/// The text a record holds in the given plain-text field.
pub open spec fn spec_string_field(r: RecordModel, field: StringField) -> Seq<char> {
    match field {
        StringField::HpoName => r.hpo_name,
        StringField::NcbiGeneId => r.ncbi_gene_id,
        StringField::GeneSymbol => r.gene_symbol,
    }
}

/// The canonical identifier text a record holds in the given identifier field.
pub open spec fn spec_termid_field(r: RecordModel, field: TermIdField) -> Seq<char> {
    match field {
        TermIdField::HpoId => r.hpo_id,
        TermIdField::DiseaseId => r.disease_id,
    }
}

/// One raw line of the source as the tab-separated decoder hands it over:
/// either its fields, or the decoder's message for a line it could not read.
pub enum RawRow {
    Fields(Vec<String>),
    Unreadable(String),
}

/// A raw row's mathematical content: its fields, or `None` for a row the
/// decoder could not read.
pub type RowModel = Option<Seq<Seq<char>>>;

impl View for RawRow {
    type V = RowModel;

    open spec fn view(&self) -> RowModel {
        match self {
            RawRow::Fields(fields) => Some(fields@.map_values(|s: String| s@)),
            RawRow::Unreadable(_) => None,
        }
    }
}

/// The rows of a sequence, each as its model.
pub open spec fn rows_model(rows: Seq<RawRow>) -> Seq<RowModel> {
    rows.map_values(|r: RawRow| r@)
}

/// How a scan treats a row that fails to decode or to validate: `Strict`
/// fails the whole scan with the first such row, `Lenient` leaves the row out
/// and goes on.
#[derive(Debug, Clone, Copy, PartialEq, Eq, Structural)]
pub enum RowPolicy {
    Strict,
    Lenient,
}

/// Why a scan failed.
#[derive(Debug, Clone, PartialEq, Eq)]
pub enum MapError {
    /// The source could not be opened; the message is the reader's.
    SourceUnavailable(String),
    /// The data row at this position, counting from zero, did not decode into
    /// five columns. Raised only under the strict policy.
    MalformedRow(usize),
    /// The data row at this position decoded into five columns, but an
    /// identifier column failed validation. Raised only under the strict
    /// policy.
    InvalidIdentifier(usize),
}

/// The record a raw row's fields describe, or `None` where the row does not
/// have exactly five columns or an identifier column fails validation. An
/// identifier text longer than `TERM_TEXT_MAX` characters, or one holding a
/// non-ASCII character, lies outside the validation boundary (see
/// `parse_term_id`) and makes the row invalid.
pub open spec fn spec_parse_record(fields: Seq<Seq<char>>) -> Option<RecordModel> {
    if fields.len() == 5 && fields[0].len() <= TERM_TEXT_MAX && is_ascii_chars(fields[0])
        && fields[4].len() <= TERM_TEXT_MAX && is_ascii_chars(fields[4]) {
        match (term_parse(fields[0]), term_parse(fields[4])) {
            (Some(hpo), Some(disease)) => Some(
                RecordModel {
                    hpo_id: hpo,
                    hpo_name: fields[1],
                    ncbi_gene_id: fields[2],
                    gene_symbol: fields[3],
                    disease_id: disease,
                },
            ),
            _ => None,
        }
    } else {
        None
    }
}

/// Whether a raw row decodes and validates into a record.
pub open spec fn spec_row_good(row: RowModel) -> bool {
    match row {
        Some(fields) => spec_parse_record(fields) is Some,
        None => false,
    }
}

/// The error a bad row at the given position raises under the strict policy.
pub open spec fn spec_row_error(row: RowModel, at: int) -> MapError {
    match row {
        None => MapError::MalformedRow(at as usize),
        Some(fields) => if fields.len() != 5 {
            MapError::MalformedRow(at as usize)
        } else {
            MapError::InvalidIdentifier(at as usize)
        },
    }
}

/// The records of the rows that decode and validate, in source order.
pub open spec fn spec_lenient_records(rows: Seq<RowModel>) -> Seq<RecordModel>
    decreases rows.len(),
{
    if rows.len() == 0 {
        Seq::empty()
    } else {
        let front = spec_lenient_records(rows.drop_last());
        match rows.last() {
            Some(fields) => match spec_parse_record(fields) {
                Some(record) => front.push(record),
                None => front,
            },
            None => front,
        }
    }
}

/// Whether every row decodes and validates.
pub open spec fn spec_all_rows_good(rows: Seq<RowModel>) -> bool {
    forall|i: int| 0 <= i < rows.len() ==> spec_row_good(#[trigger] rows[i])
}

/// The position of the first bad row at or after `i`, or the length where
/// there is none.
pub open spec fn spec_first_bad_from(rows: Seq<RowModel>, i: int) -> int
    decreases rows.len() - i,
{
    if i < 0 || i >= rows.len() {
        rows.len() as int
    } else if !spec_row_good(rows[i]) {
        i
    } else {
        spec_first_bad_from(rows, i + 1)
    }
}

/// The position of the first bad row, or the length where every row is good.
pub open spec fn spec_first_bad(rows: Seq<RowModel>) -> int {
    spec_first_bad_from(rows, 0)
}

/// What a scan of the given rows yields under the given policy: under
/// `Lenient` the records of the good rows; under `Strict` the same, unless
/// some row is bad, in which case the first bad row's error.
pub open spec fn spec_parse_rows(rows: Seq<RowModel>, policy: RowPolicy) -> Result<
    Seq<RecordModel>,
    MapError,
> {
    match policy {
        RowPolicy::Lenient => Ok(spec_lenient_records(rows)),
        RowPolicy::Strict => if spec_all_rows_good(rows) {
            Ok(spec_lenient_records(rows))
        } else {
            Err(spec_row_error(rows[spec_first_bad(rows)], spec_first_bad(rows)))
        },
    }
}

/// Where the rows before `i` are good and row `i` is bad, `i` is the first
/// bad position.
pub proof fn lemma_first_bad_at(rows: Seq<RowModel>, i: int, j: int)
    requires
        0 <= j <= i < rows.len(),
        !spec_row_good(rows[i]),
        forall|k: int| j <= k < i ==> spec_row_good(#[trigger] rows[k]),
    ensures
        spec_first_bad_from(rows, j) == i,
    decreases i - j,
{
    if j < i {
        lemma_first_bad_at(rows, i, j + 1);
    }
}

/// Parse one raw row into a record: the row must hold exactly five columns
/// and both identifier columns must validate.
pub fn parse_row(row: &RawRow) -> (r: Option<PhenotypeRecord>)
    ensures
        r matches Some(record) ==> (row@ matches Some(fields) && spec_parse_record(fields)
            == Some(record@)),
        r is None ==> !spec_row_good(row@),
{
    match row {
        RawRow::Unreadable(_) => None,
        RawRow::Fields(fields) => {
            if fields.len() != 5 {
                return None;
            }
            if fields[0].as_str().unicode_len() > TERM_TEXT_MAX {
                return None;
            }
            if !fields[0].as_str().is_ascii() {
                return None;
            }
            if fields[4].as_str().unicode_len() > TERM_TEXT_MAX {
                return None;
            }
            if !fields[4].as_str().is_ascii() {
                return None;
            }
            let hpo = parse_term_id(fields[0].as_str());
            let disease = parse_term_id(fields[4].as_str());
            match (hpo, disease) {
                (Some(hpo_id), Some(disease_id)) => Some(
                    PhenotypeRecord {
                        hpo_id,
                        hpo_name: fields[1].clone(),
                        ncbi_gene_id: fields[2].clone(),
                        gene_symbol: fields[3].clone(),
                        disease_id,
                    },
                ),
                _ => None,
            }
        },
    }
}

/// Decode raw rows into records under the given policy. Under `Strict` the
/// first row that fails to decode or to validate fails the whole scan with
/// `MalformedRow` or `InvalidIdentifier`; under `Lenient` such rows are left
/// out and every scan succeeds.
pub fn parse_rows(rows: &Vec<RawRow>, policy: RowPolicy) -> (r: Result<
    Vec<PhenotypeRecord>,
    MapError,
>)
    ensures
        r matches Ok(records) ==> (spec_parse_rows(rows_model(rows@), policy) matches Ok(m) && m
            =~= records_model(records@)),
        r matches Err(e) ==> spec_parse_rows(rows_model(rows@), policy) == Err::<
            Seq<RecordModel>,
            MapError,
        >(e),
{
    let is_strict = policy == RowPolicy::Strict;
    let mut records: Vec<PhenotypeRecord> = Vec::new();
    let mut i: usize = 0;
    while i < rows.len()
        invariant
            i <= rows@.len(),
            is_strict == (policy == RowPolicy::Strict),
            is_strict ==> (forall|j: int|
                0 <= j < i ==> spec_row_good(#[trigger] rows_model(rows@)[j])),
            records_model(records@) =~= spec_lenient_records(rows_model(rows@).take(i as int)),
        decreases rows@.len() - i,
    {
        let ghost models = rows_model(rows@);
        let row = &rows[i];
        proof {
            assert(models[i as int] == row@);
        }
        match parse_row(row) {
            Some(record) => {
                records.push(record);
                proof {
                    assert(models.take(i + 1 as int).drop_last() =~= models.take(i as int));
                    assert(records_model(records@) =~= spec_lenient_records(
                        models.take(i + 1 as int),
                    ));
                }
            },
            None => {
                if is_strict {
                    let e = match row {
                        RawRow::Unreadable(_) => MapError::MalformedRow(i),
                        RawRow::Fields(fields) => if fields.len() != 5 {
                            MapError::MalformedRow(i)
                        } else {
                            MapError::InvalidIdentifier(i)
                        },
                    };
                    proof {
                        assert(!spec_row_good(models[i as int]));
                        lemma_first_bad_at(models, i as int, 0);
                        assert(e == spec_row_error(models[i as int], i as int));
                    }
                    return Err(e);
                }
                proof {
                    assert(models.take(i + 1 as int).drop_last() =~= models.take(i as int));
                }
            },
        }
        i += 1;
    }
    proof {
        assert(rows_model(rows@).take(rows@.len() as int) =~= rows_model(rows@));
    }
    Ok(records)
}

/// Relies on `csv::ReaderBuilder` and `csv::Reader`: opens the tab-separated
/// source at `path`, skips the single header line, and yields one `RawRow`
/// per data line — its decoded fields, or the decoder's message where the
/// line could not be read. A source that cannot be opened comes back as
/// `SourceUnavailable`.
#[verifier::external_body]
pub(crate) fn read_raw_rows(path: &str) -> (r: Result<Vec<RawRow>, MapError>)
    ensures
        r matches Err(e) ==> e matches MapError::SourceUnavailable(_),
{
    let reader = match csv::ReaderBuilder::new().delimiter(b'\t').flexible(true).from_path(path) {
        Ok(reader) => reader,
        Err(e) => return Err(MapError::SourceUnavailable(e.to_string())),
    };
    let mut rows = Vec::new();
    for record in reader.into_records() {
        rows.push(match record {
            Ok(fields) => RawRow::Fields(fields.iter().map(|f| f.to_string()).collect()),
            Err(e) => RawRow::Unreadable(e.to_string()),
        });
    }
    Ok(rows)
}

/// The uniform capability the two indexing strategies share: five derived
/// lookup indices over the dataset, each built afresh per call.
pub trait GenePhenotypeMapping {
    /// The record sequence this mapper serves from, where the mapper's own
    /// state determines it; `None` for a mapper that re-reads its source on
    /// every query.
    spec fn resident_records(&self) -> Option<Seq<RecordModel>>;

    /// The row policy a query's fresh scan of the source runs under, for a
    /// mapper that re-reads its source; `None` for a mapper that serves
    /// resident records and never scans afresh. A failed query reports the
    /// source as unavailable or a row-scan failure under this policy.
    spec fn scan_policy(&self) -> Option<RowPolicy>;

    /// Map gene symbol to the set of phenotype term identifiers.
    fn gene_to_hpo(&self) -> (r: Result<StringHashMap<StringHashSet>, MapError>)
        ensures
            self.resident_records() matches Some(records) ==> (r matches Ok(idx) && multi_map_model(
                idx@,
            ) == spec_gene_to_hpo(records)),
            r matches Ok(idx) ==> exists|records: Seq<RecordModel>|
                multi_map_model(idx@) == #[trigger] spec_gene_to_hpo(records),
            r matches Err(e) ==> (self.resident_records() is None && (e matches MapError::SourceUnavailable(_) || (self.scan_policy() matches Some(policy) && exists|rows: Seq<RowModel>|
                #[trigger] spec_parse_rows(rows, policy) == Err::<Seq<RecordModel>, MapError>(
                    e,
                )))),
            r matches Ok(idx) ==> (self.scan_policy() matches Some(policy) ==> exists|
                rows: Seq<RowModel>,
            |
                #[trigger] spec_parse_rows(rows, policy) matches Ok(records) && multi_map_model(idx@)
                    == spec_gene_to_hpo(records)),
    ;

    /// Map phenotype term identifier to the set of gene symbols.
    fn hpo_to_genes(&self) -> (r: Result<StringHashMap<StringHashSet>, MapError>)
        ensures
            self.resident_records() matches Some(records) ==> (r matches Ok(idx) && multi_map_model(
                idx@,
            ) == spec_hpo_to_genes(records)),
            r matches Ok(idx) ==> exists|records: Seq<RecordModel>|
                multi_map_model(idx@) == #[trigger] spec_hpo_to_genes(records),
            r matches Err(e) ==> (self.resident_records() is None && (e matches MapError::SourceUnavailable(_) || (self.scan_policy() matches Some(policy) && exists|rows: Seq<RowModel>|
                #[trigger] spec_parse_rows(rows, policy) == Err::<Seq<RecordModel>, MapError>(
                    e,
                )))),
            r matches Ok(idx) ==> (self.scan_policy() matches Some(policy) ==> exists|
                rows: Seq<RowModel>,
            |
                #[trigger] spec_parse_rows(rows, policy) matches Ok(records) && multi_map_model(idx@)
                    == spec_hpo_to_genes(records)),
    ;

    /// Map gene symbol to the set of disease identifiers.
    fn gene_to_diseases(&self) -> (r: Result<StringHashMap<StringHashSet>, MapError>)
        ensures
            self.resident_records() matches Some(records) ==> (r matches Ok(idx) && multi_map_model(
                idx@,
            ) == spec_gene_to_diseases(records)),
            r matches Ok(idx) ==> exists|records: Seq<RecordModel>|
                multi_map_model(idx@) == #[trigger] spec_gene_to_diseases(records),
            r matches Err(e) ==> (self.resident_records() is None && (e matches MapError::SourceUnavailable(_) || (self.scan_policy() matches Some(policy) && exists|rows: Seq<RowModel>|
                #[trigger] spec_parse_rows(rows, policy) == Err::<Seq<RecordModel>, MapError>(
                    e,
                )))),
            r matches Ok(idx) ==> (self.scan_policy() matches Some(policy) ==> exists|
                rows: Seq<RowModel>,
            |
                #[trigger] spec_parse_rows(rows, policy) matches Ok(records) && multi_map_model(idx@)
                    == spec_gene_to_diseases(records)),
    ;

    /// Map phenotype name to the set of NCBI gene ids.
    fn hpo_name_to_ncbi_ids(&self) -> (r: Result<StringHashMap<StringHashSet>, MapError>)
        ensures
            self.resident_records() matches Some(records) ==> (r matches Ok(idx) && multi_map_model(
                idx@,
            ) == spec_hpo_name_to_ncbi_ids(records)),
            r matches Ok(idx) ==> exists|records: Seq<RecordModel>|
                multi_map_model(idx@) == #[trigger] spec_hpo_name_to_ncbi_ids(records),
            r matches Err(e) ==> (self.resident_records() is None && (e matches MapError::SourceUnavailable(_) || (self.scan_policy() matches Some(policy) && exists|rows: Seq<RowModel>|
                #[trigger] spec_parse_rows(rows, policy) == Err::<Seq<RecordModel>, MapError>(
                    e,
                )))),
            r matches Ok(idx) ==> (self.scan_policy() matches Some(policy) ==> exists|
                rows: Seq<RowModel>,
            |
                #[trigger] spec_parse_rows(rows, policy) matches Ok(records) && multi_map_model(idx@)
                    == spec_hpo_name_to_ncbi_ids(records)),
    ;

    /// Map NCBI gene id to gene symbol; where rows disagree, the first write
    /// wins.
    fn ncbi_to_symbol(&self) -> (r: Result<StringHashMap<String>, MapError>)
        ensures
            self.resident_records() matches Some(records) ==> (r matches Ok(idx) && one_map_model(
                idx@,
            ) == spec_ncbi_to_symbol(records)),
            r matches Ok(idx) ==> exists|records: Seq<RecordModel>|
                one_map_model(idx@) == #[trigger] spec_ncbi_to_symbol(records),
            r matches Err(e) ==> (self.resident_records() is None && (e matches MapError::SourceUnavailable(_) || (self.scan_policy() matches Some(policy) && exists|rows: Seq<RowModel>|
                #[trigger] spec_parse_rows(rows, policy) == Err::<Seq<RecordModel>, MapError>(
                    e,
                )))),
            r matches Ok(idx) ==> (self.scan_policy() matches Some(policy) ==> exists|
                rows: Seq<RowModel>,
            |
                #[trigger] spec_parse_rows(rows, policy) matches Ok(records) && one_map_model(idx@)
                    == spec_ncbi_to_symbol(records)),
    ;
}

} // verus!
