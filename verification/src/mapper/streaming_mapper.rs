//! The streaming indexing strategy: hold only the source location, and
//! re-open and re-scan the source on every query.

use vstd::prelude::*;
use vstd::hash_map::StringHashMap;
use vstd::hash_set::StringHashSet;

use crate::mapper::base::{
    parse_rows, read_raw_rows, records_model, rows_model, spec_parse_rows, GenePhenotypeMapping,
    MapError, PhenotypeRecord, RecordModel, RowModel, RowPolicy, StringField, TermIdField,
};
use crate::mapper::index::{
    multi_index_of_pairs, multi_map_model, one_index_of_pairs, one_map_model, spec_gene_to_diseases,
    spec_gene_to_hpo, spec_hpo_name_to_ncbi_ids, spec_hpo_to_genes, spec_ncbi_to_symbol,
    string_string_pairs, string_termid_pairs, termid_string_pairs,
};

verus! {

/// The streaming indexer: only the source location is held; every query
/// re-reads the source from the start.
pub struct GenePhenotypeStreamingMapper {
    path: String,
    policy: RowPolicy,
}

impl GenePhenotypeStreamingMapper {
    /// The source location queries read from.
    pub closed spec fn spec_path(&self) -> Seq<char> {
        self.path@
    }

    /// The row policy queries scan under.
    pub closed spec fn spec_policy(&self) -> RowPolicy {
        self.policy
    }

    /// Constructor: remember the source location; no reading happens before
    /// the first query. Queries scan under the lenient row policy — rows that
    /// fail to decode or to validate are left out — where the eager mapper's
    /// default load is strict; `from_file_with_policy` makes the two agree.
    pub fn from_file(path: &str) -> (r: Result<Self, MapError>)
        ensures
            r matches Ok(mapper) && mapper.spec_path() == path@ && mapper.spec_policy()
                == RowPolicy::Lenient,
    {
        Self::from_file_with_policy(path, RowPolicy::Lenient)
    }

    /// Constructor: remember the source location and the row policy every
    /// query scans under.
    pub fn from_file_with_policy(path: &str, policy: RowPolicy) -> (r: Result<Self, MapError>)
        ensures
            r matches Ok(mapper) && mapper.spec_path() == path@ && mapper.spec_policy() == policy,
    {
        Ok(Self { path: path.to_owned(), policy })
    }

    /// Open the source afresh and scan it into records under the mapper's
    /// policy. A failure is the source's unavailability, or what a scan of
    /// some row sequence yields under the policy.
    fn parse_file(&self) -> (r: Result<Vec<PhenotypeRecord>, MapError>)
        ensures
            r matches Ok(records) ==> exists|rows: Seq<RowModel>|
                #[trigger] spec_parse_rows(rows, self.spec_policy()) matches Ok(m) && m
                    == records_model(records@),
            r matches Err(e) ==> (e matches MapError::SourceUnavailable(_) || exists|
                rows: Seq<RowModel>,
            |
                #[trigger] spec_parse_rows(rows, self.spec_policy()) == Err::<
                    Seq<RecordModel>,
                    MapError,
                >(e)),
    {
        let rows = match read_raw_rows(self.path.as_str()) {
            Ok(rows) => rows,
            Err(e) => {
                return Err(e);
            },
        };
        match parse_rows(&rows, self.policy) {
            Ok(records) => {
                proof {
                    assert(spec_parse_rows(rows_model(rows@), self.spec_policy()) matches Ok(m)
                        && m == records_model(records@));
                }
                Ok(records)
            },
            Err(e) => {
                proof {
                    assert(spec_parse_rows(rows_model(rows@), self.spec_policy()) == Err::<
                        Seq<RecordModel>,
                        MapError,
                    >(e));
                }
                Err(e)
            },
        }
    }
}

impl GenePhenotypeMapping for GenePhenotypeStreamingMapper {
    open spec fn resident_records(&self) -> Option<Seq<RecordModel>> {
        None
    }

    open spec fn scan_policy(&self) -> Option<RowPolicy> {
        Some(self.spec_policy())
    }

    fn gene_to_hpo(&self) -> (r: Result<StringHashMap<StringHashSet>, MapError>) {
        match self.parse_file() {
            Ok(records) => {
                let pairs = string_termid_pairs(
                    &records,
                    StringField::GeneSymbol,
                    TermIdField::HpoId,
                );
                let idx = multi_index_of_pairs(&pairs);
                proof {
                    assert(multi_map_model(idx@) == spec_gene_to_hpo(records_model(records@)));
                    let rows = choose|rows: Seq<RowModel>|
                        #[trigger] spec_parse_rows(rows, self.spec_policy()) matches Ok(m) && m
                            == records_model(records@);
                    assert(spec_parse_rows(rows, self.spec_policy()) matches Ok(m) && multi_map_model(
                        idx@,
                    ) == spec_gene_to_hpo(m));
                }
                Ok(idx)
            },
            Err(e) => {
                proof {
                    if !(e matches MapError::SourceUnavailable(_)) {
                        let rows = choose|rows: Seq<RowModel>|
                            #[trigger] spec_parse_rows(rows, self.spec_policy()) == Err::<
                                Seq<RecordModel>,
                                MapError,
                            >(e);
                        assert(spec_parse_rows(rows, self.spec_policy()) == Err::<
                            Seq<RecordModel>,
                            MapError,
                        >(e));
                    }
                }
                Err(e)
            },
        }
    }

    fn hpo_to_genes(&self) -> (r: Result<StringHashMap<StringHashSet>, MapError>) {
        match self.parse_file() {
            Ok(records) => {
                let pairs = termid_string_pairs(
                    &records,
                    TermIdField::HpoId,
                    StringField::GeneSymbol,
                );
                let idx = multi_index_of_pairs(&pairs);
                proof {
                    assert(multi_map_model(idx@) == spec_hpo_to_genes(records_model(records@)));
                    let rows = choose|rows: Seq<RowModel>|
                        #[trigger] spec_parse_rows(rows, self.spec_policy()) matches Ok(m) && m
                            == records_model(records@);
                    assert(spec_parse_rows(rows, self.spec_policy()) matches Ok(m) && multi_map_model(
                        idx@,
                    ) == spec_hpo_to_genes(m));
                }
                Ok(idx)
            },
            Err(e) => {
                proof {
                    if !(e matches MapError::SourceUnavailable(_)) {
                        let rows = choose|rows: Seq<RowModel>|
                            #[trigger] spec_parse_rows(rows, self.spec_policy()) == Err::<
                                Seq<RecordModel>,
                                MapError,
                            >(e);
                        assert(spec_parse_rows(rows, self.spec_policy()) == Err::<
                            Seq<RecordModel>,
                            MapError,
                        >(e));
                    }
                }
                Err(e)
            },
        }
    }

    fn gene_to_diseases(&self) -> (r: Result<StringHashMap<StringHashSet>, MapError>) {
        match self.parse_file() {
            Ok(records) => {
                let pairs = string_termid_pairs(
                    &records,
                    StringField::GeneSymbol,
                    TermIdField::DiseaseId,
                );
                let idx = multi_index_of_pairs(&pairs);
                proof {
                    assert(multi_map_model(idx@) == spec_gene_to_diseases(
                        records_model(records@),
                    ));
                    let rows = choose|rows: Seq<RowModel>|
                        #[trigger] spec_parse_rows(rows, self.spec_policy()) matches Ok(m) && m
                            == records_model(records@);
                    assert(spec_parse_rows(rows, self.spec_policy()) matches Ok(m) && multi_map_model(
                        idx@,
                    ) == spec_gene_to_diseases(m));
                }
                Ok(idx)
            },
            Err(e) => {
                proof {
                    if !(e matches MapError::SourceUnavailable(_)) {
                        let rows = choose|rows: Seq<RowModel>|
                            #[trigger] spec_parse_rows(rows, self.spec_policy()) == Err::<
                                Seq<RecordModel>,
                                MapError,
                            >(e);
                        assert(spec_parse_rows(rows, self.spec_policy()) == Err::<
                            Seq<RecordModel>,
                            MapError,
                        >(e));
                    }
                }
                Err(e)
            },
        }
    }

    fn hpo_name_to_ncbi_ids(&self) -> (r: Result<StringHashMap<StringHashSet>, MapError>) {
        match self.parse_file() {
            Ok(records) => {
                let pairs = string_string_pairs(
                    &records,
                    StringField::HpoName,
                    StringField::NcbiGeneId,
                );
                let idx = multi_index_of_pairs(&pairs);
                proof {
                    assert(multi_map_model(idx@) == spec_hpo_name_to_ncbi_ids(
                        records_model(records@),
                    ));
                    let rows = choose|rows: Seq<RowModel>|
                        #[trigger] spec_parse_rows(rows, self.spec_policy()) matches Ok(m) && m
                            == records_model(records@);
                    assert(spec_parse_rows(rows, self.spec_policy()) matches Ok(m) && multi_map_model(
                        idx@,
                    ) == spec_hpo_name_to_ncbi_ids(m));
                }
                Ok(idx)
            },
            Err(e) => {
                proof {
                    if !(e matches MapError::SourceUnavailable(_)) {
                        let rows = choose|rows: Seq<RowModel>|
                            #[trigger] spec_parse_rows(rows, self.spec_policy()) == Err::<
                                Seq<RecordModel>,
                                MapError,
                            >(e);
                        assert(spec_parse_rows(rows, self.spec_policy()) == Err::<
                            Seq<RecordModel>,
                            MapError,
                        >(e));
                    }
                }
                Err(e)
            },
        }
    }

    fn ncbi_to_symbol(&self) -> (r: Result<StringHashMap<String>, MapError>) {
        match self.parse_file() {
            Ok(records) => {
                let pairs = string_string_pairs(
                    &records,
                    StringField::NcbiGeneId,
                    StringField::GeneSymbol,
                );
                let idx = one_index_of_pairs(&pairs);
                proof {
                    assert(one_map_model(idx@) == spec_ncbi_to_symbol(records_model(records@)));
                    let rows = choose|rows: Seq<RowModel>|
                        #[trigger] spec_parse_rows(rows, self.spec_policy()) matches Ok(m) && m
                            == records_model(records@);
                    assert(spec_parse_rows(rows, self.spec_policy()) matches Ok(m) && one_map_model(
                        idx@,
                    ) == spec_ncbi_to_symbol(m));
                }
                Ok(idx)
            },
            Err(e) => {
                proof {
                    if !(e matches MapError::SourceUnavailable(_)) {
                        let rows = choose|rows: Seq<RowModel>|
                            #[trigger] spec_parse_rows(rows, self.spec_policy()) == Err::<
                                Seq<RecordModel>,
                                MapError,
                            >(e);
                        assert(spec_parse_rows(rows, self.spec_policy()) == Err::<
                            Seq<RecordModel>,
                            MapError,
                        >(e));
                    }
                }
                Err(e)
            },
        }
    }
}

} // verus!
