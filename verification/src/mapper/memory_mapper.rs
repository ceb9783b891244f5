//! The eager indexing strategy: read the whole source once at construction
//! time, hold the records resident, and build each requested index by a
//! linear pass over them.

use vstd::prelude::*;
use vstd::hash_map::StringHashMap;
use vstd::hash_set::StringHashSet;

use crate::mapper::base::{
    read_raw_rows, records_model, rows_model, GenePhenotypeMapping, MapError, PhenotypeRecord,
    RecordModel, RowModel, RowPolicy, StringField, TermIdField,
};
use crate::mapper::base::{parse_rows, spec_parse_rows};
use crate::mapper::index::{
    multi_index_of_pairs, multi_map_model, one_index_of_pairs, one_map_model,
    spec_gene_to_diseases, spec_gene_to_hpo, spec_hpo_name_to_ncbi_ids, spec_hpo_to_genes,
    spec_multi_s_s, spec_multi_s_t, spec_multi_t_s, spec_ncbi_to_symbol, string_string_pairs,
    string_termid_pairs, termid_string_pairs,
};

verus! {

/// The eager indexer: the whole dataset resident in memory, loaded once.
pub struct GenePhenotypeMemoryMapper {
    records: Vec<PhenotypeRecord>,
}

impl View for GenePhenotypeMemoryMapper {
    type V = Seq<RecordModel>;

    closed spec fn view(&self) -> Seq<RecordModel> {
        records_model(self.records@)
    }
}

impl GenePhenotypeMemoryMapper {
    /// Constructor: load the dataset from the tab-separated file at `path`
    /// under the strict row policy, in which the first row that fails to
    /// decode or to validate fails the whole load.
    pub fn from_file(path: &str) -> (r: Result<Self, MapError>)
        ensures
            r matches Ok(mapper) ==> exists|rows: Seq<RowModel>|
                #[trigger] spec_parse_rows(rows, RowPolicy::Strict) matches Ok(records) && mapper@
                    == records,
            r matches Err(e) ==> (e matches MapError::SourceUnavailable(_) || exists|
                rows: Seq<RowModel>,
            |
                spec_parse_rows(rows, RowPolicy::Strict) == Err::<Seq<RecordModel>, MapError>(e)),
    {
        Self::from_file_with_policy(path, RowPolicy::Strict)
    }

    /// Constructor: load the dataset from the tab-separated file at `path`
    /// under the given row policy.
    pub fn from_file_with_policy(path: &str, policy: RowPolicy) -> (r: Result<Self, MapError>)
        ensures
            r matches Ok(mapper) ==> exists|rows: Seq<RowModel>|
                #[trigger] spec_parse_rows(rows, policy) matches Ok(records) && mapper@ == records,
            r matches Err(e) ==> (e matches MapError::SourceUnavailable(_) || exists|
                rows: Seq<RowModel>,
            |
                spec_parse_rows(rows, policy) == Err::<Seq<RecordModel>, MapError>(e)),
    {
        let rows = match read_raw_rows(path) {
            Ok(rows) => rows,
            Err(e) => {
                return Err(e);
            },
        };
        match parse_rows(&rows, policy) {
            Ok(records) => {
                let mapper = Self::from_records(records);
                proof {
                    assert(spec_parse_rows(rows_model(rows@), policy) matches Ok(m) && mapper@
                        == m);
                }
                Ok(mapper)
            },
            Err(e) => {
                proof {
                    assert(spec_parse_rows(rows_model(rows@), policy) == Err::<
                        Seq<RecordModel>,
                        MapError,
                    >(e));
                }
                Err(e)
            },
        }
    }

    /// Constructor: serve from records already in hand.
    pub fn from_records(records: Vec<PhenotypeRecord>) -> (r: Self)
        ensures
            r@ == records_model(records@),
    {
        Self { records }
    }

    /// Internal method: build the index from any plain-text field to the sets
    /// of values of any plain-text field.
    fn build_map_str_str(&self, key: StringField, value: StringField) -> (r: StringHashMap<
        StringHashSet,
    >)
        ensures
            multi_map_model(r@) == spec_multi_s_s(self@, key, value),
    {
        let pairs = string_string_pairs(&self.records, key, value);
        multi_index_of_pairs(&pairs)
    }

    /// Internal method: build the index from any identifier field to the sets
    /// of values of any plain-text field.
    fn build_map_termid_str(&self, key: TermIdField, value: StringField) -> (r: StringHashMap<
        StringHashSet,
    >)
        ensures
            multi_map_model(r@) == spec_multi_t_s(self@, key, value),
    {
        let pairs = termid_string_pairs(&self.records, key, value);
        multi_index_of_pairs(&pairs)
    }

    /// Internal method: build the index from any plain-text field to the sets
    /// of values of any identifier field.
    fn build_map_str_termid(&self, key: StringField, value: TermIdField) -> (r: StringHashMap<
        StringHashSet,
    >)
        ensures
            multi_map_model(r@) == spec_multi_s_t(self@, key, value),
    {
        let pairs = string_termid_pairs(&self.records, key, value);
        multi_index_of_pairs(&pairs)
    }
}

impl GenePhenotypeMapping for GenePhenotypeMemoryMapper {
    open spec fn resident_records(&self) -> Option<Seq<RecordModel>> {
        Some(self@)
    }

    open spec fn scan_policy(&self) -> Option<RowPolicy> {
        None
    }

    fn gene_to_hpo(&self) -> (r: Result<StringHashMap<StringHashSet>, MapError>) {
        let idx = self.build_map_str_termid(StringField::GeneSymbol, TermIdField::HpoId);
        proof {
            assert(multi_map_model(idx@) == spec_gene_to_hpo(self@));
        }
        Ok(idx)
    }

    fn hpo_to_genes(&self) -> (r: Result<StringHashMap<StringHashSet>, MapError>) {
        let idx = self.build_map_termid_str(TermIdField::HpoId, StringField::GeneSymbol);
        proof {
            assert(multi_map_model(idx@) == spec_hpo_to_genes(self@));
        }
        Ok(idx)
    }

    fn gene_to_diseases(&self) -> (r: Result<StringHashMap<StringHashSet>, MapError>) {
        let idx = self.build_map_str_termid(StringField::GeneSymbol, TermIdField::DiseaseId);
        proof {
            assert(multi_map_model(idx@) == spec_gene_to_diseases(self@));
        }
        Ok(idx)
    }

    fn hpo_name_to_ncbi_ids(&self) -> (r: Result<StringHashMap<StringHashSet>, MapError>) {
        let idx = self.build_map_str_str(StringField::HpoName, StringField::NcbiGeneId);
        proof {
            assert(multi_map_model(idx@) == spec_hpo_name_to_ncbi_ids(self@));
        }
        Ok(idx)
    }

    fn ncbi_to_symbol(&self) -> (r: Result<StringHashMap<String>, MapError>) {
        let pairs = string_string_pairs(
            &self.records,
            StringField::NcbiGeneId,
            StringField::GeneSymbol,
        );
        let idx = one_index_of_pairs(&pairs);
        proof {
            assert(one_map_model(idx@) == spec_ncbi_to_symbol(self@));
        }
        Ok(idx)
    }
}

} // verus!
