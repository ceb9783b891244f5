//! The properties the library states of itself, each proved from the models
//! in `base` and `index`.

use vstd::prelude::*;
use vstd::hash_set::StringHashSet;

use crate::mapper::base::{
    spec_lenient_records, spec_parse_rows, spec_row_good, RecordModel, RowModel, RowPolicy,
    StringField, TermIdField,
};
use crate::mapper::index::{
    multi_map_model, one_map_model, spec_gene_to_diseases, spec_gene_to_hpo,
    spec_hpo_name_to_ncbi_ids, spec_hpo_to_genes, spec_multi_of_pairs, spec_ncbi_to_symbol,
    spec_one_of_pairs, spec_pairs_s_s, spec_pairs_s_t,
};

verus! {

/// Whether some pair of the sequence carries the given key.
pub open spec fn has_pair_key(pairs: Seq<(Seq<char>, Seq<char>)>, k: Seq<char>) -> bool {
    exists|i: int| 0 <= i < pairs.len() && (#[trigger] pairs[i]).0 == k
}

/// Whether some pair of the sequence is exactly the given key and value.
pub open spec fn has_pair(pairs: Seq<(Seq<char>, Seq<char>)>, k: Seq<char>, v: Seq<char>) -> bool {
    exists|i: int| 0 <= i < pairs.len() && #[trigger] pairs[i] == (k, v)
}

/// Set semantics of the one-to-many aggregation: a key is present exactly
/// when some pair carries it, and its value set holds a value exactly when
/// some pair carries the key with that value — however many pairs repeat the
/// same key and value, the set holds the value as one element.
pub proof fn lemma_multi_of_pairs_membership(pairs: Seq<(Seq<char>, Seq<char>)>)
    ensures
        forall|k: Seq<char>| #[trigger]
            spec_multi_of_pairs(pairs).contains_key(k) <==> has_pair_key(pairs, k),
        forall|k: Seq<char>, v: Seq<char>|
            spec_multi_of_pairs(pairs).contains_key(k) ==> (#[trigger] spec_multi_of_pairs(
                pairs,
            )[k].contains(v) <==> has_pair(pairs, k, v)),
    decreases pairs.len(),
{
    if pairs.len() > 0 {
        let front = pairs.drop_last();
        let last = pairs.last();
        let m0 = spec_multi_of_pairs(front);
        let m = spec_multi_of_pairs(pairs);
        lemma_multi_of_pairs_membership(front);
        assert forall|k: Seq<char>| #[trigger]
            m.contains_key(k) implies has_pair_key(pairs, k) by {
            if k == last.0 {
                assert((pairs[pairs.len() - 1]).0 == k);
            } else {
                let i = choose|i: int| 0 <= i < front.len() && (#[trigger] front[i]).0 == k;
                assert((pairs[i]).0 == k);
            }
        }
        assert forall|k: Seq<char>| has_pair_key(pairs, k) implies #[trigger] m.contains_key(
            k,
        ) by {
            let i = choose|i: int| 0 <= i < pairs.len() && (#[trigger] pairs[i]).0 == k;
            if i < pairs.len() - 1 {
                assert((front[i]).0 == k);
            }
        }
        assert forall|k: Seq<char>, v: Seq<char>|
            m.contains_key(k) && #[trigger] m[k].contains(v) implies has_pair(pairs, k, v) by {
            if k == last.0 {
                if v == last.1 {
                    assert(pairs[pairs.len() - 1] == (k, v));
                } else {
                    assert(m0.contains_key(k) && m0[k].contains(v));
                    let i = choose|i: int| 0 <= i < front.len() && #[trigger] front[i] == (k, v);
                    assert(pairs[i] == (k, v));
                }
            } else {
                assert(m0.contains_key(k) && m0[k].contains(v));
                let i = choose|i: int| 0 <= i < front.len() && #[trigger] front[i] == (k, v);
                assert(pairs[i] == (k, v));
            }
        }
        assert forall|k: Seq<char>, v: Seq<char>|
            m.contains_key(k) && has_pair(pairs, k, v) implies #[trigger] m[k].contains(v) by {
            let i = choose|i: int| 0 <= i < pairs.len() && #[trigger] pairs[i] == (k, v);
            if i == pairs.len() - 1 {
                assert(k == last.0 && v == last.1);
            } else {
                assert(front[i] == (k, v));
                assert((front[i]).0 == k);
                assert(m0.contains_key(k) && m0[k].contains(v));
            }
        }
    }
}

/// A key stands in the one-to-one aggregation exactly when some pair carries
/// it.
pub proof fn lemma_one_of_pairs_membership(pairs: Seq<(Seq<char>, Seq<char>)>)
    ensures
        forall|k: Seq<char>| #[trigger]
            spec_one_of_pairs(pairs).contains_key(k) <==> has_pair_key(pairs, k),
    decreases pairs.len(),
{
    if pairs.len() > 0 {
        let front = pairs.drop_last();
        let last = pairs.last();
        let m = spec_one_of_pairs(pairs);
        lemma_one_of_pairs_membership(front);
        let m0 = spec_one_of_pairs(front);
        assert forall|k: Seq<char>| #[trigger]
            m.contains_key(k) implies has_pair_key(pairs, k) by {
            if k == last.0 {
                assert((pairs[pairs.len() - 1]).0 == k);
            } else {
                assert(m0.contains_key(k)) by {
                    if m0.contains_key(last.0) {
                        assert(m == m0);
                    }
                }
                assert(has_pair_key(front, k));
                let i = choose|i: int| 0 <= i < front.len() && (#[trigger] front[i]).0 == k;
                assert((pairs[i]).0 == k);
            }
        }
        assert forall|k: Seq<char>| has_pair_key(pairs, k) implies #[trigger] m.contains_key(
            k,
        ) by {
            let i = choose|i: int| 0 <= i < pairs.len() && (#[trigger] pairs[i]).0 == k;
            if i < pairs.len() - 1 {
                assert((front[i]).0 == k);
            }
        }
    }
}

/// First write wins in the one-to-one aggregation: the pair that first
/// carries a key fixes the key's value, whatever later pairs carry.
pub proof fn lemma_one_of_pairs_first(pairs: Seq<(Seq<char>, Seq<char>)>, i: int)
    requires
        0 <= i < pairs.len(),
        forall|j: int| 0 <= j < i ==> (#[trigger] pairs[j]).0 != (pairs[i]).0,
    ensures
        spec_one_of_pairs(pairs).contains_key((pairs[i]).0),
        spec_one_of_pairs(pairs)[(pairs[i]).0] == (pairs[i]).1,
    decreases pairs.len(),
{
    let front = pairs.drop_last();
    let last = pairs.last();
    let m0 = spec_one_of_pairs(front);
    if i == pairs.len() - 1 {
        lemma_one_of_pairs_membership(front);
        assert(!has_pair_key(front, (pairs[i]).0)) by {
            if has_pair_key(front, (pairs[i]).0) {
                let j = choose|j: int|
                    0 <= j < front.len() && (#[trigger] front[j]).0 == (pairs[i]).0;
                assert((pairs[j]).0 == (pairs[i]).0);
            }
        }
    } else {
        assert forall|j: int| 0 <= j < i implies (#[trigger] front[j]).0 != (front[i]).0 by {
            assert(front[j] == pairs[j]);
        }
        lemma_one_of_pairs_first(front, i);
        if !m0.contains_key(last.0) {
            assert(last.0 != (pairs[i]).0);
        }
    }
}

/// Equivalence of the two strategies: however the same rows were scanned
/// under the same policy — loaded once and indexed from the stored records,
/// or indexed during a fresh scan — every one of the five derived indices is
/// the same mapping.
pub proof fn lemma_strategy_equivalence(rows: Seq<RowModel>, policy: RowPolicy, loaded: Seq<
    RecordModel,
>)
    requires
        spec_parse_rows(rows, policy) matches Ok(records) && records == loaded,
    ensures
        spec_parse_rows(rows, policy) matches Ok(scanned) && {
            &&& spec_gene_to_hpo(loaded) == spec_gene_to_hpo(scanned)
            &&& spec_hpo_to_genes(loaded) == spec_hpo_to_genes(scanned)
            &&& spec_gene_to_diseases(loaded) == spec_gene_to_diseases(scanned)
            &&& spec_hpo_name_to_ncbi_ids(loaded) == spec_hpo_name_to_ncbi_ids(scanned)
            &&& spec_ncbi_to_symbol(loaded) == spec_ncbi_to_symbol(scanned)
        },
{
}

/// Idempotence of a one-to-many query whose result the loaded records fix:
/// two invocations return maps with the same key set and, per key, value
/// sets with the same elements.
pub proof fn lemma_query_idempotent_multi(
    a: Map<Seq<char>, StringHashSet>,
    b: Map<Seq<char>, StringHashSet>,
    model: Map<Seq<char>, Set<Seq<char>>>,
)
    requires
        multi_map_model(a) == model,
        multi_map_model(b) == model,
    ensures
        a.dom() =~= b.dom(),
        forall|k: Seq<char>| a.dom().contains(k) ==> #[trigger] a[k]@ == b[k]@,
{
    assert(multi_map_model(a).dom() =~= a.dom());
    assert(multi_map_model(b).dom() =~= b.dom());
    assert forall|k: Seq<char>| a.dom().contains(k) implies #[trigger] a[k]@ == b[k]@ by {
        assert(multi_map_model(a)[k] == a[k]@);
        assert(multi_map_model(b)[k] == b[k]@);
    }
}

/// Idempotence of a one-to-one query whose result the loaded records fix:
/// two invocations return maps with the same key set and the same value text
/// per key.
pub proof fn lemma_query_idempotent_one(
    a: Map<Seq<char>, String>,
    b: Map<Seq<char>, String>,
    model: Map<Seq<char>, Seq<char>>,
)
    requires
        one_map_model(a) == model,
        one_map_model(b) == model,
    ensures
        a.dom() =~= b.dom(),
        forall|k: Seq<char>| a.dom().contains(k) ==> #[trigger] a[k]@ == b[k]@,
{
    assert(one_map_model(a).dom() =~= a.dom());
    assert(one_map_model(b).dom() =~= b.dom());
    assert forall|k: Seq<char>| a.dom().contains(k) implies #[trigger] a[k]@ == b[k]@ by {
        assert(one_map_model(a)[k] == a[k]@);
        assert(one_map_model(b)[k] == b[k]@);
    }
}

/// What the gene-to-phenotypes index holds: a gene symbol is a key exactly
/// when some record carries it, and its set holds a phenotype identifier
/// exactly when some record pairs the two — a pairing repeated over any
/// number of records stands in the set as one element.
pub proof fn lemma_gene_to_hpo_membership(records: Seq<RecordModel>)
    ensures
        forall|g: Seq<char>| #[trigger]
            spec_gene_to_hpo(records).contains_key(g) <==> (exists|i: int|
                0 <= i < records.len() && (#[trigger] records[i]).gene_symbol == g),
        forall|g: Seq<char>, h: Seq<char>|
            spec_gene_to_hpo(records).contains_key(g) ==> (#[trigger] spec_gene_to_hpo(
                records,
            )[g].contains(h) <==> (exists|i: int|
                0 <= i < records.len() && (#[trigger] records[i]).gene_symbol == g
                    && records[i].hpo_id == h)),
{
    let pairs = spec_pairs_s_t(records, StringField::GeneSymbol, TermIdField::HpoId);
    lemma_multi_of_pairs_membership(pairs);
    assert forall|g: Seq<char>| has_pair_key(pairs, g) implies (exists|i: int|
        0 <= i < records.len() && (#[trigger] records[i]).gene_symbol == g) by {
        let i = choose|i: int| 0 <= i < pairs.len() && (#[trigger] pairs[i]).0 == g;
        assert((records[i]).gene_symbol == g);
    }
    assert forall|g: Seq<char>|
        (exists|i: int|
            0 <= i < records.len() && (#[trigger] records[i]).gene_symbol == g) implies has_pair_key(
        pairs,
        g,
    ) by {
        let i = choose|i: int| 0 <= i < records.len() && (#[trigger] records[i]).gene_symbol == g;
        assert((pairs[i]).0 == g);
    }
    assert forall|g: Seq<char>, h: Seq<char>| has_pair(pairs, g, h) implies (exists|i: int|
        0 <= i < records.len() && (#[trigger] records[i]).gene_symbol == g && records[i].hpo_id
            == h) by {
        let i = choose|i: int| 0 <= i < pairs.len() && #[trigger] pairs[i] == (g, h);
        assert((records[i]).gene_symbol == g && (records[i]).hpo_id == h);
    }
    assert forall|g: Seq<char>, h: Seq<char>|
        (exists|i: int|
            0 <= i < records.len() && (#[trigger] records[i]).gene_symbol == g && records[i].hpo_id
                == h) implies has_pair(pairs, g, h) by {
        let i = choose|i: int|
            0 <= i < records.len() && (#[trigger] records[i]).gene_symbol == g
                && records[i].hpo_id == h;
        assert(pairs[i] == (g, h));
    }
}

/// First write wins in the one-to-one index: where a record first carries an
/// NCBI gene id, the index maps that id to its gene symbol, whatever later
/// records carry for the same id.
pub proof fn lemma_first_write_wins(records: Seq<RecordModel>, i: int)
    requires
        0 <= i < records.len(),
        forall|j: int|
            0 <= j < i ==> (#[trigger] records[j]).ncbi_gene_id != (records[i]).ncbi_gene_id,
    ensures
        spec_ncbi_to_symbol(records).contains_key((records[i]).ncbi_gene_id),
        spec_ncbi_to_symbol(records)[(records[i]).ncbi_gene_id] == (records[i]).gene_symbol,
{
    let pairs = spec_pairs_s_s(records, StringField::NcbiGeneId, StringField::GeneSymbol);
    assert(pairs[i] == ((records[i]).ncbi_gene_id, (records[i]).gene_symbol));
    assert forall|j: int| 0 <= j < i implies (#[trigger] pairs[j]).0 != (pairs[i]).0 by {
        assert((pairs[j]).0 == (records[j]).ncbi_gene_id);
    }
    lemma_one_of_pairs_first(pairs, i);
}

/// A lenient scan never fails on its rows, whatever they hold. So a query
/// that scans leniently can fail only because its source was unavailable,
/// and that failure is terminal for the call alone: the mapper's state is
/// untouched, and a later call may succeed.
pub proof fn lemma_lenient_scan_never_fails(rows: Seq<RowModel>)
    ensures
        spec_parse_rows(rows, RowPolicy::Lenient) is Ok,
{
}

/// A bad row does not disturb the lenient scan: the records are those of the
/// rows that remain when it is dropped.
proof fn lemma_lenient_remove_bad(rows: Seq<RowModel>, i: int)
    requires
        0 <= i < rows.len(),
        !spec_row_good(rows[i]),
    ensures
        spec_lenient_records(rows) =~= spec_lenient_records(rows.remove(i)),
    decreases rows.len(),
{
    if i == rows.len() - 1 {
        assert(rows.remove(i) =~= rows.drop_last());
    } else {
        let front = rows.drop_last();
        lemma_lenient_remove_bad(front, i);
        assert(rows.remove(i).drop_last() =~= front.remove(i));
        assert(rows.remove(i).last() == rows.last());
    }
}

/// The malformed-row boundary: with a bad row present, the strict scan fails
/// outright, while the lenient scan succeeds and indexes exactly the rows
/// that remain when the bad row is dropped.
pub proof fn lemma_malformed_row_boundary(rows: Seq<RowModel>, i: int)
    requires
        0 <= i < rows.len(),
        !spec_row_good(rows[i]),
    ensures
        spec_parse_rows(rows, RowPolicy::Strict) is Err,
        spec_parse_rows(rows, RowPolicy::Lenient) matches Ok(records) && records
            =~= spec_lenient_records(rows.remove(i)),
{
    lemma_lenient_remove_bad(rows, i);
}

} // verus!
