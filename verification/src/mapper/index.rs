//! The derived indices: their mathematical models, the aggregation that
//! builds them from records, and what the finished indices hold.

use vstd::prelude::*;
use vstd::hash_map::StringHashMap;
use vstd::hash_set::StringHashSet;

use crate::mapper::base::{
    records_model, spec_string_field, spec_termid_field, PhenotypeRecord, RecordModel, StringField,
    TermId, TermIdField,
};

verus! {

/// The mathematical content of a one-to-many index: each value set as a set
/// of texts.
pub open spec fn multi_map_model(m: Map<Seq<char>, StringHashSet>) -> Map<
    Seq<char>,
    Set<Seq<char>>,
> {
    m.map_values(|s: StringHashSet| s@)
}

/// The mathematical content of a one-to-one index: each value as a text.
pub open spec fn one_map_model(m: Map<Seq<char>, String>) -> Map<Seq<char>, Seq<char>> {
    m.map_values(|s: String| s@)
}

/// The key/value texts of a pair sequence.
pub open spec fn pairs_model(pairs: Seq<(String, String)>) -> Seq<(Seq<char>, Seq<char>)> {
    pairs.map_values(|p: (String, String)| (p.0@, p.1@))
}

/// Key and value drawn from each record, both from plain-text fields.
pub open spec fn spec_pairs_s_s(
    records: Seq<RecordModel>,
    key: StringField,
    value: StringField,
) -> Seq<(Seq<char>, Seq<char>)> {
    records.map_values(
        |r: RecordModel| (spec_string_field(r, key), spec_string_field(r, value)),
    )
}

/// Key and value drawn from each record: a plain-text key, an identifier
/// value.
pub open spec fn spec_pairs_s_t(
    records: Seq<RecordModel>,
    key: StringField,
    value: TermIdField,
) -> Seq<(Seq<char>, Seq<char>)> {
    records.map_values(
        |r: RecordModel| (spec_string_field(r, key), spec_termid_field(r, value)),
    )
}

/// Key and value drawn from each record: an identifier key, a plain-text
/// value.
pub open spec fn spec_pairs_t_s(
    records: Seq<RecordModel>,
    key: TermIdField,
    value: StringField,
) -> Seq<(Seq<char>, Seq<char>)> {
    records.map_values(
        |r: RecordModel| (spec_termid_field(r, key), spec_string_field(r, value)),
    )
}

/// Add one pair to a one-to-many index: the value joins the key's set.
pub open spec fn spec_multi_insert(
    m: Map<Seq<char>, Set<Seq<char>>>,
    k: Seq<char>,
    v: Seq<char>,
) -> Map<Seq<char>, Set<Seq<char>>> {
    let prior = if m.contains_key(k) {
        m[k]
    } else {
        Set::empty()
    };
    m.insert(k, prior.insert(v))
}

/// The one-to-many index of a pair sequence, pairs applied in order.
pub open spec fn spec_multi_of_pairs(pairs: Seq<(Seq<char>, Seq<char>)>) -> Map<
    Seq<char>,
    Set<Seq<char>>,
>
    decreases pairs.len(),
{
    if pairs.len() == 0 {
        Map::empty()
    } else {
        spec_multi_insert(
            spec_multi_of_pairs(pairs.drop_last()),
            pairs.last().0,
            pairs.last().1,
        )
    }
}

/// Add one pair to a one-to-one index: kept only where the key is new.
pub open spec fn spec_one_insert(
    m: Map<Seq<char>, Seq<char>>,
    k: Seq<char>,
    v: Seq<char>,
) -> Map<Seq<char>, Seq<char>> {
    if m.contains_key(k) {
        m
    } else {
        m.insert(k, v)
    }
}

/// The one-to-one index of a pair sequence, pairs applied in order; the first
/// pair that carries a key fixes the key's value.
pub open spec fn spec_one_of_pairs(pairs: Seq<(Seq<char>, Seq<char>)>) -> Map<Seq<char>, Seq<char>>
    decreases pairs.len(),
{
    if pairs.len() == 0 {
        Map::empty()
    } else {
        spec_one_insert(spec_one_of_pairs(pairs.drop_last()), pairs.last().0, pairs.last().1)
    }
}

/// The one-to-many index over two plain-text fields.
pub open spec fn spec_multi_s_s(
    records: Seq<RecordModel>,
    key: StringField,
    value: StringField,
) -> Map<Seq<char>, Set<Seq<char>>> {
    spec_multi_of_pairs(spec_pairs_s_s(records, key, value))
}

/// The one-to-many index from a plain-text field to an identifier field.
pub open spec fn spec_multi_s_t(
    records: Seq<RecordModel>,
    key: StringField,
    value: TermIdField,
) -> Map<Seq<char>, Set<Seq<char>>> {
    spec_multi_of_pairs(spec_pairs_s_t(records, key, value))
}

/// The one-to-many index from an identifier field to a plain-text field.
pub open spec fn spec_multi_t_s(
    records: Seq<RecordModel>,
    key: TermIdField,
    value: StringField,
) -> Map<Seq<char>, Set<Seq<char>>> {
    spec_multi_of_pairs(spec_pairs_t_s(records, key, value))
}

/// The gene-symbol to phenotype-identifiers index of a record sequence.
pub open spec fn spec_gene_to_hpo(records: Seq<RecordModel>) -> Map<Seq<char>, Set<Seq<char>>> {
    spec_multi_s_t(records, StringField::GeneSymbol, TermIdField::HpoId)
}

/// The phenotype-identifier to gene-symbols index of a record sequence.
pub open spec fn spec_hpo_to_genes(records: Seq<RecordModel>) -> Map<Seq<char>, Set<Seq<char>>> {
    spec_multi_t_s(records, TermIdField::HpoId, StringField::GeneSymbol)
}

/// The gene-symbol to disease-identifiers index of a record sequence.
pub open spec fn spec_gene_to_diseases(records: Seq<RecordModel>) -> Map<
    Seq<char>,
    Set<Seq<char>>,
> {
    spec_multi_s_t(records, StringField::GeneSymbol, TermIdField::DiseaseId)
}

/// The phenotype-name to NCBI-gene-ids index of a record sequence.
pub open spec fn spec_hpo_name_to_ncbi_ids(records: Seq<RecordModel>) -> Map<
    Seq<char>,
    Set<Seq<char>>,
> {
    spec_multi_s_s(records, StringField::HpoName, StringField::NcbiGeneId)
}

/// The NCBI-gene-id to gene-symbol index of a record sequence; first write
/// wins.
pub open spec fn spec_ncbi_to_symbol(records: Seq<RecordModel>) -> Map<Seq<char>, Seq<char>> {
    spec_one_of_pairs(spec_pairs_s_s(records, StringField::NcbiGeneId, StringField::GeneSymbol))
}

/// Extract field value from a record, where the value is plain text.
pub(crate) fn extract_string_field(record: &PhenotypeRecord, field: StringField) -> (r: String)
    ensures
        r@ == spec_string_field(record@, field),
{
    match field {
        StringField::HpoName => record.hpo_name.clone(),
        StringField::NcbiGeneId => record.ncbi_gene_id.clone(),
        StringField::GeneSymbol => record.gene_symbol.clone(),
    }
}

/// Extract field value from a record, where the value is a term identifier.
pub(crate) fn extract_termid_field(record: &PhenotypeRecord, field: TermIdField) -> (r: TermId)
    ensures
        r@ == spec_termid_field(record@, field),
{
    match field {
        TermIdField::HpoId => record.hpo_id.clone(),
        TermIdField::DiseaseId => record.disease_id.clone(),
    }
}

/// The key/value pair of each record, both drawn from plain-text fields.
pub(crate) fn string_string_pairs(
    records: &Vec<PhenotypeRecord>,
    key: StringField,
    value: StringField,
) -> (r: Vec<(String, String)>)
    ensures
        pairs_model(r@) =~= spec_pairs_s_s(records_model(records@), key, value),
{
    let mut pairs: Vec<(String, String)> = Vec::new();
    let mut i: usize = 0;
    while i < records.len()
        invariant
            i <= records@.len(),
            pairs_model(pairs@) =~= spec_pairs_s_s(records_model(records@), key, value).take(
                i as int,
            ),
        decreases records@.len() - i,
    {
        let k = extract_string_field(&records[i], key);
        let v = extract_string_field(&records[i], value);
        proof {
            let ghost models = records_model(records@);
            let ghost ps = spec_pairs_s_s(models, key, value);
            assert(models[i as int] == records@[i as int]@);
            assert(ps[i as int] == (k@, v@));
            assert(ps.take(i + 1 as int).drop_last() =~= ps.take(i as int));
        }
        pairs.push((k, v));
        i += 1;
    }
    pairs
}

/// The key/value pair of each record: a plain-text key, an identifier value.
pub(crate) fn string_termid_pairs(
    records: &Vec<PhenotypeRecord>,
    key: StringField,
    value: TermIdField,
) -> (r: Vec<(String, String)>)
    ensures
        pairs_model(r@) =~= spec_pairs_s_t(records_model(records@), key, value),
{
    let mut pairs: Vec<(String, String)> = Vec::new();
    let mut i: usize = 0;
    while i < records.len()
        invariant
            i <= records@.len(),
            pairs_model(pairs@) =~= spec_pairs_s_t(records_model(records@), key, value).take(
                i as int,
            ),
        decreases records@.len() - i,
    {
        let k = extract_string_field(&records[i], key);
        let v = extract_termid_field(&records[i], value).into_text();
        proof {
            let ghost models = records_model(records@);
            let ghost ps = spec_pairs_s_t(models, key, value);
            assert(models[i as int] == records@[i as int]@);
            assert(ps[i as int] == (k@, v@));
            assert(ps.take(i + 1 as int).drop_last() =~= ps.take(i as int));
        }
        pairs.push((k, v));
        i += 1;
    }
    pairs
}

/// The key/value pair of each record: an identifier key, a plain-text value.
pub(crate) fn termid_string_pairs(
    records: &Vec<PhenotypeRecord>,
    key: TermIdField,
    value: StringField,
) -> (r: Vec<(String, String)>)
    ensures
        pairs_model(r@) =~= spec_pairs_t_s(records_model(records@), key, value),
{
    let mut pairs: Vec<(String, String)> = Vec::new();
    let mut i: usize = 0;
    while i < records.len()
        invariant
            i <= records@.len(),
            pairs_model(pairs@) =~= spec_pairs_t_s(records_model(records@), key, value).take(
                i as int,
            ),
        decreases records@.len() - i,
    {
        let k = extract_termid_field(&records[i], key).into_text();
        let v = extract_string_field(&records[i], value);
        proof {
            let ghost models = records_model(records@);
            let ghost ps = spec_pairs_t_s(models, key, value);
            assert(models[i as int] == records@[i as int]@);
            assert(ps[i as int] == (k@, v@));
            assert(ps.take(i + 1 as int).drop_last() =~= ps.take(i as int));
        }
        pairs.push((k, v));
        i += 1;
    }
    pairs
}

/// Whether no two keys hold the same text.
pub(crate) open spec fn distinct_views(keys: Seq<String>) -> bool {
    forall|i: int, j: int| 0 <= i < j < keys.len() ==> keys[i]@ != keys[j]@
}

/// The map an association of keys and value sets stands for.
pub(crate) open spec fn assoc_model(keys: Seq<String>, sets: Seq<StringHashSet>) -> Map<
    Seq<char>,
    Set<Seq<char>>,
>
    decreases keys.len(),
{
    if keys.len() == 0 || keys.len() != sets.len() {
        Map::empty()
    } else {
        assoc_model(keys.drop_last(), sets.drop_last()).insert(keys.last()@, sets.last()@)
    }
}

/// A key of the association is in the map, with its own set.
proof fn lemma_assoc_lookup(keys: Seq<String>, sets: Seq<StringHashSet>, p: int)
    requires
        keys.len() == sets.len(),
        distinct_views(keys),
        0 <= p < keys.len(),
    ensures
        assoc_model(keys, sets).contains_key(keys[p]@),
        assoc_model(keys, sets)[keys[p]@] == sets[p]@,
    decreases keys.len(),
{
    if p < keys.len() - 1 {
        lemma_assoc_lookup(keys.drop_last(), sets.drop_last(), p);
    }
}

/// A text no key holds is not in the map.
proof fn lemma_assoc_absent(keys: Seq<String>, sets: Seq<StringHashSet>, k: Seq<char>)
    requires
        keys.len() == sets.len(),
        forall|i: int| 0 <= i < keys.len() ==> (#[trigger] keys[i])@ != k,
    ensures
        !assoc_model(keys, sets).contains_key(k),
    decreases keys.len(),
{
    if keys.len() > 0 {
        lemma_assoc_absent(keys.drop_last(), sets.drop_last(), k);
    }
}

/// Replacing the set at one position replaces that key's set in the map.
proof fn lemma_assoc_update(keys: Seq<String>, sets: Seq<StringHashSet>, p: int, s2: StringHashSet)
    requires
        keys.len() == sets.len(),
        distinct_views(keys),
        0 <= p < keys.len(),
    ensures
        assoc_model(keys, sets.update(p, s2)) =~= assoc_model(keys, sets).insert(keys[p]@, s2@),
    decreases keys.len(),
{
    let n = keys.len() - 1;
    if p == n {
        assert(sets.update(p, s2).drop_last() =~= sets.drop_last());
        assert(sets.update(p, s2).last() == s2);
    } else {
        lemma_assoc_update(keys.drop_last(), sets.drop_last(), p, s2);
        assert(sets.update(p, s2).drop_last() =~= sets.drop_last().update(p, s2));
        assert(sets.update(p, s2).last() == sets.last());
        assert(keys[p]@ != keys[n]@);
    }
}

/// Record one key/value pair in the association: the value joins the set of
/// its key, a new key opens a fresh set.
fn multi_add(keys: &mut Vec<String>, sets: &mut Vec<StringHashSet>, k: String, v: String)
    requires
        old(keys)@.len() == old(sets)@.len(),
        distinct_views(old(keys)@),
    ensures
        final(keys)@.len() == final(sets)@.len(),
        distinct_views(final(keys)@),
        assoc_model(final(keys)@, final(sets)@) =~= spec_multi_insert(
            assoc_model(old(keys)@, old(sets)@),
            k@,
            v@,
        ),
{
    let n = keys.len();
    let mut i: usize = 0;
    while i < n
        invariant
            n == keys@.len(),
            keys@ == old(keys)@,
            sets@ == old(sets)@,
            keys@.len() == sets@.len(),
            distinct_views(keys@),
            i <= n,
            forall|j: int| 0 <= j < i ==> (#[trigger] keys@[j])@ != k@,
        decreases n - i,
    {
        if keys[i].eq(&k) {
            let ghost sets0 = sets@;
            let mut s = sets.remove(i);
            s.insert(v);
            sets.insert(i, s);
            proof {
                assert(sets@ =~= sets0.update(i as int, sets@[i as int]));
                assert(sets@[i as int]@ == sets0[i as int]@.insert(v@));
                lemma_assoc_lookup(keys@, sets0, i as int);
                lemma_assoc_update(keys@, sets0, i as int, sets@[i as int]);
            }
            return ;
        }
        i += 1;
    }
    proof {
        lemma_assoc_absent(keys@, sets@, k@);
    }
    let ghost keys0 = keys@;
    let ghost sets0 = sets@;
    keys.push(k);
    let mut s = StringHashSet::new();
    s.insert(v);
    sets.push(s);
    proof {
        assert(keys@.drop_last() =~= keys0);
        assert(sets@.drop_last() =~= sets0);
        assert(sets@.last()@ =~= Set::empty().insert(v@));
    }
}

/// `multi_map_model` carried over one insertion.
proof fn lemma_multi_model_insert(m: Map<Seq<char>, StringHashSet>, k: Seq<char>, s: StringHashSet)
    ensures
        multi_map_model(m.insert(k, s)) =~= multi_map_model(m).insert(k, s@),
{
}

/// `one_map_model` carried over one insertion.
proof fn lemma_one_model_insert(m: Map<Seq<char>, String>, k: Seq<char>, s: String)
    ensures
        one_map_model(m.insert(k, s)) =~= one_map_model(m).insert(k, s@),
{
}

/// Build a one-to-many index from key/value pairs, pairs applied in order.
pub(crate) fn multi_index_of_pairs(pairs: &Vec<(String, String)>) -> (r: StringHashMap<
    StringHashSet,
>)
    ensures
        multi_map_model(r@) =~= spec_multi_of_pairs(pairs_model(pairs@)),
{
    let mut keys: Vec<String> = Vec::new();
    let mut sets: Vec<StringHashSet> = Vec::new();
    let mut i: usize = 0;
    while i < pairs.len()
        invariant
            i <= pairs@.len(),
            keys@.len() == sets@.len(),
            distinct_views(keys@),
            assoc_model(keys@, sets@) =~= spec_multi_of_pairs(pairs_model(pairs@).take(i as int)),
        decreases pairs@.len() - i,
    {
        let k = pairs[i].0.clone();
        let v = pairs[i].1.clone();
        multi_add(&mut keys, &mut sets, k, v);
        proof {
            assert(pairs_model(pairs@).take(i + 1 as int).drop_last() =~= pairs_model(
                pairs@,
            ).take(i as int));
        }
        i += 1;
    }
    proof {
        assert(pairs_model(pairs@).take(pairs@.len() as int) =~= pairs_model(pairs@));
    }
    let ghost keys0 = keys@;
    let ghost sets0 = sets@;
    let mut m = StringHashMap::<StringHashSet>::new();
    while keys.len() > 0
        invariant
            keys@.len() == sets@.len(),
            keys0.len() == sets0.len(),
            keys@.len() <= keys0.len(),
            keys@ =~= keys0.skip(keys0.len() - keys@.len()),
            sets@ =~= sets0.skip(keys0.len() - keys@.len()),
            multi_map_model(m@) =~= assoc_model(
                keys0.take(keys0.len() - keys@.len()),
                sets0.take(keys0.len() - keys@.len()),
            ),
        decreases keys@.len(),
    {
        let ghost c = keys0.len() - keys@.len();
        let k = keys.remove(0);
        let s = sets.remove(0);
        proof {
            assert(k == keys0[c]);
            assert(s == sets0[c]);
            assert(keys@ =~= keys0.skip(c + 1));
            assert(sets@ =~= sets0.skip(c + 1));
            lemma_multi_model_insert(m@, k@, s);
            assert(keys0.take(c + 1).drop_last() =~= keys0.take(c));
            assert(sets0.take(c + 1).drop_last() =~= sets0.take(c));
        }
        m.insert(k, s);
    }
    proof {
        assert(keys0.take(keys0.len() as int) =~= keys0);
        assert(sets0.take(sets0.len() as int) =~= sets0);
    }
    m
}

/// Build the one-to-one index from key/value pairs; the first pair that
/// carries a key fixes the key's value.
pub(crate) fn one_index_of_pairs(pairs: &Vec<(String, String)>) -> (r: StringHashMap<String>)
    ensures
        one_map_model(r@) =~= spec_one_of_pairs(pairs_model(pairs@)),
{
    let mut m = StringHashMap::<String>::new();
    let mut i: usize = 0;
    while i < pairs.len()
        invariant
            i <= pairs@.len(),
            one_map_model(m@) =~= spec_one_of_pairs(pairs_model(pairs@).take(i as int)),
        decreases pairs@.len() - i,
    {
        proof {
            assert(pairs_model(pairs@).take(i + 1 as int).drop_last() =~= pairs_model(
                pairs@,
            ).take(i as int));
        }
        if !m.contains_key(pairs[i].0.as_str()) {
            let k = pairs[i].0.clone();
            let v = pairs[i].1.clone();
            proof {
                lemma_one_model_insert(m@, k@, v);
            }
            m.insert(k, v);
        }
        i += 1;
    }
    proof {
        assert(pairs_model(pairs@).take(pairs@.len() as int) =~= pairs_model(pairs@));
    }
    m
}

} // verus!
