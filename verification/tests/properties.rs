use std::io::Write;

use hpo2gene_parser::mapper::base::parse_rows;
use hpo2gene_parser::mapper::{MapError, RawRow, RowPolicy};
use hpo2gene_parser::{GenePhenotypeMapping, GenePhenotypeMemoryMapper, GenePhenotypeStreamingMapper};

fn write_file(data: &str) -> tempfile::NamedTempFile {
    let mut file = tempfile::NamedTempFile::new().unwrap();
    file.as_file_mut().write_all(data.as_bytes()).unwrap();
    file
}

const HEADER: &str = "hpo_id\thpo_name\tncbi_gene_id\tgene_symbol\tdisease_id\n";

fn sample() -> String {
    format!(
        "{}{}{}{}",
        HEADER,
        "HP:0002188\tDelayed CNS myelination\t199857\tALG14\tOMIM:619031\n",
        "HP:0002188\tDelayed CNS myelination\t9131\tAIFM1\tOMIM:619036\n",
        "HP:0002188\tDelayed CNS myelination\t199857\tALG14\tOMIM:619036\n"
    )
}

#[test]
fn equivalence_of_strategies() {
    let file = write_file(&sample());
    let path = file.path().to_str().unwrap();
    let eager = GenePhenotypeMemoryMapper::from_file_with_policy(path, RowPolicy::Lenient).unwrap();
    let streaming =
        GenePhenotypeStreamingMapper::from_file_with_policy(path, RowPolicy::Lenient).unwrap();

    let a = eager.gene_to_hpo().unwrap();
    let b = streaming.gene_to_hpo().unwrap();
    assert_eq!(a.len(), b.len());
    for gene in ["ALG14", "AIFM1"] {
        let sa = a.get(gene).unwrap();
        let sb = b.get(gene).unwrap();
        assert_eq!(sa.len(), sb.len());
        assert!(sa.contains("HP:0002188") && sb.contains("HP:0002188"));
    }

    let a = eager.hpo_to_genes().unwrap();
    let b = streaming.hpo_to_genes().unwrap();
    assert_eq!(a.len(), b.len());
    assert_eq!(a.get("HP:0002188").unwrap().len(), b.get("HP:0002188").unwrap().len());

    let a = eager.gene_to_diseases().unwrap();
    let b = streaming.gene_to_diseases().unwrap();
    assert_eq!(a.len(), b.len());
    assert_eq!(a.get("ALG14").unwrap().len(), b.get("ALG14").unwrap().len());

    let a = eager.hpo_name_to_ncbi_ids().unwrap();
    let b = streaming.hpo_name_to_ncbi_ids().unwrap();
    assert_eq!(a.len(), b.len());
    assert_eq!(
        a.get("Delayed CNS myelination").unwrap().len(),
        b.get("Delayed CNS myelination").unwrap().len()
    );

    let a = eager.ncbi_to_symbol().unwrap();
    let b = streaming.ncbi_to_symbol().unwrap();
    assert_eq!(a.len(), b.len());
    assert_eq!(a.get("199857"), b.get("199857"));
    assert_eq!(a.get("9131"), b.get("9131"));
}

#[test]
fn repeated_queries_agree() {
    let file = write_file(&sample());
    let path = file.path().to_str().unwrap();
    let eager = GenePhenotypeMemoryMapper::from_file(path).unwrap();

    let first = eager.gene_to_hpo().unwrap();
    let second = eager.gene_to_hpo().unwrap();
    assert_eq!(first.len(), second.len());
    for gene in ["ALG14", "AIFM1"] {
        assert_eq!(first.get(gene).unwrap().len(), second.get(gene).unwrap().len());
        assert!(second.get(gene).unwrap().contains("HP:0002188"));
    }

    let first = eager.ncbi_to_symbol().unwrap();
    let second = eager.ncbi_to_symbol().unwrap();
    assert_eq!(first.len(), second.len());
    assert_eq!(first.get("199857"), second.get("199857"));

    let streaming = GenePhenotypeStreamingMapper::from_file(path).unwrap();
    let first = streaming.gene_to_diseases().unwrap();
    let second = streaming.gene_to_diseases().unwrap();
    assert_eq!(first.len(), second.len());
    assert_eq!(first.get("ALG14").unwrap().len(), second.get("ALG14").unwrap().len());
}

#[test]
fn set_semantics_deduplicates() {
    // The pair (ALG14, HP:0002188) comes from two rows; the value still stands
    // in the set once. ALG14 pairs with two distinct diseases, so that set has
    // two elements.
    let file = write_file(&sample());
    let path = file.path().to_str().unwrap();
    let mapper = GenePhenotypeMemoryMapper::from_file(path).unwrap();

    let gene_to_hpo = mapper.gene_to_hpo().unwrap();
    assert_eq!(gene_to_hpo.get("ALG14").unwrap().len(), 1);

    let gene_to_diseases = mapper.gene_to_diseases().unwrap();
    assert_eq!(gene_to_diseases.get("ALG14").unwrap().len(), 2);

    let hpo_name_to_ncbi = mapper.hpo_name_to_ncbi_ids().unwrap();
    assert_eq!(hpo_name_to_ncbi.get("Delayed CNS myelination").unwrap().len(), 2);
}

#[test]
fn first_write_wins() {
    let data = format!(
        "{}{}{}",
        HEADER,
        "HP:0002188\tDelayed CNS myelination\t199857\tALG14\tOMIM:619031\n",
        "HP:0003560\tMuscular dystrophy\t199857\tDMD\tOMIM:310200\n"
    );
    let file = write_file(&data);
    let path = file.path().to_str().unwrap();

    let eager = GenePhenotypeMemoryMapper::from_file(path).unwrap();
    let ncbi = eager.ncbi_to_symbol().unwrap();
    assert_eq!(ncbi.get("199857"), Some(&"ALG14".to_string()));

    let streaming = GenePhenotypeStreamingMapper::from_file(path).unwrap();
    let ncbi = streaming.ncbi_to_symbol().unwrap();
    assert_eq!(ncbi.get("199857"), Some(&"ALG14".to_string()));
}

#[test]
fn scenario_two_records() {
    let data = format!(
        "{}{}{}",
        HEADER,
        "HP:0002188\tDelayed CNS myelination\t199857\tALG14\tOMIM:619031\n",
        "HP:0002188\tDelayed CNS myelination\t9131\tAIFM1\tOMIM:619036\n"
    );
    let file = write_file(&data);
    let path = file.path().to_str().unwrap();
    let mapper = GenePhenotypeMemoryMapper::from_file(path).unwrap();

    let gene_to_hpo = mapper.gene_to_hpo().unwrap();
    let alg14_hpo = gene_to_hpo.get("ALG14").unwrap();
    assert_eq!(alg14_hpo.len(), 1);
    assert!(alg14_hpo.contains("HP:0002188"));

    let hpo_to_genes = mapper.hpo_to_genes().unwrap();
    let genes = hpo_to_genes.get("HP:0002188").unwrap();
    assert_eq!(genes.len(), 2);
    assert!(genes.contains("ALG14"));
    assert!(genes.contains("AIFM1"));

    let gene_to_diseases = mapper.gene_to_diseases().unwrap();
    let diseases = gene_to_diseases.get("ALG14").unwrap();
    assert_eq!(diseases.len(), 1);
    assert!(diseases.contains("OMIM:619031"));

    let hpo_name_to_ncbi = mapper.hpo_name_to_ncbi_ids().unwrap();
    let ids = hpo_name_to_ncbi.get("Delayed CNS myelination").unwrap();
    assert_eq!(ids.len(), 2);
    assert!(ids.contains("199857"));
    assert!(ids.contains("9131"));

    let ncbi_to_symbol = mapper.ncbi_to_symbol().unwrap();
    assert_eq!(ncbi_to_symbol.get("199857"), Some(&"ALG14".to_string()));
    assert_eq!(ncbi_to_symbol.get("9131"), Some(&"AIFM1".to_string()));
}

#[test]
fn malformed_row_strict_fails_every_query() {
    // The second data row has four columns.
    let data = format!(
        "{}{}{}{}",
        HEADER,
        "HP:0002188\tDelayed CNS myelination\t199857\tALG14\tOMIM:619031\n",
        "HP:0002188\tDelayed CNS myelination\t9131\tAIFM1\n",
        "HP:0002188\tDelayed CNS myelination\t199857\tALG14\tOMIM:619036\n"
    );
    let file = write_file(&data);
    let path = file.path().to_str().unwrap();

    assert_eq!(
        GenePhenotypeMemoryMapper::from_file(path).err().unwrap(),
        MapError::MalformedRow(1)
    );

    let streaming =
        GenePhenotypeStreamingMapper::from_file_with_policy(path, RowPolicy::Strict).unwrap();
    assert_eq!(streaming.gene_to_hpo().err().unwrap(), MapError::MalformedRow(1));
    assert_eq!(streaming.hpo_to_genes().err().unwrap(), MapError::MalformedRow(1));
    assert_eq!(streaming.gene_to_diseases().err().unwrap(), MapError::MalformedRow(1));
    assert_eq!(streaming.hpo_name_to_ncbi_ids().err().unwrap(), MapError::MalformedRow(1));
    assert_eq!(streaming.ncbi_to_symbol().err().unwrap(), MapError::MalformedRow(1));
}

#[test]
fn malformed_row_lenient_skips_only_that_row() {
    let data = format!(
        "{}{}{}{}",
        HEADER,
        "HP:0002188\tDelayed CNS myelination\t199857\tALG14\tOMIM:619031\n",
        "HP:0002188\tDelayed CNS myelination\t9131\tAIFM1\n",
        "HP:0003560\tMuscular dystrophy\t1756\tDMD\tOMIM:310200\n"
    );
    let file = write_file(&data);
    let path = file.path().to_str().unwrap();
    let mapper = GenePhenotypeStreamingMapper::from_file(path).unwrap();

    let gene_to_hpo = mapper.gene_to_hpo().unwrap();
    assert_eq!(gene_to_hpo.len(), 2);
    assert!(gene_to_hpo.contains_key("ALG14"));
    assert!(gene_to_hpo.contains_key("DMD"));
    assert!(!gene_to_hpo.contains_key("AIFM1"));

    let ncbi_to_symbol = mapper.ncbi_to_symbol().unwrap();
    assert_eq!(ncbi_to_symbol.len(), 2);
    assert!(ncbi_to_symbol.get("9131").is_none());
}

#[test]
fn invalid_identifier_is_policy_gated() {
    // The first data row's disease identifier has no delimiter, so it fails
    // ontology-identifier validation.
    let data = format!(
        "{}{}{}",
        HEADER,
        "HP:0002188\tDelayed CNS myelination\t199857\tALG14\tnot a curie\n",
        "HP:0003560\tMuscular dystrophy\t1756\tDMD\tOMIM:310200\n"
    );
    let file = write_file(&data);
    let path = file.path().to_str().unwrap();

    assert_eq!(
        GenePhenotypeMemoryMapper::from_file(path).err().unwrap(),
        MapError::InvalidIdentifier(0)
    );

    let lenient = GenePhenotypeMemoryMapper::from_file_with_policy(path, RowPolicy::Lenient)
        .unwrap();
    let gene_to_hpo = lenient.gene_to_hpo().unwrap();
    assert_eq!(gene_to_hpo.len(), 1);
    assert!(gene_to_hpo.contains_key("DMD"));
}

#[test]
fn source_unavailable_propagates() {
    let missing = "/this/path/does/not/exist/phenotype_to_genes.txt";
    assert!(matches!(
        GenePhenotypeMemoryMapper::from_file(missing).err().unwrap(),
        MapError::SourceUnavailable(_)
    ));

    let streaming = GenePhenotypeStreamingMapper::from_file(missing).unwrap();
    assert!(matches!(streaming.gene_to_hpo().err().unwrap(), MapError::SourceUnavailable(_)));
    assert!(matches!(streaming.ncbi_to_symbol().err().unwrap(), MapError::SourceUnavailable(_)));
}

#[test]
fn header_only_source_gives_empty_indices() {
    let file = write_file(HEADER);
    let path = file.path().to_str().unwrap();
    let mapper = GenePhenotypeMemoryMapper::from_file(path).unwrap();
    assert_eq!(mapper.gene_to_hpo().unwrap().len(), 0);
    assert_eq!(mapper.hpo_to_genes().unwrap().len(), 0);
    assert_eq!(mapper.gene_to_diseases().unwrap().len(), 0);
    assert_eq!(mapper.hpo_name_to_ncbi_ids().unwrap().len(), 0);
    assert_eq!(mapper.ncbi_to_symbol().unwrap().len(), 0);
}

#[test]
fn identifiers_are_canonicalized() {
    // The identifier parser accepts an underscore delimiter and writes the
    // canonical colon form; the index keys carry the canonical text.
    let data = format!(
        "{}{}",
        HEADER,
        "HP_0002188\tDelayed CNS myelination\t199857\tALG14\tOMIM_619031\n"
    );
    let file = write_file(&data);
    let path = file.path().to_str().unwrap();
    let mapper = GenePhenotypeMemoryMapper::from_file(path).unwrap();

    let hpo_to_genes = mapper.hpo_to_genes().unwrap();
    assert!(hpo_to_genes.contains_key("HP:0002188"));
    assert!(!hpo_to_genes.contains_key("HP_0002188"));

    let gene_to_diseases = mapper.gene_to_diseases().unwrap();
    assert!(gene_to_diseases.get("ALG14").unwrap().contains("OMIM:619031"));
}

#[test]
fn parse_rows_reports_first_bad_row() {
    let good = RawRow::Fields(vec![
        "HP:0002188".to_string(),
        "Delayed CNS myelination".to_string(),
        "199857".to_string(),
        "ALG14".to_string(),
        "OMIM:619031".to_string(),
    ]);
    let short = RawRow::Fields(vec!["HP:0002188".to_string(), "x".to_string()]);
    let bad_id = RawRow::Fields(vec![
        "nodelimiter".to_string(),
        "name".to_string(),
        "1".to_string(),
        "GENE".to_string(),
        "OMIM:619031".to_string(),
    ]);
    let unreadable = RawRow::Unreadable("broken line".to_string());

    let rows = vec![good, short, bad_id, unreadable];
    assert_eq!(parse_rows(&rows, RowPolicy::Strict).err().unwrap(), MapError::MalformedRow(1));

    let records = parse_rows(&rows, RowPolicy::Lenient).unwrap();
    assert_eq!(records.len(), 1);
    assert_eq!(records[0].hpo_id.as_str(), "HP:0002188");
    assert_eq!(records[0].gene_symbol, "ALG14");

    let rows2 = vec![
        RawRow::Fields(vec![
            "nodelimiter".to_string(),
            "name".to_string(),
            "1".to_string(),
            "GENE".to_string(),
            "OMIM:619031".to_string(),
        ]),
    ];
    assert_eq!(parse_rows(&rows2, RowPolicy::Strict).err().unwrap(), MapError::InvalidIdentifier(0));
}

#[test]
fn non_ascii_identifier_is_invalid() {
    // The identifier parser's boundary admits only ASCII texts: a prefix with
    // a non-ASCII character is rejected as an invalid identifier instead of
    // being handed to the parser.
    let data = format!(
        "{}{}{}",
        HEADER,
        "\u{e9}:1\tname\t1\tGENE\tOMIM:619031\n",
        "HP:0003560\tMuscular dystrophy\t1756\tDMD\tOMIM:310200\n"
    );
    let file = write_file(&data);
    let path = file.path().to_str().unwrap();

    assert_eq!(
        GenePhenotypeMemoryMapper::from_file(path).err().unwrap(),
        MapError::InvalidIdentifier(0)
    );

    let lenient = GenePhenotypeStreamingMapper::from_file(path).unwrap();
    let gene_to_hpo = lenient.gene_to_hpo().unwrap();
    assert_eq!(gene_to_hpo.len(), 1);
    assert!(gene_to_hpo.contains_key("DMD"));
}

#[test]
fn overlong_identifier_is_invalid() {
    // An identifier text over 255 characters lies outside the validation
    // boundary and is rejected as invalid, whatever it holds.
    let long_id = format!("XX:{}", "7".repeat(300));
    let data = format!(
        "{}{}\tname\t1\tGENE\tOMIM:619031\n{}",
        HEADER, long_id, "HP:0003560\tMuscular dystrophy\t1756\tDMD\tOMIM:310200\n"
    );
    let file = write_file(&data);
    let path = file.path().to_str().unwrap();

    assert_eq!(
        GenePhenotypeMemoryMapper::from_file(path).err().unwrap(),
        MapError::InvalidIdentifier(0)
    );

    let lenient = GenePhenotypeMemoryMapper::from_file_with_policy(path, RowPolicy::Lenient)
        .unwrap();
    let ncbi = lenient.ncbi_to_symbol().unwrap();
    assert_eq!(ncbi.len(), 1);
    assert_eq!(ncbi.get("1756"), Some(&"DMD".to_string()));
}
