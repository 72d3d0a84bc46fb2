use gwasss::model::{CodedAllele, Component, Dataset, EffectType, Population, Sex};
use gwasss::record::{AssociationStat, Effect};
use gwasss::report::{header, row};
use gwasss::variant::Variant;

fn reported_component() -> Component {
    Component {
        trait_name: "any_stroke".to_string(),
        raw_url: None,
        formatted_file: "/data/stroke.tsv.gz".to_string(),
        population: Population::TRANS,
        sex: Sex::Female,
        effect_type: EffectType::HR,
        n_cases: Some(1),
        n_controls: Some(2),
        n: Some(3),
    }
}

fn reported_dataset() -> Dataset {
    Dataset {
        name: "megastroke_2018".to_string(),
        description: "strokes".to_string(),
        pmid: None,
        url: Some("http://example.org".to_string()),
        components: vec![reported_component()],
    }
}

fn reported_stat(coded: CodedAllele) -> AssociationStat {
    AssociationStat {
        variant: Variant::new(
            "rs42".to_string(),
            "17".to_string(),
            4000123,
            ("A".to_string(), "AT".to_string()),
        ),
        coded_allele: coded,
        effect: Effect::new(1.5f32.to_bits()),
        se: 0.25f32.to_bits(),
        p: 0.5f32.to_bits(),
    }
}

#[test]
fn the_header_names_thirteen_columns() {
    assert_eq!(
        header(),
        vec![
            "dataset_variant_name",
            "chrom",
            "pos",
            "reference_allele",
            "coded_allele",
            "dataset_name",
            "component_name",
            "population",
            "sex",
            "effect_type",
            "effect",
            "se",
            "p"
        ]
    );
}

#[test]
fn a_row_holds_the_record_in_the_order_of_the_header() {
    let r = row(
        &reported_dataset(),
        &reported_component(),
        &reported_stat(CodedAllele::A2Coded),
        "1.5",
        "0.25",
        "0.5",
    );
    assert_eq!(
        r,
        vec![
            "rs42",
            "17",
            "4000123",
            "A",
            "AT",
            "megastroke_2018",
            "any_stroke",
            "TRANS",
            "Female",
            "HR",
            "1.5",
            "0.25",
            "0.5"
        ]
    );
    assert_eq!(r.len(), header().len());
}

#[test]
fn a_row_puts_the_reference_allele_before_the_coded_one() {
    let r = row(
        &reported_dataset(),
        &reported_component(),
        &reported_stat(CodedAllele::A1Coded),
        "e",
        "s",
        "1e-9",
    );
    assert_eq!(r[3], "AT");
    assert_eq!(r[4], "A");
    assert_eq!(r[10], "e");
    assert_eq!(r[11], "s");
    assert_eq!(r[12], "1e-9");
}
