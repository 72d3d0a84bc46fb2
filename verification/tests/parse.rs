use gwasss::model::{CodedAllele, VariantIndices};
use gwasss::parse::{
    parse_line, split_line_to_variant, split_line_to_variant_using_idx, variant_with_coding,
    ParseError, COLUMNS,
};
use gwasss::record::Effect;

fn fields_of(columns: &[&str]) -> Vec<String> {
    columns.iter().map(|c| c.to_string()).collect()
}

#[test]
fn a_line_has_eight_columns() {
    assert_eq!(COLUMNS, 8);
}

#[test]
fn parse_line_reads_the_eight_columns() {
    let line = parse_line("rsX\t3\t12345\tG\tC\t0.5\t0.1\t0.02").unwrap();
    assert_eq!(line.variant.name, "rsX");
    assert_eq!(line.variant.chrom, "3");
    assert_eq!(line.variant.position, 12345);
    assert_eq!(line.variant.alleles.0, "G");
    assert_eq!(line.variant.alleles.1, "C");
    assert_eq!(line.coded_allele, CodedAllele::A2Coded);
    assert_eq!(line.effect, "0.5");
    assert_eq!(line.se, "0.1");
    assert_eq!(line.p, "0.02");
}

#[test]
fn parse_line_puts_the_alleles_in_upper_case() {
    let line = parse_line("rs7\tX\t99\tg\tacgt\t1\t2\t3").unwrap();
    assert_eq!(line.variant.alleles.0, "G");
    assert_eq!(line.variant.alleles.1, "ACGT");
    assert_eq!(line.coded_allele, CodedAllele::A2Coded);
    assert_eq!(line.variant.name, "rs7");
    assert_eq!(line.variant.chrom, "X");
}

#[test]
fn parse_line_leaves_name_and_chromosome_as_written() {
    let line = parse_line("rsabc\tchrx\t1\ta\tt\t1\t2\t3").unwrap();
    assert_eq!(line.variant.name, "rsabc");
    assert_eq!(line.variant.chrom, "chrx");
    assert_eq!(line.variant.alleles.0, "A");
    assert_eq!(line.variant.alleles.1, "T");
}

#[test]
fn the_coded_allele_is_found_among_the_alleles_after_upper_casing() {
    let same = parse_line("rs1\t1\t10\tg\tG\t1\t2\t3").unwrap();
    assert_eq!(same.variant.alleles.0, "G");
    assert_eq!(same.variant.alleles.1, "G");
    assert_eq!(same.coded_allele, CodedAllele::A1Coded);
    let other = parse_line("rs1\t1\t10\tG\tC\t1\t2\t3").unwrap();
    assert_eq!(other.coded_allele, CodedAllele::A2Coded);
}

#[test]
fn parse_line_does_not_read_further_columns() {
    let line = parse_line("rsX\t3\t12345\tG\tC\t0.5\t0.1\t0.02\textra\tmore").unwrap();
    assert_eq!(line.p, "0.02");
    assert_eq!(line.variant.position, 12345);
}

#[test]
fn parse_line_keeps_the_numbers_as_text() {
    let line = parse_line("rsX\t3\t12345\tG\tC\tnot a number\t\t1e-300").unwrap();
    assert_eq!(line.effect, "not a number");
    assert_eq!(line.se, "");
    assert_eq!(line.p, "1e-300");
}

#[test]
fn a_line_with_too_few_columns_is_refused() {
    assert_eq!(
        parse_line("rsX\t3\t12345\tG\tC\t0.5\t0.1").unwrap_err(),
        ParseError::MissingColumns
    );
    assert_eq!(parse_line("").unwrap_err(), ParseError::MissingColumns);
    assert_eq!(parse_line("rsX 3 12345 G C 0.5 0.1 0.02").unwrap_err(), ParseError::MissingColumns);
    assert_eq!(parse_line("bad\tposition").unwrap_err(), ParseError::MissingColumns);
}

#[test]
fn a_line_with_a_bad_position_is_refused() {
    for position in ["", "abc", "-5", "1.5", "4294967296", " 7"] {
        let line = format!("rsX\t3\t{}\tG\tC\t0.5\t0.1\t0.02", position);
        assert_eq!(parse_line(&line).unwrap_err(), ParseError::BadPosition);
    }
}

#[test]
fn with_numbers_completes_the_record() {
    let line = parse_line("rsX\t3\t12345\tG\tC\t0.5\t0.1\t0.02").unwrap();
    let stat = line
        .with_numbers(
            Some(0.5f32.to_bits()),
            Some(0.1f32.to_bits()),
            Some(0.02f32.to_bits()),
        )
        .unwrap();
    assert_eq!(stat.variant.name, "rsX");
    assert_eq!(stat.variant.position, 12345);
    assert_eq!(stat.coded_allele, CodedAllele::A2Coded);
    assert_eq!(stat.effect, Effect { bits: 0.5f32.to_bits(), reciprocal: false });
    assert_eq!(f32::from_bits(stat.se), 0.1);
    assert_eq!(f32::from_bits(stat.p), 0.02);
    assert_eq!(stat.get_coded_allele(), "C");
}

#[test]
fn with_numbers_refuses_a_missing_number() {
    let some = Some(1.0f32.to_bits());
    for (effect, se, p) in [
        (None, some, some),
        (some, None, some),
        (some, some, None),
        (None, None, None),
    ] {
        let line = parse_line("rsX\t3\t12345\tG\tC\tx\ty\tz").unwrap();
        assert_eq!(line.with_numbers(effect, se, p).unwrap_err(), ParseError::BadNumber);
    }
}

#[test]
fn variant_with_coding_keeps_the_order_of_the_alleles() {
    let (v, code) = variant_with_coding(
        "rs1".to_string(),
        "7".to_string(),
        42,
        "T".to_string(),
        "A".to_string(),
    );
    assert_eq!(v.name, "rs1");
    assert_eq!(v.chrom, "7");
    assert_eq!(v.position, 42);
    assert_eq!(v.alleles, ("T".to_string(), "A".to_string()));
    assert_eq!(code, CodedAllele::A2Coded);
    let (w, same) = variant_with_coding(
        "rs2".to_string(),
        "7".to_string(),
        43,
        "A".to_string(),
        "A".to_string(),
    );
    assert_eq!(w.alleles, ("A".to_string(), "A".to_string()));
    assert_eq!(same, CodedAllele::A1Coded);
}

#[test]
fn split_line_to_variant_reads_the_first_five_columns() {
    let (v, code) = split_line_to_variant(&fields_of(&["rs9", "12", "500", "c", "t"])).unwrap();
    assert_eq!(v.name, "rs9");
    assert_eq!(v.chrom, "12");
    assert_eq!(v.position, 500);
    assert_eq!(v.alleles, ("C".to_string(), "T".to_string()));
    assert_eq!(code, CodedAllele::A2Coded);
    assert_eq!(
        split_line_to_variant(&fields_of(&["rs9", "12", "500", "c"])).unwrap_err(),
        ParseError::MissingColumns
    );
    assert_eq!(
        split_line_to_variant(&fields_of(&["rs9", "12", "x", "c", "t"])).unwrap_err(),
        ParseError::BadPosition
    );
}

#[test]
fn split_line_to_variant_using_idx_reads_the_named_columns() {
    let idx = VariantIndices { name: 4, chrom: 0, pos: 1, a1: 3, a2: 2 };
    let fields = fields_of(&["22", "31", "a", "g", "rs5"]);
    let (v, code) = split_line_to_variant_using_idx(&fields, &idx).unwrap();
    assert_eq!(v.name, "rs5");
    assert_eq!(v.chrom, "22");
    assert_eq!(v.position, 31);
    assert_eq!(v.alleles, ("G".to_string(), "A".to_string()));
    assert_eq!(code, CodedAllele::A2Coded);
}

#[test]
fn split_line_to_variant_using_idx_refuses_a_column_that_is_not_there() {
    let fields = fields_of(&["rs5", "22", "31", "g", "a"]);
    for idx in [
        VariantIndices { name: 5, chrom: 1, pos: 2, a1: 3, a2: 4 },
        VariantIndices { name: 0, chrom: 5, pos: 2, a1: 3, a2: 4 },
        VariantIndices { name: 0, chrom: 1, pos: 5, a1: 3, a2: 4 },
        VariantIndices { name: 0, chrom: 1, pos: 2, a1: 5, a2: 4 },
        VariantIndices { name: 0, chrom: 1, pos: 2, a1: 3, a2: usize::MAX },
    ] {
        assert_eq!(
            split_line_to_variant_using_idx(&fields, &idx).unwrap_err(),
            ParseError::MissingColumns
        );
    }
    let empty: Vec<String> = Vec::new();
    let idx = VariantIndices { name: 0, chrom: 0, pos: 0, a1: 0, a2: 0 };
    assert_eq!(
        split_line_to_variant_using_idx(&empty, &idx).unwrap_err(),
        ParseError::MissingColumns
    );
}
