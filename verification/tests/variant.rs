use gwasss::variant::Variant;

fn variant_of(name: &str, chrom: &str, position: u32, a0: &str, a1: &str) -> Variant {
    Variant::new(
        name.to_string(),
        chrom.to_string(),
        position,
        (a0.to_string(), a1.to_string()),
    )
}

#[test]
fn new_keeps_the_fields_as_given() {
    let v = variant_of("rs1", "3", 12345, "G", "C");
    assert_eq!(v.name, "rs1");
    assert_eq!(v.chrom, "3");
    assert_eq!(v.position, 12345);
    assert_eq!(v.alleles.0, "G");
    assert_eq!(v.alleles.1, "C");
}

#[test]
fn variants_with_swapped_alleles_are_equal() {
    let v1 = variant_of("rs1", "3", 12345, "G", "C");
    let v2 = variant_of("rs1", "3", 12345, "C", "G");
    assert!(v1 == v2);
    assert!(v2 == v1);
}

#[test]
fn the_name_is_no_part_of_equality() {
    let v1 = variant_of("rs1", "3", 12345, "G", "C");
    let v2 = variant_of("", "3", 12345, "G", "C");
    let v3 = variant_of("another", "3", 12345, "C", "G");
    assert!(v1 == v2);
    assert!(v1 == v3);
}

#[test]
fn variants_differ_by_chromosome_position_or_alleles() {
    let v = variant_of("rs1", "3", 12345, "G", "C");
    assert!(v != variant_of("rs1", "4", 12345, "G", "C"));
    assert!(v != variant_of("rs1", "3", 12346, "G", "C"));
    assert!(v != variant_of("rs1", "3", 12345, "G", "T"));
    assert!(v != variant_of("rs1", "3", 12345, "A", "C"));
    assert!(v != variant_of("rs1", "3", 12345, "G", "G"));
    assert!(v != variant_of("rs1", "3", 12345, "C", "C"));
}

#[test]
fn equality_takes_alleles_as_they_are_written() {
    let v = variant_of("rs1", "3", 12345, "G", "C");
    assert!(v != variant_of("rs1", "3", 12345, "g", "c"));
    assert!(v != variant_of("rs1", "chr3", 12345, "G", "C"));
}

#[test]
fn multi_character_alleles_match_as_a_set() {
    let v1 = variant_of("indel", "X", 77, "AT", "A");
    let v2 = variant_of("indel", "X", 77, "A", "AT");
    let v3 = variant_of("indel", "X", 77, "A", "TA");
    assert!(v1 == v2);
    assert!(v1 != v3);
}

#[test]
fn a_doubled_allele_equals_only_itself() {
    let v = variant_of("odd", "1", 5, "G", "G");
    assert!(v == variant_of("odd", "1", 5, "G", "G"));
    assert!(v != variant_of("odd", "1", 5, "G", "C"));
}

#[test]
fn is_allele_knows_both_alleles_and_no_other() {
    let v = variant_of("rs1", "3", 12345, "G", "C");
    assert!(v.is_allele("G"));
    assert!(v.is_allele("C"));
    assert!(!v.is_allele("T"));
    assert!(!v.is_allele("g"));
    assert!(!v.is_allele(""));
    assert!(!v.is_allele("GC"));
}

#[test]
fn clone_gives_an_equal_variant_with_the_same_name() {
    let v = variant_of("rs1", "3", 12345, "G", "C");
    let w = v.clone();
    assert!(v == w);
    assert_eq!(w.name, "rs1");
    assert_eq!(w.alleles.0, "G");
    assert_eq!(w.alleles.1, "C");
}
