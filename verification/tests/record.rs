use gwasss::model::{CodedAllele, EffectType};
use gwasss::record::{negate, AssociationStat, Effect, HarmonizeError, SIGN_BIT};
use gwasss::variant::Variant;

fn stat_of(a0: &str, a1: &str, coded: CodedAllele, effect: f32) -> AssociationStat {
    AssociationStat {
        variant: Variant::new(
            "rsX".to_string(),
            "3".to_string(),
            12345,
            (a0.to_string(), a1.to_string()),
        ),
        coded_allele: coded,
        effect: Effect::new(effect.to_bits()),
        se: 0.1f32.to_bits(),
        p: 0.02f32.to_bits(),
    }
}

fn value_of(effect: &Effect) -> f32 {
    let x = f32::from_bits(effect.bits);
    if effect.reciprocal {
        (-x.ln()).exp()
    } else {
        x
    }
}

fn same_stat(a: &AssociationStat, b: &AssociationStat) -> bool {
    a.variant.name == b.variant.name
        && a.variant.chrom == b.variant.chrom
        && a.variant.position == b.variant.position
        && a.variant.alleles == b.variant.alleles
        && a.coded_allele == b.coded_allele
        && a.effect == b.effect
        && a.se == b.se
        && a.p == b.p
}

#[test]
fn negate_toggles_the_sign_bit() {
    assert_eq!(SIGN_BIT, 0x8000_0000);
    assert_eq!(negate(0.5f32.to_bits()), (-0.5f32).to_bits());
    assert_eq!(negate((-0.5f32).to_bits()), 0.5f32.to_bits());
    assert_eq!(negate(0.0f32.to_bits()), (-0.0f32).to_bits());
    assert_eq!(negate(f32::INFINITY.to_bits()), f32::NEG_INFINITY.to_bits());
    assert_eq!(negate(0), 0x8000_0000);
    assert_eq!(negate(0xffff_ffff), 0x7fff_ffff);
}

#[test]
fn negate_agrees_with_the_sign_change_of_numbers() {
    for x in [1.0f32, -2.5, 3.25e-12, 1.0e30, f32::MIN_POSITIVE, f32::MAX, f32::NAN] {
        assert_eq!(negate(x.to_bits()), (-x).to_bits());
    }
}

#[test]
fn coded_and_reference_allele_follow_the_slot() {
    let first = stat_of("G", "C", CodedAllele::A1Coded, 0.5);
    assert_eq!(first.get_coded_allele(), "G");
    assert_eq!(first.get_reference_allele(), "C");
    let second = stat_of("G", "C", CodedAllele::A2Coded, 0.5);
    assert_eq!(second.get_coded_allele(), "C");
    assert_eq!(second.get_reference_allele(), "G");
}

#[test]
fn flipping_a_beta_changes_the_sign_of_the_effect() {
    let mut stat = stat_of("G", "C", CodedAllele::A2Coded, 0.5);
    stat.flip_coded_allele(&EffectType::Beta);
    assert_eq!(stat.coded_allele, CodedAllele::A1Coded);
    assert_eq!(stat.effect.bits, (-0.5f32).to_bits());
    assert!(!stat.effect.reciprocal);
    assert_eq!(value_of(&stat.effect), -0.5);
    assert_eq!(stat.se, 0.1f32.to_bits());
    assert_eq!(stat.p, 0.02f32.to_bits());
    assert_eq!(stat.get_coded_allele(), "G");
}

#[test]
fn flipping_a_beta_twice_gives_the_record_back() {
    let before = stat_of("G", "C", CodedAllele::A2Coded, -1.75);
    let mut stat = before.clone();
    stat.flip_coded_allele(&EffectType::Beta);
    assert!(!same_stat(&stat, &before));
    stat.flip_coded_allele(&EffectType::Beta);
    assert!(same_stat(&stat, &before));
}

#[test]
fn flipping_a_ratio_marks_the_reciprocal() {
    for effect_type in [EffectType::OR, EffectType::HR] {
        let mut stat = stat_of("G", "C", CodedAllele::A1Coded, 1.25);
        stat.flip_coded_allele(&effect_type);
        assert_eq!(stat.coded_allele, CodedAllele::A2Coded);
        assert_eq!(stat.effect.bits, 1.25f32.to_bits());
        assert!(stat.effect.reciprocal);
    }
}

#[test]
fn a_flipped_ratio_is_the_reciprocal_within_tolerance() {
    for x in [1.25f32, 0.8, 2.0, 0.013, 37.5, 1.0] {
        let mut stat = stat_of("G", "C", CodedAllele::A1Coded, x);
        stat.flip_coded_allele(&EffectType::OR);
        let flipped = value_of(&stat.effect);
        let expected = 1.0 / x;
        assert!(((flipped - expected) / expected).abs() < 1e-5);
    }
}

#[test]
fn flipping_a_ratio_twice_gives_the_record_back() {
    for effect_type in [EffectType::OR, EffectType::HR] {
        let before = stat_of("G", "C", CodedAllele::A1Coded, 1.25);
        let mut stat = before.clone();
        stat.flip_coded_allele(&effect_type);
        stat.flip_coded_allele(&effect_type);
        assert!(same_stat(&stat, &before));
        assert_eq!(value_of(&stat.effect), 1.25);
    }
}

#[test]
fn harmonizing_to_the_coded_allele_changes_nothing() {
    for effect_type in [EffectType::Beta, EffectType::OR, EffectType::HR, EffectType::Other] {
        for coded in [CodedAllele::A1Coded, CodedAllele::A2Coded] {
            let before = stat_of("G", "C", coded, 0.5);
            let own = before.get_coded_allele().to_string();
            let harmonized = before.clone().harmonize(&own, &effect_type).unwrap();
            assert!(same_stat(&harmonized, &before));
        }
    }
}

#[test]
fn harmonizing_to_the_other_allele_flips() {
    let stat = stat_of("G", "C", CodedAllele::A2Coded, 0.5);
    let harmonized = stat.harmonize("G", &EffectType::Beta).unwrap();
    assert_eq!(harmonized.get_coded_allele(), "G");
    assert_eq!(harmonized.get_reference_allele(), "C");
    assert_eq!(harmonized.coded_allele, CodedAllele::A1Coded);
    assert_eq!(f32::from_bits(harmonized.effect.bits), -0.5);
}

#[test]
fn harmonizing_there_and_back_gives_the_record_back() {
    for effect_type in [EffectType::Beta, EffectType::OR, EffectType::HR] {
        let before = stat_of("G", "C", CodedAllele::A2Coded, 0.5);
        let there = before.clone().harmonize("G", &effect_type).unwrap();
        assert_eq!(there.get_coded_allele(), "G");
        let back = there.harmonize("C", &effect_type).unwrap();
        assert!(same_stat(&back, &before));
    }
}

#[test]
fn harmonizing_refuses_an_allele_of_another_variant() {
    for effect_type in [EffectType::Beta, EffectType::OR, EffectType::HR, EffectType::Other] {
        let stat = stat_of("G", "C", CodedAllele::A2Coded, 0.5);
        assert_eq!(stat.harmonize("T", &effect_type).unwrap_err(), HarmonizeError::BadInput);
    }
    let stat = stat_of("G", "C", CodedAllele::A2Coded, 0.5);
    assert_eq!(stat.harmonize("g", &EffectType::Beta).unwrap_err(), HarmonizeError::BadInput);
}

#[test]
fn harmonizing_refuses_a_flip_without_meaning() {
    let stat = stat_of("G", "C", CodedAllele::A2Coded, 0.5);
    assert_eq!(
        stat.harmonize("G", &EffectType::Other).unwrap_err(),
        HarmonizeError::UndefinedFlip
    );
}

#[test]
fn harmonizing_a_doubled_allele_never_flips() {
    for coded in [CodedAllele::A1Coded, CodedAllele::A2Coded] {
        let before = stat_of("G", "G", coded, 0.5);
        let harmonized = before.clone().harmonize("G", &EffectType::Other).unwrap();
        assert!(same_stat(&harmonized, &before));
    }
}

#[test]
fn effect_flip_follows_the_scale() {
    let e = Effect::new(2.0f32.to_bits());
    assert_eq!(e, Effect { bits: 2.0f32.to_bits(), reciprocal: false });
    assert_eq!(
        e.flip(&EffectType::Beta),
        Effect { bits: (-2.0f32).to_bits(), reciprocal: false }
    );
    assert_eq!(e.flip(&EffectType::OR), Effect { bits: 2.0f32.to_bits(), reciprocal: true });
    assert_eq!(e.flip(&EffectType::HR), Effect { bits: 2.0f32.to_bits(), reciprocal: true });
    assert_eq!(e.flip(&EffectType::HR).flip(&EffectType::HR), e);
}
