//! Association records: a variant, the allele that the effect is coded for,
//! and three numbers, each held by the bit pattern of a single-precision
//! number (IEEE 754 binary32).

use crate::model::{CodedAllele, EffectType};
use crate::text::same_text;
use crate::variant::{Variant, VariantView};
use vstd::prelude::*;

verus! {

/// The sign bit of a single-precision number.
pub const SIGN_BIT: u32 = 0x8000_0000;

/// The bit pattern of the number with the opposite sign: the sign bit is
/// toggled and the other 31 bits stay.
pub open spec fn negated(bits: u32) -> u32 {
    bits ^ 0x8000_0000u32
}

/// Changes the sign of a number held by its bit pattern.
pub fn negate(bits: u32) -> (r: u32)
    ensures
        r == negated(bits),
{
    bits ^ SIGN_BIT
}

/// An effect size.
///
/// `bits` is the bit pattern of a single-precision number `x`. The effect is
/// `x` itself, or, where `reciprocal` is set, the ratio turned round by way of
/// the logarithm: `exp(-ln(x))`. The library never evaluates a logarithm; it
/// records that the reciprocal is due and leaves the arithmetic to the caller.
#[derive(Debug, Clone, Copy, PartialEq, Eq, Structural)]
pub struct Effect {
    pub bits: u32,
    pub reciprocal: bool,
}

impl Effect {
    /// The effect with respect to the other allele: a linear effect changes
    /// its sign, a ratio becomes its reciprocal. On a scale where this has no
    /// meaning the effect stays.
    pub open spec fn flipped(self, effect_type: EffectType) -> Effect {
        match effect_type {
            EffectType::Beta => Effect { bits: negated(self.bits), reciprocal: self.reciprocal },
            EffectType::OR | EffectType::HR => Effect {
                bits: self.bits,
                reciprocal: !self.reciprocal,
            },
            EffectType::Other => self,
        }
    }

    /// An effect as it was read.
    pub fn new(bits: u32) -> (r: Effect)
        ensures
            r == (Effect { bits, reciprocal: false }),
    {
        Effect { bits, reciprocal: false }
    }

    /// Expresses the effect with respect to the other allele.
    pub fn flip(self, effect_type: &EffectType) -> (r: Effect)
        requires
            *effect_type != EffectType::Other,
        ensures
            r == self.flipped(*effect_type),
    {
        match effect_type {
            EffectType::Beta => Effect { bits: negate(self.bits), reciprocal: self.reciprocal },
            _ => Effect { bits: self.bits, reciprocal: !self.reciprocal },
        }
    }
}

/// Why a record could not be expressed for a requested allele.
#[derive(Debug, Clone, Copy, PartialEq, Eq, Structural)]
pub enum HarmonizeError {
    /// The requested allele is none of the variant's two alleles.
    BadInput,
    /// The coded allele would have to change, on a scale where that has no
    /// meaning.
    UndefinedFlip,
}

/// One line of summary statistics.
#[derive(Debug, Clone)]
pub struct AssociationStat {
    pub variant: Variant,
    pub coded_allele: CodedAllele,
    pub effect: Effect,
    pub se: u32,
    pub p: u32,
}

/// What an association record holds, as mathematical values.
pub struct AssociationStatView {
    pub variant: VariantView,
    pub coded_allele: CodedAllele,
    pub effect: Effect,
    pub se: u32,
    pub p: u32,
}

impl View for AssociationStat {
    type V = AssociationStatView;

    open spec fn view(&self) -> AssociationStatView {
        AssociationStatView {
            variant: self.variant@,
            coded_allele: self.coded_allele,
            effect: self.effect,
            se: self.se,
            p: self.p,
        }
    }
}

impl AssociationStatView {
    /// The allele that the effect is reported for.
    pub open spec fn coded(self) -> Seq<char> {
        match self.coded_allele {
            CodedAllele::A1Coded => self.variant.alleles.0,
            CodedAllele::A2Coded => self.variant.alleles.1,
        }
    }

    /// The allele that the effect is not reported for.
    pub open spec fn reference(self) -> Seq<char> {
        match self.coded_allele {
            CodedAllele::A1Coded => self.variant.alleles.1,
            CodedAllele::A2Coded => self.variant.alleles.0,
        }
    }

    /// The record with the other allele coded and the effect turned to it.
    pub open spec fn flipped(self, effect_type: EffectType) -> AssociationStatView {
        AssociationStatView {
            coded_allele: self.coded_allele.other(),
            effect: self.effect.flipped(effect_type),
            ..self
        }
    }

    /// The record expressed for `requested`: unchanged where that allele is
    /// coded already, flipped where the other one is.
    pub open spec fn harmonized(self, requested: Seq<char>, effect_type: EffectType) -> Result<
        AssociationStatView,
        HarmonizeError,
    > {
        if !self.variant.has_allele(requested) {
            Err(HarmonizeError::BadInput)
        } else if self.coded() == requested {
            Ok(self)
        } else if effect_type == EffectType::Other {
            Err(HarmonizeError::UndefinedFlip)
        } else {
            Ok(self.flipped(effect_type))
        }
    }
}

impl AssociationStat {
    /// The allele that the effect is not reported for.
    pub fn get_reference_allele(&self) -> (r: &str)
        ensures
            r@ == self@.reference(),
    {
        match self.coded_allele {
            CodedAllele::A1Coded => self.variant.alleles.1.as_str(),
            CodedAllele::A2Coded => self.variant.alleles.0.as_str(),
        }
    }

    /// The allele that the effect is reported for.
    pub fn get_coded_allele(&self) -> (r: &str)
        ensures
            r@ == self@.coded(),
    {
        match self.coded_allele {
            CodedAllele::A1Coded => self.variant.alleles.0.as_str(),
            CodedAllele::A2Coded => self.variant.alleles.1.as_str(),
        }
    }

    /// Makes the other allele the coded one and turns the effect to it.
    ///
    /// The scale must be one on which that has a meaning.
    pub fn flip_coded_allele(&mut self, effect_type: &EffectType)
        requires
            *effect_type != EffectType::Other,
        ensures
            final(self)@ == old(self)@.flipped(*effect_type),
            final(self).variant == old(self).variant,
    {
        self.effect = self.effect.flip(effect_type);
        self.coded_allele = self.coded_allele.toggled();
    }

    /// Expresses the record for the requested coded allele.
    ///
    /// A record that is coded for that allele already comes back as it is;
    /// one coded for the other allele is flipped. An allele that the variant
    /// does not have is refused, and so is a flip on a scale without meaning.
    pub fn harmonize(self, requested_coded_allele: &str, effect_type: &EffectType) -> (r: Result<
        AssociationStat,
        HarmonizeError,
    >)
        ensures
            match self@.harmonized(requested_coded_allele@, *effect_type) {
                Ok(v) => r is Ok && r->Ok_0@ == v && r->Ok_0.variant == self.variant,
                Err(e) => r == Err::<AssociationStat, HarmonizeError>(e),
            },
            self@.coded() == requested_coded_allele@ ==> r == Ok::<
                AssociationStat,
                HarmonizeError,
            >(self),
            r is Ok ==> r->Ok_0@.coded() == requested_coded_allele@,
    {
        if !self.variant.is_allele(requested_coded_allele) {
            return Err(HarmonizeError::BadInput);
        }
        if same_text(self.get_coded_allele(), requested_coded_allele) {
            return Ok(self);
        }
        match effect_type {
            EffectType::Other => Err(HarmonizeError::UndefinedFlip),
            _ => {
                let mut stat = self;
                stat.flip_coded_allele(effect_type);
                Ok(stat)
            },
        }
    }
}

/// Changing the sign toggles the sign bit and leaves the magnitude alone.
pub proof fn lemma_negated_bits(bits: u32)
    ensures
        negated(bits) & 0x7fff_ffffu32 == bits & 0x7fff_ffffu32,
        negated(bits) & 0x8000_0000u32 != bits & 0x8000_0000u32,
        negated(negated(bits)) == bits,
{
    assert((bits ^ 0x8000_0000u32) & 0x7fff_ffffu32 == bits & 0x7fff_ffffu32) by (bit_vector);
    assert((bits ^ 0x8000_0000u32) & 0x8000_0000u32 != bits & 0x8000_0000u32) by (bit_vector);
    assert((bits ^ 0x8000_0000u32) ^ 0x8000_0000u32 == bits) by (bit_vector);
}

/// Expressing a record for the allele that it is coded for changes nothing,
/// whatever the scale of the effect.
pub proof fn lemma_harmonize_to_own_allele(record: AssociationStatView, effect_type: EffectType)
    ensures
        record.harmonized(record.coded(), effect_type) == Ok::<
            AssociationStatView,
            HarmonizeError,
        >(record),
{
}

/// A record that was harmonized is coded for the allele that was asked for.
pub proof fn lemma_harmonized_is_coded_for_requested(
    record: AssociationStatView,
    requested: Seq<char>,
    effect_type: EffectType,
)
    requires
        record.harmonized(requested, effect_type) is Ok,
    ensures
        record.harmonized(requested, effect_type)->Ok_0.coded() == requested,
{
}

/// Harmonizing refuses exactly the alleles that the variant does not have,
/// and a change of allele on a scale where it has no meaning.
pub proof fn lemma_harmonize_errors(
    record: AssociationStatView,
    requested: Seq<char>,
    effect_type: EffectType,
)
    ensures
        record.harmonized(requested, effect_type) == Err::<AssociationStatView, HarmonizeError>(
            HarmonizeError::BadInput,
        ) <==> !record.variant.has_allele(requested),
        record.harmonized(requested, effect_type) == Err::<AssociationStatView, HarmonizeError>(
            HarmonizeError::UndefinedFlip,
        ) <==> (record.reference() == requested && record.coded() != requested && effect_type
            == EffectType::Other),
{
}

/// Flipping twice gives the record back, on every scale.
pub proof fn lemma_flip_twice(record: AssociationStatView, effect_type: EffectType)
    ensures
        record.flipped(effect_type).flipped(effect_type) == record,
{
    lemma_negated_bits(record.effect.bits);
}

/// Harmonizing toward one allele and then toward the other gives the record
/// back, where the scale allows a flip.
pub proof fn lemma_harmonize_there_and_back(
    record: AssociationStatView,
    effect_type: EffectType,
)
    requires
        effect_type != EffectType::Other,
    ensures
        record.harmonized(record.reference(), effect_type) is Ok,
        record.harmonized(record.reference(), effect_type)->Ok_0.harmonized(
            record.coded(),
            effect_type,
        ) == Ok::<AssociationStatView, HarmonizeError>(record),
{
    lemma_flip_twice(record, effect_type);
}

/// Flipping a linear effect changes its sign and nothing else of the number:
/// the standard error and the p-value stay, and so does the variant.
pub proof fn lemma_flip_beta(record: AssociationStatView)
    ensures
        record.flipped(EffectType::Beta).effect.bits == negated(record.effect.bits),
        record.flipped(EffectType::Beta).effect.reciprocal == record.effect.reciprocal,
        record.flipped(EffectType::Beta).se == record.se,
        record.flipped(EffectType::Beta).p == record.p,
        record.flipped(EffectType::Beta).variant == record.variant,
        record.flipped(EffectType::Beta).coded() == record.reference(),
{
}

/// Flipping a ratio keeps the stored number and marks it as a reciprocal, or
/// takes the mark off again.
pub proof fn lemma_flip_ratio(record: AssociationStatView, effect_type: EffectType)
    requires
        effect_type.is_ratio(),
    ensures
        record.flipped(effect_type).effect.bits == record.effect.bits,
        record.flipped(effect_type).effect.reciprocal == !record.effect.reciprocal,
        record.flipped(effect_type).coded() == record.reference(),
{
}

} // verus!
