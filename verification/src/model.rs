//! Datasets, their components and the small enumerations that describe them.

use vstd::prelude::*;

verus! {

/// The scale on which a component reports its effects.
#[derive(Debug, Clone, Copy, PartialEq, Eq, Structural)]
pub enum EffectType {
    /// A linear effect.
    Beta,
    /// An odds ratio.
    OR,
    /// A hazard ratio.
    HR,
    /// A scale on which changing the coded allele has no meaning.
    Other,
}

#[derive(Debug, Clone, Copy, PartialEq, Eq, Structural)]
pub enum Sex {
    Male,
    Female,
    Both,
}

#[derive(Debug, Clone, Copy, PartialEq, Eq, Structural)]
pub enum Population {
    EUR,
    AIS,
    AFR,
    TRANS,
}

/// Which of a variant's two alleles an effect is reported for.
#[derive(Debug, Clone, Copy, PartialEq, Eq, Structural)]
pub enum CodedAllele {
    /// The first allele of the pair.
    A1Coded,
    /// The second allele of the pair.
    A2Coded,
}

impl Default for Sex {
    fn default() -> (r: Sex)
        ensures
            r == Sex::Both,
    {
        Sex::Both
    }
}

impl Default for Population {
    fn default() -> (r: Population)
        ensures
            r == Population::EUR,
    {
        Population::EUR
    }
}

impl EffectType {
    /// The name of the variant, as it is written in manifests and reports.
    pub open spec fn label(self) -> Seq<char> {
        match self {
            EffectType::Beta => "Beta"@,
            EffectType::OR => "OR"@,
            EffectType::HR => "HR"@,
            EffectType::Other => "Other"@,
        }
    }

    /// Whether the effect is a ratio, stored on the natural scale.
    pub open spec fn is_ratio(self) -> bool {
        self == EffectType::OR || self == EffectType::HR
    }

    pub fn to_string(&self) -> (r: String)
        ensures
            r@ == self.label(),
    {
        match self {
            EffectType::Beta => "Beta".to_owned(),
            EffectType::OR => "OR".to_owned(),
            EffectType::HR => "HR".to_owned(),
            EffectType::Other => "Other".to_owned(),
        }
    }
}

impl Sex {
    /// The name of the variant, as it is written in manifests and reports.
    pub open spec fn label(self) -> Seq<char> {
        match self {
            Sex::Male => "Male"@,
            Sex::Female => "Female"@,
            Sex::Both => "Both"@,
        }
    }

    pub fn to_string(&self) -> (r: String)
        ensures
            r@ == self.label(),
    {
        match self {
            Sex::Male => "Male".to_owned(),
            Sex::Female => "Female".to_owned(),
            Sex::Both => "Both".to_owned(),
        }
    }
}

impl Population {
    /// The name of the variant, as it is written in manifests and reports.
    pub open spec fn label(self) -> Seq<char> {
        match self {
            Population::EUR => "EUR"@,
            Population::AIS => "AIS"@,
            Population::AFR => "AFR"@,
            Population::TRANS => "TRANS"@,
        }
    }

    pub fn to_string(&self) -> (r: String)
        ensures
            r@ == self.label(),
    {
        match self {
            Population::EUR => "EUR".to_owned(),
            Population::AIS => "AIS".to_owned(),
            Population::AFR => "AFR".to_owned(),
            Population::TRANS => "TRANS".to_owned(),
        }
    }
}

impl CodedAllele {
    /// The other of the two slots.
    pub open spec fn other(self) -> CodedAllele {
        match self {
            CodedAllele::A1Coded => CodedAllele::A2Coded,
            CodedAllele::A2Coded => CodedAllele::A1Coded,
        }
    }

    /// The name of the variant, as it is written in reports.
    pub open spec fn label(self) -> Seq<char> {
        match self {
            CodedAllele::A1Coded => "A1Coded"@,
            CodedAllele::A2Coded => "A2Coded"@,
        }
    }

    /// Gives the other of the two slots.
    pub fn toggled(&self) -> (r: CodedAllele)
        ensures
            r == self.other(),
    {
        match self {
            CodedAllele::A1Coded => CodedAllele::A2Coded,
            CodedAllele::A2Coded => CodedAllele::A1Coded,
        }
    }

    pub fn to_string(&self) -> (r: String)
        ensures
            r@ == self.label(),
    {
        match self {
            CodedAllele::A1Coded => "A1Coded".to_owned(),
            CodedAllele::A2Coded => "A2Coded".to_owned(),
        }
    }
}

/// One analysis of a dataset: a trait, the file that holds its summary
/// statistics and what describes the sample.
#[derive(Debug, Clone)]
pub struct Component {
    pub trait_name: String,
    pub raw_url: Option<String>,
    pub formatted_file: String,
    pub population: Population,
    pub sex: Sex,
    pub effect_type: EffectType,
    pub n_cases: Option<u32>,
    pub n_controls: Option<u32>,
    pub n: Option<u32>,
}

/// A published set of analyses.
#[derive(Debug, Clone)]
pub struct Dataset {
    pub name: String,
    pub description: String,
    pub pmid: Option<u32>,
    pub url: Option<String>,
    pub components: Vec<Component>,
}

/// The columns of a line that describe the variant.
#[derive(Debug)]
pub struct VariantIndices {
    pub name: usize,
    pub chrom: usize,
    pub pos: usize,
    pub a1: usize,
    pub a2: usize,
}

} // verus!
