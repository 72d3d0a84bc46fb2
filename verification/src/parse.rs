//! The parser for one line of a summary-statistics file.
//!
//! A line has eight columns separated by tabs: name, chromosome, position,
//! the two alleles (the second one is the coded allele), effect, standard
//! error and p-value. The three numbers are handed on as text: turning them
//! into single-precision numbers is left to the caller, who gives back their
//! bit patterns.

use crate::decimal::{parse_position, position_of};
use crate::model::{CodedAllele, VariantIndices};
use crate::record::{AssociationStat, AssociationStatView, Effect};
use crate::text::{split_on, split_text, views};
use crate::variant::{Variant, VariantView};
use vstd::prelude::*;

verus! {

/// Why a line gives no record.
#[derive(Debug, Clone, Copy, PartialEq, Eq, Structural)]
pub enum ParseError {
    /// The line has fewer columns than are read.
    MissingColumns,
    /// The position is not an unsigned number of 32 bits.
    BadPosition,
    /// One of the three numbers could not be read.
    BadNumber,
}

/// The upper-case form of a text, as `str::to_uppercase` of the standard
/// library gives it.
pub uninterp spec fn uppercase_of(text: Seq<char>) -> Seq<char>;

/// Calls `str::to_uppercase`. The result follows the Unicode case mappings,
/// which are not written out here: the contract only gives the result its
/// name.
#[verifier::external_body]
fn to_uppercase(text: &str) -> (r: String)
    ensures
        r@ == uppercase_of(text@),
{
    text.to_uppercase()
}

/// The number of columns of a line.
pub const COLUMNS: usize = 8;

/// Where the variant stands in a line of the fixed layout.
pub open spec fn standard_indices() -> VariantIndices {
    VariantIndices { name: 0, chrom: 1, pos: 2, a1: 3, a2: 4 }
}

/// A variant whose alleles are the file's two allele columns in their order,
/// with the slot of the coded one: the first slot where the coded allele is
/// the first allele of the pair, the second slot otherwise.
pub open spec fn coded_variant(
    name: Seq<char>,
    chrom: Seq<char>,
    position: u32,
    reference_allele: Seq<char>,
    coded_allele: Seq<char>,
) -> (VariantView, CodedAllele) {
    (
        VariantView { name, chrom, position, alleles: (reference_allele, coded_allele) },
        if coded_allele == reference_allele {
            CodedAllele::A1Coded
        } else {
            CodedAllele::A2Coded
        },
    )
}

/// The variant that the columns of a line describe, with the alleles in
/// upper case.
pub open spec fn variant_of_fields(fields: Seq<Seq<char>>, idx: VariantIndices) -> Result<
    (VariantView, CodedAllele),
    ParseError,
> {
    if !(idx.name < fields.len() && idx.chrom < fields.len() && idx.pos < fields.len() && idx.a1
        < fields.len() && idx.a2 < fields.len()) {
        Err(ParseError::MissingColumns)
    } else {
        match position_of(fields[idx.pos as int]) {
            None => Err(ParseError::BadPosition),
            Some(position) => Ok(
                coded_variant(
                    fields[idx.name as int],
                    fields[idx.chrom as int],
                    position,
                    uppercase_of(fields[idx.a1 as int]),
                    uppercase_of(fields[idx.a2 as int]),
                ),
            ),
        }
    }
}

/// A line that was taken apart, its three numbers still text.
#[derive(Debug, Clone)]
pub struct StatLine {
    pub variant: Variant,
    pub coded_allele: CodedAllele,
    pub effect: String,
    pub se: String,
    pub p: String,
}

/// What a line that was taken apart holds, as mathematical values.
pub struct StatLineView {
    pub variant: VariantView,
    pub coded_allele: CodedAllele,
    pub effect: Seq<char>,
    pub se: Seq<char>,
    pub p: Seq<char>,
}

impl View for StatLine {
    type V = StatLineView;

    open spec fn view(&self) -> StatLineView {
        StatLineView {
            variant: self.variant@,
            coded_allele: self.coded_allele,
            effect: self.effect@,
            se: self.se@,
            p: self.p@,
        }
    }
}

/// What the columns of a line give: the variant from the first five, the
/// three numbers as text from the next three. Further columns are not read.
pub open spec fn record_of_fields(fields: Seq<Seq<char>>) -> Result<StatLineView, ParseError> {
    if fields.len() < 8 {
        Err(ParseError::MissingColumns)
    } else {
        match variant_of_fields(fields, standard_indices()) {
            Err(e) => Err(e),
            Ok(v) => Ok(
                StatLineView {
                    variant: v.0,
                    coded_allele: v.1,
                    effect: fields[5],
                    se: fields[6],
                    p: fields[7],
                },
            ),
        }
    }
}

/// What a line gives: its columns are what stands between the tabs.
pub open spec fn record_of_line(line: Seq<char>) -> Result<StatLineView, ParseError> {
    record_of_fields(split_on(line, '\t'))
}

/// The record that a line gives once its three numbers were read; none of
/// them may be missing.
pub open spec fn with_bits(
    line: StatLineView,
    effect: Option<u32>,
    se: Option<u32>,
    p: Option<u32>,
) -> Result<AssociationStatView, ParseError> {
    if effect is Some && se is Some && p is Some {
        Ok(
            AssociationStatView {
                variant: line.variant,
                coded_allele: line.coded_allele,
                effect: Effect { bits: effect->Some_0, reciprocal: false },
                se: se->Some_0,
                p: p->Some_0,
            },
        )
    } else {
        Err(ParseError::BadNumber)
    }
}

/// Builds the variant of a line from its parts, the alleles already in upper
/// case, and tells which slot the coded allele has.
pub fn variant_with_coding(
    name: String,
    chrom: String,
    position: u32,
    reference_allele: String,
    coded_allele: String,
) -> (r: (Variant, CodedAllele))
    ensures
        (r.0@, r.1) == coded_variant(
            name@,
            chrom@,
            position,
            reference_allele@,
            coded_allele@,
        ),
{
    let first: bool = coded_allele == reference_allele;
    let v = Variant::new(name, chrom, position, (reference_allele, coded_allele));
    let code = if first {
        CodedAllele::A1Coded
    } else {
        CodedAllele::A2Coded
    };
    (v, code)
}

/// Reads the variant of a line from the columns that `idx` names.
pub fn split_line_to_variant_using_idx(fields: &Vec<String>, idx: &VariantIndices) -> (r: Result<
    (Variant, CodedAllele),
    ParseError,
>)
    ensures
        match variant_of_fields(views(fields@), *idx) {
            Ok(v) => r is Ok && (r->Ok_0.0@, r->Ok_0.1) == v,
            Err(e) => r == Err::<(Variant, CodedAllele), ParseError>(e),
        },
{
    let n: usize = fields.len();
    if !(idx.name < n && idx.chrom < n && idx.pos < n && idx.a1 < n && idx.a2 < n) {
        return Err(ParseError::MissingColumns);
    }
    let reference_allele: String = to_uppercase(fields[idx.a1].as_str());
    let coded_allele: String = to_uppercase(fields[idx.a2].as_str());
    match parse_position(fields[idx.pos].as_str()) {
        None => Err(ParseError::BadPosition),
        Some(position) => Ok(
            variant_with_coding(
                fields[idx.name].clone(),
                fields[idx.chrom].clone(),
                position,
                reference_allele,
                coded_allele,
            ),
        ),
    }
}

/// Reads the variant of a line of the fixed layout from its first five
/// columns.
pub fn split_line_to_variant(fields: &Vec<String>) -> (r: Result<
    (Variant, CodedAllele),
    ParseError,
>)
    ensures
        match variant_of_fields(views(fields@), standard_indices()) {
            Ok(v) => r is Ok && (r->Ok_0.0@, r->Ok_0.1) == v,
            Err(e) => r == Err::<(Variant, CodedAllele), ParseError>(e),
        },
{
    let idx = VariantIndices { name: 0, chrom: 1, pos: 2, a1: 3, a2: 4 };
    split_line_to_variant_using_idx(fields, &idx)
}

/// Takes one line apart.
pub fn parse_line(line: &str) -> (r: Result<StatLine, ParseError>)
    ensures
        match record_of_line(line@) {
            Ok(v) => r is Ok && r->Ok_0@ == v,
            Err(e) => r == Err::<StatLine, ParseError>(e),
        },
{
    let fields: Vec<String> = split_text(line, '\t');
    if fields.len() < COLUMNS {
        return Err(ParseError::MissingColumns);
    }
    match split_line_to_variant(&fields) {
        Err(e) => Err(e),
        Ok((variant, coded_allele)) => Ok(
            StatLine {
                variant,
                coded_allele,
                effect: fields[5].clone(),
                se: fields[6].clone(),
                p: fields[7].clone(),
            },
        ),
    }
}

impl StatLine {
    /// Completes the record with the bit patterns of its three numbers, each
    /// missing where the text did not read as a number.
    pub fn with_numbers(self, effect: Option<u32>, se: Option<u32>, p: Option<u32>) -> (r: Result<
        AssociationStat,
        ParseError,
    >)
        ensures
            match with_bits(self@, effect, se, p) {
                Ok(v) => r is Ok && r->Ok_0@ == v && r->Ok_0.variant == self.variant,
                Err(e) => r == Err::<AssociationStat, ParseError>(e),
            },
    {
        match (effect, se, p) {
            (Some(e), Some(s), Some(q)) => Ok(
                AssociationStat {
                    variant: self.variant,
                    coded_allele: self.coded_allele,
                    effect: Effect::new(e),
                    se: s,
                    p: q,
                },
            ),
            _ => Err(ParseError::BadNumber),
        }
    }
}

} // verus!
