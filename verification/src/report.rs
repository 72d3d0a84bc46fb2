//! The rows of a report: one record of one component of one dataset, as
//! thirteen columns of text. How the rows are written out is the caller's
//! part, and so is the writing of the three numbers.

use crate::model::{Component, Dataset};
use crate::record::{AssociationStat, AssociationStatView};
use crate::decimal::{decimal_text, position_text};
use crate::text::views;
use vstd::prelude::*;

verus! {

/// The names of the columns, in their order.
pub open spec fn header_columns() -> Seq<Seq<char>> {
    seq![
        "dataset_variant_name"@,
        "chrom"@,
        "pos"@,
        "reference_allele"@,
        "coded_allele"@,
        "dataset_name"@,
        "component_name"@,
        "population"@,
        "sex"@,
        "effect_type"@,
        "effect"@,
        "se"@,
        "p"@,
    ]
}

/// The columns of one record: the variant, the reference and the coded
/// allele, then what names the dataset and the component, then the three
/// numbers as the caller wrote them.
pub open spec fn row_columns(
    dataset: Dataset,
    component: Component,
    stat: AssociationStatView,
    effect: Seq<char>,
    se: Seq<char>,
    p: Seq<char>,
) -> Seq<Seq<char>> {
    seq![
        stat.variant.name,
        stat.variant.chrom,
        decimal_text(stat.variant.position as nat),
        stat.reference(),
        stat.coded(),
        dataset.name@,
        component.trait_name@,
        component.population.label(),
        component.sex.label(),
        component.effect_type.label(),
        effect,
        se,
        p,
    ]
}

/// Gives the names of the columns.
pub fn header() -> (r: Vec<String>)
    ensures
        views(r@) == header_columns(),
{
    let mut r: Vec<String> = Vec::new();
    r.push("dataset_variant_name".to_owned());
    r.push("chrom".to_owned());
    r.push("pos".to_owned());
    r.push("reference_allele".to_owned());
    r.push("coded_allele".to_owned());
    r.push("dataset_name".to_owned());
    r.push("component_name".to_owned());
    r.push("population".to_owned());
    r.push("sex".to_owned());
    r.push("effect_type".to_owned());
    r.push("effect".to_owned());
    r.push("se".to_owned());
    r.push("p".to_owned());
    assert(views(r@) =~= header_columns());
    r
}

/// Gives the columns of one record. `effect`, `se` and `p` are the three
/// numbers as they are to be shown.
pub fn row(
    dataset: &Dataset,
    component: &Component,
    stat: &AssociationStat,
    effect: &str,
    se: &str,
    p: &str,
) -> (r: Vec<String>)
    ensures
        views(r@) == row_columns(*dataset, *component, stat@, effect@, se@, p@),
{
    let mut r: Vec<String> = Vec::new();
    r.push(stat.variant.name.clone());
    r.push(stat.variant.chrom.clone());
    r.push(position_text(stat.variant.position));
    r.push(stat.get_reference_allele().to_owned());
    r.push(stat.get_coded_allele().to_owned());
    r.push(dataset.name.clone());
    r.push(component.trait_name.clone());
    r.push(component.population.to_string());
    r.push(component.sex.to_string());
    r.push(component.effect_type.to_string());
    r.push(effect.to_owned());
    r.push(se.to_owned());
    r.push(p.to_owned());
    assert(views(r@) =~= row_columns(*dataset, *component, stat@, effect@, se@, p@));
    r
}

} // verus!
