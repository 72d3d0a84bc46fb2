//! The queries of a component: all records of a region, or the one record of
//! a variant, expressed for the allele that the caller asks for.
//!
//! Running the indexed retrieval is the caller's part. A query tells which
//! region to retrieve and takes what the retrieval gave.

use crate::decimal::{decimal_text, position_text};
use crate::model::Component;
use crate::parse::ParseError;
use crate::record::{AssociationStat, AssociationStatView, HarmonizeError};
use crate::stream::{tabix_failure, SummaryStatsFile, TabixOutput};
use crate::text::views;
use crate::variant::{Variant, VariantView};
use vstd::prelude::*;

verus! {

/// Why the query for a variant gave no record.
#[derive(Debug)]
pub enum ComponentQueryError<'a> {
    /// The retrieval failed; the text names the file.
    TabixError(String),
    /// No line of the file matches the variant. Holds the variant and the
    /// file.
    NotFound(&'a Variant, String),
    /// More than one line of the file matches the variant. Holds the variant
    /// and the file.
    AmbiguousMatch(&'a Variant, String),
    /// The requested coded allele is not an allele of the variant.
    BadInput(String),
    /// The record would have to be flipped, and the component's effects are
    /// on a scale where that has no meaning.
    UndefinedFlip,
}

/// What a query error holds, as mathematical values.
pub enum QueryErrorView {
    TabixError(Seq<char>),
    NotFound(VariantView, Seq<char>),
    AmbiguousMatch(VariantView, Seq<char>),
    BadInput(Seq<char>),
    UndefinedFlip,
}

impl<'a> View for ComponentQueryError<'a> {
    type V = QueryErrorView;

    open spec fn view(&self) -> QueryErrorView {
        match *self {
            ComponentQueryError::TabixError(m) => QueryErrorView::TabixError(m@),
            ComponentQueryError::NotFound(v, f) => QueryErrorView::NotFound(v@, f@),
            ComponentQueryError::AmbiguousMatch(v, f) => QueryErrorView::AmbiguousMatch(v@, f@),
            ComponentQueryError::BadInput(m) => QueryErrorView::BadInput(m@),
            ComponentQueryError::UndefinedFlip => QueryErrorView::UndefinedFlip,
        }
    }
}

/// One item of a drained stream: a record, or why its line gave none.
pub type StreamItem = Result<AssociationStat, ParseError>;

/// What is said of a requested allele that the variant does not have.
pub open spec fn bad_allele() -> Seq<char> {
    "Provided coded allele is not an allele of the variant."@
}

/// The smallest region that holds the variant: its position, on its
/// chromosome, as both ends.
pub open spec fn region_of(v: VariantView) -> Seq<char> {
    v.chrom + ":"@ + decimal_text(v.position as nat) + "-"@ + decimal_text(v.position as nat)
}

/// The records among `items` whose variant is the one asked for. Lines that
/// gave no record are passed over.
pub open spec fn matching(items: Seq<StreamItem>, v: VariantView) -> Seq<AssociationStatView> {
    items.filter_map(|item: StreamItem| record_of(item, v))
}

/// The record of an item, where it holds one of the variant `v`.
pub open spec fn record_of(item: StreamItem, v: VariantView) -> Option<AssociationStatView> {
    if item is Ok && item->Ok_0@.variant.same_locus(v) {
        Some(item->Ok_0@)
    } else {
        None
    }
}

/// The answer to the query for a variant.
///
/// An allele that the variant does not have is refused before anything else.
/// Then a failed retrieval ends the query. Of the records that match the
/// variant there must be exactly one; it is expressed for the requested
/// allele.
pub open spec fn variant_query(
    component: Component,
    v: VariantView,
    coded_allele: Seq<char>,
    tabix: Result<Seq<StreamItem>, Seq<char>>,
) -> Result<AssociationStatView, QueryErrorView> {
    if !v.has_allele(coded_allele) {
        Err(QueryErrorView::BadInput(bad_allele()))
    } else {
        match tabix {
            Err(message) => Err(QueryErrorView::TabixError(message)),
            Ok(items) => {
                let found = matching(items, v);
                if found.len() == 0 {
                    Err(QueryErrorView::NotFound(v, component.formatted_file@))
                } else if found.len() > 1 {
                    Err(QueryErrorView::AmbiguousMatch(v, component.formatted_file@))
                } else {
                    match found[0].harmonized(coded_allele, component.effect_type) {
                        Ok(record) => Ok(record),
                        Err(HarmonizeError::BadInput) => Err(
                            QueryErrorView::BadInput(bad_allele()),
                        ),
                        Err(HarmonizeError::UndefinedFlip) => Err(QueryErrorView::UndefinedFlip),
                    }
                }
            },
        }
    }
}

/// Writes the smallest region that holds the variant.
pub fn variant_region(v: &Variant) -> (r: String)
    ensures
        r@ == region_of(v@),
{
    let position: String = position_text(v.position);
    let mut region: String = v.chrom.clone();
    region.append(":");
    region.append(position.as_str());
    region.append("-");
    region.append(position.as_str());
    region
}

/// Tells which region to retrieve for the query of a variant, after checking
/// that the requested coded allele is one of the variant's alleles.
pub fn region_for_variant<'a>(v: &'a Variant, coded_allele: &str) -> (r: Result<
    String,
    ComponentQueryError<'a>,
>)
    ensures
        v@.has_allele(coded_allele@) ==> r is Ok && r->Ok_0@ == region_of(v@),
        !v@.has_allele(coded_allele@) ==> r is Err && r->Err_0@ == QueryErrorView::BadInput(
            bad_allele(),
        ),
{
    if !v.is_allele(coded_allele) {
        return Err(bad_input());
    }
    Ok(variant_region(v))
}

/// The lines among `items` that gave no record.
pub open spec fn skipped(items: Seq<StreamItem>) -> Seq<StreamItem> {
    items.filter(|item: StreamItem| item is Err)
}

/// Counts the lines that gave no record: those that a query passes over.
pub fn count_skipped(items: &Vec<StreamItem>) -> (n: usize)
    ensures
        n == skipped(items@).len(),
{
    let ghost failed = |item: StreamItem| item is Err;
    let len: usize = items.len();
    let mut n: usize = 0;
    let mut i: usize = 0;
    proof {
        reveal(Seq::filter);
        assert(items@.take(0) =~= Seq::<StreamItem>::empty());
    }
    while i < len
        invariant
            len == items@.len(),
            i <= len,
            n <= i,
            failed == |item: StreamItem| item is Err,
            n == items@.take(i as int).filter(failed).len(),
        decreases len - i,
    {
        proof {
            reveal(Seq::filter);
            assert(items@.take(i + 1).drop_last() =~= items@.take(i as int));
        }
        if items[i].is_err() {
            n = n + 1;
        }
        i = i + 1;
    }
    assert(items@.take(len as int) =~= items@);
    n
}

/// The refusal of a requested allele that the variant does not have.
fn bad_input<'a>() -> (e: ComponentQueryError<'a>)
    ensures
        e@ == QueryErrorView::BadInput(bad_allele()),
{
    ComponentQueryError::BadInput(
        "Provided coded allele is not an allele of the variant.".to_owned(),
    )
}

/// Whether an item of a stream is a record of the variant `v`.
fn is_match(item: &StreamItem, v: &Variant) -> (r: bool)
    ensures
        r == (item is Ok && item->Ok_0@.variant.same_locus(v@)),
{
    match item {
        Ok(stat) => stat.variant == *v,
        Err(_) => false,
    }
}

impl Component {
    /// The stream of the records of a region, as the file codes them: takes
    /// what the retrieval of that region from the component's file gave.
    pub fn get_stats_for_region(&self, output: TabixOutput) -> (r: Result<
        SummaryStatsFile,
        String,
    >)
        ensures
            output.success ==> r is Ok && r->Ok_0@ == views(output.lines@),
            !output.success ==> r is Err && r->Err_0@ == tabix_failure(self.formatted_file@),
    {
        SummaryStatsFile::tabix(self.formatted_file.as_str(), output)
    }

    /// The one record of a variant, expressed for the requested coded allele.
    ///
    /// `tabix` is what the retrieval of the variant's region from the
    /// component's file came to: the drained stream, or the failure.
    pub fn get_stats_for_variant<'a>(
        &self,
        v: &'a Variant,
        coded_allele: &str,
        tabix: Result<Vec<StreamItem>, String>,
    ) -> (r: Result<AssociationStat, ComponentQueryError<'a>>)
        ensures
            (match r {
                Ok(stat) => Ok::<AssociationStatView, QueryErrorView>(stat@),
                Err(e) => Err::<AssociationStatView, QueryErrorView>(e@),
            }) == variant_query(
                *self,
                v@,
                coded_allele@,
                match tabix {
                    Ok(items) => Ok::<Seq<StreamItem>, Seq<char>>(items@),
                    Err(message) => Err::<Seq<StreamItem>, Seq<char>>(message@),
                },
            ),
    {
        if !v.is_allele(coded_allele) {
            return Err(bad_input());
        }
        let mut items: Vec<StreamItem> = match tabix {
            Ok(items) => items,
            Err(message) => {
                return Err(ComponentQueryError::TabixError(message));
            },
        };
        let ghost pick = |item: StreamItem| record_of(item, v@);
        let n: usize = items.len();
        let mut count: usize = 0;
        let mut first: usize = 0;
        let mut i: usize = 0;
        assert(items@.take(0) =~= Seq::<StreamItem>::empty());
        while i < n
            invariant
                n == items@.len(),
                i <= n,
                count <= i,
                pick == |item: StreamItem| record_of(item, v@),
                count == items@.take(i as int).filter_map(pick).len(),
                count > 0 ==> first < i && record_of(items@[first as int], v@) == Some(
                    items@.take(i as int).filter_map(pick)[0],
                ),
            decreases n - i,
        {
            proof {
                items@.lemma_filter_map_take_succ(pick, i as int);
            }
            if is_match(&items[i], v) {
                if count == 0 {
                    first = i;
                }
                count = count + 1;
            }
            i = i + 1;
        }
        assert(items@.take(n as int) =~= items@);
        assert(matching(items@, v@) == items@.filter_map(pick));
        if count == 0 {
            return Err(ComponentQueryError::NotFound(v, self.formatted_file.clone()));
        }
        if count > 1 {
            return Err(ComponentQueryError::AmbiguousMatch(v, self.formatted_file.clone()));
        }
        let ghost all = items@;
        let item: StreamItem = items.swap_remove(first);
        match item {
            Ok(stat) => {
                proof {
                    assert(stat@ == matching(all, v@)[0]);
                    assert(stat@.variant.same_locus(v@));
                    assert(v@.allele_set().contains(coded_allele@));
                    assert(stat@.variant.allele_set().contains(coded_allele@));
                }
                match stat.harmonize(coded_allele, &self.effect_type) {
                    Ok(harmonized) => Ok(harmonized),
                    Err(HarmonizeError::BadInput) => Err(bad_input()),
                    Err(HarmonizeError::UndefinedFlip) => Err(ComponentQueryError::UndefinedFlip),
                }
            },
            Err(_) => Err(ComponentQueryError::NotFound(v, self.formatted_file.clone())),
        }
    }
}

/// An allele that the variant does not have is refused, whatever the
/// retrieval gave and whether or not it failed.
pub proof fn lemma_unknown_allele_refused(
    component: Component,
    v: VariantView,
    coded_allele: Seq<char>,
    tabix: Result<Seq<StreamItem>, Seq<char>>,
)
    requires
        !v.has_allele(coded_allele),
    ensures
        variant_query(component, v, coded_allele, tabix) == Err::<
            AssociationStatView,
            QueryErrorView,
        >(QueryErrorView::BadInput(bad_allele())),
{
}

/// A failed retrieval ends the query of a valid allele with its own
/// message.
pub proof fn lemma_failed_retrieval(
    component: Component,
    v: VariantView,
    coded_allele: Seq<char>,
    message: Seq<char>,
)
    requires
        v.has_allele(coded_allele),
    ensures
        variant_query(
            component,
            v,
            coded_allele,
            Err::<Seq<StreamItem>, Seq<char>>(message),
        ) == Err::<AssociationStatView, QueryErrorView>(QueryErrorView::TabixError(message)),
{
}

/// How many records match decides the answer: none is not found, more than
/// one is ambiguous, and neither is ever answered with a record.
pub proof fn lemma_match_count(
    component: Component,
    v: VariantView,
    coded_allele: Seq<char>,
    items: Seq<StreamItem>,
)
    requires
        v.has_allele(coded_allele),
    ensures
        matching(items, v).len() == 0 <==> variant_query(
            component,
            v,
            coded_allele,
            Ok::<Seq<StreamItem>, Seq<char>>(items),
        ) == Err::<AssociationStatView, QueryErrorView>(
            QueryErrorView::NotFound(v, component.formatted_file@),
        ),
        matching(items, v).len() > 1 <==> variant_query(
            component,
            v,
            coded_allele,
            Ok::<Seq<StreamItem>, Seq<char>>(items),
        ) == Err::<AssociationStatView, QueryErrorView>(
            QueryErrorView::AmbiguousMatch(v, component.formatted_file@),
        ),
        variant_query(component, v, coded_allele, Ok::<Seq<StreamItem>, Seq<char>>(items)) is Ok
            ==> matching(items, v).len() == 1,
{
}

/// Every record among the matching ones is a record of the variant.
pub proof fn lemma_matching_records(items: Seq<StreamItem>, v: VariantView, k: int)
    requires
        0 <= k < matching(items, v).len(),
    ensures
        matching(items, v)[k].variant.same_locus(v),
    decreases items.len(),
{
    let pick = |item: StreamItem| record_of(item, v);
    if items.len() > 0 {
        let rest = items.drop_last();
        if k < rest.filter_map(pick).len() {
            lemma_matching_records(rest, v, k);
        }
    }
}

/// A record that the query gives is a record of the variant and is coded
/// for the requested allele.
pub proof fn lemma_query_answer(
    component: Component,
    v: VariantView,
    coded_allele: Seq<char>,
    tabix: Result<Seq<StreamItem>, Seq<char>>,
)
    requires
        variant_query(component, v, coded_allele, tabix) is Ok,
    ensures
        variant_query(component, v, coded_allele, tabix)->Ok_0.variant.same_locus(v),
        variant_query(component, v, coded_allele, tabix)->Ok_0.coded() == coded_allele,
{
    lemma_matching_records(tabix->Ok_0, v, 0);
}

/// With exactly one matching record the query fails only where the record
/// would have to be flipped on a scale without meaning.
pub proof fn lemma_single_match(
    component: Component,
    v: VariantView,
    coded_allele: Seq<char>,
    items: Seq<StreamItem>,
)
    requires
        v.has_allele(coded_allele),
        matching(items, v).len() == 1,
    ensures
        variant_query(component, v, coded_allele, Ok::<Seq<StreamItem>, Seq<char>>(items)) is Err
            <==> (matching(items, v)[0].coded() != coded_allele && component.effect_type
            == crate::model::EffectType::Other),
        variant_query(component, v, coded_allele, Ok::<Seq<StreamItem>, Seq<char>>(items)) is Err
            ==> variant_query(
            component,
            v,
            coded_allele,
            Ok::<Seq<StreamItem>, Seq<char>>(items),
        ) == Err::<AssociationStatView, QueryErrorView>(QueryErrorView::UndefinedFlip),
{
    lemma_matching_records(items, v, 0);
    crate::variant::lemma_same_locus_alleles(matching(items, v)[0].variant, v);
}

} // verus!
