//! A genomic variant: a position on a chromosome and its two alleles.

use vstd::prelude::*;

verus! {

/// A position on a chromosome together with an unordered pair of alleles.
///
/// Two variants are the same when chromosome, position and the set of the two
/// alleles agree; the name plays no part in that.
#[derive(Debug)]
pub struct Variant {
    pub name: String,
    pub chrom: String,
    pub position: u32,
    pub alleles: (String, String),
}

/// What a variant holds, as mathematical values.
pub struct VariantView {
    pub name: Seq<char>,
    pub chrom: Seq<char>,
    pub position: u32,
    pub alleles: (Seq<char>, Seq<char>),
}

impl View for Variant {
    type V = VariantView;

    open spec fn view(&self) -> VariantView {
        VariantView {
            name: self.name@,
            chrom: self.chrom@,
            position: self.position,
            alleles: (self.alleles.0@, self.alleles.1@),
        }
    }
}

impl VariantView {
    /// The two alleles as a set.
    pub open spec fn allele_set(self) -> Set<Seq<char>> {
        set![self.alleles.0, self.alleles.1]
    }

    /// Same chromosome, same position, same set of alleles.
    pub open spec fn same_locus(self, other: VariantView) -> bool {
        &&& self.chrom == other.chrom
        &&& self.position == other.position
        &&& self.allele_set() == other.allele_set()
    }

    /// Whether `allele` is one of the two alleles.
    pub open spec fn has_allele(self, allele: Seq<char>) -> bool {
        allele == self.alleles.0 || allele == self.alleles.1
    }
}

impl Variant {
    /// The two alleles as a set of character sequences.
    pub open spec fn allele_set(&self) -> Set<Seq<char>> {
        self@.allele_set()
    }

    /// Same chromosome, same position, same set of alleles.
    pub open spec fn same_locus(&self, other: &Variant) -> bool {
        self@.same_locus(other@)
    }

    /// Whether `allele` is one of the two alleles of the variant.
    pub open spec fn has_allele(&self, allele: Seq<char>) -> bool {
        self@.has_allele(allele)
    }

    /// Builds a variant; the alleles keep the order in which they are given.
    pub fn new(name: String, chrom: String, position: u32, alleles: (String, String)) -> (v:
        Variant)
        ensures
            v.name == name,
            v.chrom == chrom,
            v.position == position,
            v.alleles == alleles,
    {
        Variant { name, chrom, position, alleles }
    }

    /// Tells whether `allele` is one of the variant's two alleles.
    pub fn is_allele(&self, allele: &str) -> (r: bool)
        ensures
            r == self.has_allele(allele@),
    {
        crate::text::same_text(allele, self.alleles.0.as_str()) || crate::text::same_text(
            allele,
            self.alleles.1.as_str(),
        )
    }
}

impl Clone for Variant {
    fn clone(&self) -> (r: Variant)
        ensures
            r == *self,
    {
        Variant {
            name: self.name.clone(),
            chrom: self.chrom.clone(),
            position: self.position,
            alleles: (self.alleles.0.clone(), self.alleles.1.clone()),
        }
    }
}

impl Eq for Variant {}

impl PartialEq for Variant {
    fn eq(&self, other: &Variant) -> (r: bool) {
        proof {
            lemma_pair_sets(
                self.alleles.0@,
                self.alleles.1@,
                other.alleles.0@,
                other.alleles.1@,
            );
        }
        self.chrom == other.chrom && self.position == other.position && ((self.alleles.0
            == other.alleles.0 && self.alleles.1 == other.alleles.1) || (self.alleles.0
            == other.alleles.1 && self.alleles.1 == other.alleles.0))
    }
}

impl vstd::std_specs::cmp::PartialEqSpecImpl for Variant {
    open spec fn obeys_eq_spec() -> bool {
        true
    }

    open spec fn eq_spec(&self, other: &Variant) -> bool {
        self.same_locus(other)
    }
}

/// Two pairs span the same set exactly when they agree in one of the two orders.
pub proof fn lemma_pair_sets<T>(a0: T, a1: T, b0: T, b1: T)
    ensures
        (set![a0, a1] == set![b0, b1]) <==> ((a0 == b0 && a1 == b1) || (a0 == b1 && a1 == b0)),
{
    let sa = set![a0, a1];
    let sb = set![b0, b1];
    if sa == sb {
        assert(sb.contains(a0));
        assert(sb.contains(a1));
        assert(sa.contains(b0));
        assert(sa.contains(b1));
    }
    if (a0 == b0 && a1 == b1) || (a0 == b1 && a1 == b0) {
        assert(sa =~= sb);
    }
}

/// Variants on the same chromosome and at the same position whose alleles
/// agree in one order or the other are the same variant, whatever their
/// names.
pub proof fn lemma_same_alleles_any_order(v1: VariantView, v2: VariantView)
    requires
        v1.chrom == v2.chrom,
        v1.position == v2.position,
        v1.alleles == v2.alleles || (v1.alleles.0 == v2.alleles.1 && v1.alleles.1
            == v2.alleles.0),
    ensures
        v1.same_locus(v2),
{
    lemma_pair_sets(v1.alleles.0, v1.alleles.1, v2.alleles.0, v2.alleles.1);
}

/// Variants that are the same have the same alleles, in one order or the
/// other.
pub proof fn lemma_same_locus_alleles(v1: VariantView, v2: VariantView)
    requires
        v1.same_locus(v2),
    ensures
        v1.alleles == v2.alleles || (v1.alleles.0 == v2.alleles.1 && v1.alleles.1
            == v2.alleles.0),
        forall|allele: Seq<char>| v1.has_allele(allele) == v2.has_allele(allele),
{
    lemma_pair_sets(v1.alleles.0, v1.alleles.1, v2.alleles.0, v2.alleles.1);
}

/// Being the same variant is an equivalence.
pub proof fn lemma_same_locus_equivalence(v1: VariantView, v2: VariantView, v3: VariantView)
    ensures
        v1.same_locus(v1),
        v1.same_locus(v2) == v2.same_locus(v1),
        v1.same_locus(v2) && v2.same_locus(v3) ==> v1.same_locus(v3),
{
}

} // verus!
