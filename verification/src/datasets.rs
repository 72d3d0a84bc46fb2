//! What is done to datasets once their manifests were read: the paths of
//! their files are completed, and a selection of datasets and components is
//! applied.

use crate::model::{Component, Dataset, Population, Sex};
use crate::text::{replace_text, replaced, same_text};
use vstd::prelude::*;

verus! {

/// The name of the file that describes a dataset.
pub open spec fn manifest_name() -> Seq<char> {
    "GWAS_MANIFEST.yaml"@
}

/// What stands in a manifest for the directory that holds it.
pub open spec fn root_placeholder() -> Seq<char> {
    "${DATASET_ROOT}"@
}

/// Tells whether a file of this name is the manifest of a dataset.
pub fn is_manifest_name(file_name: &str) -> (r: bool)
    ensures
        r == (file_name@ == manifest_name()),
{
    same_text(file_name, "GWAS_MANIFEST.yaml")
}

/// The components with the placeholder in the path of each file replaced by
/// the directory of the manifest. Nothing else of a component changes.
pub open spec fn sanitized(before: Seq<Component>, after: Seq<Component>, root: Seq<char>) -> bool {
    &&& after.len() == before.len()
    &&& forall|i: int|
        0 <= i < before.len() ==> {
            &&& (#[trigger] after[i]).formatted_file@ == replaced(
                before[i].formatted_file@,
                root_placeholder(),
                root,
            )
            &&& after[i] == (Component { formatted_file: after[i].formatted_file, ..before[i] })
        }
}

/// Completes the paths of a dataset's files: the placeholder for the
/// directory of the manifest is replaced, wherever it stands, by
/// `dataset_root`.
pub fn sanitize_dataset(dataset: &mut Dataset, dataset_root: &str)
    ensures
        sanitized(old(dataset).components@, final(dataset).components@, dataset_root@),
        final(dataset).name == old(dataset).name,
        final(dataset).description == old(dataset).description,
        final(dataset).pmid == old(dataset).pmid,
        final(dataset).url == old(dataset).url,
{
    let n: usize = dataset.components.len();
    let ghost before = dataset.components@;
    let mut i: usize = 0;
    while i < n
        invariant
            n == before.len(),
            i <= n,
            dataset.components@.len() == n,
            dataset.name == old(dataset).name,
            dataset.description == old(dataset).description,
            dataset.pmid == old(dataset).pmid,
            dataset.url == old(dataset).url,
            before == old(dataset).components@,
            sanitized(before.take(i as int), dataset.components@.take(i as int), dataset_root@),
            forall|j: int| i <= j < n ==> dataset.components@[j] == before[j],
        decreases n - i,
    {
        let path: String = replace_text(
            dataset.components[i].formatted_file.as_str(),
            "${DATASET_ROOT}",
            dataset_root,
        );
        let ghost previous = dataset.components@;
        dataset.components[i].formatted_file = path;
        proof {
            let now = dataset.components@;
            assert forall|j: int| 0 <= j < i + 1 implies {
                &&& (#[trigger] now.take(i + 1)[j]).formatted_file@ == replaced(
                    before.take(i + 1)[j].formatted_file@,
                    root_placeholder(),
                    dataset_root@,
                )
                &&& now.take(i + 1)[j] == (Component {
                    formatted_file: now.take(i + 1)[j].formatted_file,
                    ..before.take(i + 1)[j]
                })
            } by {
                if j < i {
                    assert(now.take(i + 1)[j] == previous.take(i as int)[j]);
                    assert(before.take(i + 1)[j] == before.take(i as int)[j]);
                }
            }
        }
        i = i + 1;
    }
    assert(before.take(n as int) =~= before);
    assert(dataset.components@.take(n as int) =~= dataset.components@);
}

/// A choice of components: a trait, and where they are given a population
/// and a sex.
#[derive(Debug)]
pub struct ComponentFilter {
    pub trait_name: String,
    pub population: Option<Population>,
    pub sex: Option<Sex>,
}

/// The choice of components of one dataset. With no component filter the
/// whole dataset is taken.
#[derive(Debug)]
pub struct DatasetFilter {
    pub dataset: String,
    pub components: Vec<ComponentFilter>,
}

impl ComponentFilter {
    /// The component is of the filter's trait and, where the filter names a
    /// population or a sex, of those.
    pub open spec fn admits(&self, component: &Component) -> bool {
        &&& self.trait_name@ == component.trait_name@
        &&& (self.population is Some ==> self.population->Some_0 == component.population)
        &&& (self.sex is Some ==> self.sex->Some_0 == component.sex)
    }

    /// Tells whether the filter admits the component.
    pub fn matches(&self, component: &Component) -> (r: bool)
        ensures
            r == self.admits(component),
    {
        if self.trait_name != component.trait_name {
            return false;
        }
        if let Some(pop) = self.population {
            if pop != component.population {
                return false;
            }
        }
        if let Some(sex) = self.sex {
            if sex != component.sex {
                return false;
            }
        }
        true
    }
}

/// Whether one of the filters admits the component.
pub open spec fn admitted(filters: Seq<ComponentFilter>, component: Component) -> bool {
    exists|i: int| 0 <= i < filters.len() && (#[trigger] filters[i]).admits(&component)
}

/// The component filters of the first entry for the dataset of this name,
/// if there is one.
pub open spec fn filters_for(filters: Seq<DatasetFilter>, name: Seq<char>) -> Option<
    Seq<ComponentFilter>,
>
    decreases filters.len(),
{
    if filters.len() == 0 {
        None
    } else if filters[0].dataset@ == name {
        Some(filters[0].components@)
    } else {
        filters_for(filters.drop_first(), name)
    }
}

/// The components of a dataset that a list of filters leaves: all of them
/// where the list is empty, else those that one of the filters admits, in
/// their order.
pub open spec fn kept_components(components: Seq<Component>, filters: Seq<ComponentFilter>) -> Seq<
    Component,
> {
    if filters.len() == 0 {
        components
    } else {
        components.filter(|c: Component| admitted(filters, c))
    }
}

/// `out` is `dataset` with the components that its filter leaves.
pub open spec fn filtered(out: Dataset, dataset: Dataset, filters: Seq<DatasetFilter>) -> bool {
    &&& filters_for(filters, dataset.name@) is Some
    &&& out.components@ == kept_components(
        dataset.components@,
        filters_for(filters, dataset.name@)->Some_0,
    )
    &&& out == (Dataset { components: out.components, ..dataset })
}

/// The datasets that the filters name, in their order.
pub open spec fn requested(datasets: Seq<Dataset>, filters: Seq<DatasetFilter>) -> Seq<Dataset> {
    datasets.filter(|d: Dataset| filters_for(filters, d.name@) is Some)
}

/// Looks up the component filters of a dataset.
fn find_filters<'a>(filters: &'a Vec<DatasetFilter>, name: &String) -> (r: Option<
    &'a Vec<ComponentFilter>,
>)
    ensures
        match filters_for(filters@, name@) {
            Some(found) => r is Some && r->Some_0@ == found,
            None => r is None,
        },
{
    let n: usize = filters.len();
    let mut i: usize = 0;
    assert(filters@.skip(0) =~= filters@);
    while i < n
        invariant
            n == filters@.len(),
            i <= n,
            filters_for(filters@, name@) == filters_for(filters@.skip(i as int), name@),
        decreases n - i,
    {
        if filters[i].dataset == *name {
            return Some(&filters[i].components);
        }
        assert(filters@.skip(i as int).drop_first() =~= filters@.skip(i + 1));
        i = i + 1;
    }
    None
}

/// Tells whether one of the filters admits the component.
fn any_matches(filters: &Vec<ComponentFilter>, component: &Component) -> (r: bool)
    ensures
        r == admitted(filters@, *component),
{
    let n: usize = filters.len();
    let mut i: usize = 0;
    while i < n
        invariant
            n == filters@.len(),
            i <= n,
            forall|j: int| 0 <= j < i ==> !(#[trigger] filters@[j]).admits(component),
        decreases n - i,
    {
        if filters[i].matches(component) {
            return true;
        }
        i = i + 1;
    }
    false
}

/// Leaves the components that the filters of a dataset admit.
fn keep_components(components: Vec<Component>, filters: &Vec<ComponentFilter>) -> (r: Vec<
    Component,
>)
    ensures
        r@ == kept_components(components@, filters@),
{
    if filters.len() == 0 {
        return components;
    }
    let ghost all = components@;
    let ghost wanted = |c: Component| admitted(filters@, c);
    let mut kept: Vec<Component> = Vec::new();
    proof {
        reveal(Seq::filter);
        assert(all.take(0) =~= Seq::<Component>::empty());
    }
    for component in it: components
        invariant
            it.seq() == all,
            wanted == |c: Component| admitted(filters@, c),
            kept@ == all.take(it.index()).filter(wanted),
    {
        proof {
            reveal(Seq::filter);
            assert(all.take(it.index() + 1).drop_last() =~= all.take(it.index()));
        }
        if any_matches(filters, &component) {
            kept.push(component);
        }
    }
    assert(all.take(all.len() as int) =~= all);
    kept
}

/// Applies a selection to the datasets: a dataset stays where the filters
/// name it, with the components that its filter leaves.
pub fn filter_datasets(filters: &Vec<DatasetFilter>, datasets: Vec<Dataset>) -> (r: Vec<Dataset>)
    ensures
        r@.len() == requested(datasets@, filters@).len(),
        forall|k: int|
            0 <= k < r@.len() ==> filtered(
                #[trigger] r@[k],
                requested(datasets@, filters@)[k],
                filters@,
            ),
{
    let ghost all = datasets@;
    let ghost named = |d: Dataset| filters_for(filters@, d.name@) is Some;
    let mut clean: Vec<Dataset> = Vec::new();
    proof {
        reveal(Seq::filter);
        assert(all.take(0) =~= Seq::<Dataset>::empty());
    }
    for dataset in it: datasets
        invariant
            it.seq() == all,
            named == |d: Dataset| filters_for(filters@, d.name@) is Some,
            clean@.len() == all.take(it.index()).filter(named).len(),
            forall|k: int|
                0 <= k < clean@.len() ==> filtered(
                    #[trigger] clean@[k],
                    all.take(it.index()).filter(named)[k],
                    filters@,
                ),
    {
        proof {
            reveal(Seq::filter);
            assert(all.take(it.index() + 1).drop_last() =~= all.take(it.index()));
        }
        match find_filters(filters, &dataset.name) {
            Some(component_filters) => {
                let Dataset { name, description, pmid, url, components } = dataset;
                let kept: Vec<Component> = keep_components(components, component_filters);
                clean.push(Dataset { name, description, pmid, url, components: kept });
            },
            None => {},
        }
    }
    assert(all.take(all.len() as int) =~= all);
    clean
}

/// Whether no two filters are for the same dataset.
pub open spec fn distinct_names(filters: Seq<DatasetFilter>) -> bool {
    forall|i: int, j: int|
        0 <= i < j < filters.len() ==> (#[trigger] filters[i]).dataset@ != (
        #[trigger] filters[j]).dataset@
}

/// A dataset without a filter of its name has none; and where no two filters
/// are for the same dataset, each of them is the one that is found for its
/// name.
pub proof fn lemma_filters_for(filters: Seq<DatasetFilter>, name: Seq<char>)
    ensures
        filters_for(filters, name) is Some <==> exists|i: int|
            0 <= i < filters.len() && (#[trigger] filters[i]).dataset@ == name,
        distinct_names(filters) ==> forall|i: int|
            0 <= i < filters.len() && (#[trigger] filters[i]).dataset@ == name ==> filters_for(
                filters,
                name,
            ) == Some(filters[i].components@),
    decreases filters.len(),
{
    if filters.len() > 0 {
        let rest = filters.drop_first();
        lemma_filters_for(rest, name);
        if filters[0].dataset@ != name {
            if filters_for(filters, name) is Some {
                let i = choose|i: int| 0 <= i < rest.len() && (#[trigger] rest[i]).dataset@ == name;
                assert(filters[i + 1].dataset@ == name);
            }
            if exists|i: int| 0 <= i < filters.len() && (#[trigger] filters[i]).dataset@ == name {
                let i = choose|i: int|
                    0 <= i < filters.len() && (#[trigger] filters[i]).dataset@ == name;
                assert(rest[i - 1].dataset@ == name);
            }
        } else {
            assert(filters[0].dataset@ == name);
        }
        if distinct_names(filters) {
            assert forall|i: int, j: int| 0 <= i < j < rest.len() implies (#[trigger] rest[i]).dataset@
                != (#[trigger] rest[j]).dataset@ by {
                assert(rest[i] == filters[i + 1]);
                assert(rest[j] == filters[j + 1]);
            }
            assert forall|i: int|
                0 <= i < filters.len() && (#[trigger] filters[i]).dataset@ == name implies filters_for(
                filters,
                name,
            ) == Some(filters[i].components@) by {
                if i > 0 {
                    assert(filters[i] == rest[i - 1]);
                    assert(filters[0].dataset@ != filters[i].dataset@);
                }
            }
        }
    }
}

} // verus!
