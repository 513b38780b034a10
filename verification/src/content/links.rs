//! The links that a post's annotations point to.

use crate::bluesky::{Facet, FacetFeature, PostRecord};
use crate::text::string_texts;
use vstd::prelude::*;

verus! {

/// The address a feature points to, where the feature is a link.
pub open spec fn link_of(feature: FacetFeature) -> Option<Seq<char>> {
    match feature {
        FacetFeature::Link { uri } => Some(uri@),
        _ => None,
    }
}

/// The addresses of the links among `features`, in their order. Mentions
/// and tags give nothing.
pub open spec fn feature_links(features: Seq<FacetFeature>) -> Seq<Seq<char>> {
    features.filter_map(|f: FacetFeature| link_of(f))
}

/// The addresses of the links of all `facets`, facet by facet and, within a
/// facet, feature by feature.
pub open spec fn facet_links(facets: Seq<Facet>) -> Seq<Seq<char>> {
    facets.flat_map(|f: Facet| feature_links(f.features@))
}

/// The addresses of the links of a post: none where it has no annotations.
pub open spec fn record_links(record: PostRecord) -> Seq<Seq<char>> {
    match record.facets {
        Some(facets) => facet_links(facets@),
        None => Seq::empty(),
    }
}

/// A feature appended to a list adds its address if it is a link, and
/// nothing otherwise.
pub proof fn lemma_feature_links_push(features: Seq<FacetFeature>, feature: FacetFeature)
    ensures
        feature_links(features.push(feature)) == match link_of(feature) {
            Some(uri) => feature_links(features).push(uri),
            None => feature_links(features),
        },
{
    assert(features.push(feature).drop_last() == features);
}

/// A facet appended to a list adds the links among its features, after
/// those of the facets before it.
pub proof fn lemma_facet_links_push(facets: Seq<Facet>, facet: Facet)
    ensures
        facet_links(facets.push(facet)) == facet_links(facets) + feature_links(facet.features@),
{
    facets.lemma_flat_map_push(|f: Facet| feature_links(f.features@), facet);
}

/// Features that are all links give all their addresses, in order; features
/// none of which is a link give nothing.
pub proof fn lemma_feature_links_uniform(features: Seq<FacetFeature>)
    ensures
        (forall|i: int| 0 <= i < features.len() ==> #[trigger] features[i] is Link) ==> {
            &&& feature_links(features).len() == features.len()
            &&& forall|i: int|
                0 <= i < features.len() ==> #[trigger] feature_links(features)[i]
                    == features[i]->Link_uri@
        },
        (forall|i: int| 0 <= i < features.len() ==> !(#[trigger] features[i] is Link))
            ==> feature_links(features).len() == 0,
    decreases features.len(),
{
    if features.len() > 0 {
        let init = features.drop_last();
        lemma_feature_links_uniform(init);
        assert(init.push(features.last()) == features);
        lemma_feature_links_push(init, features.last());
        if forall|i: int| 0 <= i < features.len() ==> #[trigger] features[i] is Link {
            assert forall|i: int| 0 <= i < init.len() implies #[trigger] init[i] is Link by {
                assert(init[i] == features[i]);
            }
            assert(features[features.len() - 1] is Link);
            assert forall|i: int| 0 <= i < features.len() implies #[trigger] feature_links(
                features,
            )[i] == features[i]->Link_uri@ by {
                if i < init.len() {
                    assert(init[i] == features[i]);
                }
            }
        }
        if forall|i: int| 0 <= i < features.len() ==> !(#[trigger] features[i] is Link) {
            assert forall|i: int| 0 <= i < init.len() implies !(#[trigger] init[i] is Link) by {
                assert(init[i] == features[i]);
            }
            assert(!(features[features.len() - 1] is Link));
        }
    }
}

/// A post whose annotations are links, one to a facet, has exactly their
/// addresses as its links, in the order of the facets; facets without a
/// link among their features give nothing.
pub proof fn lemma_facet_links_of_link_facets(facets: Seq<Facet>)
    ensures
        (forall|i: int|
            0 <= i < facets.len() ==> (#[trigger] facets[i]).features@.len() == 1
                && facets[i].features@[0] is Link) ==> {
            &&& facet_links(facets).len() == facets.len()
            &&& forall|i: int|
                0 <= i < facets.len() ==> #[trigger] facet_links(facets)[i]
                    == facets[i].features@[0]->Link_uri@
        },
        (forall|i: int, j: int|
            0 <= i < facets.len() && 0 <= j < facets[i].features@.len() ==> !(
            #[trigger] facets[i].features@[j] is Link)) ==> facet_links(facets).len() == 0,
    decreases facets.len(),
{
    if facets.len() == 0 {
        assert(facet_links(facets) == Seq::<Seq<char>>::empty());
    } else {
        let init = facets.drop_last();
        let last = facets.last();
        lemma_facet_links_of_link_facets(init);
        assert(init.push(last) == facets);
        lemma_facet_links_push(init, last);
        lemma_feature_links_uniform(last.features@);
        if forall|i: int|
            0 <= i < facets.len() ==> (#[trigger] facets[i]).features@.len() == 1
                && facets[i].features@[0] is Link {
            assert forall|i: int| 0 <= i < init.len() implies (#[trigger] init[i]).features@.len()
                == 1 && init[i].features@[0] is Link by {
                assert(init[i] == facets[i]);
            }
            assert(facets[facets.len() - 1] == last);
            assert forall|i: int| 0 <= i < facets.len() implies #[trigger] facet_links(facets)[i]
                == facets[i].features@[0]->Link_uri@ by {
                if i < init.len() {
                    assert(init[i] == facets[i]);
                    assert(facet_links(facets)[i] == facet_links(init)[i]);
                } else {
                    assert(facet_links(facets)[i] == feature_links(last.features@)[0]);
                }
            }
        }
        if forall|i: int, j: int|
            0 <= i < facets.len() && 0 <= j < facets[i].features@.len() ==> !(
            #[trigger] facets[i].features@[j] is Link) {
            assert forall|i: int, j: int|
                0 <= i < init.len() && 0 <= j < init[i].features@.len() implies !(
            #[trigger] init[i].features@[j] is Link) by {
                assert(init[i] == facets[i]);
            }
            assert forall|j: int| 0 <= j < last.features@.len() implies !(
            #[trigger] last.features@[j] is Link) by {
                assert(facets[facets.len() - 1].features@[j] == last.features@[j]);
            }
        }
    }
}

/// The addresses of the links among the features of one facet.
pub fn extract_links_from_facet(facet: &Facet) -> (links: Vec<String>)
    ensures
        string_texts(links@) == feature_links(facet.features@),
{
    let mut links: Vec<String> = Vec::new();
    let mut i: usize = 0;
    assert(string_texts(links@) == Seq::<Seq<char>>::empty());
    while i < facet.features.len()
        invariant
            i <= facet.features.len(),
            string_texts(links@) == feature_links(facet.features@.take(i as int)),
        decreases facet.features.len() - i,
    {
        proof {
            lemma_feature_links_push(facet.features@.take(i as int), facet.features@[i as int]);
            assert(facet.features@.take(i as int).push(facet.features@[i as int])
                == facet.features@.take(i + 1));
        }
        match &facet.features[i] {
            FacetFeature::Link { uri } => {
                let ghost before = string_texts(links@);
                links.push(uri.clone());
                assert(string_texts(links@) == before.push(uri@));
            },
            _ => {},
        }
        i += 1;
    }
    assert(facet.features@.take(facet.features.len() as int) == facet.features@);
    links
}

/// The addresses of all links of a post, in the order of its annotations.
pub fn extract_links(record: &PostRecord) -> (links: Vec<String>)
    ensures
        string_texts(links@) == record_links(*record),
        record.facets is None ==> links@.len() == 0,
{
    let mut links: Vec<String> = Vec::new();
    assert(string_texts(links@) == Seq::<Seq<char>>::empty());
    match &record.facets {
        None => {},
        Some(facets) => {
            let mut i: usize = 0;
            while i < facets.len()
                invariant
                    i <= facets.len(),
                    string_texts(links@) == facet_links(facets@.take(i as int)),
                decreases facets.len() - i,
            {
                proof {
                    lemma_facet_links_push(facets@.take(i as int), facets@[i as int]);
                    assert(facets@.take(i as int).push(facets@[i as int]) == facets@.take(i + 1));
                }
                let mut found = extract_links_from_facet(&facets[i]);
                let ghost before = string_texts(links@);
                let ghost added = string_texts(found@);
                links.append(&mut found);
                assert(string_texts(links@) == before + added);
                i += 1;
            }
            assert(facets@.take(facets.len() as int) == facets@);
        },
    }
    links
}

} // verus!
