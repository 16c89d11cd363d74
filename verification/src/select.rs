//! The endpoint selector: one endpoint at random from the selected
//! category, or from all categories.

use crate::catalog::{
    categories_view, clone_endpoints, endpoints_view, ApiCategory, ApiEndpoint, CategoryView,
    EndpointView,
};
use crate::error::FetchError;
use crate::store::{all_categories, category_index_from, find_category, random_id, Catalog};
use rand::seq::SliceRandom;
use vstd::prelude::*;
use vstd::string::*;

verus! {

/// The endpoints of all categories, category by category.
pub open spec fn all_endpoints(categories: Seq<CategoryView>) -> Seq<EndpointView>
    decreases categories.len(),
{
    if categories.len() == 0 {
        Seq::empty()
    } else {
        all_endpoints(categories.drop_last()) + categories.last().endpoints
    }
}

/// The endpoints among which one is chosen when `selected` is the selected
/// category: those of all categories where it is the identifier for all
/// endpoints, else those of the first category with that identifier, none
/// where there is no such category.
pub open spec fn candidates(categories: Seq<CategoryView>, selected: Seq<char>) -> Seq<
    EndpointView,
> {
    if selected == random_id() {
        all_endpoints(categories)
    } else {
        match find_category(categories, selected) {
            Some(category) => category.endpoints,
            None => Seq::empty(),
        }
    }
}

/// `endpoint` is an endpoint of some category of `categories`.
pub open spec fn belongs_to(categories: Seq<CategoryView>, endpoint: EndpointView) -> bool {
    exists|i: int, j: int|
        0 <= i < categories.len() && 0 <= j < categories[i].endpoints.len()
            && #[trigger] categories[i].endpoints[j] == endpoint
}

/// Every endpoint of `all_endpoints` is an endpoint of some category.
pub proof fn lemma_all_endpoints_belong(categories: Seq<CategoryView>, k: int)
    requires
        0 <= k < all_endpoints(categories).len(),
    ensures
        belongs_to(categories, all_endpoints(categories)[k]),
    decreases categories.len(),
{
    let earlier = all_endpoints(categories.drop_last());
    let last = categories.len() - 1;
    if k < earlier.len() {
        lemma_all_endpoints_belong(categories.drop_last(), k);
        let (i, j) = choose|i: int, j: int|
            0 <= i < categories.drop_last().len() && 0 <= j < categories.drop_last()[i].endpoints.len()
                && #[trigger] categories.drop_last()[i].endpoints[j] == earlier[k];
        assert(categories[i].endpoints[j] == all_endpoints(categories)[k]);
    } else {
        assert(categories[last].endpoints[k - earlier.len()] == all_endpoints(categories)[k]);
    }
}

/// Whatever is selected, every candidate is an endpoint of some category of
/// the catalog: a choice among the candidates never leaves the catalog.
pub proof fn lemma_candidates_belong(categories: Seq<CategoryView>, selected: Seq<char>, k: int)
    requires
        0 <= k < candidates(categories, selected).len(),
    ensures
        belongs_to(categories, candidates(categories, selected)[k]),
{
    if selected == random_id() {
        lemma_all_endpoints_belong(categories, k);
    } else {
        let i = category_index_from(categories, selected, 0);
        assert(categories[i].endpoints[k] == candidates(categories, selected)[k]);
    }
}

/// A copy of the endpoints among which one is chosen.
pub fn candidate_endpoints(categories: &Vec<ApiCategory>, selected: &str) -> (found: Vec<
    ApiEndpoint,
>)
    ensures
        endpoints_view(found@) == candidates(categories_view(categories@), selected@),
{
    let ghost all = categories_view(categories@);
    let wanted = String::from_str(selected);
    let mut found: Vec<ApiEndpoint> = Vec::new();
    assert(endpoints_view(found@) =~= Seq::empty());
    if wanted == String::from_str("random") {
        let mut i: usize = 0;
        while i < categories.len()
            invariant
                i <= categories.len(),
                all == categories_view(categories@),
                endpoints_view(found@) == all_endpoints(all.take(i as int)),
            decreases categories.len() - i,
        {
            proof {
                assert(all.take(i + 1).drop_last() =~= all.take(i as int));
                assert(all.take(i + 1).last() == categories@[i as int]@);
            }
            let mut j: usize = 0;
            while j < categories[i as usize].endpoints.len()
                invariant
                    i < categories.len(),
                    j <= categories[i as int].endpoints.len(),
                    endpoints_view(found@) == all_endpoints(all.take(i as int)) + endpoints_view(
                        categories[i as int].endpoints@,
                    ).take(j as int),
                decreases categories[i as int].endpoints.len() - j,
            {
                let ghost before = found@;
                let endpoint = categories[i].endpoints[j].clone();
                found.push(endpoint);
                proof {
                    let own = endpoints_view(categories[i as int].endpoints@);
                    assert(own.take(j + 1) =~= own.take(j as int).push(own[j as int]));
                    assert(endpoints_view(found@) =~= endpoints_view(before).push(endpoint@));
                }
                j += 1;
            }
            proof {
                let own = endpoints_view(categories[i as int].endpoints@);
                assert(own.take(own.len() as int) =~= own);
            }
            i += 1;
        }
        assert(all.take(categories.len() as int) =~= all);
        found
    } else {
        let mut i: usize = 0;
        while i < categories.len()
            invariant
                i <= categories.len(),
                all == categories_view(categories@),
                wanted@ == selected@,
                selected@ != random_id(),
                category_index_from(all, wanted@, i as int) == category_index_from(all, wanted@, 0),
            decreases categories.len() - i,
        {
            assert(all[i as int] == categories@[i as int]@);
            if categories[i].id == wanted {
                return clone_endpoints(&categories[i].endpoints);
            }
            i += 1;
        }
        found
    }
}

/// `SliceRandom::choose` of the `rand` crate with the random number
/// generator of the thread: some element of `candidates`, `None` exactly
/// when there is none. Which element comes is left open.
#[verifier::external_body]
fn choose_endpoint(candidates: &Vec<ApiEndpoint>) -> (chosen: Option<&ApiEndpoint>)
    ensures
        chosen is Some <==> candidates@.len() > 0,
        chosen is Some ==> exists|k: int|
            0 <= k < candidates@.len() && #[trigger] candidates@[k] == *chosen->0,
{
    candidates.choose(&mut rand::thread_rng())
}

/// A copy of the endpoint that was chosen, or the failure to find one.
pub fn take_chosen(chosen: Option<&ApiEndpoint>) -> (endpoint: Result<ApiEndpoint, FetchError>)
    ensures
        match chosen {
            Some(found) => endpoint is Ok && endpoint->Ok_0@ == found@,
            None => endpoint == Err::<ApiEndpoint, FetchError>(FetchError::NoEndpoints),
        },
{
    match chosen {
        Some(found) => Ok(found.clone()),
        None => Err(FetchError::NoEndpoints),
    }
}

/// Chooses one of the candidates at random.
///
/// Fails exactly when there is no candidate. An endpoint that is returned is
/// one of the candidates, and so of some category of `categories`.
pub fn select_endpoint(categories: &Vec<ApiCategory>, selected: &str) -> (endpoint: Result<
    ApiEndpoint,
    FetchError,
>)
    ensures
        endpoint is Ok <==> candidates(categories_view(categories@), selected@).len() > 0,
        endpoint is Err ==> endpoint == Err::<ApiEndpoint, FetchError>(FetchError::NoEndpoints),
        endpoint is Ok ==> candidates(categories_view(categories@), selected@).contains(
            endpoint->Ok_0@,
        ),
        endpoint is Ok ==> belongs_to(categories_view(categories@), endpoint->Ok_0@),
{
    let found = candidate_endpoints(categories, selected);
    let chosen = choose_endpoint(&found);
    proof {
        if chosen is Some {
            let k = choose|k: int| 0 <= k < found@.len() && #[trigger] found@[k] == *chosen->0;
            assert(endpoints_view(found@)[k] == found@[k]@);
            lemma_candidates_belong(categories_view(categories@), selected@, k);
        }
    }
    take_chosen(chosen)
}

impl Catalog {
    /// Chooses at random one endpoint of the selected category, or of all
    /// categories where every endpoint is selected.
    pub fn select(&self) -> (endpoint: Result<ApiEndpoint, FetchError>)
        ensures
            endpoint is Ok <==> candidates(all_categories(self@), self@.current).len() > 0,
            endpoint is Err ==> endpoint == Err::<ApiEndpoint, FetchError>(
                FetchError::NoEndpoints,
            ),
            endpoint is Ok ==> candidates(all_categories(self@), self@.current).contains(
                endpoint->Ok_0@,
            ),
            endpoint is Ok ==> belongs_to(all_categories(self@), endpoint->Ok_0@),
    {
        let categories = self.get_all_categories();
        select_endpoint(&categories, self.current.as_str())
    }
}

} // verus!
