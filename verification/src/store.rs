//! The catalog of one kind of media: the built-in categories, what the user
//! added to them, and the category that is selected.

use crate::builtin::{builtin_catalog, builtin_categories_of};
use crate::catalog::{
    categories_view, clone_endpoints, endpoints_view, ApiCategory, ApiEndpoint, CategoryView,
    EndpointView, MediaKind,
};
use crate::error::CatalogError;
use vstd::prelude::*;
use vstd::string::*;

verus! {

// ---------------------------------------------------------------------------
// State
// ---------------------------------------------------------------------------

/// An endpoint that the user added, with the category that it was added to.
#[derive(Debug)]
pub struct CustomEndpoint {
    pub category_id: String,
    pub endpoint: ApiEndpoint,
}

/// A [`CustomEndpoint`] as mathematical values.
pub struct CustomEndpointView {
    pub category_id: Seq<char>,
    pub endpoint: EndpointView,
}

impl View for CustomEndpoint {
    type V = CustomEndpointView;

    open spec fn view(&self) -> CustomEndpointView {
        CustomEndpointView { category_id: self.category_id@, endpoint: self.endpoint@ }
    }
}

/// The views of a sequence of user-defined endpoints.
pub open spec fn custom_view(custom: Seq<CustomEndpoint>) -> Seq<CustomEndpointView> {
    custom.map_values(|e: CustomEndpoint| e@)
}

/// The catalog of one kind of media.
#[derive(Debug)]
pub struct Catalog {
    /// The kind of media that the endpoints yield.
    pub kind: MediaKind,
    /// The identifier of the selected category.
    pub current: String,
    /// The categories that the user added, oldest first.
    pub custom_categories: Vec<ApiCategory>,
    /// The endpoints that the user added, oldest first.
    pub custom_endpoints: Vec<CustomEndpoint>,
}

/// A [`Catalog`] as mathematical values.
pub struct CatalogView {
    pub kind: MediaKind,
    pub current: Seq<char>,
    pub custom_categories: Seq<CategoryView>,
    pub custom_endpoints: Seq<CustomEndpointView>,
}

impl View for Catalog {
    type V = CatalogView;

    open spec fn view(&self) -> CatalogView {
        CatalogView {
            kind: self.kind,
            current: self.current@,
            custom_categories: categories_view(self.custom_categories@),
            custom_endpoints: custom_view(self.custom_endpoints@),
        }
    }
}

// ---------------------------------------------------------------------------
// The catalog as a list of categories
// ---------------------------------------------------------------------------

/// The identifier that selects all endpoints of all categories.
pub open spec fn random_id() -> Seq<char> {
    "random"@
}

/// The user-defined endpoints that were added to the category `id`, oldest
/// first.
pub open spec fn filed_under(custom: Seq<CustomEndpointView>, id: Seq<char>) -> Seq<EndpointView>
    decreases custom.len(),
{
    if custom.len() == 0 {
        Seq::empty()
    } else {
        let earlier = filed_under(custom.drop_last(), id);
        if custom.last().category_id == id {
            earlier.push(custom.last().endpoint)
        } else {
            earlier
        }
    }
}

/// The category with the user-defined endpoints that were added to it behind
/// its own.
pub open spec fn with_custom(category: CategoryView, custom: Seq<CustomEndpointView>) -> CategoryView {
    CategoryView { endpoints: category.endpoints + filed_under(custom, category.id), ..category }
}

/// The categories of `stored`, each with the user-defined endpoints that
/// were added to it.
pub open spec fn merged(stored: Seq<CategoryView>, custom: Seq<CustomEndpointView>) -> Seq<
    CategoryView,
> {
    stored.map_values(|c: CategoryView| with_custom(c, custom))
}

/// All categories of a catalog: the built-in ones, then the user-defined
/// ones, each with the user-defined endpoints that were added to it.
pub open spec fn all_categories(catalog: CatalogView) -> Seq<CategoryView> {
    merged(builtin_catalog(catalog.kind) + catalog.custom_categories, catalog.custom_endpoints)
}

/// Some category of `categories` has the identifier `id`.
pub open spec fn has_category(categories: Seq<CategoryView>, id: Seq<char>) -> bool {
    exists|i: int| 0 <= i < categories.len() && #[trigger] categories[i].id == id
}

/// `id` can be selected: it is the identifier for all endpoints, or that of
/// a category of the catalog.
pub open spec fn category_known(catalog: CatalogView, id: Seq<char>) -> bool {
    id == random_id() || has_category(all_categories(catalog), id)
}

/// Index of the first category at or after `i` with the identifier `id`, or
/// the number of categories.
pub open spec fn category_index_from(categories: Seq<CategoryView>, id: Seq<char>, i: int) -> int
    decreases categories.len() - i,
{
    if 0 <= i < categories.len() && categories[i].id != id {
        category_index_from(categories, id, i + 1)
    } else {
        i
    }
}

/// The first category with the identifier `id`.
pub open spec fn find_category(categories: Seq<CategoryView>, id: Seq<char>) -> Option<
    CategoryView,
> {
    let i = category_index_from(categories, id, 0);
    if 0 <= i < categories.len() {
        Some(categories[i])
    } else {
        None
    }
}

proof fn lemma_merged_push(
    stored: Seq<CategoryView>,
    category: CategoryView,
    custom: Seq<CustomEndpointView>,
)
    ensures
        merged(stored.push(category), custom) == merged(stored, custom).push(
            with_custom(category, custom),
        ),
{
    assert(merged(stored.push(category), custom) =~= merged(stored, custom).push(
        with_custom(category, custom),
    ));
}

fn merge_category(category: &ApiCategory, custom: &Vec<CustomEndpoint>) -> (full: ApiCategory)
    ensures
        full@ == with_custom(category@, custom_view(custom@)),
{
    let mut endpoints = clone_endpoints(&category.endpoints);
    let mut k: usize = 0;
    while k < custom.len()
        invariant
            k <= custom.len(),
            endpoints_view(endpoints@) == category@.endpoints + filed_under(
                custom_view(custom@).take(k as int),
                category.id@,
            ),
        decreases custom.len() - k,
    {
        proof {
            let done = custom_view(custom@).take(k as int);
            let next = custom_view(custom@).take(k + 1);
            assert(next.drop_last() =~= done);
            assert(next.last() == custom@[k as int]@);
        }
        if custom[k].category_id == category.id {
            let ghost before = endpoints@;
            endpoints.push(custom[k].endpoint.clone());
            assert(endpoints_view(endpoints@) =~= endpoints_view(before).push(
                custom@[k as int]@.endpoint,
            ));
        }
        k += 1;
    }
    assert(custom_view(custom@).take(custom.len() as int) =~= custom_view(custom@));
    ApiCategory {
        id: category.id.clone(),
        name: category.name.clone(),
        builtin: category.builtin,
        endpoints,
    }
}

pub(crate) fn has_category_id(categories: &Vec<ApiCategory>, id: &String) -> (found: bool)
    ensures
        found == has_category(categories_view(categories@), id@),
{
    let mut i: usize = 0;
    while i < categories.len()
        invariant
            i <= categories.len(),
            forall|k: int| 0 <= k < i ==> categories_view(categories@)[k].id != id@,
        decreases categories.len() - i,
    {
        assert(categories_view(categories@)[i as int] == categories@[i as int]@);
        if categories[i].id == *id {
            assert(categories_view(categories@)[i as int].id == id@);
            return true;
        }
        i += 1;
    }
    false
}

impl Catalog {
    /// The catalog of the given kind with nothing added and every endpoint
    /// selected.
    pub fn new(kind: MediaKind) -> (catalog: Catalog)
        ensures
            catalog@ == (CatalogView {
                kind,
                current: random_id(),
                custom_categories: Seq::empty(),
                custom_endpoints: Seq::empty(),
            }),
    {
        let catalog = Catalog {
            kind,
            current: String::from_str("random"),
            custom_categories: Vec::new(),
            custom_endpoints: Vec::new(),
        };
        assert(categories_view(catalog.custom_categories@) =~= Seq::empty());
        assert(custom_view(catalog.custom_endpoints@) =~= Seq::empty());
        catalog
    }

    /// All categories: the built-in ones, then the user-defined ones, each
    /// with the user-defined endpoints that were added to it.
    pub fn get_all_categories(&self) -> (categories: Vec<ApiCategory>)
        ensures
            categories_view(categories@) == all_categories(self@),
    {
        let builtin = builtin_categories_of(self.kind);
        let ghost stored = builtin_catalog(self.kind) + self@.custom_categories;
        let ghost custom = self@.custom_endpoints;
        let mut categories: Vec<ApiCategory> = Vec::new();
        let mut i: usize = 0;
        while i < builtin.len()
            invariant
                i <= builtin.len(),
                custom == custom_view(self.custom_endpoints@),
                categories_view(builtin@) == builtin_catalog(self.kind),
                categories_view(categories@) == merged(
                    builtin_catalog(self.kind).take(i as int),
                    custom,
                ),
            decreases builtin.len() - i,
        {
            let ghost before = categories@;
            assert(categories_view(builtin@)[i as int] == builtin@[i as int]@);
            let full = merge_category(&builtin[i], &self.custom_endpoints);
            categories.push(full);
            proof {
                let all = builtin_catalog(self.kind);
                assert(all.take(i + 1) =~= all.take(i as int).push(all[i as int]));
                lemma_merged_push(all.take(i as int), all[i as int], custom);
                assert(categories_view(categories@) =~= categories_view(before).push(full@));
            }
            i += 1;
        }
        assert(builtin_catalog(self.kind).take(builtin.len() as int) =~= builtin_catalog(
            self.kind,
        ));
        let mut j: usize = 0;
        while j < self.custom_categories.len()
            invariant
                j <= self.custom_categories.len(),
                custom == custom_view(self.custom_endpoints@),
                stored == builtin_catalog(self.kind) + categories_view(self.custom_categories@),
                categories_view(categories@) == merged(
                    builtin_catalog(self.kind) + categories_view(self.custom_categories@).take(
                        j as int,
                    ),
                    custom,
                ),
            decreases self.custom_categories.len() - j,
        {
            let ghost before = categories@;
            assert(categories_view(self.custom_categories@)[j as int]
                == self.custom_categories@[j as int]@);
            let full = merge_category(&self.custom_categories[j], &self.custom_endpoints);
            categories.push(full);
            proof {
                let own = categories_view(self.custom_categories@);
                let base = builtin_catalog(self.kind);
                assert(base + own.take(j + 1) =~= (base + own.take(j as int)).push(own[j as int]));
                lemma_merged_push(base + own.take(j as int), own[j as int], custom);
                assert(categories_view(categories@) =~= categories_view(before).push(full@));
            }
            j += 1;
        }
        assert(categories_view(self.custom_categories@).take(
            self.custom_categories.len() as int,
        ) =~= categories_view(self.custom_categories@));
        categories
    }

    /// The identifier of the selected category.
    pub fn get_current_category(&self) -> (id: String)
        ensures
            id@ == self@.current,
    {
        self.current.clone()
    }

    /// Whether `id` can be selected.
    pub fn category_exists(&self, id: &str) -> (known: bool)
        ensures
            known == category_known(self@, id@),
    {
        let wanted = String::from_str(id);
        if wanted == String::from_str("random") {
            return true;
        }
        let categories = self.get_all_categories();
        has_category_id(&categories, &wanted)
    }

    /// Selects the category `id`. Fails, and changes nothing, if `id` cannot
    /// be selected.
    pub fn set_current_category(&mut self, id: String) -> (done: Result<(), CatalogError>)
        ensures
            category_known(old(self)@, id@) ==> done is Ok && final(self)@ == (CatalogView {
                current: id@,
                ..old(self)@
            }),
            !category_known(old(self)@, id@) ==> done == Err::<(), CatalogError>(
                CatalogError::CategoryNotFound,
            ) && final(self)@ == old(self)@,
    {
        if !self.category_exists(id.as_str()) {
            return Err(CatalogError::CategoryNotFound);
        }
        self.current = id;
        Ok(())
    }
}

} // verus!
