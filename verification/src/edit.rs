//! Changes to a catalog: adding and deleting user-defined categories and
//! endpoints.

use crate::builtin::{builtin_catalog, builtin_categories_of};
use crate::catalog::{
    categories_view, endpoints_view, ApiCategory, ApiEndpoint, CategoryView, EndpointView,
    MediaKind,
};
use crate::clock::now_millis;
use crate::error::CatalogError;
use crate::fresh::{
    lemma_unused_number_is_unused, numbered, numbered_text, texts_view, unused_number,
    unused_number_of,
};
use crate::select::{all_endpoints, candidate_endpoints};
use crate::store::{
    all_categories, category_index_from, custom_view, filed_under, find_category, has_category,
    has_category_id, merged, random_id, with_custom, Catalog, CatalogView, CustomEndpoint,
    CustomEndpointView,
};
use crate::text::{trim_text, trimmed};
use vstd::prelude::*;
use vstd::string::*;

verus! {

// ---------------------------------------------------------------------------
// Adding
// ---------------------------------------------------------------------------

/// What the identifier of a user-defined category begins with.
pub open spec fn category_prefix(kind: MediaKind) -> Seq<char> {
    match kind {
        MediaKind::Video => "custom_cat_"@,
        MediaKind::Image => "custom_img_cat_"@,
    }
}

/// What the identifier of a user-defined endpoint begins with.
pub open spec fn endpoint_prefix(kind: MediaKind) -> Seq<char> {
    match kind {
        MediaKind::Video => "custom_ep_"@,
        MediaKind::Image => "custom_img_ep_"@,
    }
}

/// The identifier of the user-defined category with the number `number`.
pub open spec fn custom_category_id(kind: MediaKind, number: nat) -> Seq<char> {
    numbered(category_prefix(kind), number)
}

/// The identifier of the user-defined endpoint with the number `number`.
pub open spec fn custom_endpoint_id(kind: MediaKind, number: nat) -> Seq<char> {
    numbered(endpoint_prefix(kind), number)
}

/// The identifiers of a sequence of categories.
pub open spec fn category_ids(categories: Seq<CategoryView>) -> Seq<Seq<char>> {
    categories.map_values(|c: CategoryView| c.id)
}

/// The identifiers of a sequence of endpoints.
pub open spec fn endpoint_ids(endpoints: Seq<EndpointView>) -> Seq<Seq<char>> {
    endpoints.map_values(|e: EndpointView| e.id)
}

/// The number of the category that is added at the time `millis`: `millis`
/// itself where no category of the catalog bears its identifier, else the
/// first number after it of which that holds.
pub open spec fn new_category_number(catalog: CatalogView, millis: nat) -> nat {
    unused_number(category_ids(all_categories(catalog)), category_prefix(catalog.kind), millis)
}

/// The number of the endpoint that is added at the time `millis`: `millis`
/// itself where no endpoint of the catalog bears its identifier, else the
/// first number after it of which that holds.
pub open spec fn new_endpoint_number(catalog: CatalogView, millis: nat) -> nat {
    unused_number(
        endpoint_ids(all_endpoints(all_categories(catalog))),
        endpoint_prefix(catalog.kind),
        millis,
    )
}

/// The category that is added under `name` with the number `number`.
pub open spec fn new_category(kind: MediaKind, name: Seq<char>, number: nat) -> CategoryView {
    CategoryView {
        id: custom_category_id(kind, number),
        name: trimmed(name),
        builtin: false,
        endpoints: Seq::empty(),
    }
}

/// The endpoint that is added under `name` for `url` with the number
/// `number`.
pub open spec fn new_endpoint(kind: MediaKind, name: Seq<char>, url: Seq<char>, number: nat) -> EndpointView {
    EndpointView {
        id: custom_endpoint_id(kind, number),
        name: trimmed(name),
        url: trimmed(url),
        builtin: false,
    }
}

/// What adding a category under `name` at `millis` answers and leaves: the
/// new category, under an identifier that no category bears yet, behind the
/// user-defined ones; or a failure and no change where the name is blank.
pub open spec fn add_category_outcome(catalog: CatalogView, name: Seq<char>, millis: nat) -> (
    Result<CategoryView, CatalogError>,
    CatalogView,
) {
    if trimmed(name).len() == 0 {
        (Err(CatalogError::EmptyCategoryName), catalog)
    } else {
        let category = new_category(catalog.kind, name, new_category_number(catalog, millis));
        (
            Ok(category),
            CatalogView { custom_categories: catalog.custom_categories.push(category), ..catalog },
        )
    }
}

/// What adding an endpoint to the category `category_id` at `millis`
/// answers and leaves: the new endpoint, under an identifier that no
/// endpoint bears yet, behind the user-defined ones; or a failure and no
/// change where the name or the address is blank or the category is none of
/// the catalog.
pub open spec fn add_endpoint_outcome(
    catalog: CatalogView,
    category_id: Seq<char>,
    name: Seq<char>,
    url: Seq<char>,
    millis: nat,
) -> (Result<EndpointView, CatalogError>, CatalogView) {
    if trimmed(name).len() == 0 || trimmed(url).len() == 0 {
        (Err(CatalogError::EmptyNameOrUrl), catalog)
    } else if category_id == random_id() || !has_category(all_categories(catalog), category_id) {
        (Err(CatalogError::CategoryNotFound), catalog)
    } else {
        let endpoint = new_endpoint(
            catalog.kind,
            name,
            url,
            new_endpoint_number(catalog, millis),
        );
        (
            Ok(endpoint),
            CatalogView {
                custom_endpoints: catalog.custom_endpoints.push(
                    CustomEndpointView { category_id, endpoint },
                ),
                ..catalog
            },
        )
    }
}

/// The view of what a change answered.
pub open spec fn answer_view<T: View>(answer: Result<T, CatalogError>) -> Result<
    T::V,
    CatalogError,
> {
    match answer {
        Ok(value) => Ok(value@),
        Err(error) => Err(error),
    }
}

/// The identifier of a new category is that of no category of the catalog.
pub proof fn lemma_new_category_id_is_unique(catalog: CatalogView, name: Seq<char>, millis: nat)
    ensures
        add_category_outcome(catalog, name, millis).0 matches Ok(category)
            ==> !category_ids(all_categories(catalog)).contains(category.id),
{
    lemma_unused_number_is_unused(
        category_ids(all_categories(catalog)),
        category_prefix(catalog.kind),
        millis,
    );
}

/// The identifier of a new endpoint is that of no endpoint of the catalog.
pub proof fn lemma_new_endpoint_id_is_unique(
    catalog: CatalogView,
    category_id: Seq<char>,
    name: Seq<char>,
    url: Seq<char>,
    millis: nat,
)
    ensures
        add_endpoint_outcome(catalog, category_id, name, url, millis).0 matches Ok(endpoint)
            ==> !endpoint_ids(all_endpoints(all_categories(catalog))).contains(endpoint.id),
{
    lemma_unused_number_is_unused(
        endpoint_ids(all_endpoints(all_categories(catalog))),
        endpoint_prefix(catalog.kind),
        millis,
    );
}

fn category_prefix_of(kind: MediaKind) -> (prefix: &'static str)
    ensures
        prefix@ == category_prefix(kind),
{
    match kind {
        MediaKind::Video => "custom_cat_",
        MediaKind::Image => "custom_img_cat_",
    }
}

fn endpoint_prefix_of(kind: MediaKind) -> (prefix: &'static str)
    ensures
        prefix@ == endpoint_prefix(kind),
{
    match kind {
        MediaKind::Video => "custom_ep_",
        MediaKind::Image => "custom_img_ep_",
    }
}

fn category_id_list(categories: &Vec<ApiCategory>) -> (ids: Vec<String>)
    ensures
        texts_view(ids@) == category_ids(categories_view(categories@)),
{
    let mut ids: Vec<String> = Vec::new();
    let mut i: usize = 0;
    while i < categories.len()
        invariant
            i <= categories.len(),
            ids.len() == i,
            forall|k: int| 0 <= k < i ==> ids@[k]@ == categories@[k].id@,
        decreases categories.len() - i,
    {
        ids.push(categories[i].id.clone());
        i += 1;
    }
    assert(texts_view(ids@) =~= category_ids(categories_view(categories@)));
    ids
}

fn endpoint_id_list(endpoints: &Vec<ApiEndpoint>) -> (ids: Vec<String>)
    ensures
        texts_view(ids@) == endpoint_ids(endpoints_view(endpoints@)),
{
    let mut ids: Vec<String> = Vec::new();
    let mut i: usize = 0;
    while i < endpoints.len()
        invariant
            i <= endpoints.len(),
            ids.len() == i,
            forall|k: int| 0 <= k < i ==> ids@[k]@ == endpoints@[k].id@,
        decreases endpoints.len() - i,
    {
        ids.push(endpoints[i].id.clone());
        i += 1;
    }
    assert(texts_view(ids@) =~= endpoint_ids(endpoints_view(endpoints@)));
    ids
}

impl Catalog {
    /// Adds a category under `name`, as at the time `millis`. Its
    /// identifier is made of `millis`, or of the first number after it
    /// whose identifier no category bears yet.
    pub fn add_custom_category_at(&mut self, name: &str, millis: u128) -> (added: Result<
        ApiCategory,
        CatalogError,
    >)
        ensures
            (answer_view(added), final(self)@) == add_category_outcome(
                old(self)@,
                name@,
                millis as nat,
            ),
            added matches Ok(category) ==> !category_ids(all_categories(old(self)@)).contains(
                category.id@,
            ),
    {
        proof {
            lemma_new_category_id_is_unique(self@, name@, millis as nat);
        }
        let name = trim_text(name);
        if name.as_str().unicode_len() == 0 {
            return Err(CatalogError::EmptyCategoryName);
        }
        let categories = self.get_all_categories();
        let used = category_id_list(&categories);
        let prefix = category_prefix_of(self.kind);
        let id = numbered_text(prefix, unused_number_of(&used, prefix, millis));
        let category = ApiCategory {
            id: id.clone(),
            name: name.clone(),
            builtin: false,
            endpoints: Vec::new(),
        };
        let stored = ApiCategory { id, name, builtin: false, endpoints: Vec::new() };
        assert(endpoints_view(category.endpoints@) =~= Seq::empty());
        assert(endpoints_view(stored.endpoints@) =~= Seq::empty());
        let ghost before = self.custom_categories@;
        self.custom_categories.push(stored);
        assert(categories_view(self.custom_categories@) =~= categories_view(before).push(
            stored@,
        ));
        Ok(category)
    }

    /// Adds a category under `name`, with an identifier made from the time.
    pub fn add_custom_category(&mut self, name: &str) -> (added: Result<ApiCategory, CatalogError>)
        ensures
            exists|millis: nat|
                (answer_view(added), final(self)@) == #[trigger] add_category_outcome(
                    old(self)@,
                    name@,
                    millis,
                ),
            added matches Ok(category) ==> !category_ids(all_categories(old(self)@)).contains(
                category.id@,
            ),
    {
        let millis = now_millis();
        let added = self.add_custom_category_at(name, millis);
        assert((answer_view(added), self@) == add_category_outcome(
            old(self)@,
            name@,
            millis as nat,
        ));
        added
    }

    /// Adds an endpoint under `name` for `url` to the category
    /// `category_id`, as at the time `millis`. Its identifier is made of
    /// `millis`, or of the first number after it whose identifier no
    /// endpoint bears yet.
    pub fn add_custom_api_at(
        &mut self,
        category_id: String,
        name: &str,
        url: &str,
        millis: u128,
    ) -> (added: Result<ApiEndpoint, CatalogError>)
        ensures
            (answer_view(added), final(self)@) == add_endpoint_outcome(
                old(self)@,
                category_id@,
                name@,
                url@,
                millis as nat,
            ),
            added matches Ok(endpoint) ==> !endpoint_ids(
                all_endpoints(all_categories(old(self)@)),
            ).contains(endpoint.id@),
    {
        proof {
            lemma_new_endpoint_id_is_unique(self@, category_id@, name@, url@, millis as nat);
        }
        let name = trim_text(name);
        let url = trim_text(url);
        if name.as_str().unicode_len() == 0 || url.as_str().unicode_len() == 0 {
            return Err(CatalogError::EmptyNameOrUrl);
        }
        let categories = self.get_all_categories();
        if category_id == String::from_str("random") || !has_category_id(
            &categories,
            &category_id,
        ) {
            return Err(CatalogError::CategoryNotFound);
        }
        let used = endpoint_id_list(&candidate_endpoints(&categories, "random"));
        let prefix = endpoint_prefix_of(self.kind);
        let endpoint = ApiEndpoint {
            id: numbered_text(prefix, unused_number_of(&used, prefix, millis)),
            name,
            url,
            builtin: false,
        };
        let stored = CustomEndpoint { category_id, endpoint: endpoint.clone() };
        let ghost before = self.custom_endpoints@;
        self.custom_endpoints.push(stored);
        assert(custom_view(self.custom_endpoints@) =~= custom_view(before).push(stored@));
        Ok(endpoint)
    }

    /// Adds an endpoint under `name` for `url` to the category
    /// `category_id`, with an identifier made from the time.
    pub fn add_custom_api(&mut self, category_id: String, name: &str, url: &str) -> (added: Result<
        ApiEndpoint,
        CatalogError,
    >)
        ensures
            exists|millis: nat|
                (answer_view(added), final(self)@) == #[trigger] add_endpoint_outcome(
                    old(self)@,
                    category_id@,
                    name@,
                    url@,
                    millis,
                ),
            added matches Ok(endpoint) ==> !endpoint_ids(
                all_endpoints(all_categories(old(self)@)),
            ).contains(endpoint.id@),
    {
        let millis = now_millis();
        let ghost wanted = category_id@;
        let added = self.add_custom_api_at(category_id, name, url, millis);
        assert((answer_view(added), self@) == add_endpoint_outcome(
            old(self)@,
            wanted,
            name@,
            url@,
            millis as nat,
        ));
        added
    }
}

// ---------------------------------------------------------------------------
// Deleting
// ---------------------------------------------------------------------------

/// Some user-defined endpoint has the identifier `api_id`.
pub open spec fn has_custom_endpoint(custom: Seq<CustomEndpointView>, api_id: Seq<char>) -> bool {
    exists|i: int| 0 <= i < custom.len() && #[trigger] custom[i].endpoint.id == api_id
}

/// The user-defined endpoints without those that have the identifier
/// `api_id`, in their order.
pub open spec fn without_endpoint(custom: Seq<CustomEndpointView>, api_id: Seq<char>) -> Seq<
    CustomEndpointView,
>
    decreases custom.len(),
{
    if custom.len() == 0 {
        Seq::empty()
    } else {
        let earlier = without_endpoint(custom.drop_last(), api_id);
        if custom.last().endpoint.id != api_id {
            earlier.push(custom.last())
        } else {
            earlier
        }
    }
}

/// The user-defined endpoints without those that were added to the category
/// `category_id`, in their order.
pub open spec fn without_filed_under(
    custom: Seq<CustomEndpointView>,
    category_id: Seq<char>,
) -> Seq<CustomEndpointView>
    decreases custom.len(),
{
    if custom.len() == 0 {
        Seq::empty()
    } else {
        let earlier = without_filed_under(custom.drop_last(), category_id);
        if custom.last().category_id != category_id {
            earlier.push(custom.last())
        } else {
            earlier
        }
    }
}

/// The categories without those that have the identifier `id`, in their
/// order.
pub open spec fn without_category(categories: Seq<CategoryView>, id: Seq<char>) -> Seq<
    CategoryView,
>
    decreases categories.len(),
{
    if categories.len() == 0 {
        Seq::empty()
    } else {
        let earlier = without_category(categories.drop_last(), id);
        if categories.last().id != id {
            earlier.push(categories.last())
        } else {
            earlier
        }
    }
}

/// The selected category is one of the catalog and offers an endpoint.
pub open spec fn selection_has_endpoints(catalog: CatalogView) -> bool {
    match find_category(all_categories(catalog), catalog.current) {
        Some(category) => category.endpoints.len() > 0,
        None => false,
    }
}

/// The catalog with every endpoint selected where the selected category is
/// a category that offers none or is none of the catalog.
pub open spec fn with_usable_selection(catalog: CatalogView) -> CatalogView {
    if catalog.current != random_id() && !selection_has_endpoints(catalog) {
        CatalogView { current: random_id(), ..catalog }
    } else {
        catalog
    }
}

/// What deleting the user-defined endpoints with the identifier `api_id`
/// answers and leaves: a failure and no change where there is none; else
/// the catalog without them, with every endpoint selected if the selected
/// category is left without an endpoint.
pub open spec fn delete_endpoint_outcome(catalog: CatalogView, api_id: Seq<char>) -> (
    Result<(), CatalogError>,
    CatalogView,
) {
    if !has_custom_endpoint(catalog.custom_endpoints, api_id) {
        (Err(CatalogError::EndpointNotFound), catalog)
    } else {
        (
            Ok(()),
            with_usable_selection(
                CatalogView {
                    custom_endpoints: without_endpoint(catalog.custom_endpoints, api_id),
                    ..catalog
                },
            ),
        )
    }
}

/// What deleting the user-defined categories with the identifier `id`
/// answers and leaves: a failure and no change where `id` is that of a
/// built-in category or of no user-defined one; else the catalog without
/// them and without the endpoints that were added to them, with every
/// endpoint selected if one of them was selected.
pub open spec fn delete_category_outcome(catalog: CatalogView, id: Seq<char>) -> (
    Result<(), CatalogError>,
    CatalogView,
) {
    if has_category(builtin_catalog(catalog.kind), id) {
        (Err(CatalogError::BuiltinCategory), catalog)
    } else if !has_category(catalog.custom_categories, id) {
        (Err(CatalogError::CategoryNotFound), catalog)
    } else {
        (
            Ok(()),
            CatalogView {
                kind: catalog.kind,
                current: if catalog.current == id {
                    random_id()
                } else {
                    catalog.current
                },
                custom_categories: without_category(catalog.custom_categories, id),
                custom_endpoints: without_filed_under(catalog.custom_endpoints, id),
            },
        )
    }
}

fn clone_custom(entry: &CustomEndpoint) -> (copy: CustomEndpoint)
    ensures
        copy@ == entry@,
{
    CustomEndpoint { category_id: entry.category_id.clone(), endpoint: entry.endpoint.clone() }
}

/// The entries of `custom` without those whose endpoint has the identifier
/// `api_id`, and whether there was one.
fn remove_endpoint(custom: &Vec<CustomEndpoint>, api_id: &String) -> (kept: (
    Vec<CustomEndpoint>,
    bool,
))
    ensures
        custom_view(kept.0@) == without_endpoint(custom_view(custom@), api_id@),
        kept.1 == has_custom_endpoint(custom_view(custom@), api_id@),
{
    let ghost all = custom_view(custom@);
    let mut kept: Vec<CustomEndpoint> = Vec::new();
    let mut found: bool = false;
    let mut i: usize = 0;
    assert(custom_view(kept@) =~= Seq::empty());
    while i < custom.len()
        invariant
            i <= custom.len(),
            all == custom_view(custom@),
            custom_view(kept@) == without_endpoint(all.take(i as int), api_id@),
            found == has_custom_endpoint(all.take(i as int), api_id@),
        decreases custom.len() - i,
    {
        proof {
            assert(all.take(i + 1).drop_last() =~= all.take(i as int));
            assert(all.take(i + 1).last() == custom@[i as int]@);
        }
        let ghost before = kept@;
        if custom[i].endpoint.id == *api_id {
            found = true;
            assert(all.take(i + 1)[i as int].endpoint.id == api_id@);
        } else {
            let entry = clone_custom(&custom[i]);
            kept.push(entry);
            assert(custom_view(kept@) =~= custom_view(before).push(entry@));
            proof {
                if has_custom_endpoint(all.take(i + 1), api_id@) {
                    let k = choose|k: int|
                        0 <= k < i + 1 && #[trigger] all.take(i + 1)[k].endpoint.id == api_id@;
                    assert(all.take(i as int)[k].endpoint.id == api_id@);
                }
                if has_custom_endpoint(all.take(i as int), api_id@) {
                    let k = choose|k: int|
                        0 <= k < i && #[trigger] all.take(i as int)[k].endpoint.id == api_id@;
                    assert(all.take(i + 1)[k].endpoint.id == api_id@);
                }
            }
        }
        i += 1;
    }
    assert(all.take(custom.len() as int) =~= all);
    (kept, found)
}

/// The entries of `custom` without those that were added to the category
/// `category_id`.
fn remove_filed_under(custom: &Vec<CustomEndpoint>, category_id: &String) -> (kept: Vec<
    CustomEndpoint,
>)
    ensures
        custom_view(kept@) == without_filed_under(custom_view(custom@), category_id@),
{
    let ghost all = custom_view(custom@);
    let mut kept: Vec<CustomEndpoint> = Vec::new();
    let mut i: usize = 0;
    assert(custom_view(kept@) =~= Seq::empty());
    while i < custom.len()
        invariant
            i <= custom.len(),
            all == custom_view(custom@),
            custom_view(kept@) == without_filed_under(all.take(i as int), category_id@),
        decreases custom.len() - i,
    {
        proof {
            assert(all.take(i + 1).drop_last() =~= all.take(i as int));
            assert(all.take(i + 1).last() == custom@[i as int]@);
        }
        let ghost before = kept@;
        if custom[i].category_id != *category_id {
            let entry = clone_custom(&custom[i]);
            kept.push(entry);
            assert(custom_view(kept@) =~= custom_view(before).push(entry@));
        }
        i += 1;
    }
    assert(all.take(custom.len() as int) =~= all);
    kept
}

/// The categories of `categories` without those that have the identifier
/// `id`, and whether there was one.
fn remove_category(categories: &Vec<ApiCategory>, id: &String) -> (kept: (Vec<ApiCategory>, bool))
    ensures
        categories_view(kept.0@) == without_category(categories_view(categories@), id@),
        kept.1 == has_category(categories_view(categories@), id@),
{
    let ghost all = categories_view(categories@);
    let mut kept: Vec<ApiCategory> = Vec::new();
    let mut found: bool = false;
    let mut i: usize = 0;
    assert(categories_view(kept@) =~= Seq::empty());
    while i < categories.len()
        invariant
            i <= categories.len(),
            all == categories_view(categories@),
            categories_view(kept@) == without_category(all.take(i as int), id@),
            found == has_category(all.take(i as int), id@),
        decreases categories.len() - i,
    {
        proof {
            assert(all.take(i + 1).drop_last() =~= all.take(i as int));
            assert(all.take(i + 1).last() == categories@[i as int]@);
        }
        let ghost before = kept@;
        if categories[i].id == *id {
            found = true;
            assert(all.take(i + 1)[i as int].id == id@);
        } else {
            let entry = categories[i].clone();
            kept.push(entry);
            assert(categories_view(kept@) =~= categories_view(before).push(entry@));
            proof {
                if has_category(all.take(i + 1), id@) {
                    let k = choose|k: int| 0 <= k < i + 1 && #[trigger] all.take(i + 1)[k].id == id@;
                    assert(all.take(i as int)[k].id == id@);
                }
                if has_category(all.take(i as int), id@) {
                    let k = choose|k: int| 0 <= k < i && #[trigger] all.take(i as int)[k].id == id@;
                    assert(all.take(i + 1)[k].id == id@);
                }
            }
        }
        i += 1;
    }
    assert(all.take(categories.len() as int) =~= all);
    (kept, found)
}

/// Whether the first category with the identifier `id` offers an endpoint.
fn offers_endpoints(categories: &Vec<ApiCategory>, id: &String) -> (offers: bool)
    ensures
        offers == match find_category(categories_view(categories@), id@) {
            Some(category) => category.endpoints.len() > 0,
            None => false,
        },
{
    let ghost all = categories_view(categories@);
    let mut i: usize = 0;
    while i < categories.len()
        invariant
            i <= categories.len(),
            all == categories_view(categories@),
            category_index_from(all, id@, i as int) == category_index_from(all, id@, 0),
        decreases categories.len() - i,
    {
        assert(all[i as int] == categories@[i as int]@);
        if categories[i].id == *id {
            return categories[i].endpoints.len() > 0;
        }
        i += 1;
    }
    false
}

impl Catalog {
    /// Selects every endpoint if the selected category is a category that
    /// offers none or is none of the catalog.
    fn settle_selection(&mut self)
        ensures
            final(self)@ == with_usable_selection(old(self)@),
    {
        if self.current != String::from_str("random") {
            let categories = self.get_all_categories();
            if !offers_endpoints(&categories, &self.current) {
                self.current = String::from_str("random");
            }
        }
    }

    /// Deletes the user-defined endpoints with the identifier `api_id`.
    pub fn delete_custom_api(&mut self, api_id: &str) -> (done: Result<(), CatalogError>)
        ensures
            (done, final(self)@) == delete_endpoint_outcome(old(self)@, api_id@),
    {
        let wanted = String::from_str(api_id);
        let (kept, found) = remove_endpoint(&self.custom_endpoints, &wanted);
        if !found {
            return Err(CatalogError::EndpointNotFound);
        }
        self.custom_endpoints = kept;
        self.settle_selection();
        Ok(())
    }

    /// Deletes the user-defined categories with the identifier
    /// `category_id`, and the endpoints that were added to them.
    pub fn delete_custom_category(&mut self, category_id: &str) -> (done: Result<
        (),
        CatalogError,
    >)
        ensures
            (done, final(self)@) == delete_category_outcome(old(self)@, category_id@),
    {
        let wanted = String::from_str(category_id);
        let builtin = builtin_categories_of(self.kind);
        if has_category_id(&builtin, &wanted) {
            return Err(CatalogError::BuiltinCategory);
        }
        let (kept, found) = remove_category(&self.custom_categories, &wanted);
        if !found {
            return Err(CatalogError::CategoryNotFound);
        }
        self.custom_categories = kept;
        self.custom_endpoints = remove_filed_under(&self.custom_endpoints, &wanted);
        if self.current == wanted {
            self.current = String::from_str("random");
        }
        Ok(())
    }
}

// ---------------------------------------------------------------------------
// Laws
// ---------------------------------------------------------------------------

/// The categories of a catalog as they are stored, without the user-defined
/// endpoints that were added to them.
pub open spec fn stored_categories(catalog: CatalogView) -> Seq<CategoryView> {
    builtin_catalog(catalog.kind) + catalog.custom_categories
}

/// Every user-defined endpoint of the category `id` has the identifier
/// `api_id`.
pub open spec fn only_endpoint_of(
    custom: Seq<CustomEndpointView>,
    id: Seq<char>,
    api_id: Seq<char>,
) -> bool {
    forall|i: int|
        0 <= i < custom.len() && #[trigger] custom[i].category_id == id ==> custom[i].endpoint.id
            == api_id
}

proof fn lemma_nothing_left_filed_under(
    custom: Seq<CustomEndpointView>,
    id: Seq<char>,
    api_id: Seq<char>,
)
    requires
        only_endpoint_of(custom, id, api_id),
    ensures
        filed_under(without_endpoint(custom, api_id), id).len() == 0,
    decreases custom.len(),
{
    if custom.len() > 0 {
        let earlier = custom.drop_last();
        assert forall|i: int| 0 <= i < earlier.len() && #[trigger] earlier[i].category_id
            == id implies earlier[i].endpoint.id == api_id by {
            assert(custom[i].category_id == id);
        }
        lemma_nothing_left_filed_under(earlier, id, api_id);
        if custom.last().endpoint.id != api_id {
            assert(custom[custom.len() - 1].category_id != id);
            assert(without_endpoint(custom, api_id).drop_last() =~= without_endpoint(
                earlier,
                api_id,
            ));
        }
    }
}

proof fn lemma_merging_keeps_index(
    stored: Seq<CategoryView>,
    custom: Seq<CustomEndpointView>,
    id: Seq<char>,
    i: int,
)
    requires
        0 <= i <= stored.len(),
    ensures
        category_index_from(merged(stored, custom), id, i) == category_index_from(stored, id, i),
    decreases stored.len() - i,
{
    if i < stored.len() {
        assert(merged(stored, custom)[i].id == stored[i].id);
        if stored[i].id != id {
            lemma_merging_keeps_index(stored, custom, id, i + 1);
        }
    }
}

/// Deleting the last endpoint of the selected category selects every
/// endpoint again: where a category is selected that has no endpoint of its
/// own and whose user-defined endpoints all have the identifier `api_id`,
/// deleting `api_id` succeeds and leaves every endpoint selected.
pub proof fn lemma_deleting_last_endpoint_resets_selection(
    catalog: CatalogView,
    api_id: Seq<char>,
)
    requires
        catalog.current != random_id(),
        has_custom_endpoint(catalog.custom_endpoints, api_id),
        only_endpoint_of(catalog.custom_endpoints, catalog.current, api_id),
        match find_category(stored_categories(catalog), catalog.current) {
            Some(category) => category.endpoints.len() == 0,
            None => true,
        },
    ensures
        delete_endpoint_outcome(catalog, api_id).0 is Ok,
        delete_endpoint_outcome(catalog, api_id).1.current == random_id(),
{
    let stored = stored_categories(catalog);
    let kept = without_endpoint(catalog.custom_endpoints, api_id);
    let left = CatalogView { custom_endpoints: kept, ..catalog };
    lemma_merging_keeps_index(stored, kept, catalog.current, 0);
    lemma_nothing_left_filed_under(catalog.custom_endpoints, catalog.current, api_id);
    let i = category_index_from(stored, catalog.current, 0);
    lemma_index_bounds(stored, catalog.current, 0);
    if i < stored.len() {
        assert(all_categories(left)[i] == with_custom(stored[i], kept));
        assert(stored[i].id == catalog.current);
        assert(all_categories(left)[i].endpoints =~= Seq::empty());
    }
}

proof fn lemma_index_bounds(categories: Seq<CategoryView>, id: Seq<char>, i: int)
    requires
        0 <= i <= categories.len(),
    ensures
        i <= category_index_from(categories, id, i) <= categories.len(),
        category_index_from(categories, id, i) < categories.len() ==> categories[category_index_from(
            categories,
            id,
            i,
        )].id == id,
    decreases categories.len() - i,
{
    if i < categories.len() && categories[i].id != id {
        lemma_index_bounds(categories, id, i + 1);
    }
}

} // verus!
