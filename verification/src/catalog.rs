//! The endpoint catalog: built-in and user-defined categories of endpoints.

use vstd::prelude::*;
use vstd::string::*;

verus! {

/// Which kind of media a catalog, a resolution or a download is about.
#[derive(Clone, Copy, Debug, PartialEq, Eq, Structural)]
pub enum MediaKind {
    Video,
    Image,
}

/// One upstream address that yields media.
#[derive(Debug)]
pub struct ApiEndpoint {
    pub id: String,
    pub name: String,
    pub url: String,
    pub builtin: bool,
}

/// What an endpoint is, as mathematical values.
pub struct EndpointView {
    pub id: Seq<char>,
    pub name: Seq<char>,
    pub url: Seq<char>,
    pub builtin: bool,
}

impl View for ApiEndpoint {
    type V = EndpointView;

    open spec fn view(&self) -> EndpointView {
        EndpointView { id: self.id@, name: self.name@, url: self.url@, builtin: self.builtin }
    }
}

impl Clone for ApiEndpoint {
    fn clone(&self) -> (copy: ApiEndpoint)
        ensures
            copy@ == self@,
    {
        ApiEndpoint {
            id: self.id.clone(),
            name: self.name.clone(),
            url: self.url.clone(),
            builtin: self.builtin,
        }
    }
}

/// The views of a sequence of endpoints.
pub open spec fn endpoints_view(endpoints: Seq<ApiEndpoint>) -> Seq<EndpointView> {
    endpoints.map_values(|e: ApiEndpoint| e@)
}

/// A named group of endpoints.
#[derive(Debug)]
pub struct ApiCategory {
    pub id: String,
    pub name: String,
    pub builtin: bool,
    pub endpoints: Vec<ApiEndpoint>,
}

/// What a category is, as mathematical values.
pub struct CategoryView {
    pub id: Seq<char>,
    pub name: Seq<char>,
    pub builtin: bool,
    pub endpoints: Seq<EndpointView>,
}

impl View for ApiCategory {
    type V = CategoryView;

    open spec fn view(&self) -> CategoryView {
        CategoryView {
            id: self.id@,
            name: self.name@,
            builtin: self.builtin,
            endpoints: endpoints_view(self.endpoints@),
        }
    }
}

/// The views of a sequence of categories.
pub open spec fn categories_view(categories: Seq<ApiCategory>) -> Seq<CategoryView> {
    categories.map_values(|c: ApiCategory| c@)
}

/// A copy of `endpoints`.
pub fn clone_endpoints(endpoints: &Vec<ApiEndpoint>) -> (copy: Vec<ApiEndpoint>)
    ensures
        endpoints_view(copy@) == endpoints_view(endpoints@),
{
    let mut copy: Vec<ApiEndpoint> = Vec::new();
    let mut i: usize = 0;
    while i < endpoints.len()
        invariant
            i <= endpoints.len(),
            copy.len() == i,
            forall|k: int| 0 <= k < i ==> copy@[k]@ == endpoints@[k]@,
        decreases endpoints.len() - i,
    {
        copy.push(endpoints[i].clone());
        i += 1;
    }
    assert(endpoints_view(copy@) =~= endpoints_view(endpoints@));
    copy
}

impl Clone for ApiCategory {
    fn clone(&self) -> (copy: ApiCategory)
        ensures
            copy@ == self@,
    {
        ApiCategory {
            id: self.id.clone(),
            name: self.name.clone(),
            builtin: self.builtin,
            endpoints: clone_endpoints(&self.endpoints),
        }
    }
}

/// A copy of `categories`.
pub fn clone_categories(categories: &Vec<ApiCategory>) -> (copy: Vec<ApiCategory>)
    ensures
        categories_view(copy@) == categories_view(categories@),
{
    let mut copy: Vec<ApiCategory> = Vec::new();
    let mut i: usize = 0;
    while i < categories.len()
        invariant
            i <= categories.len(),
            copy.len() == i,
            forall|k: int| 0 <= k < i ==> copy@[k]@ == categories@[k]@,
        decreases categories.len() - i,
    {
        copy.push(categories[i].clone());
        i += 1;
    }
    assert(categories_view(copy@) =~= categories_view(categories@));
    copy
}

} // verus!
