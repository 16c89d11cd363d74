//! The catalogs that ship with the library.

use crate::catalog::{
    categories_view, endpoints_view, ApiCategory, ApiEndpoint, CategoryView, EndpointView,
    MediaKind,
};
use vstd::prelude::*;
use vstd::string::*;

verus! {

/// A built-in endpoint with the given identifier, name and address.
pub open spec fn builtin_endpoint_view(
    id: Seq<char>,
    name: Seq<char>,
    url: Seq<char>,
) -> EndpointView {
    EndpointView { id, name, url, builtin: true }
}

/// A built-in category with the given identifier, name and endpoints.
pub open spec fn builtin_category_view(
    id: Seq<char>,
    name: Seq<char>,
    endpoints: Seq<EndpointView>,
) -> CategoryView {
    CategoryView { id, name, builtin: true, endpoints }
}

fn builtin_endpoint(id: &str, name: &str, url: &str) -> (endpoint: ApiEndpoint)
    ensures
        endpoint@ == builtin_endpoint_view(id@, name@, url@),
{
    ApiEndpoint {
        id: String::from_str(id),
        name: String::from_str(name),
        url: String::from_str(url),
        builtin: true,
    }
}

fn builtin_category(id: &str, name: &str, endpoints: Vec<ApiEndpoint>) -> (category: ApiCategory)
    ensures
        category@ == builtin_category_view(id@, name@, endpoints_view(endpoints@)),
{
    ApiCategory { id: String::from_str(id), name: String::from_str(name), builtin: true, endpoints }
}

/// The built-in video categories, in display order.
pub open spec fn builtin_video_catalog() -> Seq<CategoryView> {
    seq![
        builtin_category_view(
            "taozi"@,
            "桃子API"@,
            seq![
                builtin_endpoint_view("taozi_1"@, "抖音快手美女"@, "https://api.tzjsy.cn/sp/dyksmn/video.php"@),
                builtin_endpoint_view("taozi_2"@, "黑丝"@, "https://api.tzjsy.cn/sp/hs/video.php"@),
                builtin_endpoint_view("taozi_3"@, "白丝"@, "https://api.tzjsy.cn/sp/bs/video.php"@),
                builtin_endpoint_view("taozi_4"@, "JK制服"@, "https://api.tzjsy.cn/sp/jk/video.php"@),
                builtin_endpoint_view("taozi_5"@, "甜美"@, "https://api.tzjsy.cn/sp/tm/video.php"@),
                builtin_endpoint_view("taozi_6"@, "纯欲"@, "https://api.tzjsy.cn/sp/cy/video.php"@),
                builtin_endpoint_view("taozi_7"@, "QC"@, "https://api.tzjsy.cn/sp/qc/video.php"@),
                builtin_endpoint_view("taozi_8"@, "LL"@, "https://api.tzjsy.cn/sp/ll/video.php"@),
                builtin_endpoint_view("taozi_9"@, "YZ"@, "https://api.tzjsy.cn/sp/yz/video.php"@),
                builtin_endpoint_view("taozi_10"@, "515"@, "https://api.tzjsy.cn/sp/515/video.php"@),
                builtin_endpoint_view("taozi_11"@, "COS"@, "https://api.tzjsy.cn/sp/cos/video.php"@),
                builtin_endpoint_view("taozi_12"@, "YOZ"@, "https://api.tzjsy.cn/sp/yoz/video.php"@),
            ],
        ),
        builtin_category_view(
            "wanfeng"@,
            "晚风API"@,
            seq![
                builtin_endpoint_view("wanfeng_1"@, "跳舞视频"@, "http://api.nonebot.top/api/v1/random/dance_video"@),
            ],
        ),
        builtin_category_view(
            "huai"@,
            "Huai API"@,
            seq![
                builtin_endpoint_view("huai_1"@, "抖音视频"@, "http://api.huaiyan.top:81/api/dy?type=mp4"@),
            ],
        ),
    ]
}

/// The built-in image categories, in display order.
pub open spec fn builtin_image_catalog() -> Seq<CategoryView> {
    seq![
        builtin_category_view(
            "btstu"@,
            "BTSTU美图"@,
            seq![
                builtin_endpoint_view("btstu_1"@, "随机美女(直连)"@, "https://api.btstu.cn/sjbz/api.php?lx=meizi"@),
                builtin_endpoint_view("btstu_2"@, "随机美女(JSON)"@, "https://api.btstu.cn/sjbz/api.php?lx=meizi&format=json"@),
            ],
        ),
        builtin_category_view(
            "wanfeng"@,
            "晚风API"@,
            seq![
                builtin_endpoint_view("wanfeng_1"@, "晚风api"@, "http://api.nonebot.top/api/v1/random/tuwan"@),
            ],
        ),
    ]
}

/// The built-in categories for `kind`, in display order.
pub open spec fn builtin_catalog(kind: MediaKind) -> Seq<CategoryView> {
    match kind {
        MediaKind::Video => builtin_video_catalog(),
        MediaKind::Image => builtin_image_catalog(),
    }
}

/// The built-in video categories.
pub fn get_builtin_categories() -> (categories: Vec<ApiCategory>)
    ensures
        categories_view(categories@) == builtin_video_catalog(),
{
    let mut categories: Vec<ApiCategory> = Vec::new();
    let mut endpoints: Vec<ApiEndpoint> = Vec::new();
    endpoints.push(builtin_endpoint("taozi_1", "抖音快手美女", "https://api.tzjsy.cn/sp/dyksmn/video.php"));
    endpoints.push(builtin_endpoint("taozi_2", "黑丝", "https://api.tzjsy.cn/sp/hs/video.php"));
    endpoints.push(builtin_endpoint("taozi_3", "白丝", "https://api.tzjsy.cn/sp/bs/video.php"));
    endpoints.push(builtin_endpoint("taozi_4", "JK制服", "https://api.tzjsy.cn/sp/jk/video.php"));
    endpoints.push(builtin_endpoint("taozi_5", "甜美", "https://api.tzjsy.cn/sp/tm/video.php"));
    endpoints.push(builtin_endpoint("taozi_6", "纯欲", "https://api.tzjsy.cn/sp/cy/video.php"));
    endpoints.push(builtin_endpoint("taozi_7", "QC", "https://api.tzjsy.cn/sp/qc/video.php"));
    endpoints.push(builtin_endpoint("taozi_8", "LL", "https://api.tzjsy.cn/sp/ll/video.php"));
    endpoints.push(builtin_endpoint("taozi_9", "YZ", "https://api.tzjsy.cn/sp/yz/video.php"));
    endpoints.push(builtin_endpoint("taozi_10", "515", "https://api.tzjsy.cn/sp/515/video.php"));
    endpoints.push(builtin_endpoint("taozi_11", "COS", "https://api.tzjsy.cn/sp/cos/video.php"));
    endpoints.push(builtin_endpoint("taozi_12", "YOZ", "https://api.tzjsy.cn/sp/yoz/video.php"));
    assert(endpoints_view(endpoints@) =~= builtin_video_catalog()[0].endpoints);
    categories.push(builtin_category("taozi", "桃子API", endpoints));
    let mut endpoints: Vec<ApiEndpoint> = Vec::new();
    endpoints.push(builtin_endpoint("wanfeng_1", "跳舞视频", "http://api.nonebot.top/api/v1/random/dance_video"));
    assert(endpoints_view(endpoints@) =~= builtin_video_catalog()[1].endpoints);
    categories.push(builtin_category("wanfeng", "晚风API", endpoints));
    let mut endpoints: Vec<ApiEndpoint> = Vec::new();
    endpoints.push(builtin_endpoint("huai_1", "抖音视频", "http://api.huaiyan.top:81/api/dy?type=mp4"));
    assert(endpoints_view(endpoints@) =~= builtin_video_catalog()[2].endpoints);
    categories.push(builtin_category("huai", "Huai API", endpoints));
    assert(categories_view(categories@) =~= builtin_video_catalog());
    categories
}

/// The built-in image categories.
pub fn get_builtin_image_categories() -> (categories: Vec<ApiCategory>)
    ensures
        categories_view(categories@) == builtin_image_catalog(),
{
    let mut categories: Vec<ApiCategory> = Vec::new();
    let mut endpoints: Vec<ApiEndpoint> = Vec::new();
    endpoints.push(builtin_endpoint("btstu_1", "随机美女(直连)", "https://api.btstu.cn/sjbz/api.php?lx=meizi"));
    endpoints.push(builtin_endpoint("btstu_2", "随机美女(JSON)", "https://api.btstu.cn/sjbz/api.php?lx=meizi&format=json"));
    assert(endpoints_view(endpoints@) =~= builtin_image_catalog()[0].endpoints);
    categories.push(builtin_category("btstu", "BTSTU美图", endpoints));
    let mut endpoints: Vec<ApiEndpoint> = Vec::new();
    endpoints.push(builtin_endpoint("wanfeng_1", "晚风api", "http://api.nonebot.top/api/v1/random/tuwan"));
    assert(endpoints_view(endpoints@) =~= builtin_image_catalog()[1].endpoints);
    categories.push(builtin_category("wanfeng", "晚风API", endpoints));
    assert(categories_view(categories@) =~= builtin_image_catalog());
    categories
}

/// The built-in categories for `kind`.
pub fn builtin_categories_of(kind: MediaKind) -> (categories: Vec<ApiCategory>)
    ensures
        categories_view(categories@) == builtin_catalog(kind),
{
    match kind {
        MediaKind::Video => get_builtin_categories(),
        MediaKind::Image => get_builtin_image_categories(),
    }
}

} // verus!
