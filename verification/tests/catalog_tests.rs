use media_relay::builtin::{builtin_categories_of, get_builtin_categories, get_builtin_image_categories};
use media_relay::catalog::{ApiCategory, ApiEndpoint, MediaKind};
use media_relay::error::{CatalogError, FetchError};
use media_relay::select::{candidate_endpoints, select_endpoint, take_chosen};
use media_relay::store::Catalog;

fn ids(categories: &Vec<ApiCategory>) -> Vec<String> {
    categories.iter().map(|c| c.id.clone()).collect()
}

fn endpoint_ids(endpoints: &Vec<ApiEndpoint>) -> Vec<String> {
    endpoints.iter().map(|e| e.id.clone()).collect()
}

#[test]
fn builtin_video_catalog_has_three_categories() {
    let cats = get_builtin_categories();
    assert_eq!(ids(&cats), vec!["taozi", "wanfeng", "huai"]);
    assert_eq!(cats[0].endpoints.len(), 12);
    assert_eq!(cats[1].endpoints.len(), 1);
    assert_eq!(cats[2].endpoints.len(), 1);
    assert!(cats.iter().all(|c| c.builtin && c.endpoints.iter().all(|e| e.builtin)));
    assert_eq!(cats[0].endpoints[9].id, "taozi_10");
    assert_eq!(cats[0].endpoints[9].name, "515");
    assert_eq!(cats[0].endpoints[9].url, "https://api.tzjsy.cn/sp/515/video.php");
    assert_eq!(cats[2].name, "Huai API");
    assert_eq!(cats[2].endpoints[0].url, "http://api.huaiyan.top:81/api/dy?type=mp4");
}

#[test]
fn builtin_image_catalog_has_two_categories() {
    let cats = get_builtin_image_categories();
    assert_eq!(ids(&cats), vec!["btstu", "wanfeng"]);
    assert_eq!(endpoint_ids(&cats[0].endpoints), vec!["btstu_1", "btstu_2"]);
    assert_eq!(cats[1].endpoints[0].url, "http://api.nonebot.top/api/v1/random/tuwan");
    assert_eq!(ids(&builtin_categories_of(MediaKind::Image)), vec!["btstu", "wanfeng"]);
    assert_eq!(ids(&builtin_categories_of(MediaKind::Video)), vec!["taozi", "wanfeng", "huai"]);
}

#[test]
fn new_catalog_selects_random() {
    let catalog = Catalog::new(MediaKind::Video);
    assert_eq!(catalog.get_current_category(), "random");
    assert_eq!(ids(&catalog.get_all_categories()), vec!["taozi", "wanfeng", "huai"]);
    assert!(catalog.category_exists("random"));
    assert!(catalog.category_exists("huai"));
    assert!(!catalog.category_exists("btstu"));
}

#[test]
fn selecting_an_unknown_category_is_refused() {
    let mut catalog = Catalog::new(MediaKind::Image);
    assert_eq!(catalog.set_current_category("taozi".to_string()), Err(CatalogError::CategoryNotFound));
    assert_eq!(catalog.get_current_category(), "random");
    assert_eq!(catalog.set_current_category("btstu".to_string()), Ok(()));
    assert_eq!(catalog.get_current_category(), "btstu");
    assert_eq!(catalog.set_current_category("random".to_string()), Ok(()));
    assert_eq!(catalog.get_current_category(), "random");
}

#[test]
fn added_category_gets_identifier_from_time() {
    let mut catalog = Catalog::new(MediaKind::Video);
    let added = catalog.add_custom_category_at("  Mine \n", 1700000000123).unwrap();
    assert_eq!(added.id, "custom_cat_1700000000123");
    assert_eq!(added.name, "Mine");
    assert!(!added.builtin);
    assert!(added.endpoints.is_empty());
    assert_eq!(ids(&catalog.get_all_categories()), vec!["taozi", "wanfeng", "huai", "custom_cat_1700000000123"]);
    let mut images = Catalog::new(MediaKind::Image);
    let added = images.add_custom_category_at("Pics", 0).unwrap();
    assert_eq!(added.id, "custom_img_cat_0");
}

#[test]
fn blank_category_name_is_refused() {
    let mut catalog = Catalog::new(MediaKind::Video);
    assert!(matches!(catalog.add_custom_category_at(" \t ", 5), Err(CatalogError::EmptyCategoryName)));
    assert!(matches!(catalog.add_custom_category(""), Err(CatalogError::EmptyCategoryName)));
    assert!(catalog.custom_categories.is_empty());
}

#[test]
fn added_category_uses_the_clock() {
    let mut catalog = Catalog::new(MediaKind::Video);
    let added = catalog.add_custom_category("Mine").unwrap();
    assert!(added.id.starts_with("custom_cat_"));
    let millis: u128 = added.id["custom_cat_".len()..].parse().unwrap();
    assert!(millis > 1_600_000_000_000);
}

#[test]
fn added_endpoint_is_appended_to_its_category() {
    let mut catalog = Catalog::new(MediaKind::Video);
    let ep = catalog.add_custom_api_at("wanfeng".to_string(), " n ", " https://e/x ", 42).unwrap();
    assert_eq!(ep.id, "custom_ep_42");
    assert_eq!(ep.name, "n");
    assert_eq!(ep.url, "https://e/x");
    assert!(!ep.builtin);
    let cats = catalog.get_all_categories();
    assert_eq!(endpoint_ids(&cats[1].endpoints), vec!["wanfeng_1", "custom_ep_42"]);
    assert_eq!(cats[0].endpoints.len(), 12);
    let mut images = Catalog::new(MediaKind::Image);
    let ep = images.add_custom_api_at("btstu".to_string(), "n", "u", 7).unwrap();
    assert_eq!(ep.id, "custom_img_ep_7");
}

#[test]
fn endpoint_for_unknown_or_random_category_is_refused() {
    let mut catalog = Catalog::new(MediaKind::Video);
    assert!(matches!(catalog.add_custom_api_at("random".to_string(), "n", "u", 1), Err(CatalogError::CategoryNotFound)));
    assert!(matches!(catalog.add_custom_api_at("nope".to_string(), "n", "u", 1), Err(CatalogError::CategoryNotFound)));
    assert!(matches!(catalog.add_custom_api_at("huai".to_string(), " ", "u", 1), Err(CatalogError::EmptyNameOrUrl)));
    assert!(matches!(catalog.add_custom_api_at("nope".to_string(), "n", "  ", 1), Err(CatalogError::EmptyNameOrUrl)));
    assert!(matches!(catalog.add_custom_api("huai".to_string(), "n", ""), Err(CatalogError::EmptyNameOrUrl)));
    assert!(catalog.custom_endpoints.is_empty());
}

#[test]
fn deleting_last_endpoint_of_selected_category_resets_selection() {
    let mut catalog = Catalog::new(MediaKind::Video);
    let cat = catalog.add_custom_category_at("Mine", 1).unwrap();
    let ep = catalog.add_custom_api_at(cat.id.clone(), "n", "https://e/x", 2).unwrap();
    assert_eq!(catalog.set_current_category(cat.id.clone()), Ok(()));
    assert_eq!(catalog.delete_custom_api(&ep.id), Ok(()));
    assert_eq!(catalog.get_current_category(), "random");
    assert!(catalog.custom_endpoints.is_empty());
}

#[test]
fn deleting_one_of_two_endpoints_keeps_selection() {
    let mut catalog = Catalog::new(MediaKind::Video);
    let cat = catalog.add_custom_category_at("Mine", 1).unwrap();
    let a = catalog.add_custom_api_at(cat.id.clone(), "a", "https://e/a", 2).unwrap();
    let b = catalog.add_custom_api_at(cat.id.clone(), "b", "https://e/b", 3).unwrap();
    assert_eq!(catalog.set_current_category(cat.id.clone()), Ok(()));
    assert_eq!(catalog.delete_custom_api(&a.id), Ok(()));
    assert_eq!(catalog.get_current_category(), cat.id);
    assert_eq!(catalog.custom_endpoints.len(), 1);
    assert_eq!(catalog.custom_endpoints[0].endpoint.id, b.id);
}

#[test]
fn deleting_custom_endpoint_of_builtin_category_keeps_selection() {
    let mut catalog = Catalog::new(MediaKind::Video);
    let ep = catalog.add_custom_api_at("huai".to_string(), "n", "https://e/x", 2).unwrap();
    assert_eq!(catalog.set_current_category("huai".to_string()), Ok(()));
    assert_eq!(catalog.delete_custom_api(&ep.id), Ok(()));
    assert_eq!(catalog.get_current_category(), "huai");
}

#[test]
fn deleting_unknown_endpoint_is_refused() {
    let mut catalog = Catalog::new(MediaKind::Video);
    assert_eq!(catalog.delete_custom_api("taozi_1"), Err(CatalogError::EndpointNotFound));
    assert_eq!(catalog.delete_custom_api("custom_ep_1"), Err(CatalogError::EndpointNotFound));
}

#[test]
fn deleting_a_category_removes_its_endpoints_and_resets_selection() {
    let mut catalog = Catalog::new(MediaKind::Video);
    let mine = catalog.add_custom_category_at("Mine", 1).unwrap();
    let other = catalog.add_custom_category_at("Other", 2).unwrap();
    catalog.add_custom_api_at(mine.id.clone(), "a", "https://e/a", 3).unwrap();
    catalog.add_custom_api_at(other.id.clone(), "b", "https://e/b", 4).unwrap();
    catalog.add_custom_api_at("huai".to_string(), "c", "https://e/c", 5).unwrap();
    assert_eq!(catalog.set_current_category(mine.id.clone()), Ok(()));
    assert_eq!(catalog.delete_custom_category(&mine.id), Ok(()));
    assert_eq!(catalog.get_current_category(), "random");
    assert_eq!(ids(&catalog.custom_categories), vec![other.id.clone()]);
    let left: Vec<String> = catalog.custom_endpoints.iter().map(|e| e.endpoint.id.clone()).collect();
    assert_eq!(left, vec!["custom_ep_4", "custom_ep_5"]);
    assert_eq!(catalog.set_current_category(other.id.clone()), Ok(()));
    assert_eq!(catalog.delete_custom_category(&mine.id), Err(CatalogError::CategoryNotFound));
    assert_eq!(catalog.get_current_category(), other.id);
}

#[test]
fn deleting_a_builtin_category_is_refused() {
    let mut catalog = Catalog::new(MediaKind::Video);
    assert_eq!(catalog.delete_custom_category("taozi"), Err(CatalogError::BuiltinCategory));
    assert_eq!(catalog.delete_custom_category("btstu"), Err(CatalogError::CategoryNotFound));
    let mut images = Catalog::new(MediaKind::Image);
    assert_eq!(images.delete_custom_category("btstu"), Err(CatalogError::BuiltinCategory));
}

#[test]
fn candidates_of_random_are_all_endpoints() {
    let mut catalog = Catalog::new(MediaKind::Video);
    catalog.add_custom_api_at("taozi".to_string(), "n", "https://e/x", 9).unwrap();
    let cats = catalog.get_all_categories();
    let found = candidate_endpoints(&cats, "random");
    assert_eq!(found.len(), 15);
    assert_eq!(found[12].id, "custom_ep_9");
    assert_eq!(found[13].id, "wanfeng_1");
    assert_eq!(endpoint_ids(&candidate_endpoints(&cats, "huai")), vec!["huai_1"]);
    assert!(candidate_endpoints(&cats, "nope").is_empty());
}

#[test]
fn random_selection_stays_inside_the_catalog() {
    let catalog = Catalog::new(MediaKind::Video);
    let cats = catalog.get_all_categories();
    for _ in 0..50 {
        let chosen = catalog.select().unwrap();
        assert!(cats.iter().any(|c| c.endpoints.iter().any(|e| e.id == chosen.id && e.url == chosen.url)));
    }
}

#[test]
fn selection_from_one_category_returns_its_endpoint() {
    let cats = get_builtin_categories();
    for _ in 0..10 {
        let chosen = select_endpoint(&cats, "wanfeng").unwrap();
        assert_eq!(chosen.id, "wanfeng_1");
        assert_eq!(chosen.url, "http://api.nonebot.top/api/v1/random/dance_video");
    }
}

#[test]
fn selection_from_empty_category_fails() {
    let mut catalog = Catalog::new(MediaKind::Video);
    let mine = catalog.add_custom_category_at("Mine", 1).unwrap();
    let cats = catalog.get_all_categories();
    assert!(matches!(select_endpoint(&cats, &mine.id), Err(FetchError::NoEndpoints)));
    assert!(matches!(select_endpoint(&cats, "nope"), Err(FetchError::NoEndpoints)));
    assert!(matches!(select_endpoint(&Vec::new(), "random"), Err(FetchError::NoEndpoints)));
    assert!(matches!(take_chosen(None), Err(FetchError::NoEndpoints)));
    assert_eq!(take_chosen(Some(&cats[2].endpoints[0])).unwrap().id, "huai_1");
}

#[test]
fn error_messages_are_those_shown_to_the_user() {
    assert_eq!(CatalogError::CategoryNotFound.message(), "分类不存在");
    assert_eq!(CatalogError::EndpointNotFound.message(), "未找到该接口");
    assert_eq!(CatalogError::EmptyCategoryName.message(), "分类名称不能为空");
    assert_eq!(CatalogError::EmptyNameOrUrl.message(), "名称和URL不能为空");
    assert_eq!(CatalogError::BuiltinCategory.message(), "无法删除内置分类");
    assert_eq!(FetchError::NoEndpoints.message(), "没有可用的接口");
    assert_eq!(FetchError::MissingRedirectTarget.message(), "重定向但无Location头");
    assert_eq!(FetchError::UpstreamError.message(), "API返回错误");
    assert_eq!(FetchError::NoUrlInResponse.message(), "JSON中未找到图片地址");
    assert_eq!(FetchError::UnknownResponseFormat(503).message(), "未知响应格式, 状态码: 503");
    assert_eq!(FetchError::TooManyRedirects.message(), "重定向次数过多");
    assert_eq!(FetchError::HttpStatus(404).message(), "HTTP错误: 404");
    assert_eq!(FetchError::PayloadTooLarge.message(), "文件过大");
    assert_eq!(FetchError::MalformedBody.message(), "解析失败");
}

#[test]
fn oversized_payload_is_reported_with_kind_and_limit() {
    assert_eq!(FetchError::PayloadTooLarge.message_for(MediaKind::Video), "视频文件过大 (>100MB)");
    assert_eq!(FetchError::PayloadTooLarge.message_for(MediaKind::Image), "图片文件过大 (>15MB)");
    assert_eq!(FetchError::HttpStatus(404).message_for(MediaKind::Image), "HTTP错误: 404");
    assert_eq!(FetchError::NoEndpoints.message_for(MediaKind::Video), "没有可用的接口");
}

#[test]
fn endpoints_added_at_the_same_time_get_different_identifiers() {
    let mut catalog = Catalog::new(MediaKind::Video);
    let a = catalog.add_custom_api_at("huai".to_string(), "a", "https://e/a", 42).unwrap();
    let b = catalog.add_custom_api_at("taozi".to_string(), "b", "https://e/b", 42).unwrap();
    let c = catalog.add_custom_api_at("huai".to_string(), "c", "https://e/c", 42).unwrap();
    let d = catalog.add_custom_api_at("huai".to_string(), "d", "https://e/d", 43).unwrap();
    assert_eq!(a.id, "custom_ep_42");
    assert_eq!(b.id, "custom_ep_43");
    assert_eq!(c.id, "custom_ep_44");
    assert_eq!(d.id, "custom_ep_45");
    assert_eq!(catalog.delete_custom_api(&a.id), Ok(()));
    let left: Vec<String> = catalog.custom_endpoints.iter().map(|e| e.endpoint.id.clone()).collect();
    assert_eq!(left, vec!["custom_ep_43", "custom_ep_44", "custom_ep_45"]);
    let e = catalog.add_custom_api_at("huai".to_string(), "e", "https://e/e", 42).unwrap();
    assert_eq!(e.id, "custom_ep_42");
}

#[test]
fn categories_added_at_the_same_time_get_different_identifiers() {
    let mut catalog = Catalog::new(MediaKind::Image);
    let a = catalog.add_custom_category_at("A", 7).unwrap();
    let b = catalog.add_custom_category_at("B", 7).unwrap();
    let c = catalog.add_custom_category_at("C", 6).unwrap();
    assert_eq!(a.id, "custom_img_cat_7");
    assert_eq!(b.id, "custom_img_cat_8");
    assert_eq!(c.id, "custom_img_cat_6");
    assert_eq!(catalog.delete_custom_category(&a.id), Ok(()));
    assert_eq!(ids(&catalog.custom_categories), vec!["custom_img_cat_8", "custom_img_cat_6"]);
}

#[test]
fn identifiers_stay_unique_at_the_largest_time() {
    let mut catalog = Catalog::new(MediaKind::Video);
    let a = catalog.add_custom_category_at("A", u128::MAX - 3).unwrap();
    assert_eq!(a.id, format!("custom_cat_{}", u128::MAX - 3));
    let b = catalog.add_custom_category_at("B", u128::MAX).unwrap();
    assert_eq!(b.id, "custom_cat_0");
    let c = catalog.add_custom_category_at("C", u128::MAX).unwrap();
    assert_eq!(c.id, "custom_cat_1");
    let all = catalog.get_all_categories();
    for (i, x) in all.iter().enumerate() {
        for y in all.iter().skip(i + 1) {
            assert_ne!(x.id, y.id);
        }
    }
}

#[test]
fn clock_made_identifiers_are_unique() {
    let mut catalog = Catalog::new(MediaKind::Video);
    let mut seen: Vec<String> = Vec::new();
    for _ in 0..20 {
        let ep = catalog.add_custom_api("huai".to_string(), "n", "https://e/x").unwrap();
        assert!(!seen.contains(&ep.id));
        seen.push(ep.id);
    }
    let mut cats: Vec<String> = Vec::new();
    for _ in 0..20 {
        let c = catalog.add_custom_category("c").unwrap();
        assert!(!cats.contains(&c.id));
        cats.push(c.id);
    }
}
