use curseforge::{base_url, check_base_url, Error};
use curseforge::{
    ApiResponse, CategoriesParams, FeaturedProjectsBody, GamesParams, ModLoaderType, PageCursor,
    Pagination, ProjectFilesParams, ProjectSearchParams, SearchModsParams, SearchSort, SearchSortOrder,
};

#[test]
fn params_for_one_game() {
    let c = CategoriesParams::game(432);
    assert_eq!(c, CategoriesParams { game_id: 432, class_id: None });
    let p = ProjectSearchParams::game(432);
    assert_eq!(p.game_id, 432);
    assert!(p.index.is_none() && p.page_size.is_none() && p.slug.is_none() && p.sort_field.is_none());
    let m = SearchModsParams::game(431);
    assert_eq!(m.game_id, 431);
    assert!(m.mod_loader_type.is_none() && m.search_filter.is_none());
    let f = FeaturedProjectsBody::game(432);
    assert_eq!(f.game_id, 432);
    assert!(f.excluded_mod_ids.is_empty() && f.game_version_type_id.is_none());
    assert_eq!(GamesParams::default(), GamesParams { index: None, page_size: None });
    assert!(ProjectFilesParams::default().index.is_none());
}

#[test]
fn wire_tags() {
    assert_eq!(ModLoaderType::Any.tag(), Some(0));
    assert_eq!(ModLoaderType::Fabric.tag(), Some(4));
    assert_eq!(ModLoaderType::NeoForge.tag(), Some(6));
    assert_eq!(ModLoaderType::Unknown.tag(), None);
    assert_eq!(SearchSort::Featured.tag(), 1);
    assert_eq!(SearchSort::GameVersion.tag(), 8);
    assert_eq!(SearchSortOrder::Ascending.as_str(), "asc");
    assert_eq!(SearchSortOrder::Descending.as_str(), "desc");
}

#[test]
fn api_response_accessors() {
    let mut r = ApiResponse::new(vec![1, 2, 3], 7u32);
    assert_eq!(r.get_bytes(), &[1, 2, 3]);
    assert_eq!(*r.get_value(), 7);
    r.get_bytes_mut()[0] = 9;
    *r.get_value_mut() = 8;
    assert_eq!(r.get_bytes(), &[9, 2, 3]);
    let (bytes, value) = r.into_bytes_value();
    assert_eq!((bytes, value), (vec![9, 2, 3], 8));
    assert_eq!(ApiResponse::new(vec![4], 1u8).into_bytes(), vec![4]);
    assert_eq!(ApiResponse::new(vec![4], 1u8).into_value(), 1);
}

#[test]
fn cursor_starts_and_moves() {
    let mut c = PageCursor::new(None, 100);
    assert_eq!(c.offset(), 0);
    assert_eq!(c.total_items(), None);
    c.set_offset(40);
    assert_eq!(c.offset(), 40);
    c.pagination = Some(Pagination { index: 0, page_size: 10, result_count: 10, total_count: 250 });
    assert_eq!(c.total_items(), Some(100));
    c.pagination = Some(Pagination { index: 0, page_size: 10, result_count: 10, total_count: 30 });
    assert_eq!(c.total_items(), Some(30));
    c.pagination = Some(Pagination { index: 0, page_size: 10, result_count: 10, total_count: -5 });
    assert_eq!(c.total_items(), Some(0));
    assert_eq!(PageCursor::new(Some(20), 100).offset(), 20);
}

#[test]
fn base_urls_are_parsed_and_checked() {
    assert_eq!(base_url("HTTPS://API.Example.com/v1/").unwrap(), "https://api.example.com/v1/");
    assert_eq!(base_url("https://example.com").unwrap(), "https://example.com/");
    assert!(matches!(base_url("mailto:someone@example.com"), Err(Error::BadBaseUrl)));
    assert!(matches!(base_url("no url here"), Err(Error::ParseUrl(_))));
    assert!(matches!(check_base_url(Ok(("data:text".to_string(), true))), Err(Error::BadBaseUrl)));
    assert_eq!(check_base_url(Ok(("https://x.org/".to_string(), false))).unwrap(), "https://x.org/");
    assert!(matches!(check_base_url(Err("bad".to_string())), Err(Error::ParseUrl(m)) if m == "bad"));
}
