//! The parameters and bodies of the service's requests.

use vstd::prelude::*;

use crate::types::{ModLoaderType, SearchSort, SearchSortOrder};

verus! {

/// Parameters of the request for the list of games.
#[derive(Clone, Debug, PartialEq, Eq, Structural)]
pub struct GamesParams {
    pub index: Option<i32>,
    pub page_size: Option<i32>,
}

impl Default for GamesParams {
    fn default() -> (r: GamesParams)
        ensures
            r.index is None,
            r.page_size is None,
    {
        GamesParams { index: None, page_size: None }
    }
}

/// Parameters of the request for the categories of a game.
#[derive(Clone, Debug, PartialEq, Eq, Structural)]
pub struct CategoriesParams {
    pub game_id: i32,
    pub class_id: Option<i32>,
}

impl CategoriesParams {
    /// The categories of one game, of every class.
    pub fn game(game_id: i32) -> (r: CategoriesParams)
        ensures
            r.game_id == game_id,
            r.class_id is None,
    {
        CategoriesParams { game_id, class_id: None }
    }
}

/// Parameters of a project search.
#[derive(Clone, Debug)]
pub struct ProjectSearchParams {
    pub game_id: i32,
    pub class_id: Option<i32>,
    pub category_id: Option<i32>,
    pub game_version: Option<String>,
    pub search_filter: Option<String>,
    pub sort_field: Option<SearchSort>,
    pub sort_order: Option<SearchSortOrder>,
    pub mod_loader: Option<ModLoaderType>,
    pub game_version_type_id: Option<i32>,
    pub slug: Option<String>,
    pub index: Option<i32>,
    pub page_size: Option<i32>,
}

impl ProjectSearchParams {
    /// A search over every project of one game, with no other filter.
    pub fn game(game_id: i32) -> (r: ProjectSearchParams)
        ensures
            r.game_id == game_id,
            r.class_id is None,
            r.category_id is None,
            r.game_version is None,
            r.search_filter is None,
            r.sort_field is None,
            r.sort_order is None,
            r.mod_loader is None,
            r.game_version_type_id is None,
            r.slug is None,
            r.index is None,
            r.page_size is None,
    {
        ProjectSearchParams {
            game_id,
            class_id: None,
            category_id: None,
            game_version: None,
            search_filter: None,
            sort_field: None,
            sort_order: None,
            mod_loader: None,
            game_version_type_id: None,
            slug: None,
            index: None,
            page_size: None,
        }
    }
}

/// Parameters of a mod search.
#[derive(Clone, Debug)]
pub struct SearchModsParams {
    pub game_id: i32,
    pub class_id: Option<i32>,
    pub category_id: Option<i32>,
    pub game_version: Option<String>,
    pub search_filter: Option<String>,
    pub sort_field: Option<SearchSort>,
    pub sort_order: Option<SearchSortOrder>,
    pub mod_loader_type: Option<ModLoaderType>,
    pub game_version_type_id: Option<i32>,
    pub slug: Option<String>,
    pub index: Option<i32>,
    pub page_size: Option<i32>,
}

impl SearchModsParams {
    /// A search over every mod of one game, with no other filter.
    pub fn game(game_id: i32) -> (r: SearchModsParams)
        ensures
            r.game_id == game_id,
            r.class_id is None,
            r.category_id is None,
            r.game_version is None,
            r.search_filter is None,
            r.sort_field is None,
            r.sort_order is None,
            r.mod_loader_type is None,
            r.game_version_type_id is None,
            r.slug is None,
            r.index is None,
            r.page_size is None,
    {
        SearchModsParams {
            game_id,
            class_id: None,
            category_id: None,
            game_version: None,
            search_filter: None,
            sort_field: None,
            sort_order: None,
            mod_loader_type: None,
            game_version_type_id: None,
            slug: None,
            index: None,
            page_size: None,
        }
    }
}

/// Parameters of the request for the files of a project.
#[derive(Clone, Debug)]
pub struct ProjectFilesParams {
    pub game_version: Option<String>,
    pub mod_loader: Option<ModLoaderType>,
    pub game_version_type_id: Option<i32>,
    pub index: Option<i32>,
    pub page_size: Option<i32>,
}

impl Default for ProjectFilesParams {
    fn default() -> (r: ProjectFilesParams)
        ensures
            r.game_version is None,
            r.mod_loader is None,
            r.game_version_type_id is None,
            r.index is None,
            r.page_size is None,
    {
        ProjectFilesParams {
            game_version: None,
            mod_loader: None,
            game_version_type_id: None,
            index: None,
            page_size: None,
        }
    }
}

/// The body of the request for the featured projects of a game.
#[derive(Clone, Debug)]
pub struct FeaturedProjectsBody {
    pub game_id: i32,
    pub excluded_mod_ids: Vec<i32>,
    pub game_version_type_id: Option<i32>,
}

impl FeaturedProjectsBody {
    /// The featured projects of one game, excluding none.
    pub fn game(game_id: i32) -> (r: FeaturedProjectsBody)
        ensures
            r.game_id == game_id,
            r.excluded_mod_ids@.len() == 0,
            r.game_version_type_id is None,
    {
        FeaturedProjectsBody { game_id, excluded_mod_ids: Vec::new(), game_version_type_id: None }
    }
}

} // verus!
