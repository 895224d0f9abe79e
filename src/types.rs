//! The service's enumerations, and the small records that hold no date or
//! floating-point value. Each enumeration has an `Unknown` variant, which
//! lenient decoding gives for a tag it does not know.

use vstd::prelude::*;

verus! {

/// The status of a game.
#[derive(Clone, Copy, Debug, PartialEq, Eq, Structural)]
pub enum CoreStatus {
    Draft,
    Test,
    PendingReview,
    Rejected,
    Approved,
    Live,
    Unknown,
}

/// Whether a game is open to the public API.
#[derive(Clone, Copy, Debug, PartialEq, Eq, Structural)]
pub enum CoreApiStatus {
    Private,
    Public,
    Unknown,
}

/// The release channel of a file.
#[derive(Clone, Copy, Debug, PartialEq, Eq, Structural)]
pub enum FileReleaseType {
    Release,
    Beta,
    Alpha,
    Unknown,
}

/// The release channel of a file, as the widget service names it.
#[derive(Clone, Copy, Debug, PartialEq, Eq, Structural)]
pub enum ReleaseType {
    Release,
    Beta,
    Alpha,
    Unknown,
}

/// The review status of a file.
#[derive(Clone, Copy, Debug, PartialEq, Eq, Structural)]
pub enum FileStatus {
    Processing,
    ChangesRequired,
    UnderReview,
    Approved,
    Rejected,
    MalwareDetected,
    Deleted,
    Archived,
    Testing,
    Released,
    ReadyForReview,
    Deprecated,
    Baking,
    AwaitingPublishing,
    FailedPublishing,
    Unknown,
}

/// The algorithm of a file hash.
#[derive(Clone, Copy, Debug, PartialEq, Eq, Structural)]
pub enum HashAlgorithm {
    Sha1,
    Md5,
    Unknown,
}

/// How a file depends on a project.
#[derive(Clone, Copy, Debug, PartialEq, Eq, Structural)]
pub enum FileRelationType {
    EmbeddedLibrary,
    OptionalDependency,
    RequiredDependency,
    Tool,
    Incompatible,
    Include,
    Unknown,
}

/// The mod loader that a file is for.
#[derive(Clone, Copy, Debug, PartialEq, Eq, Structural)]
pub enum ModLoaderType {
    Any,
    Forge,
    Cauldron,
    LiteLoader,
    Fabric,
    Quilt,
    NeoForge,
    Unknown,
}

impl ModLoaderType {
    /// The tag the service uses for each known loader.
    pub open spec fn tag_spec(self) -> Option<u8> {
        match self {
            ModLoaderType::Any => Some(0),
            ModLoaderType::Forge => Some(1),
            ModLoaderType::Cauldron => Some(2),
            ModLoaderType::LiteLoader => Some(3),
            ModLoaderType::Fabric => Some(4),
            ModLoaderType::Quilt => Some(5),
            ModLoaderType::NeoForge => Some(6),
            ModLoaderType::Unknown => None,
        }
    }

    /// The tag the service uses for this loader; `None` for `Unknown`.
    pub fn tag(&self) -> (r: Option<u8>)
        ensures
            r == self.tag_spec(),
    {
        match self {
            ModLoaderType::Any => Some(0),
            ModLoaderType::Forge => Some(1),
            ModLoaderType::Cauldron => Some(2),
            ModLoaderType::LiteLoader => Some(3),
            ModLoaderType::Fabric => Some(4),
            ModLoaderType::Quilt => Some(5),
            ModLoaderType::NeoForge => Some(6),
            ModLoaderType::Unknown => None,
        }
    }
}

/// The review status of a project.
#[derive(Clone, Copy, Debug, PartialEq, Eq, Structural)]
pub enum ProjectStatus {
    New,
    ChangesRequired,
    UnderSoftReview,
    Approved,
    Rejected,
    ChangesMade,
    Inactive,
    Abandoned,
    Deleted,
    UnderReview,
    Unknown,
}

/// The review status of a mod.
#[derive(Clone, Copy, Debug, PartialEq, Eq, Structural)]
pub enum ModStatus {
    New,
    ChangesRequired,
    UnderSoftReview,
    Approved,
    Rejected,
    ChangesMade,
    Inactive,
    Abandoned,
    Deleted,
    UnderReview,
    Unknown,
}

/// The field a project search sorts by.
#[derive(Clone, Copy, Debug, PartialEq, Eq, Structural)]
pub enum SearchSort {
    Featured,
    Popularity,
    LastUpdated,
    Name,
    Author,
    TotalDownloads,
    Category,
    GameVersion,
}

impl SearchSort {
    /// The tag the service uses for each sort field.
    pub open spec fn tag_spec(self) -> u8 {
        match self {
            SearchSort::Featured => 1,
            SearchSort::Popularity => 2,
            SearchSort::LastUpdated => 3,
            SearchSort::Name => 4,
            SearchSort::Author => 5,
            SearchSort::TotalDownloads => 6,
            SearchSort::Category => 7,
            SearchSort::GameVersion => 8,
        }
    }

    /// The tag the service uses for this sort field.
    pub fn tag(&self) -> (r: u8)
        ensures
            r == self.tag_spec(),
    {
        match self {
            SearchSort::Featured => 1,
            SearchSort::Popularity => 2,
            SearchSort::LastUpdated => 3,
            SearchSort::Name => 4,
            SearchSort::Author => 5,
            SearchSort::TotalDownloads => 6,
            SearchSort::Category => 7,
            SearchSort::GameVersion => 8,
        }
    }
}

/// The field a mod search sorts by.
pub type SearchModsSort = SearchSort;

/// The direction of a search's order.
#[derive(Clone, Copy, Debug, PartialEq, Eq, Structural)]
pub enum SearchSortOrder {
    Ascending,
    Descending,
}

impl SearchSortOrder {
    /// The word the service uses for this direction.
    pub fn as_str(&self) -> (r: &'static str)
        ensures
            r@ == (match self {
                SearchSortOrder::Ascending => "asc"@,
                SearchSortOrder::Descending => "desc"@,
            }),
    {
        match self {
            SearchSortOrder::Ascending => "asc",
            SearchSortOrder::Descending => "desc",
        }
    }
}

/// The direction of a mod search's order.
pub type SortOrder = SearchSortOrder;

/// The links of a mod; an empty link is none.
#[derive(Clone, Debug)]
pub struct ModLinks {
    pub website_url: String,
    pub wiki_url: Option<String>,
    pub issues_url: Option<String>,
    pub source_url: Option<String>,
}

/// An author of a mod.
#[derive(Clone, Debug)]
pub struct ModAuthor {
    pub id: i32,
    pub name: String,
    pub url: String,
}

/// An image of a mod.
#[derive(Clone, Debug)]
pub struct ModAsset {
    pub id: i32,
    pub mod_id: i32,
    pub title: String,
    pub description: Option<String>,
    pub thumbnail_url: String,
    pub url: String,
}

} // verus!
