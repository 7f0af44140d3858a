//! One handle for each kind of resource that can be fetched by itself, for
//! callers that address a single endpoint of the API.
pub mod collections;
pub mod episodes;
pub mod franchises;
pub mod request;
pub mod seasons;
pub mod shows;
pub mod specials;

pub use self::collections::CollectionEndpoint;
pub use self::episodes::EpisodeEndpoint;
pub use self::franchises::FranchiseEndpoint;
pub use self::seasons::SeasonEndpoint;
pub use self::shows::ShowEndpoint;
pub use self::specials::SpecialEndpoint;
