//! Remote catalog records as the library sees them.
//!
//! Amounts that the remote side sends as decimal fractions are carried in
//! hundredths (a price of 12.50 is `1250`), so that every field is a plain
//! integer or string.
use vstd::prelude::*;

verus! {

/// Paging information returned with every inventory page.
#[derive(Debug, Clone, PartialEq)]
pub struct Pagination {
    pub per_page: u32,
    pub items: u32,
    pub page: u32,
    pub pages: u32,
    pub urls: PaginationUrls,
}

/// Links to the following and the last page, when the remote side gives them.
#[derive(Debug, Clone, PartialEq, Default)]
pub struct PaginationUrls {
    pub next: Option<String>,
    pub last: Option<String>,
}

/// One page of a seller's inventory.
#[derive(Debug, Clone, PartialEq)]
pub struct InventoryResponse {
    pub pagination: Pagination,
    pub listings: Vec<Listing>,
}

/// One for-sale entry of an inventory.
#[derive(Debug, Clone, PartialEq)]
pub struct Listing {
    pub id: u64,
    pub status: String,
    pub price: Price,
    pub condition: Option<String>,
    pub sleeve_condition: Option<String>,
    pub comments: Option<String>,
    pub uri: String,
    pub release: ListingRelease,
    pub seller: Seller,
}

/// An asking price, in hundredths of the currency unit.
#[derive(Debug, Clone, PartialEq)]
pub struct Price {
    pub currency: String,
    pub value_hundredths: i64,
}

/// The seller of a listing; `id` is the join key.
#[derive(Debug, Clone, PartialEq)]
pub struct Seller {
    pub username: String,
    pub id: u64,
    pub resource_url: Option<String>,
}

/// The summary of a release embedded in a listing.
#[derive(Debug, Clone, PartialEq)]
pub struct ListingRelease {
    pub id: u64,
    pub title: String,
    pub artist: String,
    pub format: Option<String>,
    pub catalog_number: Option<String>,
    pub year: Option<u32>,
    pub thumbnail: Option<String>,
    pub resource_url: String,
}

/// The full catalog record of a release.
#[derive(Debug, Clone, PartialEq)]
pub struct ReleaseResponse {
    pub id: u64,
    pub title: String,
    pub artists: Vec<Artist>,
    pub genres: Vec<String>,
    pub styles: Vec<String>,
    pub labels: Vec<Label>,
    pub country: Option<String>,
    pub released: Option<String>,
    pub year: Option<u32>,
    pub format: Option<String>,
    pub formats: Option<Vec<Format>>,
    pub catalog_number: Option<String>,
    pub tracklist: Vec<Track>,
    pub videos: Vec<Video>,
    pub images: Option<Vec<Image>>,
    pub community: Option<Community>,
    pub resource_url: String,
}

#[derive(Debug, Clone, PartialEq)]
pub struct Artist {
    pub id: u64,
    pub name: String,
}

#[derive(Debug, Clone, PartialEq)]
pub struct Label {
    pub id: u64,
    pub name: String,
    pub catno: Option<String>,
}

#[derive(Debug, Clone, PartialEq)]
pub struct Format {
    pub name: String,
    pub descriptions: Option<Vec<String>>,
    pub qty: Option<String>,
}

#[derive(Debug, Clone, PartialEq)]
pub struct Track {
    pub position: String,
    pub title: String,
    pub duration: Option<String>,
    pub track_type: Option<String>,
}

#[derive(Debug, Clone, PartialEq)]
pub struct Video {
    pub uri: String,
    pub title: Option<String>,
    pub description: Option<String>,
    pub duration: Option<u32>,
    pub embed: Option<bool>,
}

#[derive(Debug, Clone, PartialEq)]
pub struct Image {
    pub uri: Option<String>,
    pub resource_url: Option<String>,
    pub image_type: Option<String>,
}

#[derive(Debug, Clone, PartialEq)]
pub struct Community {
    pub have: Option<u32>,
    pub want: Option<u32>,
    pub rating: Option<Rating>,
}

/// Community rating; the average is in hundredths (4.25 is `425`).
#[derive(Debug, Clone, PartialEq)]
pub struct Rating {
    pub average_hundredths: Option<u32>,
    pub count: Option<u32>,
}

/// What can go wrong while scraping.
#[derive(Debug, Clone, PartialEq)]
pub enum ScraperError {
    /// No access token is configured.
    MissingToken,
    /// The request could not be carried out (network level).
    HttpError(String),
    /// The remote side answered 429.
    RateLimitExceeded,
    /// The remote side answered with another non-success status.
    RemoteError { status: u16, body: String },
    /// The remote side answered 404 to a release request.
    NotFound,
    /// The local store refused a read or a write.
    DatabaseError(String),
    /// A success body that does not have the expected shape.
    JsonError(String),
    /// The job observed a cancellation request at a checkpoint.
    Cancelled,
}

} // verus!
