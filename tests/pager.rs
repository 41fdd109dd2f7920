use discogs_scraper::job::PageSummary;
use discogs_scraper::pager::{release_ids_of, InventoryPager};
use discogs_scraper::types::{
    InventoryResponse, Listing, ListingRelease, Pagination, PaginationUrls, Price, Seller,
};

fn run_pager(limit: Option<u32>, pages: &[Vec<u64>], total_pages: u32) -> (Vec<u64>, Vec<u32>) {
    let mut pager = InventoryPager::new(limit);
    let mut fetched = Vec::new();
    while let Some(page) = pager.next_page() {
        fetched.push(page);
        pager.accept_page(&pages[(page - 1) as usize], total_pages);
    }
    (pager.release_ids().clone(), fetched)
}

#[test]
fn pagination_truncates_to_limit_in_page_order() {
    let pages: Vec<Vec<u64>> = (0..5).map(|p| (p * 10 + 1..=p * 10 + 10).collect()).collect();
    let (ids, fetched) = run_pager(Some(15), &pages, 5);
    assert_eq!(ids, (1..=15).collect::<Vec<u64>>());
    assert_eq!(fetched, vec![1, 2]);
}

#[test]
fn pagination_without_limit_reads_all_pages() {
    let pages = vec![vec![5, 6], vec![7], vec![8, 9]];
    let (ids, fetched) = run_pager(None, &pages, 3);
    assert_eq!(ids, vec![5, 6, 7, 8, 9]);
    assert_eq!(fetched, vec![1, 2, 3]);
}

#[test]
fn pagination_limit_beyond_inventory() {
    let pages = vec![vec![1, 2], vec![3]];
    let (ids, _) = run_pager(Some(100), &pages, 2);
    assert_eq!(ids, vec![1, 2, 3]);
}

#[test]
fn pagination_limit_zero_fetches_one_page() {
    let pages = vec![vec![1, 2], vec![3]];
    let (ids, fetched) = run_pager(Some(0), &pages, 2);
    assert!(ids.is_empty());
    assert_eq!(fetched, vec![1]);
}

#[test]
fn pagination_limit_on_page_boundary() {
    let pages = vec![vec![1, 2], vec![3, 4], vec![5]];
    let (ids, fetched) = run_pager(Some(4), &pages, 3);
    assert_eq!(ids, vec![1, 2, 3, 4]);
    assert_eq!(fetched, vec![1, 2]);
}

fn listing(release_id: u64) -> Listing {
    Listing {
        id: release_id + 1000,
        status: "For Sale".to_string(),
        price: Price { currency: "EUR".to_string(), value_hundredths: 1250 },
        condition: None,
        sleeve_condition: None,
        comments: None,
        uri: "https://example.com/sell/item".to_string(),
        release: ListingRelease {
            id: release_id,
            title: "T".to_string(),
            artist: "A".to_string(),
            format: None,
            catalog_number: None,
            year: None,
            thumbnail: None,
            resource_url: "https://example.com/r".to_string(),
        },
        seller: Seller { username: "shop".to_string(), id: 9, resource_url: None },
    }
}

#[test]
fn page_summary_takes_ids_in_order() {
    let response = InventoryResponse {
        pagination: Pagination {
            per_page: 100,
            items: 42,
            page: 1,
            pages: 3,
            urls: PaginationUrls::default(),
        },
        listings: vec![listing(30), listing(10), listing(20)],
    };
    let summary = PageSummary::from_response(&response);
    assert_eq!(summary.release_ids, vec![30, 10, 20]);
    assert_eq!(summary.items, 42);
    assert_eq!(summary.pages, 3);
    assert_eq!(release_ids_of(&response.listings), vec![30, 10, 20]);
}
