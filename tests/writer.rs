use discogs_scraper::text::{extract_video_id, parse_decimal_u32, parse_leading_year};
use discogs_scraper::types::{
    Artist, Community, Format, Image, Label, Listing, ListingRelease, Price, Rating,
    ReleaseResponse, Seller, Track, Video,
};
use discogs_scraper::writer::{
    album_from_release, cover_image_of, format_of, listing_writes, release_writes, year_of,
    AlbumRow, CollectionItemRow, TrackRow, Write,
};
use std::collections::{BTreeMap, BTreeSet};

/// An in-memory catalog that carries out writes as the schema does.
#[derive(Default)]
struct Catalog {
    albums: BTreeMap<u64, AlbumRow>,
    sellers: BTreeMap<u64, String>,
    items: Vec<CollectionItemRow>,
    genres: BTreeMap<u64, BTreeSet<String>>,
    styles: BTreeMap<u64, BTreeSet<String>>,
    tracks: BTreeMap<u64, Vec<TrackRow>>,
    videos: BTreeMap<String, String>,
    links: BTreeMap<(u64, String), u64>,
}

impl Catalog {
    fn apply(&mut self, ws: Vec<Write>) {
        for w in ws {
            match w {
                Write::UpsertAlbum(row) => {
                    self.albums.insert(row.release_id, row);
                }
                Write::UpsertSeller(row) => {
                    self.sellers.insert(row.seller_id, row.name);
                }
                Write::AppendCollectionItem(row) => self.items.push(row),
                Write::UpdateAlbum(row) => {
                    if self.albums.contains_key(&row.release_id) {
                        self.albums.insert(row.release_id, row);
                    }
                }
                Write::ReplaceGenres { release_id, names } => {
                    self.genres.insert(release_id, names.into_iter().collect());
                }
                Write::ReplaceStyles { release_id, names } => {
                    self.styles.insert(release_id, names.into_iter().collect());
                }
                Write::ReplaceTracks { release_id, tracks } => {
                    self.tracks.insert(release_id, tracks);
                }
                Write::UpsertVideo(row) => {
                    self.videos.insert(row.video_id, row.url);
                }
                Write::LinkVideo { release_id, video_id, order_index } => {
                    self.links.entry((release_id, video_id)).or_insert(order_index);
                }
            }
        }
    }
}

fn listing(release_id: u64, title: &str, price: i64, status: &str) -> Listing {
    Listing {
        id: 1,
        status: status.to_string(),
        price: Price { currency: "USD".to_string(), value_hundredths: price },
        condition: Some("Mint (M)".to_string()),
        sleeve_condition: None,
        comments: Some("sealed".to_string()),
        uri: "https://example.com/sell/item/1".to_string(),
        release: ListingRelease {
            id: release_id,
            title: title.to_string(),
            artist: "Artist".to_string(),
            format: Some("LP".to_string()),
            catalog_number: Some("CAT-1".to_string()),
            year: Some(1977),
            thumbnail: Some("https://img.example.com/t.jpg".to_string()),
            resource_url: "https://api.example.com/releases/1".to_string(),
        },
        seller: Seller { username: "shop".to_string(), id: 77, resource_url: None },
    }
}

fn release(id: u64, genres: &[&str], styles: &[&str], tracks: &[&str]) -> ReleaseResponse {
    ReleaseResponse {
        id,
        title: "Full Title".to_string(),
        artists: vec![Artist { id: 1, name: "First".to_string() }, Artist { id: 2, name: "Second".to_string() }],
        genres: genres.iter().map(|g| g.to_string()).collect(),
        styles: styles.iter().map(|g| g.to_string()).collect(),
        labels: vec![Label { id: 5, name: "Label A".to_string(), catno: Some("LA-9".to_string()) }],
        country: Some("UK".to_string()),
        released: Some("1979-06-01".to_string()),
        year: None,
        format: Some("Vinyl".to_string()),
        formats: Some(vec![Format {
            name: "Vinyl".to_string(),
            descriptions: Some(vec!["LP".to_string(), "Album".to_string()]),
            qty: Some("1".to_string()),
        }]),
        catalog_number: None,
        tracklist: tracks
            .iter()
            .map(|p| Track {
                position: p.to_string(),
                title: format!("Song {}", p),
                duration: None,
                track_type: None,
            })
            .collect(),
        videos: vec![],
        images: None,
        community: Some(Community {
            have: Some(10),
            want: Some(20),
            rating: Some(Rating { average_hundredths: Some(425), count: Some(8) }),
        }),
        resource_url: "https://api.example.com/releases/x".to_string(),
    }
}

fn set(names: &[&str]) -> BTreeSet<String> {
    names.iter().map(|n| n.to_string()).collect()
}

#[test]
fn reenrichment_replaces_genre_style_and_track_links() {
    let mut db = Catalog::default();
    db.apply(listing_writes(&listing(42, "T", 100, "For Sale")));
    db.apply(release_writes(&release(42, &["A", "B"], &["S1", "S2"], &["A1", "A2", "B1"])));
    assert_eq!(db.genres[&42], set(&["A", "B"]));
    db.apply(release_writes(&release(42, &["C"], &["S3"], &["1"])));
    assert_eq!(db.genres[&42], set(&["C"]));
    assert_eq!(db.styles[&42], set(&["S3"]));
    assert_eq!(db.tracks[&42].len(), 1);
    assert_eq!(db.tracks[&42][0].position, "1");
}

#[test]
fn listing_upsert_twice_keeps_one_album_two_items() {
    let mut db = Catalog::default();
    db.apply(listing_writes(&listing(42, "Old title", 100, "For Sale")));
    db.apply(listing_writes(&listing(42, "New title", 250, "Sold")));
    assert_eq!(db.albums.len(), 1);
    assert_eq!(db.albums[&42].title, "New title");
    assert_eq!(db.items.len(), 2);
    assert_eq!(db.items[0].price_hundredths, 100);
    assert!(db.items[0].is_available);
    assert!(!db.items[1].is_available);
    assert_eq!(db.sellers[&77], "shop");
}

#[test]
fn enrichment_creates_no_album() {
    let mut db = Catalog::default();
    db.apply(release_writes(&release(5, &["A"], &[], &[])));
    assert!(db.albums.is_empty());
}

#[test]
fn listing_album_leaves_enrichment_fields_absent() {
    let ws = listing_writes(&listing(3, "T", 100, "For Sale"));
    match &ws[0] {
        Write::UpsertAlbum(row) => {
            assert_eq!(row.release_id, 3);
            assert_eq!(row.label, None);
            assert_eq!(row.country, None);
            assert_eq!(row.have_count, None);
            assert_eq!(row.catalog_number, Some("CAT-1".to_string()));
            assert_eq!(row.cover_image_url, Some("https://img.example.com/t.jpg".to_string()));
            assert_eq!(row.year, Some(1977));
        }
        other => panic!("unexpected write {:?}", other),
    }
}

#[test]
fn absent_listing_fields_become_empty_text() {
    let mut l = listing(6, "T", 100, "For Sale");
    l.release.catalog_number = None;
    l.release.format = None;
    l.release.thumbnail = None;
    let mut db = Catalog::default();
    db.apply(listing_writes(&listing(6, "Old", 100, "For Sale")));
    db.apply(listing_writes(&l));
    let row = &db.albums[&6];
    assert_eq!(row.catalog_number, Some(String::new()));
    assert_eq!(row.format, Some(String::new()));
    assert_eq!(row.cover_image_url, Some(String::new()));
    assert_eq!(row.title, "T");
}

#[test]
fn enriched_album_fields() {
    let row = album_from_release(&release(9, &[], &[], &[]));
    assert_eq!(row.artist, "First");
    assert_eq!(row.label, Some("Label A".to_string()));
    assert_eq!(row.catalog_number, Some("LA-9".to_string()));
    assert_eq!(row.format, Some("Vinyl, LP, Album".to_string()));
    assert_eq!(row.year, Some(1979));
    assert_eq!(row.country, Some("UK".to_string()));
    assert_eq!(row.have_count, Some(10));
    assert_eq!(row.want_count, Some(20));
    assert_eq!(row.avg_rating_hundredths, Some(425));
    assert_eq!(row.ratings_count, Some(8));
}

#[test]
fn enrichment_fallbacks() {
    let mut r = release(9, &[], &[], &[]);
    r.artists.clear();
    r.labels = vec![Label { id: 1, name: "L".to_string(), catno: None }];
    r.catalog_number = Some("OWN-1".to_string());
    r.formats = Some(vec![]);
    r.year = Some(2001);
    r.community = None;
    let row = album_from_release(&r);
    assert_eq!(row.artist, "");
    assert_eq!(row.catalog_number, Some("OWN-1".to_string()));
    assert_eq!(row.format, Some("Vinyl".to_string()));
    assert_eq!(row.year, Some(2001));
    assert_eq!(row.have_count, None);
    r.formats = None;
    r.format = None;
    assert_eq!(format_of(&r), None);
}

#[test]
fn format_without_descriptions() {
    let mut r = release(9, &[], &[], &[]);
    r.formats = Some(vec![Format { name: "CD".to_string(), descriptions: None, qty: None }]);
    assert_eq!(format_of(&r), Some("CD".to_string()));
}

fn image(uri: Option<&str>, resource: Option<&str>, kind: Option<&str>) -> Image {
    Image {
        uri: uri.map(|s| s.to_string()),
        resource_url: resource.map(|s| s.to_string()),
        image_type: kind.map(|s| s.to_string()),
    }
}

#[test]
fn cover_prefers_primary_image() {
    let mut r = release(9, &[], &[], &[]);
    r.images = Some(vec![
        image(Some("u1"), None, Some("secondary")),
        image(None, Some("r2"), Some("primary")),
    ]);
    assert_eq!(cover_image_of(&r), Some("r2".to_string()));
    r.images = Some(vec![image(Some("u1"), Some("r1"), Some("secondary")), image(Some("u2"), None, None)]);
    assert_eq!(cover_image_of(&r), Some("u1".to_string()));
    r.images = Some(vec![]);
    assert_eq!(cover_image_of(&r), None);
    r.images = None;
    assert_eq!(cover_image_of(&r), None);
}

#[test]
fn year_from_release_date() {
    let mut r = release(9, &[], &[], &[]);
    r.released = Some("1985".to_string());
    assert_eq!(year_of(&r), Some(1985));
    r.released = Some("unknown".to_string());
    assert_eq!(year_of(&r), None);
    r.released = None;
    assert_eq!(year_of(&r), None);
    assert_eq!(parse_leading_year("2003-11"), Some(2003));
    assert_eq!(parse_leading_year("-11"), None);
}

#[test]
fn decimal_parsing_follows_from_str() {
    let p = |s: &str| parse_decimal_u32(&s.chars().collect());
    assert_eq!(p("0"), Some(0));
    assert_eq!(p("+12"), Some(12));
    assert_eq!(p("4294967295"), Some(4294967295));
    assert_eq!(p("4294967296"), None);
    assert_eq!(p(""), None);
    assert_eq!(p("+"), None);
    assert_eq!(p("12a"), None);
    assert_eq!(p("-1"), None);
    for s in ["0", "+7", "123", "99999999999", "x", "", "+", "00042"] {
        assert_eq!(p(s), s.parse::<u32>().ok(), "input {:?}", s);
    }
}

#[test]
fn video_id_extraction() {
    assert_eq!(extract_video_id("https://www.youtube.com/watch?v=abc123"), Some("abc123".to_string()));
    assert_eq!(extract_video_id("https://www.youtube.com/watch?v=abc&t=10"), Some("abc".to_string()));
    assert_eq!(extract_video_id("https://youtu.be/abc123"), None);
    assert_eq!(extract_video_id("https://www.youtube.com/watch?v="), None);
    assert_eq!(extract_video_id("https://www.youtube.com/watch?v=&x=1"), None);
}

#[test]
fn video_without_marker_is_skipped() {
    let mut r = release(8, &[], &[], &[]);
    r.videos = vec![
        Video { uri: "https://youtu.be/nope".to_string(), title: None, description: None, duration: None, embed: None },
        Video {
            uri: "https://www.youtube.com/watch?v=keep".to_string(),
            title: Some("Clip".to_string()),
            description: None,
            duration: Some(200),
            embed: Some(true),
        },
    ];
    let mut db = Catalog::default();
    db.apply(listing_writes(&listing(8, "T", 100, "For Sale")));
    db.apply(release_writes(&r));
    assert_eq!(db.videos.len(), 1);
    assert_eq!(db.videos["keep"], "https://www.youtube.com/watch?v=keep");
    assert_eq!(db.links[&(8, "keep".to_string())], 1);
}

#[test]
fn track_side_is_first_character() {
    let ws = release_writes(&release(4, &[], &[], &["A1", "B2", ""]));
    match &ws[3] {
        Write::ReplaceTracks { release_id, tracks } => {
            assert_eq!(*release_id, 4);
            assert_eq!(tracks[0].side, Some("A".to_string()));
            assert_eq!(tracks[1].side, Some("B".to_string()));
            assert_eq!(tracks[2].side, None);
            assert_eq!(tracks[1].title, "Song B2");
        }
        other => panic!("unexpected write {:?}", other),
    }
}
