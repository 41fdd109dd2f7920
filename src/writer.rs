//! What is written to the local catalog for a listing and for a release.
//!
//! A listing or a release becomes a plan: a sequence of [`Write`]s that the
//! host carries out in one transaction. [`StoreModel`] and [`apply_all`] give
//! each write its meaning over the catalog's tables, and the laws below are
//! stated over them.
use vstd::prelude::*;
use crate::text::{
    extract_video_id, find_from, first_char, leading_year, opt_view, parse_leading_year, video_id_of,
    watch_marker,
};
use crate::types::{Image, Listing, ReleaseResponse, Seller, Track, Video};

verus! {

/// A row of the albums table, keyed by the release id.
#[derive(Debug, Clone, PartialEq)]
pub struct AlbumRow {
    pub release_id: u64,
    pub artist: String,
    pub title: String,
    pub label: Option<String>,
    pub catalog_number: Option<String>,
    pub format: Option<String>,
    pub country: Option<String>,
    pub year: Option<u32>,
    pub cover_image_url: Option<String>,
    pub resource_url: String,
    pub have_count: Option<u32>,
    pub want_count: Option<u32>,
    pub avg_rating_hundredths: Option<u32>,
    pub ratings_count: Option<u32>,
}

/// A row of the sellers table, keyed by the remote seller id.
#[derive(Debug, Clone, PartialEq)]
pub struct SellerRow {
    pub seller_id: u64,
    pub name: String,
    pub uri: Option<String>,
}

/// One sighting of a listing. `seller_id` is the remote seller id; the host
/// resolves it to the seller row.
#[derive(Debug, Clone, PartialEq)]
pub struct CollectionItemRow {
    pub release_id: u64,
    pub seller_id: u64,
    pub price_hundredths: i64,
    pub currency: String,
    pub condition: Option<String>,
    pub sleeve_condition: Option<String>,
    pub notes: Option<String>,
    pub is_available: bool,
    pub item_url: String,
}

#[derive(Debug, Clone, PartialEq)]
pub struct TrackRow {
    pub position: String,
    pub title: String,
    pub duration: Option<String>,
    /// The first character of the position (the vinyl side).
    pub side: Option<String>,
}

#[derive(Debug, Clone, PartialEq)]
pub struct VideoRow {
    pub video_id: String,
    pub title: Option<String>,
    pub url: String,
}

/// One write to the catalog.
#[derive(Debug, Clone, PartialEq)]
pub enum Write {
    /// Insert the album, or replace the row with the same release id.
    UpsertAlbum(AlbumRow),
    /// Insert the seller, or overwrite name and uri of the row with the same
    /// seller id.
    UpsertSeller(SellerRow),
    /// Append a collection item; never merged with earlier ones.
    AppendCollectionItem(CollectionItemRow),
    /// Overwrite the album with the same release id; creates no row.
    UpdateAlbum(AlbumRow),
    /// Unlink all genres of the album, then link exactly these.
    ReplaceGenres { release_id: u64, names: Vec<String> },
    /// Unlink all styles of the album, then link exactly these.
    ReplaceStyles { release_id: u64, names: Vec<String> },
    /// Delete the album's tracks, then insert these.
    ReplaceTracks { release_id: u64, tracks: Vec<TrackRow> },
    /// Insert the video, or replace the row with the same video id.
    UpsertVideo(VideoRow),
    /// Link the video to the album unless that link already exists.
    LinkVideo { release_id: u64, video_id: String, order_index: u64 },
}

/// The catalog's tables, as far as the writes touch them.
pub struct StoreModel {
    pub albums: Map<u64, AlbumRow>,
    pub sellers: Map<u64, SellerRow>,
    pub items: Seq<CollectionItemRow>,
    pub genres: Map<u64, Set<Seq<char>>>,
    pub styles: Map<u64, Set<Seq<char>>>,
    pub tracks: Map<u64, Seq<TrackRow>>,
    pub videos: Map<Seq<char>, VideoRow>,
    pub video_links: Map<(u64, Seq<char>), u64>,
}

pub open spec fn names_of(v: Seq<String>) -> Set<Seq<char>> {
    v.map_values(|s: String| s@).to_set()
}

/// The catalog after one write.
pub open spec fn apply(s: StoreModel, w: Write) -> StoreModel {
    match w {
        Write::UpsertAlbum(row) => StoreModel { albums: s.albums.insert(row.release_id, row), ..s },
        Write::UpsertSeller(row) => StoreModel { sellers: s.sellers.insert(row.seller_id, row), ..s },
        Write::AppendCollectionItem(row) => StoreModel { items: s.items.push(row), ..s },
        Write::UpdateAlbum(row) => if s.albums.contains_key(row.release_id) {
            StoreModel { albums: s.albums.insert(row.release_id, row), ..s }
        } else {
            s
        },
        Write::ReplaceGenres { release_id, names } => StoreModel {
            genres: s.genres.insert(release_id, names_of(names@)),
            ..s
        },
        Write::ReplaceStyles { release_id, names } => StoreModel {
            styles: s.styles.insert(release_id, names_of(names@)),
            ..s
        },
        Write::ReplaceTracks { release_id, tracks } => StoreModel {
            tracks: s.tracks.insert(release_id, tracks@),
            ..s
        },
        Write::UpsertVideo(row) => StoreModel { videos: s.videos.insert(row.video_id@, row), ..s },
        Write::LinkVideo { release_id, video_id, order_index } => if s.video_links.contains_key(
            (release_id, video_id@),
        ) {
            s
        } else {
            StoreModel { video_links: s.video_links.insert((release_id, video_id@), order_index), ..s }
        },
    }
}

/// The catalog after the writes of `ws`, in order.
pub open spec fn apply_all(s: StoreModel, ws: Seq<Write>) -> StoreModel
    decreases ws.len(),
{
    if ws.len() == 0 {
        s
    } else {
        apply_all(apply(s, ws[0]), ws.drop_first())
    }
}

pub open spec fn for_sale() -> Seq<char> {
    seq!['F', 'o', 'r', ' ', 'S', 'a', 'l', 'e']
}

/// The text of an optional field; absent is the empty text.
pub open spec fn text_or_empty(o: Option<String>) -> Seq<char> {
    match o {
        Some(t) => t@,
        None => Seq::empty(),
    }
}

/// Whether `row` is the album as listing `l` shows it: catalog number,
/// format and cover are the listing's text, empty when absent; the
/// enrichment-only fields are absent.
pub open spec fn listing_album_ok(l: Listing, row: AlbumRow) -> bool {
    &&& row.release_id == l.release.id
    &&& row.artist == l.release.artist
    &&& row.title == l.release.title
    &&& row.label is None
    &&& opt_view(row.catalog_number) == Some(text_or_empty(l.release.catalog_number))
    &&& opt_view(row.format) == Some(text_or_empty(l.release.format))
    &&& row.country is None
    &&& row.year == l.release.year
    &&& opt_view(row.cover_image_url) == Some(text_or_empty(l.release.thumbnail))
    &&& row.resource_url == l.release.resource_url
    &&& row.have_count is None
    &&& row.want_count is None
    &&& row.avg_rating_hundredths is None
    &&& row.ratings_count is None
}

pub open spec fn is_listing_album_upsert(w: Write, l: Listing) -> bool {
    match w {
        Write::UpsertAlbum(row) => listing_album_ok(l, row),
        _ => false,
    }
}

pub open spec fn seller_of(s: Seller) -> SellerRow {
    SellerRow { seller_id: s.id, name: s.username, uri: s.resource_url }
}

pub open spec fn listing_item(l: Listing) -> CollectionItemRow {
    CollectionItemRow {
        release_id: l.release.id,
        seller_id: l.seller.id,
        price_hundredths: l.price.value_hundredths,
        currency: l.price.currency,
        condition: l.condition,
        sleeve_condition: l.sleeve_condition,
        notes: l.comments,
        is_available: l.status@ == for_sale(),
        item_url: l.uri,
    }
}

/// What a listing writes: its album, its seller, and one collection item.
pub open spec fn is_listing_plan(l: Listing, ws: Seq<Write>) -> bool {
    &&& ws.len() == 3
    &&& is_listing_album_upsert(ws[0], l)
    &&& ws[1] == Write::UpsertSeller(seller_of(l.seller))
    &&& ws[2] == Write::AppendCollectionItem(listing_item(l))
}

fn clone_opt(o: &Option<String>) -> (r: Option<String>)
    ensures
        r == *o,
{
    match o {
        Some(s) => Some(s.clone()),
        None => None,
    }
}

/// The text of `o`, or the empty string.
pub fn text_or_default(o: &Option<String>) -> (r: String)
    ensures
        r@ == text_or_empty(*o),
{
    match o {
        Some(t) => t.clone(),
        None => String::new(),
    }
}

pub fn album_from_listing(l: &Listing) -> (r: AlbumRow)
    ensures
        listing_album_ok(*l, r),
{
    AlbumRow {
        release_id: l.release.id,
        artist: l.release.artist.clone(),
        title: l.release.title.clone(),
        label: None,
        catalog_number: Some(text_or_default(&l.release.catalog_number)),
        format: Some(text_or_default(&l.release.format)),
        country: None,
        year: l.release.year,
        cover_image_url: Some(text_or_default(&l.release.thumbnail)),
        resource_url: l.release.resource_url.clone(),
        have_count: None,
        want_count: None,
        avg_rating_hundredths: None,
        ratings_count: None,
    }
}

pub fn seller_row(s: &Seller) -> (r: SellerRow)
    ensures
        r == seller_of(*s),
{
    SellerRow { seller_id: s.id, name: s.username.clone(), uri: clone_opt(&s.resource_url) }
}

pub fn collection_item(l: &Listing) -> (r: CollectionItemRow)
    ensures
        r == listing_item(*l),
{
    let marker: String = "For Sale".to_owned();
    proof {
        reveal_strlit("For Sale");
    }
    assert(marker@ =~= for_sale());
    CollectionItemRow {
        release_id: l.release.id,
        seller_id: l.seller.id,
        price_hundredths: l.price.value_hundredths,
        currency: l.price.currency.clone(),
        condition: clone_opt(&l.condition),
        sleeve_condition: clone_opt(&l.sleeve_condition),
        notes: clone_opt(&l.comments),
        is_available: l.status == marker,
        item_url: l.uri.clone(),
    }
}

/// The writes for one listing sighting.
pub fn listing_writes(l: &Listing) -> (r: Vec<Write>)
    ensures
        is_listing_plan(*l, r@),
{
    let mut ws: Vec<Write> = Vec::new();
    ws.push(Write::UpsertAlbum(album_from_listing(l)));
    ws.push(Write::UpsertSeller(seller_row(&l.seller)));
    ws.push(Write::AppendCollectionItem(collection_item(l)));
    ws
}

/// Two sightings of one release, in two listings, leave one album row,
/// holding what the later listing shows, and two collection items.
pub proof fn lemma_listing_upsert_idempotent(
    s: StoreModel,
    l1: Listing,
    ws1: Seq<Write>,
    l2: Listing,
    ws2: Seq<Write>,
)
    requires
        l1.release.id == l2.release.id,
        is_listing_plan(l1, ws1),
        is_listing_plan(l2, ws2),
    ensures
        ({
            let t = apply_all(apply_all(s, ws1), ws2);
            &&& t.albums.dom() == s.albums.dom().insert(l1.release.id)
            &&& listing_album_ok(l2, t.albums[l1.release.id])
            &&& t.items == s.items.push(listing_item(l1)).push(listing_item(l2))
            &&& t.sellers[l2.seller.id] == seller_of(l2.seller)
        }),
{
    reveal_with_fuel(apply_all, 4);
    let t = apply_all(apply_all(s, ws1), ws2);
    assert(t.albums.dom() =~= s.albums.dom().insert(l1.release.id));
}

pub open spec fn release_artist(r: ReleaseResponse) -> Seq<char> {
    if r.artists.len() > 0 {
        r.artists[0].name@
    } else {
        Seq::empty()
    }
}

pub open spec fn release_label(r: ReleaseResponse) -> Option<String> {
    if r.labels.len() > 0 {
        Some(r.labels[0].name)
    } else {
        None
    }
}

/// The first label's catalog number, else the release's own.
pub open spec fn release_catalog_number(r: ReleaseResponse) -> Option<String> {
    if r.labels.len() > 0 && r.labels[0].catno is Some {
        r.labels[0].catno
    } else {
        r.catalog_number
    }
}

/// `, d1, d2, ...` for the descriptions `d1, d2, ...`.
pub open spec fn joined_descriptions(ds: Seq<String>) -> Seq<char>
    decreases ds.len(),
{
    if ds.len() == 0 {
        Seq::empty()
    } else {
        joined_descriptions(ds.drop_last()) + seq![',', ' '] + ds.last()@
    }
}

/// The first structured format as `name, description, ...`; else the flat
/// format string.
pub open spec fn format_text(r: ReleaseResponse) -> Option<Seq<char>> {
    match r.formats {
        Some(fs) => if fs.len() > 0 {
            Some(
                fs[0].name@ + match fs[0].descriptions {
                    Some(ds) => joined_descriptions(ds@),
                    None => Seq::empty(),
                },
            )
        } else {
            opt_view(r.format)
        },
        None => opt_view(r.format),
    }
}

pub open spec fn primary() -> Seq<char> {
    seq!['p', 'r', 'i', 'm', 'a', 'r', 'y']
}

pub open spec fn is_primary(img: Image) -> bool {
    match img.image_type {
        Some(t) => t@ == primary(),
        None => false,
    }
}

/// The first position at or after `i` of an image typed "primary", or -1.
pub open spec fn primary_from(imgs: Seq<Image>, i: int) -> int
    decreases imgs.len() - i,
{
    if i < 0 || i >= imgs.len() {
        -1
    } else if is_primary(imgs[i]) {
        i
    } else {
        primary_from(imgs, i + 1)
    }
}

pub open spec fn image_url(img: Image) -> Option<String> {
    if img.uri is Some {
        img.uri
    } else {
        img.resource_url
    }
}

/// The URL of the first primary image, else of the first image.
pub open spec fn cover_image(r: ReleaseResponse) -> Option<String> {
    match r.images {
        Some(imgs) => {
            let p = primary_from(imgs@, 0);
            if p >= 0 {
                image_url(imgs@[p])
            } else if imgs.len() > 0 {
                image_url(imgs@[0])
            } else {
                None
            }
        },
        None => None,
    }
}

/// The explicit year, else the leading year of the release date.
pub open spec fn release_year(r: ReleaseResponse) -> Option<u32> {
    if r.year is Some {
        r.year
    } else {
        match r.released {
            Some(d) => leading_year(d@),
            None => None,
        }
    }
}

pub open spec fn have_of(r: ReleaseResponse) -> Option<u32> {
    match r.community {
        Some(c) => c.have,
        None => None,
    }
}

pub open spec fn want_of(r: ReleaseResponse) -> Option<u32> {
    match r.community {
        Some(c) => c.want,
        None => None,
    }
}

pub open spec fn rating_average_of(r: ReleaseResponse) -> Option<u32> {
    match r.community {
        Some(c) => match c.rating {
            Some(g) => g.average_hundredths,
            None => None,
        },
        None => None,
    }
}

pub open spec fn rating_count_of(r: ReleaseResponse) -> Option<u32> {
    match r.community {
        Some(c) => match c.rating {
            Some(g) => g.count,
            None => None,
        },
        None => None,
    }
}

/// Whether `row` is the full album row of release `r`.
pub open spec fn release_album_ok(r: ReleaseResponse, row: AlbumRow) -> bool {
    &&& row.release_id == r.id
    &&& row.artist@ == release_artist(r)
    &&& row.title == r.title
    &&& row.label == release_label(r)
    &&& row.catalog_number == release_catalog_number(r)
    &&& opt_view(row.format) == format_text(r)
    &&& row.country == r.country
    &&& row.year == release_year(r)
    &&& row.cover_image_url == cover_image(r)
    &&& row.resource_url == r.resource_url
    &&& row.have_count == have_of(r)
    &&& row.want_count == want_of(r)
    &&& row.avg_rating_hundredths == rating_average_of(r)
    &&& row.ratings_count == rating_count_of(r)
}

pub open spec fn track_row_ok(t: Track, row: TrackRow) -> bool {
    &&& row.position == t.position
    &&& row.title == t.title
    &&& row.duration == t.duration
    &&& opt_view(row.side) == (if t.position@.len() > 0 {
        Some(t.position@.take(1))
    } else {
        None::<Seq<char>>
    })
}

pub open spec fn tracks_ok(ts: Seq<Track>, rows: Seq<TrackRow>) -> bool {
    &&& rows.len() == ts.len()
    &&& forall|i: int| 0 <= i < ts.len() ==> track_row_ok(ts[i], #[trigger] rows[i])
}

pub open spec fn is_video_upsert(w: Write, vid: Seq<char>, v: Video) -> bool {
    match w {
        Write::UpsertVideo(row) => row.video_id@ == vid && row.title == v.title && row.url == v.uri,
        _ => false,
    }
}

pub open spec fn is_video_link(w: Write, release_id: u64, vid: Seq<char>, index: int) -> bool {
    match w {
        Write::LinkVideo { release_id: id, video_id, order_index } => id == release_id
            && video_id@ == vid && order_index == index,
        _ => false,
    }
}

/// Whether `ws` are the video writes for `videos` of album `release_id`: for
/// each video with an id, in order, its upsert and its link at the video's
/// position; nothing for a video without an id.
pub open spec fn video_writes_ok(release_id: u64, videos: Seq<Video>, ws: Seq<Write>) -> bool
    decreases videos.len(),
{
    if videos.len() == 0 {
        ws.len() == 0
    } else {
        let i = videos.len() - 1;
        match video_id_of(videos[i].uri@) {
            None => video_writes_ok(release_id, videos.drop_last(), ws),
            Some(vid) => ws.len() >= 2 && is_video_upsert(ws[ws.len() - 2], vid, videos[i])
                && is_video_link(ws[ws.len() - 1], release_id, vid, i) && video_writes_ok(
                release_id,
                videos.drop_last(),
                ws.take(ws.len() - 2),
            ),
        }
    }
}

pub open spec fn is_album_update(w: Write, r: ReleaseResponse) -> bool {
    match w {
        Write::UpdateAlbum(row) => release_album_ok(r, row),
        _ => false,
    }
}

pub open spec fn is_genres_replace(w: Write, r: ReleaseResponse) -> bool {
    match w {
        Write::ReplaceGenres { release_id, names } => release_id == r.id && names@ == r.genres@,
        _ => false,
    }
}

pub open spec fn is_styles_replace(w: Write, r: ReleaseResponse) -> bool {
    match w {
        Write::ReplaceStyles { release_id, names } => release_id == r.id && names@ == r.styles@,
        _ => false,
    }
}

pub open spec fn is_tracks_replace(w: Write, r: ReleaseResponse) -> bool {
    match w {
        Write::ReplaceTracks { release_id, tracks } => release_id == r.id && tracks_ok(
            r.tracklist@,
            tracks@,
        ),
        _ => false,
    }
}

/// What enriching an album with release `r` writes: the album's full row,
/// its genres, styles and tracks in full, then its videos.
pub open spec fn is_release_plan(r: ReleaseResponse, ws: Seq<Write>) -> bool {
    &&& ws.len() >= 4
    &&& is_album_update(ws[0], r)
    &&& is_genres_replace(ws[1], r)
    &&& is_styles_replace(ws[2], r)
    &&& is_tracks_replace(ws[3], r)
    &&& video_writes_ok(r.id, r.videos@, ws.skip(4))
}

/// The format text of release `r`.
pub fn format_of(r: &ReleaseResponse) -> (out: Option<String>)
    ensures
        opt_view(out) == format_text(*r),
{
    match &r.formats {
        Some(fs) => {
            if fs.len() > 0 {
                let f = &fs[0];
                let mut text = f.name.clone();
                match &f.descriptions {
                    Some(ds) => {
                        let mut i: usize = 0;
                        while i < ds.len()
                            invariant
                                i <= ds@.len(),
                                text@ == f.name@ + joined_descriptions(ds@.take(i as int)),
                            decreases ds@.len() - i,
                        {
                            proof {
                                reveal_strlit(", ");
                            }
                            text.append(", ");
                            text.append(ds[i].as_str());
                            i = i + 1;
                            assert(ds@.take(i as int).drop_last() =~= ds@.take(i - 1));
                            assert(text@ =~= f.name@ + joined_descriptions(ds@.take(i as int)));
                        }
                        assert(ds@.take(i as int) =~= ds@);
                    },
                    None => {
                        assert(text@ =~= f.name@ + Seq::<char>::empty());
                    },
                }
                Some(text)
            } else {
                clone_opt(&r.format)
            }
        },
        None => clone_opt(&r.format),
    }
}

/// Whether `img` is typed "primary".
fn image_is_primary(img: &Image) -> (b: bool)
    ensures
        b == is_primary(*img),
{
    match &img.image_type {
        Some(t) => {
            let p: String = "primary".to_owned();
            proof {
                reveal_strlit("primary");
            }
            assert(p@ =~= primary());
            *t == p
        },
        None => false,
    }
}

fn url_of_image(img: &Image) -> (u: Option<String>)
    ensures
        u == image_url(*img),
{
    if img.uri.is_some() {
        clone_opt(&img.uri)
    } else {
        clone_opt(&img.resource_url)
    }
}

/// The cover image URL of release `r`.
pub fn cover_image_of(r: &ReleaseResponse) -> (u: Option<String>)
    ensures
        u == cover_image(*r),
{
    match &r.images {
        Some(imgs) => {
            let mut i: usize = 0;
            while i < imgs.len() && !image_is_primary(&imgs[i])
                invariant
                    i <= imgs@.len(),
                    primary_from(imgs@, 0) == primary_from(imgs@, i as int),
                decreases imgs@.len() - i,
            {
                i = i + 1;
            }
            if i < imgs.len() {
                url_of_image(&imgs[i])
            } else if imgs.len() > 0 {
                url_of_image(&imgs[0])
            } else {
                None
            }
        },
        None => None,
    }
}

/// The year of release `r`.
pub fn year_of(r: &ReleaseResponse) -> (y: Option<u32>)
    ensures
        y == release_year(*r),
{
    if r.year.is_some() {
        r.year
    } else {
        match &r.released {
            Some(d) => parse_leading_year(d.as_str()),
            None => None,
        }
    }
}

/// The full album row of release `r`.
pub fn album_from_release(r: &ReleaseResponse) -> (row: AlbumRow)
    ensures
        release_album_ok(*r, row),
{
    let artist = if r.artists.len() > 0 {
        r.artists[0].name.clone()
    } else {
        String::new()
    };
    let label = if r.labels.len() > 0 {
        Some(r.labels[0].name.clone())
    } else {
        None
    };
    let catalog_number = if r.labels.len() > 0 && r.labels[0].catno.is_some() {
        clone_opt(&r.labels[0].catno)
    } else {
        clone_opt(&r.catalog_number)
    };
    let (have_count, want_count, avg, count) = match &r.community {
        Some(c) => match &c.rating {
            Some(g) => (c.have, c.want, g.average_hundredths, g.count),
            None => (c.have, c.want, None, None),
        },
        None => (None, None, None, None),
    };
    AlbumRow {
        release_id: r.id,
        artist,
        title: r.title.clone(),
        label,
        catalog_number,
        format: format_of(r),
        country: clone_opt(&r.country),
        year: year_of(r),
        cover_image_url: cover_image_of(r),
        resource_url: r.resource_url.clone(),
        have_count,
        want_count,
        avg_rating_hundredths: avg,
        ratings_count: count,
    }
}

/// A copy of `names`.
pub fn copy_names(names: &Vec<String>) -> (out: Vec<String>)
    ensures
        out@ == names@,
{
    let mut out: Vec<String> = Vec::new();
    let mut i: usize = 0;
    while i < names.len()
        invariant
            i <= names@.len(),
            out@ == names@.take(i as int),
        decreases names@.len() - i,
    {
        out.push(names[i].clone());
        i = i + 1;
        assert(out@ =~= names@.take(i as int));
    }
    assert(out@ =~= names@);
    out
}

/// The track rows of a tracklist, in order.
pub fn track_rows(tracks: &Vec<Track>) -> (rows: Vec<TrackRow>)
    ensures
        tracks_ok(tracks@, rows@),
{
    let mut rows: Vec<TrackRow> = Vec::new();
    let mut i: usize = 0;
    while i < tracks.len()
        invariant
            i <= tracks@.len(),
            tracks_ok(tracks@.take(i as int), rows@),
        decreases tracks@.len() - i,
    {
        let t = &tracks[i];
        rows.push(
            TrackRow {
                position: t.position.clone(),
                title: t.title.clone(),
                duration: clone_opt(&t.duration),
                side: first_char(&t.position),
            },
        );
        i = i + 1;
        assert forall|j: int| 0 <= j < i implies track_row_ok(
            tracks@.take(i as int)[j],
            #[trigger] rows@[j],
        ) by {
            if j < i - 1 {
                assert(tracks@.take(i - 1)[j] == tracks@.take(i as int)[j]);
            }
        }
    }
    assert(tracks@.take(i as int) =~= tracks@);
    rows
}

/// The video writes for `videos` of album `release_id`; videos whose URI
/// carries no video id are skipped.
pub fn video_writes(release_id: u64, videos: &Vec<Video>) -> (ws: Vec<Write>)
    ensures
        video_writes_ok(release_id, videos@, ws@),
{
    let mut ws: Vec<Write> = Vec::new();
    let mut i: usize = 0;
    while i < videos.len()
        invariant
            i <= videos@.len(),
            video_writes_ok(release_id, videos@.take(i as int), ws@),
        decreases videos@.len() - i,
    {
        let v = &videos[i];
        let ghost before = ws@;
        assert(videos@.take(i + 1).drop_last() =~= videos@.take(i as int));
        match extract_video_id(v.uri.as_str()) {
            Some(vid) => {
                let link_id = vid.clone();
                ws.push(
                    Write::UpsertVideo(
                        VideoRow { video_id: vid, title: clone_opt(&v.title), url: v.uri.clone() },
                    ),
                );
                ws.push(Write::LinkVideo { release_id, video_id: link_id, order_index: i as u64 });
                assert(ws@.take(ws@.len() - 2) =~= before);
            },
            None => {},
        }
        i = i + 1;
    }
    assert(videos@.take(i as int) =~= videos@);
    ws
}

/// The writes that enrich the album of release `r`.
pub fn release_writes(r: &ReleaseResponse) -> (ws: Vec<Write>)
    ensures
        is_release_plan(*r, ws@),
{
    let mut ws: Vec<Write> = Vec::new();
    ws.push(Write::UpdateAlbum(album_from_release(r)));
    ws.push(Write::ReplaceGenres { release_id: r.id, names: copy_names(&r.genres) });
    ws.push(Write::ReplaceStyles { release_id: r.id, names: copy_names(&r.styles) });
    ws.push(Write::ReplaceTracks { release_id: r.id, tracks: track_rows(&r.tracklist) });
    let mut videos = video_writes(r.id, &r.videos);
    let ghost vids = videos@;
    ws.append(&mut videos);
    assert(ws@.skip(4) =~= vids);
    ws
}

proof fn lemma_video_writes_only_videos(release_id: u64, videos: Seq<Video>, ws: Seq<Write>)
    requires
        video_writes_ok(release_id, videos, ws),
    ensures
        forall|i: int| 0 <= i < ws.len() ==> (#[trigger] ws[i] is UpsertVideo || ws[i] is LinkVideo),
    decreases videos.len(),
{
    if videos.len() > 0 {
        let i = videos.len() - 1;
        match video_id_of(videos[i].uri@) {
            None => lemma_video_writes_only_videos(release_id, videos.drop_last(), ws),
            Some(vid) => {
                let head = ws.take(ws.len() - 2);
                lemma_video_writes_only_videos(release_id, videos.drop_last(), head);
                assert forall|j: int| 0 <= j < ws.len() implies (#[trigger] ws[j] is UpsertVideo
                    || ws[j] is LinkVideo) by {
                    if j < ws.len() - 2 {
                        assert(head[j] == ws[j]);
                    }
                }
            },
        }
    }
}

proof fn lemma_video_writes_keep_tables(s: StoreModel, ws: Seq<Write>)
    requires
        forall|i: int| 0 <= i < ws.len() ==> (#[trigger] ws[i] is UpsertVideo || ws[i] is LinkVideo),
    ensures
        apply_all(s, ws).albums == s.albums,
        apply_all(s, ws).genres == s.genres,
        apply_all(s, ws).styles == s.styles,
        apply_all(s, ws).tracks == s.tracks,
    decreases ws.len(),
{
    if ws.len() > 0 {
        assert(ws[0] is UpsertVideo || ws[0] is LinkVideo);
        let rest = ws.drop_first();
        assert forall|i: int| 0 <= i < rest.len() implies (#[trigger] rest[i] is UpsertVideo
            || rest[i] is LinkVideo) by {
            assert(rest[i] == ws[i + 1]);
        }
        lemma_video_writes_keep_tables(apply(s, ws[0]), rest);
    }
}

/// Enriching an album leaves its genre, style and track links exactly those
/// of the release, whatever was linked before; it creates no album row and
/// fills an existing one with the release's full field set.
pub proof fn lemma_enrichment_replaces_links(s: StoreModel, r: ReleaseResponse, ws: Seq<Write>)
    requires
        is_release_plan(r, ws),
    ensures
        ({
            let t = apply_all(s, ws);
            &&& t.genres[r.id] == names_of(r.genres@)
            &&& t.styles[r.id] == names_of(r.styles@)
            &&& tracks_ok(r.tracklist@, t.tracks[r.id])
            &&& t.albums.dom() == s.albums.dom()
            &&& s.albums.contains_key(r.id) ==> release_album_ok(r, t.albums[r.id])
        }),
{
    let s1 = apply(s, ws[0]);
    let s2 = apply(s1, ws[1]);
    let s3 = apply(s2, ws[2]);
    let s4 = apply(s3, ws[3]);
    let w1 = ws.drop_first();
    let w2 = w1.drop_first();
    let w3 = w2.drop_first();
    let w4 = w3.drop_first();
    assert(w4 =~= ws.skip(4));
    assert(apply_all(s, ws) == apply_all(s1, w1));
    assert(apply_all(s1, w1) == apply_all(s2, w2));
    assert(apply_all(s2, w2) == apply_all(s3, w3));
    assert(apply_all(s3, w3) == apply_all(s4, w4));
    lemma_video_writes_only_videos(r.id, r.videos@, ws.skip(4));
    lemma_video_writes_keep_tables(s4, w4);
    assert(s4.albums.dom() =~= s.albums.dom());
}

/// Collection items are history: no write changes or removes an existing
/// item, whatever the writes are.
pub proof fn lemma_items_are_append_only(s: StoreModel, ws: Seq<Write>)
    ensures
        s.items.len() <= apply_all(s, ws).items.len(),
        apply_all(s, ws).items.take(s.items.len() as int) == s.items,
    decreases ws.len(),
{
    if ws.len() > 0 {
        let s1 = apply(s, ws[0]);
        lemma_items_are_append_only(s1, ws.drop_first());
        assert(s1.items.take(s.items.len() as int) =~= s.items);
        let t = apply_all(s, ws);
        assert(t.items.take(s.items.len() as int) =~= t.items.take(s1.items.len() as int).take(
            s.items.len() as int,
        ));
    }
}

/// A video whose URI has no `watch?v=` is skipped: adding it to a release's
/// videos changes nothing in what is written for them.
pub proof fn lemma_unmarked_video_skipped(release_id: u64, videos: Seq<Video>, v: Video, ws: Seq<Write>)
    requires
        find_from(v.uri@, watch_marker(), 0) < 0,
    ensures
        video_writes_ok(release_id, videos.push(v), ws) == video_writes_ok(release_id, videos, ws),
{
    assert(videos.push(v).drop_last() =~= videos);
}

} // verus!
