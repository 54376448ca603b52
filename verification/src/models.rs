//! Data model of the media catalogue.

use vstd::prelude::*;
use crate::text::{lowercase, spec_lowercase, all_ascii, ascii_lower, str_eq, opt_view};

verus! {

/// Media file types
#[derive(Debug, Clone, Copy, PartialEq, Eq, Structural)]
pub enum FileType {
    Image,
    Video,
}

/// The file type an already lowercased extension (with its leading dot)
/// stands for.
pub open spec fn spec_type_of_lower_extension(e: Seq<char>) -> Option<FileType> {
    if e == ".jpg"@ || e == ".jpeg"@ || e == ".png"@ || e == ".gif"@ || e == ".webp"@
        || e == ".heic"@ || e == ".raw"@ || e == ".tiff"@ {
        Some(FileType::Image)
    } else if e == ".mp4"@ || e == ".mov"@ || e == ".avi"@ || e == ".mkv"@ || e == ".webm"@
        || e == ".flv"@ || e == ".wmv"@ {
        Some(FileType::Video)
    } else {
        None
    }
}

/// The stored name of a file type.
pub open spec fn spec_type_name(t: FileType) -> Seq<char> {
    match t {
        FileType::Image => "image"@,
        FileType::Video => "video"@,
    }
}

/// The file type an already lowercased stored name stands for.
pub open spec fn spec_type_of_lower_name(s: Seq<char>) -> Option<FileType> {
    if s == "image"@ {
        Some(FileType::Image)
    } else if s == "video"@ {
        Some(FileType::Video)
    } else {
        None
    }
}

impl FileType {
    /// The file type of a lowercased extension such as `".jpg"`.
    pub fn from_lowercase_extension(lower: &str) -> (r: Option<FileType>)
        ensures
            r == spec_type_of_lower_extension(lower@),
    {
        if str_eq(lower, ".jpg") || str_eq(lower, ".jpeg") || str_eq(lower, ".png")
            || str_eq(lower, ".gif") || str_eq(lower, ".webp") || str_eq(lower, ".heic")
            || str_eq(lower, ".raw") || str_eq(lower, ".tiff") {
            Some(FileType::Image)
        } else if str_eq(lower, ".mp4") || str_eq(lower, ".mov") || str_eq(lower, ".avi")
            || str_eq(lower, ".mkv") || str_eq(lower, ".webm") || str_eq(lower, ".flv")
            || str_eq(lower, ".wmv") {
            Some(FileType::Video)
        } else {
            None
        }
    }

    /// The file type of an extension (with its leading dot), whatever its case.
    pub fn from_extension(ext: &str) -> (r: Option<FileType>)
        ensures
            r == spec_type_of_lower_extension(spec_lowercase(ext@)),
    {
        let lower = lowercase(ext);
        FileType::from_lowercase_extension(lower.as_str())
    }

    /// The file type of a stored name, whatever its case.
    ///
    /// The stored name of every file type reads back as that type.
    pub fn from_str(s: &str) -> (r: Option<FileType>)
        ensures
            r == spec_type_of_lower_name(spec_lowercase(s@)),
            forall|t: FileType| s@ == spec_type_name(t) ==> r == Some(t),
    {
        let lower = lowercase(s);
        proof {
            reveal_strlit("image");
            reveal_strlit("video");
            assert(ascii_lower("image"@) =~= "image"@);
            assert(ascii_lower("video"@) =~= "video"@);
            assert("image"@[0] != "video"@[0]);
            if s@ == "image"@ {
                assert(all_ascii(s@));
                assert(lower@ == "image"@);
            }
            if s@ == "video"@ {
                assert(all_ascii(s@));
                assert(lower@ == "video"@);
            }
        }
        let ls = lower.as_str();
        let r = if str_eq(ls, "image") {
            Some(FileType::Image)
        } else if str_eq(ls, "video") {
            Some(FileType::Video)
        } else {
            None
        };
        proof {
            assert forall|t: FileType| s@ == spec_type_name(t) implies r == Some(t) by {
                match t {
                    FileType::Image => {},
                    FileType::Video => {},
                }
            }
        }
        r
    }

    pub fn as_str(&self) -> (r: &'static str)
        ensures
            r@ == spec_type_name(*self),
    {
        match self {
            FileType::Image => "image",
            FileType::Video => "video",
        }
    }
}

/// Media file metadata.
///
/// GPS coordinates are held as the decimal text of the stored real number.
#[derive(Debug, Clone)]
pub struct MediaFile {
    pub id: Option<i64>,
    pub file_path: String,
    pub file_type: FileType,
    pub file_size: i64,
    pub width: Option<i32>,
    pub height: Option<i32>,
    pub duration: Option<i32>,
    pub created_at: i64,
    pub modified_at: i64,
    pub taken_at: Option<i64>,
    pub device: Option<String>,
    pub gps_lat: Option<String>,
    pub gps_lon: Option<String>,
    pub checksum: Option<String>,
    pub thumbnail_path: Option<String>,
    pub is_deleted: bool,
    /// Relation, not stored in the catalogue.
    pub tags: Option<Vec<Tag>>,
}

/// The mathematical form of a media file record.
pub struct MediaFileView {
    pub id: Option<i64>,
    pub file_path: Seq<char>,
    pub file_type: FileType,
    pub file_size: i64,
    pub width: Option<i32>,
    pub height: Option<i32>,
    pub duration: Option<i32>,
    pub created_at: i64,
    pub modified_at: i64,
    pub taken_at: Option<i64>,
    pub device: Option<Seq<char>>,
    pub gps_lat: Option<Seq<char>>,
    pub gps_lon: Option<Seq<char>>,
    pub checksum: Option<Seq<char>>,
    pub thumbnail_path: Option<Seq<char>>,
    pub is_deleted: bool,
    pub tags: Option<Seq<TagView>>,
}

impl View for MediaFile {
    type V = MediaFileView;

    open spec fn view(&self) -> MediaFileView {
        MediaFileView {
            id: self.id,
            file_path: self.file_path@,
            file_type: self.file_type,
            file_size: self.file_size,
            width: self.width,
            height: self.height,
            duration: self.duration,
            created_at: self.created_at,
            modified_at: self.modified_at,
            taken_at: self.taken_at,
            device: opt_view(self.device),
            gps_lat: opt_view(self.gps_lat),
            gps_lon: opt_view(self.gps_lon),
            checksum: opt_view(self.checksum),
            thumbnail_path: opt_view(self.thumbnail_path),
            is_deleted: self.is_deleted,
            tags: match self.tags {
                Some(ts) => Some(ts@.map_values(|t: Tag| t@)),
                None => None,
            },
        }
    }
}

/// The mathematical form of a tag.
pub struct TagView {
    pub id: Option<i64>,
    pub name: Seq<char>,
    pub parent_id: Option<i64>,
    pub color: Option<Seq<char>>,
    pub created_at: i64,
    pub media_count: Option<i64>,
}

impl View for Tag {
    type V = TagView;

    open spec fn view(&self) -> TagView {
        TagView {
            id: self.id,
            name: self.name@,
            parent_id: self.parent_id,
            color: opt_view(self.color),
            created_at: self.created_at,
            media_count: self.media_count,
        }
    }
}

/// The mathematical form of an album.
pub struct AlbumView {
    pub id: Option<i64>,
    pub name: Seq<char>,
    pub description: Option<Seq<char>>,
    pub cover_media_id: Option<i64>,
    pub created_at: i64,
    pub media_count: Option<i64>,
}

impl View for Album {
    type V = AlbumView;

    open spec fn view(&self) -> AlbumView {
        AlbumView {
            id: self.id,
            name: self.name@,
            description: opt_view(self.description),
            cover_media_id: self.cover_media_id,
            created_at: self.created_at,
            media_count: self.media_count,
        }
    }
}

/// The mathematical form of a tag's usage line.
pub struct TagUsageView {
    pub id: i64,
    pub name: Seq<char>,
    pub parent_id: Option<i64>,
    pub color: Option<Seq<char>>,
    pub usage_count: i64,
}

impl View for TagUsage {
    type V = TagUsageView;

    open spec fn view(&self) -> TagUsageView {
        TagUsageView {
            id: self.id,
            name: self.name@,
            parent_id: self.parent_id,
            color: opt_view(self.color),
            usage_count: self.usage_count,
        }
    }
}

/// Tag for organizing media
#[derive(Debug, Clone)]
pub struct Tag {
    pub id: Option<i64>,
    pub name: String,
    pub parent_id: Option<i64>,
    pub color: Option<String>,
    pub created_at: i64,
    /// Relation, not stored in the catalogue.
    pub media_count: Option<i64>,
}

/// Album (collection of media files)
#[derive(Debug, Clone)]
pub struct Album {
    pub id: Option<i64>,
    pub name: String,
    pub description: Option<String>,
    pub cover_media_id: Option<i64>,
    pub created_at: i64,
    /// Relation, not stored in the catalogue.
    pub media_count: Option<i64>,
}

/// Junction table: media <-> tags
#[derive(Debug, Clone)]
pub struct MediaTag {
    pub media_id: i64,
    pub tag_id: i64,
    pub created_at: i64,
}

/// Junction table: album <-> media
#[derive(Debug, Clone)]
pub struct AlbumMedia {
    pub album_id: i64,
    pub media_id: i64,
    pub position: i32,
}

/// Search filters
#[derive(Debug, Clone, Default)]
pub struct SearchFilters {
    pub file_type: Option<FileType>,
    pub tag_ids: Option<Vec<i64>>,
    pub album_id: Option<i64>,
    pub date_from: Option<i64>,
    pub date_to: Option<i64>,
    pub size_min: Option<i64>,
    pub size_max: Option<i64>,
    pub folder: Option<String>,
    pub is_deleted: Option<bool>,
}

/// Pagination parameters
#[derive(Debug, Clone)]
pub struct Pagination {
    pub page: usize,
    pub page_size: usize,
}

impl Default for Pagination {
    fn default() -> (r: Self)
        ensures
            r.page == 1,
            r.page_size == 50,
    {
        Pagination { page: 1, page_size: 50 }
    }
}

/// The number of rows skipped before a page: pages are numbered from 1.
pub open spec fn spec_page_offset(p: Pagination) -> int {
    (p.page - 1) * p.page_size
}

/// A page is addressable when it is numbered from 1 and its offset fits in a `usize`.
pub open spec fn valid_page(p: Pagination) -> bool {
    p.page >= 1 && spec_page_offset(p) <= usize::MAX
}

impl Pagination {
    /// The number of rows before this page.
    pub fn offset(&self) -> (r: usize)
        requires
            valid_page(*self),
        ensures
            r == spec_page_offset(*self),
    {
        (self.page - 1) * self.page_size
    }
}

/// The exact number of pages of `page_size` items needed for `total` items,
/// before saturation at `usize::MAX`.
pub open spec fn ceil_pages(total: int, page_size: int) -> int {
    (total + page_size - 1) / page_size
}

/// Number of pages reported for `total` items: zero when there is nothing,
/// `usize::MAX` when pages hold nothing, otherwise the ceiling of the
/// quotient, saturated at `usize::MAX`.
pub open spec fn spec_total_pages(total: i64, page_size: usize) -> usize {
    if total <= 0 {
        0
    } else if page_size == 0 {
        usize::MAX
    } else if ceil_pages(total as int, page_size as int) > usize::MAX {
        usize::MAX
    } else {
        ceil_pages(total as int, page_size as int) as usize
    }
}

/// Search result with pagination
#[derive(Debug, Clone)]
pub struct SearchResult<T> {
    pub items: Vec<T>,
    pub total: i64,
    pub page: usize,
    pub page_size: usize,
    pub total_pages: usize,
}

impl<T> SearchResult<T> {
    /// Wraps a page of items. When items exist and pages hold something,
    /// the pages counted are exactly enough to hold all items: the last one
    /// is not empty.
    pub fn new(items: Vec<T>, total: i64, page: usize, page_size: usize) -> (r: Self)
        ensures
            r.items@ == items@,
            r.total == total,
            r.page == page,
            r.page_size == page_size,
            r.total_pages == spec_total_pages(total, page_size),
            total > 0 && page_size > 0 && r.total_pages < usize::MAX ==> {
                &&& (r.total_pages - 1) * page_size < total
                &&& total <= r.total_pages * page_size
            },
    {
        let total_pages: usize = if total <= 0 {
            0
        } else if page_size == 0 {
            usize::MAX
        } else {
            let t: u64 = total as u64;
            let ps: u64 = page_size as u64;
            let q: u64 = t / ps;
            let c: u64 = if t % ps != 0 { q + 1 } else { q };
            proof {
                lemma_ceil_pages(t as int, ps as int, q as int, c as int);
            }
            if c > usize::MAX as u64 {
                usize::MAX
            } else {
                c as usize
            }
        };
        proof {
            if total > 0 && page_size > 0 && total_pages < usize::MAX {
                lemma_ceil_bounds(total as int, page_size as int);
            }
        }
        SearchResult { items, total, page, page_size, total_pages }
    }
}

proof fn lemma_ceil_pages(t: int, ps: int, q: int, c: int)
    requires
        t > 0,
        ps > 0,
        q == t / ps,
        c == if t % ps != 0 { q + 1 } else { q },
    ensures
        c == ceil_pages(t, ps),
{
    assert(c == ceil_pages(t, ps)) by (nonlinear_arith)
        requires
            t > 0,
            ps > 0,
            q == t / ps,
            c == if t % ps != 0 { q + 1 } else { q },
    {
        assert(t == ps * q + t % ps);
        assert(0 <= t % ps < ps);
        assert(t + ps - 1 == ps * q + (t % ps + ps - 1));
    }
}

proof fn lemma_ceil_bounds(t: int, ps: int)
    requires
        t > 0,
        ps > 0,
    ensures
        (ceil_pages(t, ps) - 1) * ps < t,
        t <= ceil_pages(t, ps) * ps,
{
    let c = ceil_pages(t, ps);
    assert((c - 1) * ps < t && t <= c * ps) by (nonlinear_arith)
        requires
            t > 0,
            ps > 0,
            c == (t + ps - 1) / ps,
    {
        let r = (t + ps - 1) % ps;
        assert(t + ps - 1 == ps * c + r);
        assert(0 <= r < ps);
    }
}

/// Tag usage statistics
#[derive(Debug, Clone)]
pub struct TagUsage {
    pub id: i64,
    pub name: String,
    pub parent_id: Option<i64>,
    pub color: Option<String>,
    pub usage_count: i64,
}

/// Database statistics
#[derive(Debug, Clone, Default)]
pub struct DatabaseStats {
    pub total_files: i64,
    pub total_images: i64,
    pub total_videos: i64,
    pub total_size: i64,
    pub total_tags: i64,
    pub total_albums: i64,
}

/// Scan result statistics, as reported after an import
#[derive(Debug, Clone, Default)]
pub struct ScanStats {
    pub total_files: u64,
    pub images: u64,
    pub videos: u64,
    pub skipped: u64,
    pub errors: u64,
    pub total_size: u64,
    pub inserted: u64,
}

/// Scan result
#[derive(Debug, Clone)]
pub struct ScanResult {
    pub message: String,
    pub stats: ScanStats,
}

/// Thumbnail generation result
#[derive(Debug, Clone)]
pub struct ThumbnailGenerationResult {
    pub total: usize,
    pub generated: usize,
    pub errors: usize,
    pub skipped: usize,
}

} // verus!
