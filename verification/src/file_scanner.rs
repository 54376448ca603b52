//! Scanning: which files are media, what is recorded of each, and the
//! bookkeeping of a scan. Walking directories and reading files is the
//! caller's part; every decision on what was read is made here.

use vstd::prelude::*;
use vstd::string::*;
use crate::models::{FileType, MediaFile, MediaFileView, ScanResult};
use crate::models::ScanStats as ImportStats;
use crate::text::{lowercase, spec_lowercase, str_eq, opt_view, decimal_u64, spec_decimal_nat};
use crate::sqlite::DbError;
use crate::repository::MediaRepository;
use std::io::Cursor;
use image::{ImageFormat, ImageReader};

verus! {

/// Supported image extensions
pub const IMAGE_EXTENSIONS: [&'static str; 10] = ["jpg", "jpeg", "png", "gif", "webp", "heic", "raw", "cr2", "nef", "arw"];

/// Supported video extensions
pub const VIDEO_EXTENSIONS: [&'static str; 6] = ["mp4", "mov", "avi", "mkv", "webm", "m4v"];

/// Whether a list of extensions holds one.
pub open spec fn lists_extension(list: Seq<&str>, e: Seq<char>) -> bool {
    exists|i: int| 0 <= i < list.len() && (#[trigger] list[i])@ == e
}

/// Whether a lowercased extension (without dot) is a supported image one.
pub open spec fn is_image_extension(e: Seq<char>) -> bool {
    lists_extension(IMAGE_EXTENSIONS@, e)
}

/// Whether a lowercased extension (without dot) is a supported video one.
pub open spec fn is_video_extension(e: Seq<char>) -> bool {
    lists_extension(VIDEO_EXTENSIONS@, e)
}

/// Whether a list of extensions holds one.
fn list_has(list: &[&'static str], e: &str) -> (r: bool)
    ensures
        r == lists_extension(list@, e@),
{
    let mut i: usize = 0;
    while i < list.len()
        invariant
            i <= list.len(),
            forall|j: int| 0 <= j < i ==> (#[trigger] list@[j])@ != e@,
        decreases list.len() - i,
    {
        if str_eq(list[i], e) {
            assert(list@[i as int]@ == e@);
            return true;
        }
        i = i + 1;
    }
    false
}

/// How a file's extension (without dot, as far as it reads as text) decides
/// its kind: no extension is an error; a supported one, whatever its case,
/// gives the media type; any other means the file is not media.
pub open spec fn spec_classify(ext: Option<Seq<char>>) -> Result<Option<FileType>, Seq<char>> {
    match ext {
        None => Err("No file extension"@),
        Some(e) => if is_image_extension(spec_lowercase(e)) {
            Ok(Some(FileType::Image))
        } else if is_video_extension(spec_lowercase(e)) {
            Ok(Some(FileType::Video))
        } else {
            Ok(None)
        },
    }
}

/// Whether a directory entry is hidden: its name starts with a dot. A scan
/// passes over hidden entries and everything under them.
pub fn is_hidden_entry(name: &str) -> (r: bool)
    ensures
        r == (name@.len() > 0 && name@[0] == '.'),
{
    name.unicode_len() > 0 && name.get_char(0) == '.'
}

/// File scanner configuration
#[derive(Debug, Clone, Copy)]
pub struct ScannerConfig {
    pub recursive: bool,
    pub extract_metadata: bool,
    pub generate_thumbnail: bool,
    pub thumbnail_size: u32,
    /// Checksums are computed only when asked (deduplication).
    pub calculate_checksum: bool,
}

impl Default for ScannerConfig {
    fn default() -> (r: Self)
        ensures
            r.recursive,
            r.extract_metadata,
            !r.generate_thumbnail,
            r.thumbnail_size == 256,
            !r.calculate_checksum,
    {
        ScannerConfig {
            recursive: true,
            extract_metadata: true,
            generate_thumbnail: false,
            thumbnail_size: 256,
            calculate_checksum: false,
        }
    }
}

/// Scan result statistics
#[derive(Debug, Clone, Copy, Default)]
pub struct ScanStats {
    pub total_files: u64,
    pub images: u64,
    pub videos: u64,
    pub skipped: u64,
    pub errors: u64,
    pub total_size: u64,
}

/// What the caller reads of one file, as the scanner asks.
#[derive(Debug, Clone, Copy)]
pub struct FilePlan {
    pub file_type: FileType,
    /// Read the whole file for its checksum.
    pub read_checksum: bool,
    /// Read the image's dimensions.
    pub read_dimensions: bool,
    /// Read the image's EXIF data.
    pub read_exif: bool,
}

/// What was read of an image: its dimensions, and the EXIF `DateTime` and
/// `Model` fields as displayed.
#[derive(Debug, Clone)]
pub struct ImageFacts {
    pub dimensions: Option<(u32, u32)>,
    pub exif_date_time: Option<String>,
    pub exif_model: Option<String>,
}

/// The metadata recorded of an image.
#[derive(Debug, Clone)]
pub struct ImageMetadata {
    pub width: Option<i32>,
    pub height: Option<i32>,
    pub duration: Option<i32>,
    pub taken_at: Option<i64>,
    pub device: Option<String>,
}

/// The outcome of one directory entry.
#[derive(Debug, Clone)]
pub enum FileOutcome {
    /// A media file and what was recorded of it.
    Media(MediaFile),
    /// A file that is not media.
    Skipped,
    /// An entry that could not be read or processed.
    Failed,
}

/// File scanner service
pub struct FileScanner {
    config: ScannerConfig,
}

impl FileScanner {
    /// The configuration the scanner runs with.
    pub closed spec fn spec_config(&self) -> ScannerConfig {
        self.config
    }

    /// Create new file scanner
    pub fn new(config: ScannerConfig) -> (r: Self)
        ensures
            r.spec_config() == config,
    {
        FileScanner { config }
    }

    /// The configuration the scanner runs with.
    pub fn config(&self) -> (r: &ScannerConfig)
        ensures
            *r == self.spec_config(),
    {
        &self.config
    }

    /// The kind of a file from its extension (without dot), if it has one
    /// that reads as text.
    pub fn classify_extension(ext: Option<&str>) -> (r: Result<Option<FileType>, String>)
        ensures
            (match (r, spec_classify(opt_str(ext))) {
                (Ok(a), Ok(b)) => a == b,
                (Err(a), Err(b)) => a@ == b,
                _ => false,
            }),
    {
        match ext {
            None => Err("No file extension".to_owned()),
            Some(e) => {
                let lower = lowercase(e);
                if list_has(IMAGE_EXTENSIONS.as_slice(), lower.as_str()) {
                    Ok(Some(FileType::Image))
                } else if list_has(VIDEO_EXTENSIONS.as_slice(), lower.as_str()) {
                    Ok(Some(FileType::Video))
                } else {
                    Ok(None)
                }
            },
        }
    }

    /// What to read of a file with this extension: nothing when it is not
    /// media; its checksum when configured; dimensions for images; EXIF data
    /// for images when metadata extraction is configured.
    pub fn plan_file(&self, ext: Option<&str>) -> (r: Result<Option<FilePlan>, String>)
        ensures
            (match (r, spec_classify(opt_str(ext))) {
                (Ok(None), Ok(None)) => true,
                (Ok(Some(p)), Ok(Some(t))) => {
                    &&& p.file_type == t
                    &&& p.read_checksum == self.spec_config().calculate_checksum
                    &&& p.read_dimensions == (t == FileType::Image)
                    &&& p.read_exif == (t == FileType::Image && self.spec_config().extract_metadata)
                },
                (Err(a), Err(b)) => a@ == b,
                _ => false,
            }),
    {
        match FileScanner::classify_extension(ext) {
            Err(e) => Err(e),
            Ok(None) => Ok(None),
            Ok(Some(t)) => {
                let image = match t {
                    FileType::Image => true,
                    FileType::Video => false,
                };
                Ok(Some(FilePlan {
                    file_type: t,
                    read_checksum: self.config.calculate_checksum,
                    read_dimensions: image,
                    read_exif: image && self.config.extract_metadata,
                }))
            },
        }
    }
}

/// The Unix time (UTC) of a date and time text parsed with a `chrono`
/// format, as `chrono::NaiveDateTime::parse_from_str` followed by
/// `and_utc().timestamp()` computes it; nothing when it does not parse.
pub uninterp spec fn spec_parse_datetime(text: Seq<char>, format: Seq<char>) -> Option<i64>;

/// Calls `chrono::NaiveDateTime::parse_from_str` and takes the UTC Unix
/// timestamp of what it parsed. Claims only that the result is the named
/// function of the text and the format.
#[verifier::external_body]
fn parse_datetime_utc(text: &str, format: &str) -> (r: Option<i64>)
    ensures
        r == spec_parse_datetime(text@, format@),
{
    chrono::NaiveDateTime::parse_from_str(text, format).ok().map(|dt| dt.and_utc().timestamp())
}

/// The EXIF date-time format.
pub open spec fn exif_datetime_format() -> Seq<char> {
    "%Y:%m:%d %H:%M:%S"@
}

/// When an image was taken, from the displayed EXIF `DateTime` field: a
/// display starting with `ASCII, ` is parsed after that prefix; any other
/// display gives nothing.
pub open spec fn spec_exif_taken_at(display: Seq<char>) -> Option<i64> {
    if display.len() >= 7 && display.take(7) == "ASCII, "@ {
        spec_parse_datetime(display.skip(7), exif_datetime_format())
    } else {
        None
    }
}

/// When an image was taken, from the displayed EXIF `DateTime` field.
pub fn exif_taken_at(display: &str) -> (r: Option<i64>)
    ensures
        r == spec_exif_taken_at(display@),
{
    proof {
        reveal_strlit("ASCII, ");
    }
    let n = display.unicode_len();
    if n < 7 {
        return None;
    }
    let head = display.substring_char(0, 7);
    if str_eq(head, "ASCII, ") {
        let rest = display.substring_char(7, n);
        assert(rest@ =~= display@.skip(7));
        parse_datetime_utc(rest, "%Y:%m:%d %H:%M:%S")
    } else {
        None
    }
}

/// The width and height of an image, as `image::ImageReader` reads them
/// from its bytes in the format its file extension names (without dot, as
/// `image::ImageFormat::from_extension` maps it); nothing when the extension
/// names no format or the bytes do not read in it.
pub uninterp spec fn spec_image_dimensions(bytes: Seq<u8>, ext: Seq<char>) -> Option<(u32, u32)>;

/// Calls `image::ImageFormat::from_extension` on the extension, then
/// `image::ImageReader::with_format` and `into_dimensions` on the bytes.
/// Claims only that the result is the named function of the bytes and the
/// extension.
#[verifier::external_body]
fn image_dimensions(bytes: &[u8], ext: &str) -> (r: Option<(u32, u32)>)
    ensures
        r == spec_image_dimensions(bytes@, ext@),
{
    let format = ImageFormat::from_extension(ext)?;
    ImageReader::with_format(Cursor::new(bytes), format).into_dimensions().ok()
}

/// The `DateTime` and `Model` fields of an image's primary EXIF directory,
/// each as `kamadak-exif` displays it, read from the image's bytes with
/// `exif::Reader::read_from_container`; nothing of a field that is not there,
/// nothing at all when the bytes hold no EXIF data that reads.
pub uninterp spec fn spec_exif_fields(bytes: Seq<u8>) -> (Option<Seq<char>>, Option<Seq<char>>);

/// Calls `exif::Reader::read_from_container` on the bytes and takes the
/// displayed `DateTime` and `Model` fields of the primary directory. Claims
/// only that the result is the named function of the bytes.
#[verifier::external_body]
fn exif_fields(bytes: &[u8]) -> (r: (Option<String>, Option<String>))
    ensures
        (opt_view(r.0), opt_view(r.1)) == spec_exif_fields(bytes@),
{
    match exif::Reader::new().read_from_container(&mut Cursor::new(bytes)) {
        Ok(e) => (
            e.get_field(exif::Tag::DateTime, exif::In::PRIMARY).map(|f| f.display_value().to_string()),
            e.get_field(exif::Tag::Model, exif::In::PRIMARY).map(|f| f.display_value().to_string()),
        ),
        Err(_) => (None, None),
    }
}

/// What is read of an image from its bytes: its dimensions, in the format
/// its file extension (without dot) names, and, when asked, its EXIF date
/// and camera model; nothing of EXIF when not asked.
pub fn image_facts(bytes: &[u8], ext: &str, read_exif: bool) -> (r: ImageFacts)
    ensures
        r.dimensions == spec_image_dimensions(bytes@, ext@),
        read_exif ==> (opt_view(r.exif_date_time), opt_view(r.exif_model)) == spec_exif_fields(bytes@),
        !read_exif ==> r.exif_date_time is None && r.exif_model is None,
{
    let dimensions = image_dimensions(bytes, ext);
    if read_exif {
        let (exif_date_time, exif_model) = exif_fields(bytes);
        ImageFacts { dimensions, exif_date_time, exif_model }
    } else {
        ImageFacts { dimensions, exif_date_time: None, exif_model: None }
    }
}

/// The width and height recorded of image dimensions (converted to `i32`
/// as `as` does).
pub open spec fn spec_dimension(d: Option<(u32, u32)>, first: bool) -> Option<i32> {
    match d {
        Some((w, h)) => Some(if first { w as i32 } else { h as i32 }),
        None => None,
    }
}

/// The metadata recorded of an image: its dimensions, when it was taken and
/// its camera model; never a duration.
pub fn image_metadata(facts: &ImageFacts) -> (r: ImageMetadata)
    ensures
        r.width == spec_dimension(facts.dimensions, true),
        r.height == spec_dimension(facts.dimensions, false),
        r.duration is None,
        r.taken_at == (match facts.exif_date_time {
            Some(d) => spec_exif_taken_at(d@),
            None => None,
        }),
        opt_view(r.device) == opt_view(facts.exif_model),
{
    let (width, height) = match facts.dimensions {
        Some((w, h)) => (Some(w as i32), Some(h as i32)),
        None => (None, None),
    };
    let taken_at = match &facts.exif_date_time {
        Some(d) => exif_taken_at(d.as_str()),
        None => None,
    };
    let device = match &facts.exif_model {
        Some(m) => Some(m.clone()),
        None => None,
    };
    ImageMetadata { width, height, duration: None, taken_at, device }
}

/// The record of a scanned media file: not yet stored, no thumbnail, not
/// deleted, no tags yet, no GPS position; images carry their metadata,
/// videos none.
pub open spec fn spec_scanned_media(
    path: Seq<char>,
    file_type: FileType,
    file_size: i64,
    created_at: i64,
    modified_at: i64,
    checksum: Option<Seq<char>>,
    meta: ImageMetadata,
) -> MediaFileView {
    let image = file_type == FileType::Image;
    MediaFileView {
        id: None,
        file_path: path,
        file_type,
        file_size,
        width: if image { meta.width } else { None },
        height: if image { meta.height } else { None },
        duration: if image { meta.duration } else { None },
        created_at,
        modified_at,
        taken_at: if image { meta.taken_at } else { None },
        device: if image { opt_view(meta.device) } else { None },
        gps_lat: None,
        gps_lon: None,
        checksum,
        thumbnail_path: None,
        is_deleted: false,
        tags: Some(Seq::empty()),
    }
}

/// A scanned image's record carries the metadata read of it: its
/// dimensions, duration, capture time and camera; a scanned video's carries
/// none. Either way it carries the path, kind, size, times and checksum
/// given, is not yet stored, has no thumbnail and is not deleted.
pub proof fn law_scanned_record_keeps_metadata(
    path: Seq<char>,
    file_type: FileType,
    file_size: i64,
    created_at: i64,
    modified_at: i64,
    checksum: Option<Seq<char>>,
    meta: ImageMetadata,
)
    ensures
        ({
            let r = spec_scanned_media(path, file_type, file_size, created_at, modified_at, checksum, meta);
            &&& r.file_path == path
            &&& r.file_type == file_type
            &&& r.file_size == file_size
            &&& r.created_at == created_at
            &&& r.modified_at == modified_at
            &&& r.checksum == checksum
            &&& r.id is None
            &&& r.thumbnail_path is None
            &&& !r.is_deleted
            &&& file_type == FileType::Image ==> {
                &&& r.width == meta.width
                &&& r.height == meta.height
                &&& r.duration == meta.duration
                &&& r.taken_at == meta.taken_at
                &&& r.device == opt_view(meta.device)
            }
            &&& file_type == FileType::Video ==> {
                &&& r.width is None
                &&& r.height is None
                &&& r.duration is None
                &&& r.taken_at is None
                &&& r.device is None
            }
        }),
{
}

/// The record of a scanned media file.
pub fn scanned_media(
    path: String,
    file_type: FileType,
    file_size: i64,
    created_at: i64,
    modified_at: i64,
    checksum: Option<String>,
    meta: &ImageMetadata,
) -> (r: MediaFile)
    ensures
        r@ == spec_scanned_media(path@, file_type, file_size, created_at, modified_at, opt_view(checksum), *meta),
        r.file_path@ == path@,
        r.file_type == file_type,
        r.file_size == file_size,
        r.created_at == created_at,
        r.modified_at == modified_at,
        opt_view(r.checksum) == opt_view(checksum),
        file_type == FileType::Image ==> {
            &&& r.width == meta.width
            &&& r.height == meta.height
            &&& r.duration == meta.duration
            &&& r.taken_at == meta.taken_at
            &&& opt_view(r.device) == opt_view(meta.device)
        },
        file_type == FileType::Video ==> {
            &&& r.width is None
            &&& r.height is None
            &&& r.duration is None
            &&& r.taken_at is None
            &&& r.device is None
        },
{
    let image = match file_type {
        FileType::Image => true,
        FileType::Video => false,
    };
    let device = if image {
        match &meta.device {
            Some(d) => Some(d.clone()),
            None => None,
        }
    } else {
        None
    };
    let tags: Vec<crate::models::Tag> = Vec::new();
    let r = MediaFile {
        id: None,
        file_path: path,
        file_type,
        file_size,
        width: if image { meta.width } else { None },
        height: if image { meta.height } else { None },
        duration: if image { meta.duration } else { None },
        created_at,
        modified_at,
        taken_at: if image { meta.taken_at } else { None },
        device,
        gps_lat: None,
        gps_lon: None,
        checksum,
        thumbnail_path: None,
        is_deleted: false,
        tags: Some(tags),
    };
    assert(r@.tags == Some(Seq::<crate::models::TagView>::empty()));
    r
}

// ---------------------------------------------------------------- scan totals

/// The totals of a scan after one more entry.
pub open spec fn spec_tally_step(s: ScanStats, o: FileOutcome) -> ScanStats {
    match o {
        FileOutcome::Media(m) => ScanStats {
            total_files: (s.total_files + 1) as u64,
            images: if m.file_type == FileType::Image { (s.images + 1) as u64 } else { s.images },
            videos: if m.file_type == FileType::Video { (s.videos + 1) as u64 } else { s.videos },
            total_size: s.total_size.wrapping_add(m.file_size as u64),
            ..s
        },
        FileOutcome::Skipped => ScanStats { skipped: (s.skipped + 1) as u64, ..s },
        FileOutcome::Failed => ScanStats { errors: (s.errors + 1) as u64, ..s },
    }
}

pub open spec fn zero_stats() -> ScanStats {
    ScanStats { total_files: 0, images: 0, videos: 0, skipped: 0, errors: 0, total_size: 0 }
}

/// The totals of a scan over its entries, in order: media files counted by
/// type, their sizes summed (wrapping around at 2^64), files that are not
/// media counted as skipped, failures as errors.
pub open spec fn spec_tally(os: Seq<FileOutcome>) -> ScanStats
    decreases os.len(),
{
    if os.len() == 0 {
        zero_stats()
    } else {
        spec_tally_step(spec_tally(os.drop_last()), os.last())
    }
}

/// The media files of a scan's entries, in order.
pub open spec fn spec_scanned(os: Seq<FileOutcome>) -> Seq<MediaFileView>
    decreases os.len(),
{
    if os.len() == 0 {
        Seq::empty()
    } else {
        match os.last() {
            FileOutcome::Media(m) => spec_scanned(os.drop_last()).push(m@),
            _ => spec_scanned(os.drop_last()),
        }
    }
}

/// The media files and totals of a scan. Every entry is counted once: as a
/// media file (an image or a video), as skipped or as an error; the media
/// files listed are exactly those counted.
pub fn tally(outcomes: Vec<FileOutcome>) -> (r: (Vec<MediaFile>, ScanStats))
    ensures
        r.1 == spec_tally(outcomes@),
        r.0@.map_values(|m: MediaFile| m@) == spec_scanned(outcomes@),
        r.1.total_files + r.1.skipped + r.1.errors == outcomes@.len(),
        r.1.images + r.1.videos == r.1.total_files,
        r.0@.len() == r.1.total_files,
{
    let ghost os = outcomes@;
    let mut media: Vec<MediaFile> = Vec::new();
    let mut stats = ScanStats { total_files: 0, images: 0, videos: 0, skipped: 0, errors: 0, total_size: 0 };
    let mut src = outcomes;
    let n = src.len();
    let mut rest: Vec<FileOutcome> = Vec::new();
    while src.len() > 0
        invariant
            n == os.len(),
            src@.len() + rest@.len() == n,
            src@ == os.take(src@.len() as int),
            forall|j: int| 0 <= j < rest@.len() ==> #[trigger] rest@[j] == os[n - 1 - j],
        decreases src.len(),
    {
        let o = src.pop().unwrap();
        rest.push(o);
    }
    let mut i: usize = 0;
    assert(os.take(0) =~= Seq::<FileOutcome>::empty());
    assert(media@.map_values(|m: MediaFile| m@) =~= Seq::<MediaFileView>::empty());
    while i < n
        invariant
            n == os.len(),
            i <= n,
            rest@.len() == n - i,
            forall|j: int| 0 <= j < n - i ==> #[trigger] rest@[j] == os[n - 1 - j],
            stats == spec_tally(os.take(i as int)),
            media@.map_values(|m: MediaFile| m@) == spec_scanned(os.take(i as int)),
            stats.total_files + stats.skipped + stats.errors == i,
            stats.images + stats.videos == stats.total_files,
            media@.len() == stats.total_files,
        decreases n - i,
    {
        let o = rest.pop().unwrap();
        proof {
            assert(o == os[i as int]);
            assert(os.take(i + 1).drop_last() =~= os.take(i as int));
            assert(os.take(i + 1).last() == os[i as int]);
        }
        match o {
            FileOutcome::Media(m) => {
                stats.total_files = stats.total_files + 1;
                stats.total_size = stats.total_size.wrapping_add(m.file_size as u64);
                match m.file_type {
                    FileType::Image => stats.images = stats.images + 1,
                    FileType::Video => stats.videos = stats.videos + 1,
                }
                let ghost prev = media@.map_values(|x: MediaFile| x@);
                let ghost mv = m@;
                media.push(m);
                assert(media@.map_values(|x: MediaFile| x@) =~= prev.push(mv));
            },
            FileOutcome::Skipped => stats.skipped = stats.skipped + 1,
            FileOutcome::Failed => stats.errors = stats.errors + 1,
        }
        i = i + 1;
    }
    assert(os.take(n as int) =~= os);
    (media, stats)
}

/// Image formats a thumbnail is written in.
#[derive(Debug, Clone, Copy, PartialEq, Eq, Structural)]
pub enum ThumbnailFormat {
    Jpeg,
    Png,
    WebP,
}

/// The format of a thumbnail from its file's extension (exact case):
/// `jpg`/`jpeg` JPEG, `png` PNG, `webp` WebP, anything else JPEG.
pub open spec fn spec_thumbnail_format(ext: Option<Seq<char>>) -> ThumbnailFormat {
    match ext {
        Some(e) => if e == "png"@ {
            ThumbnailFormat::Png
        } else if e == "webp"@ {
            ThumbnailFormat::WebP
        } else {
            ThumbnailFormat::Jpeg
        },
        None => ThumbnailFormat::Jpeg,
    }
}

impl FileScanner {
    /// The format to write a thumbnail in, when thumbnails are configured;
    /// nothing (no thumbnail is written) otherwise.
    pub fn thumbnail_format(&self, output_ext: Option<&str>) -> (r: Option<ThumbnailFormat>)
        ensures
            !self.spec_config().generate_thumbnail ==> r is None,
            self.spec_config().generate_thumbnail ==> r == Some(spec_thumbnail_format(opt_str(output_ext))),
    {
        if !self.config.generate_thumbnail {
            return None;
        }
        proof {
            reveal_strlit("jpg");
            reveal_strlit("jpeg");
            reveal_strlit("png");
            reveal_strlit("webp");
            assert("jpg"@[0] != "png"@[0] && "jpg"@[0] != "webp"@[0]);
            assert("jpeg"@[0] != "png"@[0] && "jpeg"@[0] != "webp"@[0]);
        }
        let f = match output_ext {
            Some(e) => if str_eq(e, "jpg") || str_eq(e, "jpeg") {
                ThumbnailFormat::Jpeg
            } else if str_eq(e, "png") {
                ThumbnailFormat::Png
            } else if str_eq(e, "webp") {
                ThumbnailFormat::WebP
            } else {
                ThumbnailFormat::Jpeg
            },
            None => ThumbnailFormat::Jpeg,
        };
        Some(f)
    }
}

/// Why a thumbnail could not be made, with the image library's message: the
/// image did not decode, or the thumbnail did not encode.
#[derive(Debug, Clone)]
pub enum ThumbnailFailure {
    Decode(String),
    Encode(String),
}

/// The mathematical form of a thumbnail failure.
pub enum ThumbnailFailureView {
    Decode(Seq<char>),
    Encode(Seq<char>),
}

impl View for ThumbnailFailure {
    type V = ThumbnailFailureView;

    open spec fn view(&self) -> ThumbnailFailureView {
        match self {
            ThumbnailFailure::Decode(m) => ThumbnailFailureView::Decode(m@),
            ThumbnailFailure::Encode(m) => ThumbnailFailureView::Encode(m@),
        }
    }
}

/// The mathematical form of the outcome of making a thumbnail.
pub open spec fn thumbnail_outcome(r: Result<Vec<u8>, ThumbnailFailure>) -> Result<Seq<u8>, ThumbnailFailureView> {
    match r {
        Ok(b) => Ok(b@),
        Err(f) => Err(f@),
    }
}

/// The extensions thumbnails are written under.
pub open spec fn thumbnail_extension(e: Seq<char>) -> bool {
    e == "jpg"@ || e == "png"@ || e == "webp"@
}

/// The extension a thumbnail format is written under.
pub open spec fn spec_format_extension(f: ThumbnailFormat) -> Seq<char> {
    match f {
        ThumbnailFormat::Jpeg => "jpg"@,
        ThumbnailFormat::Png => "png"@,
        ThumbnailFormat::WebP => "webp"@,
    }
}

/// The extension a thumbnail format is written under.
pub fn format_extension(f: ThumbnailFormat) -> (r: &'static str)
    ensures
        r@ == spec_format_extension(f),
        thumbnail_extension(r@),
{
    match f {
        ThumbnailFormat::Jpeg => "jpg",
        ThumbnailFormat::Png => "png",
        ThumbnailFormat::WebP => "webp",
    }
}

/// An image's bytes, read in the format its file extension (without dot)
/// names, resized to exactly `size` by `size` pixels with the Lanczos filter
/// (`DynamicImage::resize_exact`) and encoded in the format `out_ext` names,
/// as the `image` crate computes it; or why that failed.
pub uninterp spec fn spec_resized_exact(image: Seq<u8>, ext: Seq<char>, size: u32, out_ext: Seq<char>) -> Result<Seq<u8>, ThumbnailFailureView>;

/// Calls `ImageReader::with_format(..).decode()` on the bytes in the
/// format `ImageFormat::from_extension` gives the extension (with no
/// format, `decode` fails), then `resize_exact` with `FilterType::Lanczos3`,
/// then `write_to` in the format of `out_ext`. Claims only that the outcome
/// is the named function of the arguments.
#[verifier::external_body]
fn resize_exact_encode(image: &[u8], ext: &str, size: u32, out_ext: &str) -> (r: Result<Vec<u8>, ThumbnailFailure>)
    requires
        thumbnail_extension(out_ext@),
    ensures
        thumbnail_outcome(r) == spec_resized_exact(image@, ext@, size, out_ext@),
{
    let reader = match ImageFormat::from_extension(ext) {
        Some(f) => ImageReader::with_format(Cursor::new(image), f),
        None => ImageReader::new(Cursor::new(image)),
    };
    let img = reader.decode().map_err(|e| ThumbnailFailure::Decode(e.to_string()))?;
    let out = img.resize_exact(size, size, image::imageops::FilterType::Lanczos3);
    let format = ImageFormat::from_extension(out_ext).ok_or_else(|| ThumbnailFailure::Encode(String::new()))?;
    let mut bytes = Cursor::new(Vec::new());
    out.write_to(&mut bytes, format).map_err(|e| ThumbnailFailure::Encode(e.to_string()))?;
    Ok(bytes.into_inner())
}

/// An image's bytes, read in the format its file extension (without dot)
/// names, shrunk to fit in `size` by `size` pixels keeping its proportions
/// (`image::imageops::thumbnail`) and encoded in the format `out_ext` names,
/// as the `image` crate computes it; or why that failed.
pub uninterp spec fn spec_fitted_thumbnail(image: Seq<u8>, ext: Seq<char>, size: u32, out_ext: Seq<char>) -> Result<Seq<u8>, ThumbnailFailureView>;

/// Calls `ImageReader::with_format(..).decode()` on the bytes in the
/// format `ImageFormat::from_extension` gives the extension (with no
/// format, `decode` fails), then `image::imageops::thumbnail`, then
/// `write_to` in the format of `out_ext`. Claims only that the outcome is the
/// named function of the arguments.
#[verifier::external_body]
pub(crate) fn thumbnail_encode(image: &[u8], ext: &str, size: u32, out_ext: &str) -> (r: Result<Vec<u8>, ThumbnailFailure>)
    requires
        thumbnail_extension(out_ext@),
    ensures
        thumbnail_outcome(r) == spec_fitted_thumbnail(image@, ext@, size, out_ext@),
{
    let reader = match ImageFormat::from_extension(ext) {
        Some(f) => ImageReader::with_format(Cursor::new(image), f),
        None => ImageReader::new(Cursor::new(image)),
    };
    let img = reader.decode().map_err(|e| ThumbnailFailure::Decode(e.to_string()))?;
    let out = image::imageops::thumbnail(&img, size, size);
    let format = ImageFormat::from_extension(out_ext).ok_or_else(|| ThumbnailFailure::Encode(String::new()))?;
    let mut bytes = Cursor::new(Vec::new());
    out.write_to(&mut bytes, format).map_err(|e| ThumbnailFailure::Encode(e.to_string()))?;
    Ok(bytes.into_inner())
}

/// A message: a fixed prefix, then the library's words.
pub fn prefixed(prefix: &str, message: &str) -> (r: String)
    ensures
        r@ == prefix@ + message@,
{
    let mut r = prefix.to_owned();
    r.append(message);
    r
}

impl FileScanner {
    /// The thumbnail of an image, from its bytes and its file's extension
    /// (without dot): nothing when thumbnails are not configured; otherwise
    /// the image resized to exactly the configured size and encoded in the
    /// format the output file's extension chooses, or the failure in words.
    pub fn thumbnail_bytes(&self, image: &[u8], ext: &str, output_ext: Option<&str>) -> (r: Result<Option<Vec<u8>>, String>)
        ensures
            !self.spec_config().generate_thumbnail ==> r == Ok::<Option<Vec<u8>>, String>(None),
            self.spec_config().generate_thumbnail ==> (match spec_resized_exact(
                image@,
                ext@,
                self.spec_config().thumbnail_size,
                spec_format_extension(spec_thumbnail_format(opt_str(output_ext))),
            ) {
                Ok(b) => r matches Ok(Some(v)) && v@ == b,
                Err(ThumbnailFailureView::Decode(m)) => r matches Err(t) && t@ == "Failed to decode image: "@ + m,
                Err(ThumbnailFailureView::Encode(m)) => r matches Err(t) && t@ == "Failed to save thumbnail: "@ + m,
            }),
    {
        let format = match self.thumbnail_format(output_ext) {
            None => return Ok(None),
            Some(f) => f,
        };
        match resize_exact_encode(image, ext, self.config.thumbnail_size, format_extension(format)) {
            Ok(b) => Ok(Some(b)),
            Err(ThumbnailFailure::Decode(m)) => Err(prefixed("Failed to decode image: ", m.as_str())),
            Err(ThumbnailFailure::Encode(m)) => Err(prefixed("Failed to save thumbnail: ", m.as_str())),
        }
    }
}

/// The message reporting a scan.
pub open spec fn scan_message(total_files: u64) -> Seq<char> {
    "Successfully scanned "@ + spec_decimal_nat(total_files as nat) + " files"@
}

/// The number of outcomes that succeeded.
pub open spec fn spec_recorded(results: Seq<bool>) -> nat
    decreases results.len(),
{
    if results.len() == 0 {
        0
    } else {
        spec_recorded(results.drop_last()) + if results.last() { 1nat } else { 0nat }
    }
}

/// The number of outcomes that succeeded.
pub fn recorded_count(results: &Vec<bool>) -> (r: u64)
    requires
        results.len() <= u64::MAX,
    ensures
        r == spec_recorded(results@),
        r <= results.len(),
{
    let mut n: u64 = 0;
    let mut i: usize = 0;
    assert(results@.take(0) =~= Seq::<bool>::empty());
    while i < results.len()
        invariant
            i <= results.len(),
            results.len() <= u64::MAX,
            n == spec_recorded(results@.take(i as int)),
            n <= i,
        decreases results.len() - i,
    {
        assert(results@.take(i + 1).drop_last() =~= results@.take(i as int));
        if results[i] {
            n = n + 1;
        }
        i = i + 1;
    }
    assert(results@.take(results.len() as int) =~= results@);
    n
}

/// Records scanned media files in the catalogue, one by one in order; a file
/// that cannot be recorded is passed over. Reports the scan's totals with the
/// number of files recorded, counted by `recorded_count` over the outcomes.
pub fn import_scanned(conn: &rusqlite::Connection, media_files: &Vec<MediaFile>, stats: &ScanStats) -> (r: ScanResult)
    ensures
        r.message@ == scan_message(stats.total_files),
        r.stats.total_files == stats.total_files,
        r.stats.images == stats.images,
        r.stats.videos == stats.videos,
        r.stats.skipped == stats.skipped,
        r.stats.errors == stats.errors,
        r.stats.total_size == stats.total_size,
        r.stats.inserted <= media_files.len(),
{
    let mut results: Vec<bool> = Vec::new();
    let mut i: usize = 0;
    while i < media_files.len()
        invariant
            i <= media_files.len(),
            results.len() == i,
        decreases media_files.len() - i,
    {
        let ok = match MediaRepository::insert(conn, &media_files[i]) {
            Ok(_) => true,
            Err(_) => false,
        };
        results.push(ok);
        i = i + 1;
    }
    let inserted = recorded_count(&results);
    let mut message = "Successfully scanned ".to_owned();
    let count = decimal_u64(stats.total_files);
    message.append(count.as_str());
    message.append(" files");
    ScanResult {
        message,
        stats: ImportStats {
            total_files: stats.total_files,
            images: stats.images,
            videos: stats.videos,
            skipped: stats.skipped,
            errors: stats.errors,
            total_size: stats.total_size,
            inserted,
        },
    }
}

pub open spec fn opt_str(o: Option<&str>) -> Option<Seq<char>> {
    match o {
        Some(s) => Some(s@),
        None => None,
    }
}

} // verus!
