use media_organizer::file_scanner::is_hidden_entry;
use media_organizer::file_scanner::image_facts;
use media_organizer::file_scanner::{
    FileScanner, ScannerConfig, IMAGE_EXTENSIONS, VIDEO_EXTENSIONS, FileOutcome, ImageFacts,
    ThumbnailFormat, tally, exif_taken_at, image_metadata, scanned_media, import_scanned, ScanStats,
};
use media_organizer::models::{FileType, MediaFile};
use media_organizer::connection::Database;
use media_organizer::thumbnail_generator::{ThumbnailConfig, ThumbnailGenerator, thumbnail_file_name};
use media_organizer::checksum::{checksum_of, hex_lower};

#[test]
fn test_scanner_creation() {
    let _scanner = FileScanner::new(ScannerConfig::default());
    assert!(true);
}

#[test]
fn test_supported_extensions() {
    assert!(IMAGE_EXTENSIONS.contains(&"jpg"));
    assert!(IMAGE_EXTENSIONS.contains(&"png"));
    assert!(IMAGE_EXTENSIONS.contains(&"heic"));
    assert!(VIDEO_EXTENSIONS.contains(&"mp4"));
    assert!(VIDEO_EXTENSIONS.contains(&"mov"));
}

#[test]
fn test_config_default() {
    let config = ScannerConfig::default();
    assert!(config.recursive);
    assert!(config.extract_metadata);
    assert!(!config.generate_thumbnail);
    assert_eq!(config.thumbnail_size, 256);
}

#[test]
fn classify_extensions_by_case_and_kind() {
    assert_eq!(FileScanner::classify_extension(Some("JPG")), Ok(Some(FileType::Image)));
    assert_eq!(FileScanner::classify_extension(Some("cr2")), Ok(Some(FileType::Image)));
    assert_eq!(FileScanner::classify_extension(Some("M4v")), Ok(Some(FileType::Video)));
    assert_eq!(FileScanner::classify_extension(Some("txt")), Ok(None));
    assert_eq!(FileScanner::classify_extension(Some("")), Ok(None));
    assert_eq!(FileScanner::classify_extension(None), Err("No file extension".to_string()));
}

#[test]
fn plan_follows_configuration() {
    let scanner = FileScanner::new(ScannerConfig { calculate_checksum: true, ..ScannerConfig::default() });
    let plan = scanner.plan_file(Some("png")).unwrap().unwrap();
    assert_eq!(plan.file_type, FileType::Image);
    assert!(plan.read_checksum && plan.read_dimensions && plan.read_exif);
    let plan = scanner.plan_file(Some("mp4")).unwrap().unwrap();
    assert_eq!(plan.file_type, FileType::Video);
    assert!(plan.read_checksum && !plan.read_dimensions && !plan.read_exif);
    let quiet = FileScanner::new(ScannerConfig { extract_metadata: false, ..ScannerConfig::default() });
    let plan = quiet.plan_file(Some("jpeg")).unwrap().unwrap();
    assert!(!plan.read_checksum && plan.read_dimensions && !plan.read_exif);
    assert!(quiet.plan_file(Some("doc")).unwrap().is_none());
    assert!(quiet.plan_file(None).is_err());
}

#[test]
fn exif_date_needs_ascii_prefix() {
    assert_eq!(exif_taken_at("ASCII, 2021:03:04 05:06:07"), Some(1614834367));
    assert_eq!(exif_taken_at("2021-03-04 05:06:07"), None);
    assert_eq!(exif_taken_at("ASCII, not a date"), None);
    assert_eq!(exif_taken_at("ASCII"), None);
}

#[test]
fn image_metadata_from_facts() {
    let facts = ImageFacts {
        dimensions: Some((4000, 3000)),
        exif_date_time: Some("ASCII, 2021:03:04 05:06:07".to_string()),
        exif_model: Some("\"Pixel 5\"".to_string()),
    };
    let meta = image_metadata(&facts);
    assert_eq!(meta.width, Some(4000));
    assert_eq!(meta.height, Some(3000));
    assert_eq!(meta.duration, None);
    assert_eq!(meta.taken_at, Some(1614834367));
    assert_eq!(meta.device.as_deref(), Some("\"Pixel 5\""));
    let none = image_metadata(&ImageFacts { dimensions: None, exif_date_time: None, exif_model: None });
    assert_eq!(none.width, None);
    assert_eq!(none.taken_at, None);
    assert_eq!(none.device, None);
}

fn media(path: &str, t: FileType, size: i64) -> MediaFile {
    let meta = image_metadata(&ImageFacts { dimensions: Some((10, 20)), exif_date_time: None, exif_model: Some("cam".to_string()) });
    scanned_media(path.to_string(), t, size, 100, 200, None, &meta)
}

#[test]
fn scanned_media_record() {
    let img = media("/p/a.jpg", FileType::Image, 5);
    assert_eq!(img.id, None);
    assert_eq!(img.width, Some(10));
    assert_eq!(img.device.as_deref(), Some("cam"));
    assert_eq!(img.tags.as_ref().map(|t| t.len()), Some(0));
    assert!(!img.is_deleted);
    let vid = media("/p/b.mp4", FileType::Video, 7);
    assert_eq!(vid.width, None);
    assert_eq!(vid.device, None);
    assert_eq!(vid.created_at, 100);
    assert_eq!(vid.modified_at, 200);
}

#[test]
fn tally_counts_every_entry_once() {
    let outcomes = vec![
        FileOutcome::Media(media("/a.jpg", FileType::Image, 10)),
        FileOutcome::Skipped,
        FileOutcome::Media(media("/b.mp4", FileType::Video, 32)),
        FileOutcome::Failed,
        FileOutcome::Media(media("/c.png", FileType::Image, 8)),
        FileOutcome::Skipped,
    ];
    let (files, stats) = tally(outcomes);
    assert_eq!(files.len(), 3);
    assert_eq!(files[0].file_path, "/a.jpg");
    assert_eq!(files[1].file_path, "/b.mp4");
    assert_eq!(files[2].file_path, "/c.png");
    assert_eq!(stats.total_files, 3);
    assert_eq!(stats.images, 2);
    assert_eq!(stats.videos, 1);
    assert_eq!(stats.skipped, 2);
    assert_eq!(stats.errors, 1);
    assert_eq!(stats.total_size, 50);
    let (none, zero) = tally(Vec::new());
    assert!(none.is_empty());
    assert_eq!(zero.total_files + zero.skipped + zero.errors, 0);
}

#[test]
fn tally_size_wraps_around() {
    let (_, stats) = tally(vec![
        FileOutcome::Media(media("/a.jpg", FileType::Image, i64::MAX)),
        FileOutcome::Media(media("/b.jpg", FileType::Image, i64::MAX)),
        FileOutcome::Media(media("/c.jpg", FileType::Image, 3)),
    ]);
    assert_eq!(stats.total_size, 1);
}

#[test]
fn thumbnail_format_choice() {
    let off = FileScanner::new(ScannerConfig::default());
    assert_eq!(off.thumbnail_format(Some("png")), None);
    let on = FileScanner::new(ScannerConfig { generate_thumbnail: true, ..ScannerConfig::default() });
    assert_eq!(on.thumbnail_format(Some("png")), Some(ThumbnailFormat::Png));
    assert_eq!(on.thumbnail_format(Some("webp")), Some(ThumbnailFormat::WebP));
    assert_eq!(on.thumbnail_format(Some("jpeg")), Some(ThumbnailFormat::Jpeg));
    assert_eq!(on.thumbnail_format(Some("PNG")), Some(ThumbnailFormat::Jpeg));
    assert_eq!(on.thumbnail_format(None), Some(ThumbnailFormat::Jpeg));
}

#[test]
fn checksums_are_lowercase_sha256() {
    assert_eq!(checksum_of(b"abc"), "ba7816bf8f01cfea414140de5dae2223b00361a396177a9cb410ff61f20015ad");
    assert_eq!(checksum_of(b""), "e3b0c44298fc1c149afbf4c8996fb92427ae41e4649b934ca495991b7852b855");
    assert_eq!(hex_lower(&[0x00, 0x0f, 0xab, 0xff]), "000fabff");
}

#[test]
fn thumbnails_named_by_path_hash() {
    assert_eq!(thumbnail_file_name("abc"), "ba7816bf8f01cfea414140de5dae2223b00361a396177a9cb410ff61f20015ad.jpg");
    let cfg = ThumbnailConfig::default();
    assert_eq!(cfg.size, 512);
    assert_eq!(cfg.quality, 85);
    assert_eq!(cfg.cache_dir, "thumbnails");
    let gen = ThumbnailGenerator::new(cfg);
    assert_eq!(gen.thumbnail_target(&media("abc", FileType::Image, 1)).as_deref(), Some("ba7816bf8f01cfea414140de5dae2223b00361a396177a9cb410ff61f20015ad.jpg"));
    assert_eq!(gen.thumbnail_target(&media("abc", FileType::Video, 1)), None);
}

#[test]
fn import_records_scanned_files() {
    let db = Database::open_in_memory().unwrap();
    db.init().unwrap();
    let conn = db.get_conn().unwrap();
    let files = vec![media("/x/a.jpg", FileType::Image, 10), media("/x/a.jpg", FileType::Image, 10), media("/x/b.mp4", FileType::Video, 5)];
    let stats = ScanStats { total_files: 3, images: 2, videos: 1, skipped: 4, errors: 1, total_size: 25 };
    let result = import_scanned(conn, &files, &stats);
    assert_eq!(result.message, "Successfully scanned 3 files");
    assert_eq!(result.stats.inserted, 2);
    assert_eq!(result.stats.skipped, 4);
    assert_eq!(result.stats.errors, 1);
    assert_eq!(result.stats.total_size, 25);
}

#[test]
fn image_facts_from_bytes() {
    let img = image::RgbImage::new(3, 2);
    let mut bytes: Vec<u8> = Vec::new();
    image::DynamicImage::ImageRgb8(img).write_to(&mut std::io::Cursor::new(&mut bytes), image::ImageFormat::Png).unwrap();
    let f = image_facts(&bytes, "png", true);
    assert_eq!(f.dimensions, Some((3, 2)));
    assert_eq!(f.exif_date_time, None);
    assert_eq!(f.exif_model, None);
    assert_eq!(image_facts(&bytes, "PNG", false).dimensions, Some((3, 2)));
    assert_eq!(image_facts(&bytes, "heic", false).dimensions, None);
    assert_eq!(image_facts(&bytes, "", false).dimensions, None);
    assert_eq!(image_facts(b"not an image", "png", true).dimensions, None);
}

#[test]
fn hidden_entries_start_with_a_dot() {
    assert!(is_hidden_entry(".git"));
    assert!(is_hidden_entry("."));
    assert!(!is_hidden_entry("photos"));
    assert!(!is_hidden_entry(""));
    assert!(!is_hidden_entry("a.jpg"));
}

fn png_bytes(w: u32, h: u32) -> Vec<u8> {
    let mut bytes: Vec<u8> = Vec::new();
    image::DynamicImage::ImageRgb8(image::RgbImage::new(w, h))
        .write_to(&mut std::io::Cursor::new(&mut bytes), image::ImageFormat::Png)
        .unwrap();
    bytes
}

#[test]
fn scanner_thumbnails_from_bytes() {
    let png = png_bytes(8, 4);
    let off = FileScanner::new(ScannerConfig::default());
    assert_eq!(off.thumbnail_bytes(&png, "png", Some("png")).unwrap(), None);
    let on = FileScanner::new(ScannerConfig { generate_thumbnail: true, thumbnail_size: 3, ..ScannerConfig::default() });
    let out = on.thumbnail_bytes(&png, "png", Some("png")).unwrap().unwrap();
    let back = image::load_from_memory_with_format(&out, image::ImageFormat::Png).unwrap();
    assert_eq!((back.width(), back.height()), (3, 3));
    let jpeg = on.thumbnail_bytes(&png, "png", Some("unknown")).unwrap().unwrap();
    assert!(image::load_from_memory_with_format(&jpeg, image::ImageFormat::Jpeg).is_ok());
    let err = on.thumbnail_bytes(b"garbage", "png", Some("png")).unwrap_err();
    assert!(err.starts_with("Failed to decode image: "));
}

#[test]
fn generator_thumbnails_from_bytes() {
    let png = png_bytes(8, 4);
    let gen = ThumbnailGenerator::new(ThumbnailConfig { size: 4, quality: 85, cache_dir: "t".to_string() });
    assert_eq!(gen.thumbnail_image(&media("/v.mp4", FileType::Video, 1), &png, "mp4").unwrap(), None);
    assert_eq!(gen.thumbnail_image(&media("/a.png", FileType::Image, 1), b"garbage", "png").unwrap(), None);
    match gen.thumbnail_image(&media("/a.png", FileType::Image, 1), &png, "png") {
        Ok(Some(bytes)) => {
            let back = image::load_from_memory_with_format(&bytes, image::ImageFormat::Jpeg).unwrap();
            assert_eq!((back.width(), back.height()), (4, 2));
        }
        Err(e) => assert!(e.starts_with("Failed to save thumbnail: ")),
        Ok(None) => panic!("an image that decodes gets a thumbnail"),
    }
}
