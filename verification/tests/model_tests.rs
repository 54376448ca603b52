use media_organizer::statements::{stats_queries, stats_from_replies};
use media_organizer::repository::children_from_reply;
use media_organizer::schema::migration_needed;
use media_organizer::file_scanner::recorded_count;
use media_organizer::statements::{album_media_query, media_by_id_query, tag_media_count_query};
use media_organizer::models::{FileType, SearchResult, Pagination, SearchFilters};
use media_organizer::repository::{
    list_filter_query, media_list_queries, tag_update_statement, media_insert_params, media_page,
    media_rows, optional_media, tag_rows, optional_tag, usage_rows, album_rows, optional_album,
};
use media_organizer::sqlite::{SqlValue, DbError};
use media_organizer::decode::{media_from_row, tag_from_row, first_int, album_from_row};
use media_organizer::text::{decimal_u64, decimal_i64, lowercase};

#[test]
fn file_type_from_extension() {
    assert_eq!(FileType::from_extension(".jpg"), Some(FileType::Image));
    assert_eq!(FileType::from_extension(".JPEG"), Some(FileType::Image));
    assert_eq!(FileType::from_extension(".Tiff"), Some(FileType::Image));
    assert_eq!(FileType::from_extension(".mkv"), Some(FileType::Video));
    assert_eq!(FileType::from_extension(".WMV"), Some(FileType::Video));
    assert_eq!(FileType::from_extension("jpg"), None);
    assert_eq!(FileType::from_extension(".m4v"), None);
    assert_eq!(FileType::from_extension(""), None);
}

#[test]
fn file_type_names_round_trip() {
    for t in [FileType::Image, FileType::Video] {
        assert_eq!(FileType::from_str(t.as_str()), Some(t));
    }
    assert_eq!(FileType::Image.as_str(), "image");
    assert_eq!(FileType::Video.as_str(), "video");
    assert_eq!(FileType::from_str("VIDEO"), Some(FileType::Video));
    assert_eq!(FileType::from_str("audio"), None);
}

#[test]
fn search_result_pages() {
    let r = SearchResult::new(vec![1, 2], 5, 1, 2);
    assert_eq!(r.total_pages, 3);
    assert_eq!(r.items, vec![1, 2]);
    assert_eq!(SearchResult::<u8>::new(vec![], 4, 1, 2).total_pages, 2);
    assert_eq!(SearchResult::<u8>::new(vec![], 0, 1, 50).total_pages, 0);
    assert_eq!(SearchResult::<u8>::new(vec![], -3, 1, 50).total_pages, 0);
    assert_eq!(SearchResult::<u8>::new(vec![], 1, 1, 50).total_pages, 1);
    assert_eq!(SearchResult::<u8>::new(vec![], 7, 1, 0).total_pages, usize::MAX);
    assert_eq!(SearchResult::<u8>::new(vec![], 0, 1, 0).total_pages, 0);
}

#[test]
fn pagination_defaults_and_offsets() {
    let p = Pagination::default();
    assert_eq!(p.page, 1);
    assert_eq!(p.page_size, 50);
    assert_eq!(p.offset(), 0);
    assert_eq!(Pagination { page: 3, page_size: 20 }.offset(), 40);
}

const BASE: &str = "SELECT id, file_path, file_type, file_size, width, height, duration, created_at, modified_at, taken_at, device, gps_lat, gps_lon, checksum, thumbnail_path, is_deleted FROM media_files WHERE 1=1";

#[test]
fn listing_query_without_filters() {
    let (sql, params) = list_filter_query(&SearchFilters::default());
    assert_eq!(sql, format!("{} AND is_deleted = 0", BASE));
    assert!(params.is_empty());
}

#[test]
fn listing_query_with_every_filter() {
    let f = SearchFilters {
        file_type: Some(FileType::Video),
        tag_ids: Some(vec![1]),
        album_id: Some(2),
        date_from: Some(10),
        date_to: Some(20),
        size_min: Some(30),
        size_max: Some(40),
        folder: Some("/x".to_string()),
        is_deleted: Some(true),
    };
    let q = media_list_queries(&f, &Pagination { page: 2, page_size: 25 });
    let filter = format!("{} AND file_type = ? AND is_deleted = ? AND taken_at >= ? AND taken_at <= ? AND file_size >= ? AND file_size <= ? AND instr(file_path, ?) = 1 AND id IN (SELECT media_id FROM media_tags WHERE tag_id = ?)", BASE);
    assert_eq!(q.count_sql, format!("SELECT COUNT(*) FROM ({})", filter));
    assert_eq!(q.page_sql, format!("{} ORDER BY taken_at DESC, created_at DESC LIMIT ? OFFSET ?", filter));
    let shown: Vec<String> = q.page_params.iter().map(|v| format!("{:?}", v)).collect();
    assert_eq!(shown, vec!["Text(\"video\")", "Integer(1)", "Integer(10)", "Integer(20)", "Integer(30)", "Integer(40)", "Text(\"/x\")", "Integer(1)", "Integer(25)", "Integer(25)"]);
    assert_eq!(q.count_params.len(), 8);
}

#[test]
fn partial_tag_updates() {
    assert!(tag_update_statement(1, None, None, None).is_none());
    let (sql, params) = tag_update_statement(7, Some("x"), None, Some("red")).unwrap();
    assert_eq!(sql, "UPDATE tags SET name = ?, color = ? WHERE id = ?");
    assert_eq!(format!("{:?}", params), "[Text(\"x\"), Text(\"red\"), Integer(7)]");
    let (sql, params) = tag_update_statement(3, None, Some(None), None).unwrap();
    assert_eq!(sql, "UPDATE tags SET parent_id = ? WHERE id = ?");
    assert_eq!(format!("{:?}", params), "[Null, Integer(3)]");
    let (sql, _) = tag_update_statement(3, Some("a"), Some(Some(4)), Some("b")).unwrap();
    assert_eq!(sql, "UPDATE tags SET name = ?, parent_id = ?, color = ? WHERE id = ?");
}

fn media_row() -> Vec<SqlValue> {
    vec![
        SqlValue::Integer(9),
        SqlValue::Text("/a.jpg".to_string()),
        SqlValue::Text("VIDEO".to_string()),
        SqlValue::Integer(100),
        SqlValue::Integer(1920),
        SqlValue::Null,
        SqlValue::Null,
        SqlValue::Integer(1),
        SqlValue::Integer(2),
        SqlValue::Null,
        SqlValue::Text("cam".to_string()),
        SqlValue::Real("1.5".to_string()),
        SqlValue::Integer(-3),
        SqlValue::Null,
        SqlValue::Null,
        SqlValue::Integer(0),
    ]
}

#[test]
fn media_rows_decode() {
    let m = media_from_row(&media_row()).unwrap();
    assert_eq!(m.id, Some(9));
    assert_eq!(m.file_type, FileType::Video);
    assert_eq!(m.width, Some(1920));
    assert_eq!(m.gps_lat.as_deref(), Some("1.5"));
    assert_eq!(m.gps_lon.as_deref(), Some("-3"));
    assert!(!m.is_deleted);
    let mut unknown = media_row();
    unknown[2] = SqlValue::Text("sound".to_string());
    assert_eq!(media_from_row(&unknown).unwrap().file_type, FileType::Image);
}

#[test]
fn media_rows_report_the_first_bad_column() {
    let mut r = media_row();
    r[3] = SqlValue::Text("big".to_string());
    r[5] = SqlValue::Text("tall".to_string());
    assert!(matches!(media_from_row(&r), Err(DbError::InvalidColumnType(3))));
    let mut r = media_row();
    r[4] = SqlValue::Integer(1 << 40);
    assert!(matches!(media_from_row(&r), Err(DbError::IntegralValueOutOfRange(4, v)) if v == 1 << 40));
    let mut r = media_row();
    r.truncate(15);
    assert!(matches!(media_from_row(&r), Err(DbError::InvalidColumnIndex(15))));
    let mut r = media_row();
    r[1] = SqlValue::Null;
    assert!(matches!(media_from_row(&r), Err(DbError::InvalidColumnType(1))));
}

#[test]
fn small_rows_decode() {
    let t = tag_from_row(&vec![SqlValue::Integer(1), SqlValue::Text("a".to_string()), SqlValue::Null, SqlValue::Text("red".to_string()), SqlValue::Integer(5)]).unwrap();
    assert_eq!(t.id, Some(1));
    assert_eq!(t.color.as_deref(), Some("red"));
    assert_eq!(t.media_count, None);
    assert!(matches!(tag_from_row(&vec![SqlValue::Integer(1)]), Err(DbError::InvalidColumnIndex(1))));
    let a = album_from_row(&vec![SqlValue::Integer(1), SqlValue::Text("a".to_string()), SqlValue::Null, SqlValue::Null, SqlValue::Integer(5), SqlValue::Integer(3)], true).unwrap();
    assert_eq!(a.media_count, Some(3));
    assert!(matches!(first_int(&vec![]), Err(DbError::QueryReturnedNoRows)));
    assert_eq!(first_int(&vec![vec![SqlValue::Integer(4)], vec![SqlValue::Null]]).unwrap(), 4);
}

#[test]
fn insert_parameters_follow_columns() {
    let m = media_organizer::models::MediaFile {
        id: Some(1),
        file_path: "/p".to_string(),
        file_type: FileType::Image,
        file_size: 3,
        width: None,
        height: Some(2),
        duration: None,
        created_at: 4,
        modified_at: 5,
        taken_at: None,
        device: None,
        gps_lat: Some("1.25".to_string()),
        gps_lon: None,
        checksum: None,
        thumbnail_path: Some("/t".to_string()),
        is_deleted: true,
        tags: None,
    };
    assert_eq!(
        format!("{:?}", media_insert_params(&m)),
        "[Text(\"/p\"), Text(\"image\"), Integer(3), Null, Integer(2), Null, Integer(4), Integer(5), Null, Null, Text(\"1.25\"), Null, Null, Text(\"/t\"), Integer(1)]"
    );
}

#[test]
fn decimal_text() {
    assert_eq!(decimal_u64(0), "0");
    assert_eq!(decimal_u64(1234567890), "1234567890");
    assert_eq!(decimal_u64(u64::MAX), "18446744073709551615");
    assert_eq!(decimal_i64(-42), "-42");
    assert_eq!(decimal_i64(i64::MIN), "-9223372036854775808");
    assert_eq!(lowercase("AbC.JPG"), "abc.jpg");
}

fn placeholder_count(sql: &str) -> usize {
    sql.chars().filter(|c| *c == '?').count()
}

#[test]
fn listing_queries_bind_every_placeholder() {
    let filters = [
        SearchFilters::default(),
        SearchFilters { file_type: Some(FileType::Image), size_max: Some(9), ..SearchFilters::default() },
        SearchFilters { is_deleted: Some(false), date_from: Some(1), date_to: Some(2), size_min: Some(3), ..SearchFilters::default() },
        SearchFilters { folder: Some("/p".to_string()), album_id: Some(4), tag_ids: Some(vec![1, 2, 3]), ..SearchFilters::default() },
    ];
    for f in filters.iter() {
        let (sql, params) = list_filter_query(f);
        assert_eq!(placeholder_count(&sql), params.len());
        let q = media_list_queries(f, &Pagination { page: 4, page_size: 10 });
        assert_eq!(placeholder_count(&q.count_sql), q.count_params.len());
        assert_eq!(placeholder_count(&q.page_sql), q.page_params.len());
    }
}

#[test]
fn tag_updates_bind_every_placeholder() {
    for (name, parent, color) in [
        (Some("n"), None, None),
        (None, Some(Some(2)), Some("c")),
        (Some("n"), Some(None), Some("c")),
    ] {
        let (sql, params) = tag_update_statement(5, name, parent, color).unwrap();
        assert_eq!(placeholder_count(&sql), params.len());
    }
}

#[test]
fn readers_of_query_rows() {
    let page = media_page(&vec![media_row(), media_row()], 7, &Pagination { page: 2, page_size: 2 }).unwrap();
    assert_eq!(page.items.len(), 2);
    assert_eq!(page.items[1].file_path, "/a.jpg");
    assert_eq!(page.total, 7);
    assert_eq!(page.page, 2);
    assert_eq!(page.page_size, 2);
    assert_eq!(page.total_pages, 4);
    let mut bad = media_row();
    bad[3] = SqlValue::Null;
    assert!(matches!(media_page(&vec![media_row(), bad.clone()], 2, &Pagination::default()), Err(DbError::InvalidColumnType(3))));
    assert!(matches!(media_rows(&vec![bad]), Err(DbError::InvalidColumnType(3))));
    assert!(optional_media(&vec![]).unwrap().is_none());
    assert_eq!(optional_media(&vec![media_row(), vec![]]).unwrap().unwrap().id, Some(9));

    let tag_row = vec![SqlValue::Integer(2), SqlValue::Text("b".to_string()), SqlValue::Integer(1), SqlValue::Null, SqlValue::Integer(6)];
    let tags = tag_rows(&vec![tag_row.clone(), tag_row.clone()]).unwrap();
    assert_eq!(tags.len(), 2);
    assert_eq!(tags[0].parent_id, Some(1));
    assert_eq!(optional_tag(&vec![tag_row]).unwrap().unwrap().name, "b");
    assert!(optional_tag(&vec![]).unwrap().is_none());

    let usage = usage_rows(&vec![vec![SqlValue::Integer(3), SqlValue::Text("c".to_string()), SqlValue::Null, SqlValue::Text("blue".to_string()), SqlValue::Integer(12)]]).unwrap();
    assert_eq!(usage[0].usage_count, 12);
    assert_eq!(usage[0].color.as_deref(), Some("blue"));

    let counted = vec![SqlValue::Integer(4), SqlValue::Text("d".to_string()), SqlValue::Text("e".to_string()), SqlValue::Integer(9), SqlValue::Integer(8), SqlValue::Integer(2)];
    let albums = album_rows(&vec![counted.clone()]).unwrap();
    assert_eq!(albums[0].media_count, Some(2));
    assert_eq!(albums[0].cover_media_id, Some(9));
    assert!(matches!(album_rows(&vec![counted[..5].to_vec()]), Err(DbError::InvalidColumnIndex(5))));
    let plain = optional_album(&vec![counted[..5].to_vec()]).unwrap().unwrap();
    assert_eq!(plain.description.as_deref(), Some("e"));
    assert_eq!(plain.media_count, None);
    assert!(optional_album(&vec![]).unwrap().is_none());
}

#[test]
fn statistics_and_decisions_from_replies() {
    let one = |n: i64| vec![vec![SqlValue::Integer(n)]];
    let st = stats_from_replies(&vec![one(6), one(2), one(4), one(900), one(3), one(1)]).unwrap();
    assert_eq!((st.total_files, st.total_images, st.total_videos, st.total_size, st.total_tags, st.total_albums), (6, 2, 4, 900, 3, 1));
    assert!(matches!(stats_from_replies(&vec![one(6), vec![], one(4), one(9), one(3), one(1)]), Err(DbError::QueryReturnedNoRows)));
    let q = stats_queries();
    assert_eq!(q[1], "SELECT COUNT(*) FROM media_files WHERE file_type = 'image' AND is_deleted = 0");
    assert_eq!(q[2], "SELECT COUNT(*) FROM media_files WHERE file_type = 'video' AND is_deleted = 0");
    assert_eq!(children_from_reply(&one(2)).unwrap(), true);
    assert_eq!(children_from_reply(&one(0)).unwrap(), false);
    assert!(children_from_reply(&vec![]).is_err());
    assert!(migration_needed(&Ok(vec![])));
    assert!(migration_needed(&Ok(vec![vec![SqlValue::Integer(0)]])));
    assert!(!migration_needed(&Ok(vec![vec![SqlValue::Integer(1)]])));
    assert!(migration_needed(&Err(DbError::QueryReturnedNoRows)));
}

#[test]
fn recorded_outcomes_are_counted() {
    assert_eq!(recorded_count(&vec![]), 0);
    assert_eq!(recorded_count(&vec![true, false, true, true]), 3);
}

#[test]
fn statement_builders() {
    let (sql, params) = album_media_query(7);
    assert!(sql.contains("mf.is_deleted = 0 ORDER BY am.position"));
    assert_eq!(format!("{:?}", params), "[Integer(7)]");
    let (sql, params) = media_by_id_query(3);
    assert!(sql.ends_with("FROM media_files WHERE id = ?1"));
    assert_eq!(format!("{:?}", params), "[Integer(3)]");
    let (sql, _) = tag_media_count_query(1);
    assert!(sql.contains("INNER JOIN media_files"));
}
