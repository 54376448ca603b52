use media_organizer::connection::Database;
use media_organizer::schema::{init_db, get_schema_version, needs_migration, SCHEMA_VERSION, version_from_query, version_needs_migration};
use media_organizer::models::{FileType, MediaFile, Tag, Album, SearchFilters, Pagination};
use media_organizer::repository::{
    MediaRepository, TagRepository, MediaTagRepository, AlbumRepository, AlbumMediaRepository,
    LeafDeletion, get_stats,
};
use media_organizer::sqlite::{DbError, SqlValue};
use media_organizer::tag_tree::{TagDeletion, TagDeletionStep};

fn fresh() -> Database {
    let db = Database::open_in_memory().unwrap();
    db.init().unwrap();
    db
}

fn sample(path: &str, t: FileType, size: i64, taken: Option<i64>) -> MediaFile {
    MediaFile {
        id: None,
        file_path: path.to_string(),
        file_type: t,
        file_size: size,
        width: Some(640),
        height: None,
        duration: Some(12),
        created_at: 1000,
        modified_at: 2000,
        taken_at: taken,
        device: Some("Camera".to_string()),
        gps_lat: Some("48.8566".to_string()),
        gps_lon: None,
        checksum: Some("abc".to_string()),
        thumbnail_path: None,
        is_deleted: false,
        tags: Some(vec![]),
    }
}

fn tag(name: &str, parent: Option<i64>) -> Tag {
    Tag { id: None, name: name.to_string(), parent_id: parent, color: None, created_at: 0, media_count: None }
}

#[test]
fn test_open_in_memory() {
    let db = Database::open_in_memory().unwrap();
    let result = db.init();
    assert!(result.is_ok());
}

#[test]
fn test_stats() {
    let db = Database::open_in_memory().unwrap();
    db.init().unwrap();

    let stats = db.stats().unwrap();
    assert_eq!(stats.total_files, 0);
    assert_eq!(stats.total_tags, 0);
    assert_eq!(stats.total_albums, 0);
}

#[test]
fn test_init_db() {
    let conn = rusqlite::Connection::open_in_memory().unwrap();
    let result = init_db(&conn);
    assert!(result.is_ok());

    let version = get_schema_version(&conn).unwrap();
    assert_eq!(version, SCHEMA_VERSION);
}

#[test]
fn schema_version_without_table_is_zero() {
    let conn = rusqlite::Connection::open_in_memory().unwrap();
    assert_eq!(get_schema_version(&conn).unwrap(), 0);
    assert!(needs_migration(&conn).unwrap());
    init_db(&conn).unwrap();
    assert!(!needs_migration(&conn).unwrap());
    assert!(version_needs_migration(0));
    assert!(!version_needs_migration(1));
    assert!(!version_needs_migration(2));
}

#[test]
fn version_read_from_query_outcomes() {
    assert_eq!(version_from_query(&Err(DbError::QueryReturnedNoRows)), 0);
    assert_eq!(version_from_query(&Ok(vec![])), 0);
    assert_eq!(version_from_query(&Ok(vec![vec![SqlValue::Integer(7)]])), 7);
    assert_eq!(version_from_query(&Ok(vec![vec![SqlValue::Text("7".to_string())]])), 0);
    assert_eq!(version_from_query(&Ok(vec![vec![SqlValue::Integer(1 << 40)]])), 0);
}

#[test]
fn media_read_back_after_insert() {
    let db = fresh();
    let conn = db.get_conn().unwrap();
    let m = sample("/photos/a.jpg", FileType::Image, 1234, Some(500));
    let id = MediaRepository::insert(conn, &m).unwrap();
    let got = MediaRepository::get_by_id(conn, id).unwrap().unwrap();
    assert_eq!(got.id, Some(id));
    assert_eq!(got.file_path, m.file_path);
    assert_eq!(got.file_type, FileType::Image);
    assert_eq!(got.file_size, 1234);
    assert_eq!(got.width, Some(640));
    assert_eq!(got.height, None);
    assert_eq!(got.duration, Some(12));
    assert_eq!(got.created_at, 1000);
    assert_eq!(got.modified_at, 2000);
    assert_eq!(got.taken_at, Some(500));
    assert_eq!(got.device.as_deref(), Some("Camera"));
    assert_eq!(got.gps_lat.as_deref(), Some("48.8566"));
    assert_eq!(got.gps_lon, None);
    assert_eq!(got.checksum.as_deref(), Some("abc"));
    assert!(!got.is_deleted);
    assert!(got.tags.is_none());
    assert!(MediaRepository::get_by_id(conn, id + 100).unwrap().is_none());
    assert!(MediaRepository::exists_by_path(conn, "/photos/a.jpg").unwrap());
    assert!(!MediaRepository::exists_by_path(conn, "/photos/b.jpg").unwrap());
    assert_eq!(MediaRepository::get_by_checksum(conn, "abc").unwrap().unwrap().id, Some(id));
    // the same path cannot be recorded twice
    assert!(matches!(MediaRepository::insert(conn, &m), Err(DbError::Sqlite(_))));
}

#[test]
fn media_update_and_delete() {
    let db = fresh();
    let conn = db.get_conn().unwrap();
    let mut m = sample("/v/a.mp4", FileType::Video, 10, None);
    let id = MediaRepository::insert(conn, &m).unwrap();
    m.id = Some(id);
    m.file_size = 99;
    m.checksum = None;
    assert_eq!(MediaRepository::update(conn, &m).unwrap(), 1);
    let got = MediaRepository::get_by_id(conn, id).unwrap().unwrap();
    assert_eq!(got.file_size, 99);
    assert_eq!(got.checksum, None);
    assert_eq!(got.file_type, FileType::Video);
    assert_eq!(MediaRepository::delete(conn, id).unwrap(), 1);
    assert!(MediaRepository::get_by_id(conn, id).unwrap().unwrap().is_deleted);
    assert_eq!(db.stats().unwrap().total_files, 0);
    assert_eq!(MediaRepository::permanent_delete(conn, id).unwrap(), 1);
    assert!(MediaRepository::get_by_id(conn, id).unwrap().is_none());
    assert_eq!(MediaRepository::permanent_delete(conn, id).unwrap(), 0);
}

#[test]
fn media_listing_filters_and_pages() {
    let db = fresh();
    let conn = db.get_conn().unwrap();
    for i in 0..5 {
        let t = if i % 2 == 0 { FileType::Image } else { FileType::Video };
        MediaRepository::insert(conn, &sample(&format!("/m/{}", i), t, 100 * (i + 1), Some(i))).unwrap();
    }
    let all = MediaRepository::list(conn, &SearchFilters::default(), &Pagination { page: 1, page_size: 2 }).unwrap();
    assert_eq!(all.total, 5);
    assert_eq!(all.total_pages, 3);
    assert_eq!(all.items.len(), 2);
    assert_eq!(all.items[0].taken_at, Some(4));
    let last = MediaRepository::list(conn, &SearchFilters::default(), &Pagination { page: 3, page_size: 2 }).unwrap();
    assert_eq!(last.items.len(), 1);
    assert_eq!(last.items[0].taken_at, Some(0));
    let images = SearchFilters { file_type: Some(FileType::Image), ..SearchFilters::default() };
    assert_eq!(MediaRepository::list(conn, &images, &Pagination::default()).unwrap().total, 3);
    let sized = SearchFilters { size_min: Some(200), size_max: Some(400), ..SearchFilters::default() };
    assert_eq!(MediaRepository::list(conn, &sized, &Pagination::default()).unwrap().total, 3);
    let dated = SearchFilters { date_from: Some(1), date_to: Some(2), ..SearchFilters::default() };
    assert_eq!(MediaRepository::list(conn, &dated, &Pagination::default()).unwrap().total, 2);
    MediaRepository::delete(conn, 1).unwrap();
    assert_eq!(MediaRepository::list(conn, &SearchFilters::default(), &Pagination::default()).unwrap().total, 4);
    let deleted = SearchFilters { is_deleted: Some(true), ..SearchFilters::default() };
    assert_eq!(MediaRepository::list(conn, &deleted, &Pagination::default()).unwrap().total, 1);
    let empty = MediaRepository::list(conn, &SearchFilters { size_min: Some(10_000), ..SearchFilters::default() }, &Pagination::default()).unwrap();
    assert_eq!(empty.total, 0);
    assert_eq!(empty.total_pages, 0);
    assert!(empty.items.is_empty());
}

#[test]
fn tags_crud() {
    let db = fresh();
    let conn = db.get_conn().unwrap();
    let b = TagRepository::insert(conn, &tag("beach", None)).unwrap();
    let s = TagRepository::insert(conn, &tag("sunset", Some(b))).unwrap();
    let got = TagRepository::get_by_id(conn, s).unwrap().unwrap();
    assert_eq!(got.name, "sunset");
    assert_eq!(got.parent_id, Some(b));
    assert!(got.created_at > 0);
    assert_eq!(TagRepository::get_by_name(conn, "beach").unwrap().unwrap().id, Some(b));
    assert!(TagRepository::get_by_name(conn, "nope").unwrap().is_none());
    let names: Vec<String> = TagRepository::list(conn).unwrap().into_iter().map(|t| t.name).collect();
    assert_eq!(names, vec!["beach", "sunset"]);
    assert!(TagRepository::has_children(conn, b).unwrap());
    assert!(!TagRepository::has_children(conn, s).unwrap());
    assert_eq!(TagRepository::update_fields(conn, s, None, None, None).unwrap(), 0);
    assert_eq!(TagRepository::update_fields(conn, s, Some("dusk"), Some(None), Some("#ff0000")).unwrap(), 1);
    let got = TagRepository::get_by_id(conn, s).unwrap().unwrap();
    assert_eq!(got.name, "dusk");
    assert_eq!(got.parent_id, None);
    assert_eq!(got.color.as_deref(), Some("#ff0000"));
    let mut t = got.clone();
    t.name = "evening".to_string();
    assert_eq!(TagRepository::update(conn, &t).unwrap(), 1);
    assert_eq!(TagRepository::get_by_id(conn, s).unwrap().unwrap().name, "evening");
    assert!(matches!(TagRepository::insert(conn, &tag("beach", None)), Err(DbError::Sqlite(_))));
    assert_eq!(TagRepository::delete(conn, s).unwrap(), 1);
    assert!(TagRepository::get_by_id(conn, s).unwrap().is_none());
}

#[test]
fn leaf_deletion_refuses_parents() {
    let db = fresh();
    let conn = db.get_conn().unwrap();
    let p = TagRepository::insert(conn, &tag("p", None)).unwrap();
    let c = TagRepository::insert(conn, &tag("c", Some(p))).unwrap();
    assert_eq!(TagRepository::delete_if_leaf(conn, p).unwrap(), LeafDeletion::HasChildren);
    assert_eq!(TagRepository::delete_if_leaf(conn, c).unwrap(), LeafDeletion::Deleted(1));
    assert_eq!(TagRepository::delete_if_leaf(conn, p).unwrap(), LeafDeletion::Deleted(1));
}

#[test]
fn tree_deletion_removes_children_first() {
    let db = fresh();
    let conn = db.get_conn().unwrap();
    let root = TagRepository::insert(conn, &tag("root", None)).unwrap();
    let a = TagRepository::insert(conn, &tag("a", Some(root))).unwrap();
    let _a1 = TagRepository::insert(conn, &tag("a1", Some(a))).unwrap();
    let _b = TagRepository::insert(conn, &tag("b", Some(root))).unwrap();
    let other = TagRepository::insert(conn, &tag("other", None)).unwrap();
    let (mut machine, mut step) = TagDeletion::start(root);
    let mut order = Vec::new();
    let total = loop {
        step = match step {
            TagDeletionStep::ListChildren(id) => machine.on_children(TagRepository::child_ids(conn, id).unwrap()),
            TagDeletionStep::Delete(id) => {
                order.push(id);
                machine.on_deleted(TagRepository::delete(conn, id).unwrap())
            },
            TagDeletionStep::Done(total) => break total,
        };
    };
    assert_eq!(total, 4);
    assert_eq!(order.last(), Some(&root));
    assert!(order.iter().position(|x| *x == _a1).unwrap() < order.iter().position(|x| *x == a).unwrap());
    let left: Vec<Option<i64>> = TagRepository::list(conn).unwrap().into_iter().map(|t| t.id).collect();
    assert_eq!(left, vec![Some(other)]);
}

#[test]
fn media_tag_links() {
    let db = fresh();
    let conn = db.get_conn().unwrap();
    let m1 = MediaRepository::insert(conn, &sample("/a", FileType::Image, 1, Some(1))).unwrap();
    let m2 = MediaRepository::insert(conn, &sample("/b", FileType::Image, 1, Some(2))).unwrap();
    let t1 = TagRepository::insert(conn, &tag("t1", None)).unwrap();
    let t2 = TagRepository::insert(conn, &tag("t2", None)).unwrap();
    MediaTagRepository::add(conn, m1, t1).unwrap();
    MediaTagRepository::add(conn, m1, t1).unwrap();
    assert_eq!(MediaTagRepository::batch_add(conn, m2, &[t1, t2, t2]).unwrap(), 2);
    assert_eq!(MediaTagRepository::batch_add(conn, m2, &[]).unwrap(), 0);
    assert_eq!(MediaTagRepository::get_tags_for_media(conn, m2).unwrap().len(), 2);
    let page = MediaTagRepository::get_media_for_tag(conn, t1, &Pagination { page: 1, page_size: 1 }).unwrap();
    assert_eq!(page.total, 2);
    assert_eq!(page.total_pages, 2);
    assert_eq!(page.items.len(), 1);
    assert_eq!(page.items[0].id, Some(m2));
    let usage = TagRepository::get_usage(conn).unwrap();
    assert_eq!(usage[0].name, "t1");
    assert_eq!(usage[0].usage_count, 2);
    assert_eq!(usage[1].usage_count, 1);
    assert_eq!(MediaTagRepository::remove(conn, m2, t2).unwrap(), 1);
    assert_eq!(MediaTagRepository::remove(conn, m2, t2).unwrap(), 0);
    MediaTagRepository::add(conn, m2, t2).unwrap();
    assert_eq!(TagRepository::merge_tags(conn, t2, t1).unwrap(), 0);
    assert_eq!(MediaTagRepository::get_tags_for_media(conn, m2).unwrap().len(), 1);
    let t3 = TagRepository::insert(conn, &tag("t3", None)).unwrap();
    assert_eq!(TagRepository::merge_tags(conn, t1, t3).unwrap(), 2);
    assert_eq!(MediaTagRepository::get_tags_for_media(conn, m1).unwrap()[0].id, Some(t3));
}

#[test]
fn albums_and_their_media() {
    let db = fresh();
    let conn = db.get_conn().unwrap();
    let m1 = MediaRepository::insert(conn, &sample("/a", FileType::Image, 1, None)).unwrap();
    let m2 = MediaRepository::insert(conn, &sample("/b", FileType::Video, 2, None)).unwrap();
    let album = Album { id: None, name: "Trip".to_string(), description: Some("Summer".to_string()), cover_media_id: Some(m1), created_at: 0, media_count: None };
    let a = AlbumRepository::insert(conn, &album).unwrap();
    AlbumMediaRepository::add(conn, a, m2, 0).unwrap();
    AlbumMediaRepository::add(conn, a, m1, 1).unwrap();
    let items = AlbumMediaRepository::get_media_for_album(conn, a).unwrap();
    assert_eq!(items.iter().map(|m| m.id).collect::<Vec<_>>(), vec![Some(m2), Some(m1)]);
    AlbumMediaRepository::add(conn, a, m2, 5).unwrap();
    let items = AlbumMediaRepository::get_media_for_album(conn, a).unwrap();
    assert_eq!(items.iter().map(|m| m.id).collect::<Vec<_>>(), vec![Some(m1), Some(m2)]);
    let listed = AlbumRepository::list(conn).unwrap();
    assert_eq!(listed.len(), 1);
    assert_eq!(listed[0].media_count, Some(2));
    let got = AlbumRepository::get_by_id(conn, a).unwrap().unwrap();
    assert_eq!(got.description.as_deref(), Some("Summer"));
    assert_eq!(got.media_count, None);
    let mut changed = got.clone();
    changed.name = "Holiday".to_string();
    assert_eq!(AlbumRepository::update(conn, &changed).unwrap(), 1);
    assert_eq!(AlbumRepository::get_by_id(conn, a).unwrap().unwrap().name, "Holiday");
    assert_eq!(AlbumMediaRepository::remove(conn, a, m1).unwrap(), 1);
    assert_eq!(AlbumMediaRepository::get_media_for_album(conn, a).unwrap().len(), 1);
    assert_eq!(AlbumRepository::delete(conn, a).unwrap(), 1);
    assert!(AlbumRepository::get_by_id(conn, a).unwrap().is_none());
}

#[test]
fn catalogue_statistics() {
    let db = fresh();
    let conn = db.get_conn().unwrap();
    MediaRepository::insert(conn, &sample("/a", FileType::Image, 10, None)).unwrap();
    MediaRepository::insert(conn, &sample("/b", FileType::Image, 20, None)).unwrap();
    let v = MediaRepository::insert(conn, &sample("/c", FileType::Video, 40, None)).unwrap();
    MediaRepository::insert(conn, &sample("/d", FileType::Video, 80, None)).unwrap();
    MediaRepository::delete(conn, v).unwrap();
    TagRepository::insert(conn, &tag("x", None)).unwrap();
    let stats = get_stats(conn).unwrap();
    assert_eq!(stats.total_files, 3);
    assert_eq!(stats.total_images, 2);
    assert_eq!(stats.total_videos, 1);
    assert_eq!(stats.total_size, 110);
    assert_eq!(stats.total_tags, 1);
    assert_eq!(stats.total_albums, 0);
    assert_eq!(db.stats().unwrap().total_size, 110);
    assert!(db.vacuum().is_ok());
    assert_eq!(db.path(), Some(String::new()));
    assert!(!db.needs_migration().unwrap());
}


#[test]
fn tag_and_album_read_back_after_insert() {
    let db = fresh();
    let conn = db.get_conn().unwrap();
    let t = Tag { id: None, name: "night".to_string(), parent_id: None, color: Some("#000".to_string()), created_at: 0, media_count: Some(9) };
    let id = TagRepository::insert(conn, &t).unwrap();
    let got = TagRepository::get_by_id(conn, id).unwrap().unwrap();
    assert_eq!(got.id, Some(id));
    assert_eq!(got.name, "night");
    assert_eq!(got.parent_id, None);
    assert_eq!(got.color.as_deref(), Some("#000"));
    assert!(got.created_at > 0);
    assert_eq!(got.media_count, None);
    let a = Album { id: None, name: "Empty".to_string(), description: None, cover_media_id: None, created_at: 0, media_count: Some(3) };
    let aid = AlbumRepository::insert(conn, &a).unwrap();
    let got = AlbumRepository::get_by_id(conn, aid).unwrap().unwrap();
    assert_eq!(got.id, Some(aid));
    assert_eq!(got.name, "Empty");
    assert_eq!(got.description, None);
    assert_eq!(got.cover_media_id, None);
    assert!(got.created_at > 0);
    assert_eq!(got.media_count, None);
}

#[test]
fn every_filter_at_once_runs() {
    let db = fresh();
    let conn = db.get_conn().unwrap();
    MediaRepository::insert(conn, &sample("/x", FileType::Video, 35, Some(15))).unwrap();
    MediaRepository::insert(conn, &sample("/y", FileType::Video, 50, Some(15))).unwrap();
    let f = SearchFilters {
        file_type: Some(FileType::Video),
        tag_ids: None,
        album_id: None,
        date_from: Some(10),
        date_to: Some(20),
        size_min: Some(30),
        size_max: Some(40),
        folder: None,
        is_deleted: Some(false),
    };
    let r = MediaRepository::list(conn, &f, &Pagination::default()).unwrap();
    assert_eq!(r.total, 1);
    assert_eq!(r.items[0].file_path, "/x");
}

#[test]
fn folder_album_and_tag_filters() {
    let db = fresh();
    let conn = db.get_conn().unwrap();
    let a = MediaRepository::insert(conn, &sample("/photos/2025/a.jpg", FileType::Image, 1, Some(3))).unwrap();
    let b = MediaRepository::insert(conn, &sample("/photos/2024/b.jpg", FileType::Image, 1, Some(2))).unwrap();
    let _c = MediaRepository::insert(conn, &sample("/videos/c.mp4", FileType::Video, 1, Some(1))).unwrap();
    let beach = TagRepository::insert(conn, &tag("beach", None)).unwrap();
    let sun = TagRepository::insert(conn, &tag("sun", None)).unwrap();
    MediaTagRepository::add(conn, a, beach).unwrap();
    MediaTagRepository::add(conn, a, sun).unwrap();
    MediaTagRepository::add(conn, b, beach).unwrap();
    let album = Album { id: None, name: "x".to_string(), description: None, cover_media_id: None, created_at: 0, media_count: None };
    let al = AlbumRepository::insert(conn, &album).unwrap();
    AlbumMediaRepository::add(conn, al, b, 0).unwrap();
    let paths = |f: SearchFilters| -> Vec<String> {
        MediaRepository::list(conn, &f, &Pagination::default()).unwrap().items.into_iter().map(|m| m.file_path).collect()
    };
    assert_eq!(paths(SearchFilters { folder: Some("/photos/".to_string()), ..SearchFilters::default() }), vec!["/photos/2025/a.jpg", "/photos/2024/b.jpg"]);
    assert_eq!(paths(SearchFilters { folder: Some("/photos/2024".to_string()), ..SearchFilters::default() }), vec!["/photos/2024/b.jpg"]);
    assert_eq!(paths(SearchFilters { tag_ids: Some(vec![beach]), ..SearchFilters::default() }), vec!["/photos/2025/a.jpg", "/photos/2024/b.jpg"]);
    assert_eq!(paths(SearchFilters { tag_ids: Some(vec![beach, sun]), ..SearchFilters::default() }), vec!["/photos/2025/a.jpg"]);
    assert_eq!(paths(SearchFilters { tag_ids: Some(vec![]), ..SearchFilters::default() }).len(), 3);
    assert_eq!(paths(SearchFilters { album_id: Some(al), ..SearchFilters::default() }).len(), 3);
    let counted = MediaRepository::list(conn, &SearchFilters { folder: Some("/videos".to_string()), ..SearchFilters::default() }, &Pagination::default()).unwrap();
    assert_eq!(counted.total, 1);
}

#[test]
fn batch_tagging_is_all_or_nothing() {
    let db = fresh();
    let conn = db.get_conn().unwrap();
    let m = MediaRepository::insert(conn, &sample("/a", FileType::Image, 1, None)).unwrap();
    let t1 = TagRepository::insert(conn, &tag("t1", None)).unwrap();
    let t2 = TagRepository::insert(conn, &tag("t2", None)).unwrap();
    assert_eq!(MediaTagRepository::batch_add(conn, m, &[]).unwrap(), 0);
    assert!(matches!(MediaTagRepository::batch_add(conn, m, &[t1, 999]), Err(DbError::Sqlite(_))));
    assert!(MediaTagRepository::get_tags_for_media(conn, m).unwrap().is_empty());
    assert_eq!(MediaTagRepository::batch_add(conn, m, &[t1, t2, t1]).unwrap(), 2);
    assert_eq!(MediaTagRepository::get_tags_for_media(conn, m).unwrap().len(), 2);
}

#[test]
fn tag_trees_delete_with_children() {
    let db = fresh();
    let conn = db.get_conn().unwrap();
    let root = TagRepository::insert(conn, &tag("root", None)).unwrap();
    let a = TagRepository::insert(conn, &tag("a", Some(root))).unwrap();
    TagRepository::insert(conn, &tag("a1", Some(a))).unwrap();
    TagRepository::insert(conn, &tag("b", Some(root))).unwrap();
    let other = TagRepository::insert(conn, &tag("other", None)).unwrap();
    assert_eq!(TagRepository::delete_with_children(conn, root).unwrap(), 4);
    let left: Vec<Option<i64>> = TagRepository::list(conn).unwrap().into_iter().map(|t| t.id).collect();
    assert_eq!(left, vec![Some(other)]);
    assert_eq!(TagRepository::delete_with_children(conn, 12345).unwrap(), 0);
}

#[test]
fn fresh_catalogue_needs_migration_until_initialised() {
    let db = Database::open_in_memory().unwrap();
    assert!(db.needs_migration().unwrap());
    db.init().unwrap();
    assert!(!db.needs_migration().unwrap());
}

#[test]
fn merging_a_tag_into_itself_keeps_its_links() {
    let db = fresh();
    let conn = db.get_conn().unwrap();
    let m = MediaRepository::insert(conn, &sample("/a", FileType::Image, 1, None)).unwrap();
    let t = TagRepository::insert(conn, &tag("t", None)).unwrap();
    MediaTagRepository::add(conn, m, t).unwrap();
    assert_eq!(TagRepository::merge_tags(conn, t, t).unwrap(), 0);
    assert_eq!(MediaTagRepository::get_tags_for_media(conn, m).unwrap().len(), 1);
}

#[test]
fn leaf_deletion_follows_the_child_count_reply() {
    let db = fresh();
    let conn = db.get_conn().unwrap();
    let t = TagRepository::insert(conn, &tag("t", None)).unwrap();
    let positive = vec![vec![SqlValue::Integer(2)]];
    assert_eq!(TagRepository::finish_leaf_deletion(conn, t, &positive).unwrap(), LeafDeletion::HasChildren);
    assert!(TagRepository::get_by_id(conn, t).unwrap().is_some());
    assert!(matches!(TagRepository::finish_leaf_deletion(conn, t, &vec![]), Err(DbError::QueryReturnedNoRows)));
    let zero = vec![vec![SqlValue::Integer(0)]];
    assert_eq!(TagRepository::finish_leaf_deletion(conn, t, &zero).unwrap(), LeafDeletion::Deleted(1));
    assert!(TagRepository::get_by_id(conn, t).unwrap().is_none());
}

#[test]
fn batch_totals_sum_the_reported_counts() {
    use_batch_total();
}

fn use_batch_total() {
    assert_eq!(media_organizer::repository::batch_total(&vec![]), 0);
    assert_eq!(media_organizer::repository::batch_total(&vec![1, 0, 1]), 2);
    assert_eq!(media_organizer::repository::batch_total(&vec![usize::MAX, 2]), 1);
}
