//! The statements of the catalogue operations, each with its parameters:
//! the SQL text every operation hands to SQLite is fixed here.

use vstd::prelude::*;
use crate::models::{MediaFile, Tag, Album, Pagination, DatabaseStats, valid_page};
use crate::sqlite::{SqlValue, SqlValueView, DbError, values_view, int_value, text_value};
use crate::repository::{
    media_insert_params, spec_media_insert_params, media_update_params, spec_media_update_params,
    tag_insert_params, spec_tag_insert_params, tag_update_params, spec_tag_update_params,
    tag_page_query_params, tag_page_params, album_insert_params, spec_album_insert_params,
    album_update_params, spec_album_update_params,
};
use crate::decode::{rows_view, decode_first, int_decoder, first_int};

verus! {

/// The statement inserting a media file.
pub open spec fn media_insert_sql() -> Seq<char> {
    "INSERT INTO media_files (file_path, file_type, file_size, width, height, duration, created_at, modified_at, taken_at, device, gps_lat, gps_lon, checksum, thumbnail_path, is_deleted) VALUES (?1, ?2, ?3, ?4, ?5, ?6, ?7, ?8, ?9, ?10, ?11, ?12, ?13, ?14, ?15)"@
}

/// The statement inserting a media file, with its parameters.
pub fn media_insert_statement(m: &MediaFile) -> (r: (String, Vec<SqlValue>))
    ensures
        r.0@ == media_insert_sql(),
        values_view(r.1@) == spec_media_insert_params(m@),
{
    let params = media_insert_params(m);
    ("INSERT INTO media_files (file_path, file_type, file_size, width, height, duration, created_at, modified_at, taken_at, device, gps_lat, gps_lon, checksum, thumbnail_path, is_deleted) VALUES (?1, ?2, ?3, ?4, ?5, ?6, ?7, ?8, ?9, ?10, ?11, ?12, ?13, ?14, ?15)".to_owned(), params)
}

/// The statement of the media file with an id.
pub open spec fn media_by_id_sql() -> Seq<char> {
    "SELECT id, file_path, file_type, file_size, width, height, duration, created_at, modified_at, taken_at, device, gps_lat, gps_lon, checksum, thumbnail_path, is_deleted FROM media_files WHERE id = ?1"@
}

/// The statement of the media file with an id, with its parameters.
pub fn media_by_id_query(id: i64) -> (r: (String, Vec<SqlValue>))
    ensures
        r.0@ == media_by_id_sql(),
        values_view(r.1@) == seq![SqlValueView::Integer(id)],
{
    let params: Vec<SqlValue> = vec![int_value(id)];
    assert(values_view(params@) =~= seq![SqlValueView::Integer(id)]);
    ("SELECT id, file_path, file_type, file_size, width, height, duration, created_at, modified_at, taken_at, device, gps_lat, gps_lon, checksum, thumbnail_path, is_deleted FROM media_files WHERE id = ?1".to_owned(), params)
}

/// The statement updating a media file's metadata.
pub open spec fn media_update_sql() -> Seq<char> {
    "UPDATE media_files SET file_size = ?1, width = ?2, height = ?3, duration = ?4, modified_at = ?5, taken_at = ?6, device = ?7, gps_lat = ?8, gps_lon = ?9, checksum = ?10, thumbnail_path = ?11 WHERE id = ?12"@
}

/// The statement updating a media file's metadata, with its parameters.
pub fn media_update_statement(m: &MediaFile) -> (r: (String, Vec<SqlValue>))
    ensures
        r.0@ == media_update_sql(),
        values_view(r.1@) == spec_media_update_params(m@),
{
    let params = media_update_params(m);
    ("UPDATE media_files SET file_size = ?1, width = ?2, height = ?3, duration = ?4, modified_at = ?5, taken_at = ?6, device = ?7, gps_lat = ?8, gps_lon = ?9, checksum = ?10, thumbnail_path = ?11 WHERE id = ?12".to_owned(), params)
}

/// The statement marking a media file deleted at a time.
pub open spec fn media_mark_deleted_sql() -> Seq<char> {
    "UPDATE media_files SET is_deleted = 1, modified_at = ?1 WHERE id = ?2"@
}

/// The statement marking a media file deleted at a time, with its parameters.
pub fn media_mark_deleted_statement(now: i64, id: i64) -> (r: (String, Vec<SqlValue>))
    ensures
        r.0@ == media_mark_deleted_sql(),
        values_view(r.1@) == seq![SqlValueView::Integer(now), SqlValueView::Integer(id)],
{
    let params: Vec<SqlValue> = vec![int_value(now), int_value(id)];
    assert(values_view(params@) =~= seq![SqlValueView::Integer(now), SqlValueView::Integer(id)]);
    ("UPDATE media_files SET is_deleted = 1, modified_at = ?1 WHERE id = ?2".to_owned(), params)
}

/// The statement removing a media file's record.
pub open spec fn media_remove_sql() -> Seq<char> {
    "DELETE FROM media_files WHERE id = ?1"@
}

/// The statement removing a media file's record, with its parameters.
pub fn media_remove_statement(id: i64) -> (r: (String, Vec<SqlValue>))
    ensures
        r.0@ == media_remove_sql(),
        values_view(r.1@) == seq![SqlValueView::Integer(id)],
{
    let params: Vec<SqlValue> = vec![int_value(id)];
    assert(values_view(params@) =~= seq![SqlValueView::Integer(id)]);
    ("DELETE FROM media_files WHERE id = ?1".to_owned(), params)
}

/// The statement of whether a path is recorded.
pub open spec fn media_path_exists_sql() -> Seq<char> {
    "SELECT EXISTS(SELECT 1 FROM media_files WHERE file_path = ?1)"@
}

/// The statement of whether a path is recorded, with its parameters.
pub fn media_path_exists_query(path: &str) -> (r: (String, Vec<SqlValue>))
    ensures
        r.0@ == media_path_exists_sql(),
        values_view(r.1@) == seq![SqlValueView::Text(path@)],
{
    let params: Vec<SqlValue> = vec![text_value(path)];
    assert(values_view(params@) =~= seq![SqlValueView::Text(path@)]);
    ("SELECT EXISTS(SELECT 1 FROM media_files WHERE file_path = ?1)".to_owned(), params)
}

/// The statement of the media files with a checksum.
pub open spec fn media_by_checksum_sql() -> Seq<char> {
    "SELECT id, file_path, file_type, file_size, width, height, duration, created_at, modified_at, taken_at, device, gps_lat, gps_lon, checksum, thumbnail_path, is_deleted FROM media_files WHERE checksum = ?1"@
}

/// The statement of the media files with a checksum, with its parameters.
pub fn media_by_checksum_query(checksum: &str) -> (r: (String, Vec<SqlValue>))
    ensures
        r.0@ == media_by_checksum_sql(),
        values_view(r.1@) == seq![SqlValueView::Text(checksum@)],
{
    let params: Vec<SqlValue> = vec![text_value(checksum)];
    assert(values_view(params@) =~= seq![SqlValueView::Text(checksum@)]);
    ("SELECT id, file_path, file_type, file_size, width, height, duration, created_at, modified_at, taken_at, device, gps_lat, gps_lon, checksum, thumbnail_path, is_deleted FROM media_files WHERE checksum = ?1".to_owned(), params)
}

/// The statement inserting a tag at a time.
pub open spec fn tag_insert_sql() -> Seq<char> {
    "INSERT INTO tags (name, parent_id, color, created_at) VALUES (?1, ?2, ?3, ?4)"@
}

/// The statement inserting a tag at a time, with its parameters.
pub fn tag_insert_statement(tag: &Tag, now: i64) -> (r: (String, Vec<SqlValue>))
    ensures
        r.0@ == tag_insert_sql(),
        values_view(r.1@) == spec_tag_insert_params(tag@, now),
{
    let params = tag_insert_params(tag, now);
    ("INSERT INTO tags (name, parent_id, color, created_at) VALUES (?1, ?2, ?3, ?4)".to_owned(), params)
}

/// The statement of the tag with an id.
pub open spec fn tag_by_id_sql() -> Seq<char> {
    "SELECT id, name, parent_id, color, created_at FROM tags WHERE id = ?1"@
}

/// The statement of the tag with an id, with its parameters.
pub fn tag_by_id_query(id: i64) -> (r: (String, Vec<SqlValue>))
    ensures
        r.0@ == tag_by_id_sql(),
        values_view(r.1@) == seq![SqlValueView::Integer(id)],
{
    let params: Vec<SqlValue> = vec![int_value(id)];
    assert(values_view(params@) =~= seq![SqlValueView::Integer(id)]);
    ("SELECT id, name, parent_id, color, created_at FROM tags WHERE id = ?1".to_owned(), params)
}

/// The statement of all tags by name.
pub open spec fn tags_sql_all() -> Seq<char> {
    "SELECT id, name, parent_id, color, created_at FROM tags ORDER BY name"@
}

/// The statement of all tags by name, with its parameters.
pub fn tags_query() -> (r: (String, Vec<SqlValue>))
    ensures
        r.0@ == tags_sql_all(),
        values_view(r.1@) == Seq::<SqlValueView>::empty(),
{
    let params: Vec<SqlValue> = Vec::new();
    assert(values_view(params@) =~= Seq::<SqlValueView>::empty());
    ("SELECT id, name, parent_id, color, created_at FROM tags ORDER BY name".to_owned(), params)
}

/// The statement of the tags with their usage counts.
pub open spec fn tag_usage_sql() -> Seq<char> {
    "SELECT t.id, t.name, t.parent_id, t.color, COUNT(mt.media_id) as usage_count FROM tags t LEFT JOIN media_tags mt ON t.id = mt.tag_id GROUP BY t.id ORDER BY usage_count DESC, t.name"@
}

/// The statement of the tags with their usage counts, with its parameters.
pub fn tag_usage_query() -> (r: (String, Vec<SqlValue>))
    ensures
        r.0@ == tag_usage_sql(),
        values_view(r.1@) == Seq::<SqlValueView>::empty(),
{
    let params: Vec<SqlValue> = Vec::new();
    assert(values_view(params@) =~= Seq::<SqlValueView>::empty());
    ("SELECT t.id, t.name, t.parent_id, t.color, COUNT(mt.media_id) as usage_count FROM tags t LEFT JOIN media_tags mt ON t.id = mt.tag_id GROUP BY t.id ORDER BY usage_count DESC, t.name".to_owned(), params)
}

/// The statement updating a tag's name, parent and color.
pub open spec fn tag_record_update_sql() -> Seq<char> {
    "UPDATE tags SET name = ?1, parent_id = ?2, color = ?3 WHERE id = ?4"@
}

/// The statement updating a tag's name, parent and color, with its parameters.
pub fn tag_record_update_statement(tag: &Tag) -> (r: (String, Vec<SqlValue>))
    ensures
        r.0@ == tag_record_update_sql(),
        values_view(r.1@) == spec_tag_update_params(tag@),
{
    let params = tag_update_params(tag);
    ("UPDATE tags SET name = ?1, parent_id = ?2, color = ?3 WHERE id = ?4".to_owned(), params)
}

/// The statement deleting a tag.
pub open spec fn tag_delete_sql() -> Seq<char> {
    "DELETE FROM tags WHERE id = ?1"@
}

/// The statement deleting a tag, with its parameters.
pub fn tag_delete_statement(id: i64) -> (r: (String, Vec<SqlValue>))
    ensures
        r.0@ == tag_delete_sql(),
        values_view(r.1@) == seq![SqlValueView::Integer(id)],
{
    let params: Vec<SqlValue> = vec![int_value(id)];
    assert(values_view(params@) =~= seq![SqlValueView::Integer(id)]);
    ("DELETE FROM tags WHERE id = ?1".to_owned(), params)
}

/// The statement of the tag with a name.
pub open spec fn tag_by_name_sql() -> Seq<char> {
    "SELECT id, name, parent_id, color, created_at FROM tags WHERE name = ?1"@
}

/// The statement of the tag with a name, with its parameters.
pub fn tag_by_name_query(name: &str) -> (r: (String, Vec<SqlValue>))
    ensures
        r.0@ == tag_by_name_sql(),
        values_view(r.1@) == seq![SqlValueView::Text(name@)],
{
    let params: Vec<SqlValue> = vec![text_value(name)];
    assert(values_view(params@) =~= seq![SqlValueView::Text(name@)]);
    ("SELECT id, name, parent_id, color, created_at FROM tags WHERE name = ?1".to_owned(), params)
}

/// The statement counting a tag's children.
pub open spec fn tag_child_count_sql() -> Seq<char> {
    "SELECT COUNT(*) FROM tags WHERE parent_id = ?1"@
}

/// The statement counting a tag's children, with its parameters.
pub fn tag_child_count_query(id: i64) -> (r: (String, Vec<SqlValue>))
    ensures
        r.0@ == tag_child_count_sql(),
        values_view(r.1@) == seq![SqlValueView::Integer(id)],
{
    let params: Vec<SqlValue> = vec![int_value(id)];
    assert(values_view(params@) =~= seq![SqlValueView::Integer(id)]);
    ("SELECT COUNT(*) FROM tags WHERE parent_id = ?1".to_owned(), params)
}

/// The statement of a tag's children's ids.
pub open spec fn tag_child_ids_sql() -> Seq<char> {
    "SELECT id FROM tags WHERE parent_id = ?1"@
}

/// The statement of a tag's children's ids, with its parameters.
pub fn tag_child_ids_query(id: i64) -> (r: (String, Vec<SqlValue>))
    ensures
        r.0@ == tag_child_ids_sql(),
        values_view(r.1@) == seq![SqlValueView::Integer(id)],
{
    let params: Vec<SqlValue> = vec![int_value(id)];
    assert(values_view(params@) =~= seq![SqlValueView::Integer(id)]);
    ("SELECT id FROM tags WHERE parent_id = ?1".to_owned(), params)
}

/// The statement copying a tag's links to another tag.
pub open spec fn tag_merge_links_sql() -> Seq<char> {
    "INSERT OR IGNORE INTO media_tags (media_id, tag_id, created_at) SELECT media_id, ?1, MIN(created_at) FROM media_tags WHERE tag_id = ?2 GROUP BY media_id"@
}

/// The statement copying a tag's links to another tag, with its parameters.
pub fn tag_merge_links_statement(target_id: i64, source_id: i64) -> (r: (String, Vec<SqlValue>))
    ensures
        r.0@ == tag_merge_links_sql(),
        values_view(r.1@) == seq![SqlValueView::Integer(target_id), SqlValueView::Integer(source_id)],
{
    let params: Vec<SqlValue> = vec![int_value(target_id), int_value(source_id)];
    assert(values_view(params@) =~= seq![SqlValueView::Integer(target_id), SqlValueView::Integer(source_id)]);
    ("INSERT OR IGNORE INTO media_tags (media_id, tag_id, created_at) SELECT media_id, ?1, MIN(created_at) FROM media_tags WHERE tag_id = ?2 GROUP BY media_id".to_owned(), params)
}

/// The statement dropping a tag's links.
pub open spec fn tag_drop_links_sql() -> Seq<char> {
    "DELETE FROM media_tags WHERE tag_id = ?1"@
}

/// The statement dropping a tag's links, with its parameters.
pub fn tag_drop_links_statement(tag_id: i64) -> (r: (String, Vec<SqlValue>))
    ensures
        r.0@ == tag_drop_links_sql(),
        values_view(r.1@) == seq![SqlValueView::Integer(tag_id)],
{
    let params: Vec<SqlValue> = vec![int_value(tag_id)];
    assert(values_view(params@) =~= seq![SqlValueView::Integer(tag_id)]);
    ("DELETE FROM media_tags WHERE tag_id = ?1".to_owned(), params)
}

/// The statement linking a tag to a media file at a time.
pub open spec fn media_tag_add_sql() -> Seq<char> {
    "INSERT OR IGNORE INTO media_tags (media_id, tag_id, created_at) VALUES (?1, ?2, ?3)"@
}

/// The statement linking a tag to a media file at a time, with its parameters.
pub fn media_tag_add_statement(media_id: i64, tag_id: i64, now: i64) -> (r: (String, Vec<SqlValue>))
    ensures
        r.0@ == media_tag_add_sql(),
        values_view(r.1@) == seq![SqlValueView::Integer(media_id), SqlValueView::Integer(tag_id), SqlValueView::Integer(now)],
{
    let params: Vec<SqlValue> = vec![int_value(media_id), int_value(tag_id), int_value(now)];
    assert(values_view(params@) =~= seq![SqlValueView::Integer(media_id), SqlValueView::Integer(tag_id), SqlValueView::Integer(now)]);
    ("INSERT OR IGNORE INTO media_tags (media_id, tag_id, created_at) VALUES (?1, ?2, ?3)".to_owned(), params)
}

/// The statement unlinking a tag from a media file.
pub open spec fn media_tag_remove_sql() -> Seq<char> {
    "DELETE FROM media_tags WHERE media_id = ?1 AND tag_id = ?2"@
}

/// The statement unlinking a tag from a media file, with its parameters.
pub fn media_tag_remove_statement(media_id: i64, tag_id: i64) -> (r: (String, Vec<SqlValue>))
    ensures
        r.0@ == media_tag_remove_sql(),
        values_view(r.1@) == seq![SqlValueView::Integer(media_id), SqlValueView::Integer(tag_id)],
{
    let params: Vec<SqlValue> = vec![int_value(media_id), int_value(tag_id)];
    assert(values_view(params@) =~= seq![SqlValueView::Integer(media_id), SqlValueView::Integer(tag_id)]);
    ("DELETE FROM media_tags WHERE media_id = ?1 AND tag_id = ?2".to_owned(), params)
}

/// The statement of the tags linked to a media file.
pub open spec fn media_tags_sql() -> Seq<char> {
    "SELECT t.id, t.name, t.parent_id, t.color, t.created_at FROM tags t INNER JOIN media_tags mt ON t.id = mt.tag_id WHERE mt.media_id = ?1"@
}

/// The statement of the tags linked to a media file, with its parameters.
pub fn media_tags_query(media_id: i64) -> (r: (String, Vec<SqlValue>))
    ensures
        r.0@ == media_tags_sql(),
        values_view(r.1@) == seq![SqlValueView::Integer(media_id)],
{
    let params: Vec<SqlValue> = vec![int_value(media_id)];
    assert(values_view(params@) =~= seq![SqlValueView::Integer(media_id)]);
    ("SELECT t.id, t.name, t.parent_id, t.color, t.created_at FROM tags t INNER JOIN media_tags mt ON t.id = mt.tag_id WHERE mt.media_id = ?1".to_owned(), params)
}

/// The statement counting the media files not deleted that carry a tag.
pub open spec fn tag_media_count_sql() -> Seq<char> {
    "SELECT COUNT(*) FROM media_tags mt INNER JOIN media_files mf ON mt.media_id = mf.id WHERE mt.tag_id = ?1 AND mf.is_deleted = 0"@
}

/// The statement counting the media files not deleted that carry a tag, with its parameters.
pub fn tag_media_count_query(tag_id: i64) -> (r: (String, Vec<SqlValue>))
    ensures
        r.0@ == tag_media_count_sql(),
        values_view(r.1@) == seq![SqlValueView::Integer(tag_id)],
{
    let params: Vec<SqlValue> = vec![int_value(tag_id)];
    assert(values_view(params@) =~= seq![SqlValueView::Integer(tag_id)]);
    ("SELECT COUNT(*) FROM media_tags mt INNER JOIN media_files mf ON mt.media_id = mf.id WHERE mt.tag_id = ?1 AND mf.is_deleted = 0".to_owned(), params)
}

/// The statement of one page of the media files not deleted that carry a tag.
pub open spec fn tag_media_page_sql() -> Seq<char> {
    "SELECT mf.id, mf.file_path, mf.file_type, mf.file_size, mf.width, mf.height, mf.duration, mf.created_at, mf.modified_at, mf.taken_at, mf.device, mf.gps_lat, mf.gps_lon, mf.checksum, mf.thumbnail_path, mf.is_deleted FROM media_tags mt INNER JOIN media_files mf ON mt.media_id = mf.id WHERE mt.tag_id = ?1 AND mf.is_deleted = 0 ORDER BY mf.taken_at DESC LIMIT ?2 OFFSET ?3"@
}

/// The statement of one page of the media files not deleted that carry a tag, with its parameters.
pub fn tag_media_page_query(tag_id: i64, pagination: &Pagination) -> (r: (String, Vec<SqlValue>))
    requires
        valid_page(*pagination),
    ensures
        r.0@ == tag_media_page_sql(),
        values_view(r.1@) == tag_page_params(tag_id, *pagination),
{
    let params = tag_page_query_params(tag_id, pagination);
    ("SELECT mf.id, mf.file_path, mf.file_type, mf.file_size, mf.width, mf.height, mf.duration, mf.created_at, mf.modified_at, mf.taken_at, mf.device, mf.gps_lat, mf.gps_lon, mf.checksum, mf.thumbnail_path, mf.is_deleted FROM media_tags mt INNER JOIN media_files mf ON mt.media_id = mf.id WHERE mt.tag_id = ?1 AND mf.is_deleted = 0 ORDER BY mf.taken_at DESC LIMIT ?2 OFFSET ?3".to_owned(), params)
}

/// The statement inserting an album at a time.
pub open spec fn album_insert_sql() -> Seq<char> {
    "INSERT INTO albums (name, description, cover_media_id, created_at) VALUES (?1, ?2, ?3, ?4)"@
}

/// The statement inserting an album at a time, with its parameters.
pub fn album_insert_statement(album: &Album, now: i64) -> (r: (String, Vec<SqlValue>))
    ensures
        r.0@ == album_insert_sql(),
        values_view(r.1@) == spec_album_insert_params(album@, now),
{
    let params = album_insert_params(album, now);
    ("INSERT INTO albums (name, description, cover_media_id, created_at) VALUES (?1, ?2, ?3, ?4)".to_owned(), params)
}

/// The statement of the album with an id.
pub open spec fn album_by_id_sql() -> Seq<char> {
    "SELECT id, name, description, cover_media_id, created_at FROM albums WHERE id = ?1"@
}

/// The statement of the album with an id, with its parameters.
pub fn album_by_id_query(id: i64) -> (r: (String, Vec<SqlValue>))
    ensures
        r.0@ == album_by_id_sql(),
        values_view(r.1@) == seq![SqlValueView::Integer(id)],
{
    let params: Vec<SqlValue> = vec![int_value(id)];
    assert(values_view(params@) =~= seq![SqlValueView::Integer(id)]);
    ("SELECT id, name, description, cover_media_id, created_at FROM albums WHERE id = ?1".to_owned(), params)
}

/// The statement of all albums with their media counts.
pub open spec fn albums_sql() -> Seq<char> {
    "SELECT a.id, a.name, a.description, a.cover_media_id, a.created_at, COUNT(am.media_id) as media_count FROM albums a LEFT JOIN album_media am ON a.id = am.album_id GROUP BY a.id ORDER BY a.created_at DESC"@
}

/// The statement of all albums with their media counts, with its parameters.
pub fn albums_query() -> (r: (String, Vec<SqlValue>))
    ensures
        r.0@ == albums_sql(),
        values_view(r.1@) == Seq::<SqlValueView>::empty(),
{
    let params: Vec<SqlValue> = Vec::new();
    assert(values_view(params@) =~= Seq::<SqlValueView>::empty());
    ("SELECT a.id, a.name, a.description, a.cover_media_id, a.created_at, COUNT(am.media_id) as media_count FROM albums a LEFT JOIN album_media am ON a.id = am.album_id GROUP BY a.id ORDER BY a.created_at DESC".to_owned(), params)
}

/// The statement updating an album.
pub open spec fn album_update_sql() -> Seq<char> {
    "UPDATE albums SET name = ?1, description = ?2, cover_media_id = ?3 WHERE id = ?4"@
}

/// The statement updating an album, with its parameters.
pub fn album_update_statement(album: &Album) -> (r: (String, Vec<SqlValue>))
    ensures
        r.0@ == album_update_sql(),
        values_view(r.1@) == spec_album_update_params(album@),
{
    let params = album_update_params(album);
    ("UPDATE albums SET name = ?1, description = ?2, cover_media_id = ?3 WHERE id = ?4".to_owned(), params)
}

/// The statement deleting an album.
pub open spec fn album_delete_sql() -> Seq<char> {
    "DELETE FROM albums WHERE id = ?1"@
}

/// The statement deleting an album, with its parameters.
pub fn album_delete_statement(id: i64) -> (r: (String, Vec<SqlValue>))
    ensures
        r.0@ == album_delete_sql(),
        values_view(r.1@) == seq![SqlValueView::Integer(id)],
{
    let params: Vec<SqlValue> = vec![int_value(id)];
    assert(values_view(params@) =~= seq![SqlValueView::Integer(id)]);
    ("DELETE FROM albums WHERE id = ?1".to_owned(), params)
}

/// The statement putting a media file in an album at a position.
pub open spec fn album_media_add_sql() -> Seq<char> {
    "INSERT OR REPLACE INTO album_media (album_id, media_id, position) VALUES (?1, ?2, ?3)"@
}

/// The statement putting a media file in an album at a position, with its parameters.
pub fn album_media_add_statement(album_id: i64, media_id: i64, position: i32) -> (r: (String, Vec<SqlValue>))
    ensures
        r.0@ == album_media_add_sql(),
        values_view(r.1@) == seq![SqlValueView::Integer(album_id), SqlValueView::Integer(media_id), SqlValueView::Integer(position as i64)],
{
    let params: Vec<SqlValue> = vec![int_value(album_id), int_value(media_id), int_value(position as i64)];
    assert(values_view(params@) =~= seq![SqlValueView::Integer(album_id), SqlValueView::Integer(media_id), SqlValueView::Integer(position as i64)]);
    ("INSERT OR REPLACE INTO album_media (album_id, media_id, position) VALUES (?1, ?2, ?3)".to_owned(), params)
}

/// The statement taking a media file out of an album.
pub open spec fn album_media_remove_sql() -> Seq<char> {
    "DELETE FROM album_media WHERE album_id = ?1 AND media_id = ?2"@
}

/// The statement taking a media file out of an album, with its parameters.
pub fn album_media_remove_statement(album_id: i64, media_id: i64) -> (r: (String, Vec<SqlValue>))
    ensures
        r.0@ == album_media_remove_sql(),
        values_view(r.1@) == seq![SqlValueView::Integer(album_id), SqlValueView::Integer(media_id)],
{
    let params: Vec<SqlValue> = vec![int_value(album_id), int_value(media_id)];
    assert(values_view(params@) =~= seq![SqlValueView::Integer(album_id), SqlValueView::Integer(media_id)]);
    ("DELETE FROM album_media WHERE album_id = ?1 AND media_id = ?2".to_owned(), params)
}

/// The statement of the media files not deleted in an album, by position.
pub open spec fn album_media_sql() -> Seq<char> {
    "SELECT mf.id, mf.file_path, mf.file_type, mf.file_size, mf.width, mf.height, mf.duration, mf.created_at, mf.modified_at, mf.taken_at, mf.device, mf.gps_lat, mf.gps_lon, mf.checksum, mf.thumbnail_path, mf.is_deleted FROM album_media am INNER JOIN media_files mf ON am.media_id = mf.id WHERE am.album_id = ?1 AND mf.is_deleted = 0 ORDER BY am.position"@
}

/// The statement of the media files not deleted in an album, by position, with its parameters.
pub fn album_media_query(album_id: i64) -> (r: (String, Vec<SqlValue>))
    ensures
        r.0@ == album_media_sql(),
        values_view(r.1@) == seq![SqlValueView::Integer(album_id)],
{
    let params: Vec<SqlValue> = vec![int_value(album_id)];
    assert(values_view(params@) =~= seq![SqlValueView::Integer(album_id)]);
    ("SELECT mf.id, mf.file_path, mf.file_type, mf.file_size, mf.width, mf.height, mf.duration, mf.created_at, mf.modified_at, mf.taken_at, mf.device, mf.gps_lat, mf.gps_lon, mf.checksum, mf.thumbnail_path, mf.is_deleted FROM album_media am INNER JOIN media_files mf ON am.media_id = mf.id WHERE am.album_id = ?1 AND mf.is_deleted = 0 ORDER BY am.position".to_owned(), params)
}

/// The counting queries of the catalogue's statistics, in the order of the
/// record's fields: files, images, videos (none deleted), their total size,
/// tags, albums.
pub open spec fn stats_sqls() -> Seq<Seq<char>> {
    seq![
        "SELECT COUNT(*) FROM media_files WHERE is_deleted = 0"@,
        "SELECT COUNT(*) FROM media_files WHERE file_type = 'image' AND is_deleted = 0"@,
        "SELECT COUNT(*) FROM media_files WHERE file_type = 'video' AND is_deleted = 0"@,
        "SELECT COALESCE(SUM(file_size), 0) FROM media_files WHERE is_deleted = 0"@,
        "SELECT COUNT(*) FROM tags"@,
        "SELECT COUNT(*) FROM albums"@,
    ]
}

/// The counting queries of the catalogue's statistics; they take no parameters.
pub fn stats_queries() -> (r: Vec<String>)
    ensures
        r@.map_values(|q: String| q@) == stats_sqls(),
        r.len() == 6,
{
    let r = vec![
        "SELECT COUNT(*) FROM media_files WHERE is_deleted = 0".to_owned(),
        "SELECT COUNT(*) FROM media_files WHERE file_type = 'image' AND is_deleted = 0".to_owned(),
        "SELECT COUNT(*) FROM media_files WHERE file_type = 'video' AND is_deleted = 0".to_owned(),
        "SELECT COALESCE(SUM(file_size), 0) FROM media_files WHERE is_deleted = 0".to_owned(),
        "SELECT COUNT(*) FROM tags".to_owned(),
        "SELECT COUNT(*) FROM albums".to_owned(),
    ];
    assert(r@.map_values(|q: String| q@) =~= stats_sqls());
    r
}

/// The statistics the replies of the six counting queries give, read in
/// order; the first reply that does not read as a count gives the error.
pub open spec fn spec_stats(replies: Seq<Seq<Seq<SqlValueView>>>) -> Result<DatabaseStats, DbError> {
    let c = |i: int| decode_first(replies[i], int_decoder());
    if c(0) is Err {
        Err(c(0)->Err_0)
    } else if c(1) is Err {
        Err(c(1)->Err_0)
    } else if c(2) is Err {
        Err(c(2)->Err_0)
    } else if c(3) is Err {
        Err(c(3)->Err_0)
    } else if c(4) is Err {
        Err(c(4)->Err_0)
    } else if c(5) is Err {
        Err(c(5)->Err_0)
    } else {
        Ok(
            DatabaseStats {
                total_files: c(0)->Ok_0,
                total_images: c(1)->Ok_0,
                total_videos: c(2)->Ok_0,
                total_size: c(3)->Ok_0,
                total_tags: c(4)->Ok_0,
                total_albums: c(5)->Ok_0,
            },
        )
    }
}

/// The statistics the replies of the six counting queries give.
pub fn stats_from_replies(replies: &Vec<Vec<Vec<SqlValue>>>) -> (r: Result<DatabaseStats, DbError>)
    requires
        replies.len() == 6,
    ensures
        r == spec_stats(replies@.map_values(|rows: Vec<Vec<SqlValue>>| rows_view(rows@))),
{
    let ghost rv = replies@.map_values(|rows: Vec<Vec<SqlValue>>| rows_view(rows@));
    assert(forall|i: int| 0 <= i < 6 ==> #[trigger] rv[i] == rows_view(replies@[i]@));
    let total_files = first_int(&replies[0])?;
    let total_images = first_int(&replies[1])?;
    let total_videos = first_int(&replies[2])?;
    let total_size = first_int(&replies[3])?;
    let total_tags = first_int(&replies[4])?;
    let total_albums = first_int(&replies[5])?;
    Ok(DatabaseStats { total_files, total_images, total_videos, total_size, total_tags, total_albums })
}

/// The statement opening a batch of links: a savepoint, so that the batch
/// nests in any transaction already open.
pub open spec fn batch_begin_sql() -> Seq<char> {
    "SAVEPOINT batch_add"@
}

/// The statement opening a batch of links.
pub fn batch_begin_statement() -> (r: &'static str)
    ensures
        r@ == batch_begin_sql(),
{
    "SAVEPOINT batch_add"
}

/// The statement keeping a batch of links.
pub open spec fn batch_commit_sql() -> Seq<char> {
    "RELEASE batch_add"@
}

/// The statement keeping a batch of links.
pub fn batch_commit_statement() -> (r: &'static str)
    ensures
        r@ == batch_commit_sql(),
{
    "RELEASE batch_add"
}

/// The statements undoing a batch of links and closing it.
pub open spec fn batch_rollback_sql() -> Seq<char> {
    "ROLLBACK TO batch_add; RELEASE batch_add"@
}

/// The statements undoing a batch of links and closing it.
pub fn batch_rollback_statement() -> (r: &'static str)
    ensures
        r@ == batch_rollback_sql(),
{
    "ROLLBACK TO batch_add; RELEASE batch_add"
}

/// Whether a query counts every row of a table.
pub open spec fn counts_rows_of(q: Seq<char>, table: Seq<char>) -> bool {
    q == "SELECT COUNT(*) FROM "@ + table
}

/// Whether a statement inserts rows into a table.
pub open spec fn inserts_into(st: Seq<char>, table: Seq<char>) -> bool {
    let head = "INSERT INTO "@ + table + " ("@;
    st.len() >= head.len() && st.take(head.len() as int) == head
}

/// The statistics count tags and albums where tags and albums are
/// recorded: the fifth query counts every row of the table a tag insertion
/// writes, the sixth every row of the table an album insertion writes; the
/// table linking media to albums is another one.
pub proof fn law_stats_count_recorded_tables()
    ensures
        exists|t: Seq<char>| #[trigger] counts_rows_of(stats_sqls()[4], t) && inserts_into(tag_insert_sql(), t),
        exists|t: Seq<char>| {
            &&& #[trigger] counts_rows_of(stats_sqls()[5], t)
            &&& inserts_into(album_insert_sql(), t)
            &&& !inserts_into(album_media_add_sql(), t)
            &&& !counts_rows_of(stats_sqls()[5], "album_media"@)
        },
{
    reveal_strlit("SELECT COUNT(*) FROM tags");
    reveal_strlit("SELECT COUNT(*) FROM albums");
    reveal_strlit("SELECT COUNT(*) FROM ");
    reveal_strlit("tags");
    reveal_strlit("albums");
    reveal_strlit("album_media");
    reveal_strlit("INSERT INTO ");
    reveal_strlit(" (");
    reveal_strlit("INSERT INTO tags (name, parent_id, color, created_at) VALUES (?1, ?2, ?3, ?4)");
    reveal_strlit("INSERT INTO albums (name, description, cover_media_id, created_at) VALUES (?1, ?2, ?3, ?4)");
    reveal_strlit("INSERT OR REPLACE INTO album_media (album_id, media_id, position) VALUES (?1, ?2, ?3)");
    let tags = "tags"@;
    let albums = "albums"@;
    assert(stats_sqls()[4] =~= "SELECT COUNT(*) FROM "@ + tags);
    assert(tag_insert_sql().take(("INSERT INTO "@ + tags + " ("@).len() as int) =~= "INSERT INTO "@ + tags + " ("@);
    assert(counts_rows_of(stats_sqls()[4], tags) && inserts_into(tag_insert_sql(), tags));
    assert(stats_sqls()[5] =~= "SELECT COUNT(*) FROM "@ + albums);
    assert(album_insert_sql().take(("INSERT INTO "@ + albums + " ("@).len() as int) =~= "INSERT INTO "@ + albums + " ("@);
    let head = "INSERT INTO "@ + albums + " ("@;
    assert(album_media_add_sql()[7] != head[7]);
    assert(!inserts_into(album_media_add_sql(), albums));
    assert(stats_sqls()[5].len() != ("SELECT COUNT(*) FROM "@ + "album_media"@).len());
    assert(counts_rows_of(stats_sqls()[5], albums) && inserts_into(album_insert_sql(), albums) && !inserts_into(album_media_add_sql(), albums) && !counts_rows_of(stats_sqls()[5], "album_media"@));
}

/// The query counting the files not deleted that are stored with a type.
pub open spec fn counts_type(q: Seq<char>, t: crate::models::FileType) -> bool {
    q == "SELECT COUNT(*) FROM media_files WHERE file_type = '"@ + crate::models::spec_type_name(t) + "' AND is_deleted = 0"@
}

/// The images and videos of the statistics are the files stored under the
/// image and the video type name, as insertions store them (not the other
/// way round).
pub proof fn law_stats_count_types()
    ensures
        counts_type(stats_sqls()[1], crate::models::FileType::Image),
        counts_type(stats_sqls()[2], crate::models::FileType::Video),
        !counts_type(stats_sqls()[1], crate::models::FileType::Video),
{
    reveal_strlit("SELECT COUNT(*) FROM media_files WHERE file_type = 'image' AND is_deleted = 0");
    reveal_strlit("SELECT COUNT(*) FROM media_files WHERE file_type = 'video' AND is_deleted = 0");
    reveal_strlit("SELECT COUNT(*) FROM media_files WHERE file_type = '");
    reveal_strlit("' AND is_deleted = 0");
    reveal_strlit("image");
    reveal_strlit("video");
    let pre = "SELECT COUNT(*) FROM media_files WHERE file_type = '"@;
    assert(stats_sqls()[1] =~= pre + "image"@ + "' AND is_deleted = 0"@);
    assert(stats_sqls()[2] =~= pre + "video"@ + "' AND is_deleted = 0"@);
    let v = pre + "video"@ + "' AND is_deleted = 0"@;
    assert(stats_sqls()[1][pre.len() as int] != v[pre.len() as int]);
}

} // verus!
