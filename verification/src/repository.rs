//! Catalogue operations on media files, tags, albums and their links.
//!
//! Each operation builds its statement and parameters with verified code,
//! hands them to SQLite, and reads the rows that come back with the decoders
//! of `decode`.

use vstd::prelude::*;
use vstd::string::*;
use crate::models::{
    FileType, MediaFile, MediaFileView, Tag, TagView, Album, AlbumView, TagUsage, SearchFilters,
    Pagination, SearchResult, DatabaseStats, spec_type_name, valid_page, spec_page_offset,
    spec_total_pages,
};
use crate::tag_tree::{TagDeletion, TagDeletionStep, Awaiting};
use crate::statements::{
    album_by_id_query,
    album_delete_statement,
    album_insert_statement,
    album_media_add_statement,
    album_media_query,
    album_media_remove_statement,
    album_update_statement,
    albums_query,
    media_by_checksum_query,
    media_by_id_query,
    media_insert_statement,
    media_mark_deleted_statement,
    media_path_exists_query,
    media_remove_statement,
    media_tag_add_statement,
    media_tag_remove_statement,
    media_tags_query,
    media_update_statement,
    tag_by_id_query,
    tag_by_name_query,
    tag_child_count_query,
    tag_child_ids_query,
    tag_delete_statement,
    tag_drop_links_statement,
    tag_insert_statement,
    tag_media_count_query,
    tag_media_page_query,
    tag_merge_links_statement,
    tag_record_update_statement,
    tag_usage_query,
    tags_query,
    stats_queries,
    stats_from_replies,
    batch_begin_statement,
    batch_commit_statement,
    batch_rollback_statement,
};
use crate::sqlite::{
    SqlValue, SqlValueView, DbError, values_view, execute, query, execute_batch, sqlite_last_insert_rowid,
    int_value, text_value, opt_int_to_value, opt_i32_to_value, opt_text_to_value,
    opt_real_to_value, opt_int_value, opt_i32_value, opt_text_value, opt_real_value,
};
use crate::decode::{
    rows_view, decode_all, decode_first, decode_optional, ok_view, ok_vec_view, media_decoder,
    tag_decoder, usage_decoder, album_decoder, counted_album_decoder, int_decoder, decode_rows,
    media_from_row, tag_from_row, usage_from_row, album_from_row, first_int, first_bool,
    spec_media_from_row, spec_album_from_row, ok_opt_view, from_reply, reply_error, reply_value,
    reads_one, reads_all, reads_first, reads_nonzero, reads_positive, lemma_from_reply,
};

verus! {

/// Calls `chrono::Utc::now` and gives its Unix timestamp in seconds. Nothing
/// is claimed of the result: it is the time of the call.
#[verifier::external_body]
fn now_timestamp() -> (r: i64) {
    chrono::Utc::now().timestamp()
}

/// Pushes a parameter, keeping track of the parameters' mathematical form.
fn push_param(params: &mut Vec<SqlValue>, v: SqlValue)
    ensures
        values_view(final(params)@) == values_view(old(params)@).push(v@),
{
    params.push(v);
    assert(values_view(params@) =~= values_view(old(params)@).push(v@));
}

// ---------------------------------------------------------------- media files

/// The SQL value a boolean flag is stored as.
pub open spec fn flag_value(b: bool) -> SqlValueView {
    SqlValueView::Integer(if b { 1 } else { 0 })
}

/// Parameters of a media file insertion, in column order.
pub open spec fn spec_media_insert_params(m: MediaFileView) -> Seq<SqlValueView> {
    seq![
        SqlValueView::Text(m.file_path),
        SqlValueView::Text(spec_type_name(m.file_type)),
        SqlValueView::Integer(m.file_size),
        opt_i32_value(m.width),
        opt_i32_value(m.height),
        opt_i32_value(m.duration),
        SqlValueView::Integer(m.created_at),
        SqlValueView::Integer(m.modified_at),
        opt_int_value(m.taken_at),
        opt_text_value(m.device),
        opt_real_value(m.gps_lat),
        opt_real_value(m.gps_lon),
        opt_text_value(m.checksum),
        opt_text_value(m.thumbnail_path),
        flag_value(m.is_deleted),
    ]
}

/// Parameters of a media file insertion, in column order.
pub fn media_insert_params(m: &MediaFile) -> (r: Vec<SqlValue>)
    ensures
        values_view(r@) == spec_media_insert_params(m@),
{
    let mut p: Vec<SqlValue> = Vec::new();
    assert(values_view(p@) =~= Seq::<SqlValueView>::empty());
    push_param(&mut p, text_value(m.file_path.as_str()));
    push_param(&mut p, text_value(m.file_type.as_str()));
    push_param(&mut p, int_value(m.file_size));
    push_param(&mut p, opt_i32_to_value(m.width));
    push_param(&mut p, opt_i32_to_value(m.height));
    push_param(&mut p, opt_i32_to_value(m.duration));
    push_param(&mut p, int_value(m.created_at));
    push_param(&mut p, int_value(m.modified_at));
    push_param(&mut p, opt_int_to_value(m.taken_at));
    push_param(&mut p, opt_text_to_value(&m.device));
    push_param(&mut p, opt_real_to_value(&m.gps_lat));
    push_param(&mut p, opt_real_to_value(&m.gps_lon));
    push_param(&mut p, opt_text_to_value(&m.checksum));
    push_param(&mut p, opt_text_to_value(&m.thumbnail_path));
    push_param(&mut p, int_value(if m.is_deleted { 1 } else { 0 }));
    assert(values_view(p@) =~= spec_media_insert_params(m@));
    p
}

/// Parameters of a media file update: the metadata columns, then the id.
pub open spec fn spec_media_update_params(m: MediaFileView) -> Seq<SqlValueView> {
    seq![
        SqlValueView::Integer(m.file_size),
        opt_i32_value(m.width),
        opt_i32_value(m.height),
        opt_i32_value(m.duration),
        SqlValueView::Integer(m.modified_at),
        opt_int_value(m.taken_at),
        opt_text_value(m.device),
        opt_real_value(m.gps_lat),
        opt_real_value(m.gps_lon),
        opt_text_value(m.checksum),
        opt_text_value(m.thumbnail_path),
        opt_int_value(m.id),
    ]
}

/// Parameters of a media file update: the metadata columns, then the id.
pub fn media_update_params(m: &MediaFile) -> (r: Vec<SqlValue>)
    ensures
        values_view(r@) == spec_media_update_params(m@),
{
    let mut p: Vec<SqlValue> = Vec::new();
    assert(values_view(p@) =~= Seq::<SqlValueView>::empty());
    push_param(&mut p, int_value(m.file_size));
    push_param(&mut p, opt_i32_to_value(m.width));
    push_param(&mut p, opt_i32_to_value(m.height));
    push_param(&mut p, opt_i32_to_value(m.duration));
    push_param(&mut p, int_value(m.modified_at));
    push_param(&mut p, opt_int_to_value(m.taken_at));
    push_param(&mut p, opt_text_to_value(&m.device));
    push_param(&mut p, opt_real_to_value(&m.gps_lat));
    push_param(&mut p, opt_real_to_value(&m.gps_lon));
    push_param(&mut p, opt_text_to_value(&m.checksum));
    push_param(&mut p, opt_text_to_value(&m.thumbnail_path));
    push_param(&mut p, opt_int_to_value(m.id));
    assert(values_view(p@) =~= spec_media_update_params(m@));
    p
}

/// The selection of all media columns that every media query starts with.
pub open spec fn media_list_base() -> Seq<char> {
    "SELECT id, file_path, file_type, file_size, width, height, duration, created_at, modified_at, taken_at, device, gps_lat, gps_lon, checksum, thumbnail_path, is_deleted FROM media_files WHERE 1=1"@
}

pub open spec fn opt_clause<T>(o: Option<T>, clause: Seq<char>) -> Seq<char> {
    if o is Some {
        clause
    } else {
        Seq::empty()
    }
}

pub open spec fn opt_int_param(o: Option<i64>) -> Seq<SqlValueView> {
    match o {
        Some(v) => seq![SqlValueView::Integer(v)],
        None => Seq::empty(),
    }
}

/// The clause keeping files whose path starts with a folder prefix.
pub open spec fn folder_clause() -> Seq<char> {
    " AND instr(file_path, ?) = 1"@
}

/// The clause keeping files that carry a tag.
pub open spec fn tag_clause() -> Seq<char> {
    " AND id IN (SELECT media_id FROM media_tags WHERE tag_id = ?)"@
}

/// One tag clause per tag: a file must carry every tag listed.
pub open spec fn tags_sql(n: nat) -> Seq<char>
    decreases n,
{
    if n == 0 {
        Seq::empty()
    } else {
        tags_sql((n - 1) as nat) + tag_clause()
    }
}

/// The tags a filter asks for; none when it names no list.
pub open spec fn filter_tags(f: SearchFilters) -> Seq<i64> {
    match f.tag_ids {
        Some(v) => v@,
        None => Seq::empty(),
    }
}

/// The parameters of the tag clauses: the tag ids in order.
pub open spec fn tag_params(ids: Seq<i64>) -> Seq<SqlValueView> {
    ids.map_values(|t: i64| SqlValueView::Integer(t))
}

/// The filtering query of a media listing: file type, deletion state (only
/// files not deleted unless asked), date range on `taken_at`, size range,
/// folder (a prefix of the file's path), and every tag listed. The album
/// named in a filter is not applied.
pub open spec fn list_filter_sql(f: SearchFilters) -> Seq<char> {
    media_list_base()
        + opt_clause(f.file_type, " AND file_type = ?"@)
        + (if f.is_deleted is Some { " AND is_deleted = ?"@ } else { " AND is_deleted = 0"@ })
        + opt_clause(f.date_from, " AND taken_at >= ?"@)
        + opt_clause(f.date_to, " AND taken_at <= ?"@)
        + opt_clause(f.size_min, " AND file_size >= ?"@)
        + opt_clause(f.size_max, " AND file_size <= ?"@)
        + opt_clause(f.folder, folder_clause())
        + tags_sql(filter_tags(f).len())
}

/// The parameters of the filtering query, in the order of its clauses.
pub open spec fn list_filter_params(f: SearchFilters) -> Seq<SqlValueView> {
    (match f.file_type {
        Some(t) => seq![SqlValueView::Text(spec_type_name(t))],
        None => Seq::empty(),
    })
        + (match f.is_deleted {
        Some(b) => seq![flag_value(b)],
        None => Seq::empty(),
    })
        + opt_int_param(f.date_from)
        + opt_int_param(f.date_to)
        + opt_int_param(f.size_min)
        + opt_int_param(f.size_max)
        + (match f.folder {
        Some(d) => seq![SqlValueView::Text(d@)],
        None => Seq::empty(),
    })
        + tag_params(filter_tags(f))
}

/// The query counting every file the filters select.
pub open spec fn list_count_sql(f: SearchFilters) -> Seq<char> {
    "SELECT COUNT(*) FROM ("@ + list_filter_sql(f) + ")"@
}

/// The query of one page: newest taken first, then newest created.
pub open spec fn list_page_sql(f: SearchFilters) -> Seq<char> {
    list_filter_sql(f) + " ORDER BY taken_at DESC, created_at DESC LIMIT ? OFFSET ?"@
}

/// The page query's parameters: the filter's, then the page size and offset.
pub open spec fn list_page_params(f: SearchFilters, p: Pagination) -> Seq<SqlValueView> {
    list_filter_params(f) + seq![
        SqlValueView::Integer(p.page_size as i64),
        SqlValueView::Integer(spec_page_offset(p) as i64),
    ]
}

/// Appends an optional integer filter clause with its parameter.
fn add_int_filter(sql: &mut String, params: &mut Vec<SqlValue>, o: Option<i64>, clause: &str)
    ensures
        final(sql)@ == old(sql)@ + opt_clause(o, clause@),
        values_view(final(params)@) == values_view(old(params)@) + opt_int_param(o),
{
    if let Some(v) = o {
        sql.append(clause);
        push_param(params, int_value(v));
    } else {
        assert(sql@ =~= old(sql)@ + opt_clause(o, clause@));
    }
    assert(values_view(params@) =~= values_view(old(params)@) + opt_int_param(o));
}

/// Appends the file type clause with its parameter.
fn add_type_filter(sql: &mut String, params: &mut Vec<SqlValue>, o: Option<FileType>)
    ensures
        final(sql)@ == old(sql)@ + opt_clause(o, " AND file_type = ?"@),
        values_view(final(params)@) == values_view(old(params)@) + (match o {
            Some(t) => seq![SqlValueView::Text(spec_type_name(t))],
            None => Seq::empty(),
        }),
{
    if let Some(t) = o {
        sql.append(" AND file_type = ?");
        push_param(params, text_value(t.as_str()));
    } else {
        assert(sql@ =~= old(sql)@ + opt_clause(o, " AND file_type = ?"@));
    }
    assert(values_view(params@) =~= values_view(old(params)@) + (match o {
        Some(t) => seq![SqlValueView::Text(spec_type_name(t))],
        None => Seq::empty(),
    }));
}

/// Appends the deletion state clause, with a parameter when one is asked.
fn add_deleted_filter(sql: &mut String, params: &mut Vec<SqlValue>, o: Option<bool>)
    ensures
        final(sql)@ == old(sql)@ + (if o is Some { " AND is_deleted = ?"@ } else { " AND is_deleted = 0"@ }),
        values_view(final(params)@) == values_view(old(params)@) + (match o {
            Some(b) => seq![flag_value(b)],
            None => Seq::empty(),
        }),
{
    if let Some(d) = o {
        sql.append(" AND is_deleted = ?");
        push_param(params, int_value(if d { 1 } else { 0 }));
    } else {
        sql.append(" AND is_deleted = 0");
    }
    assert(values_view(params@) =~= values_view(old(params)@) + (match o {
        Some(b) => seq![flag_value(b)],
        None => Seq::empty(),
    }));
}

/// Appends the folder clause with its parameter.
fn add_folder_filter(sql: &mut String, params: &mut Vec<SqlValue>, o: &Option<String>)
    ensures
        final(sql)@ == old(sql)@ + opt_clause(*o, folder_clause()),
        values_view(final(params)@) == values_view(old(params)@) + (match *o {
            Some(d) => seq![SqlValueView::Text(d@)],
            None => Seq::empty(),
        }),
{
    if let Some(d) = o {
        sql.append(" AND instr(file_path, ?) = 1");
        push_param(params, text_value(d.as_str()));
    } else {
        assert(sql@ =~= old(sql)@ + opt_clause(*o, folder_clause()));
    }
    assert(values_view(params@) =~= values_view(old(params)@) + (match *o {
        Some(d) => seq![SqlValueView::Text(d@)],
        None => Seq::empty(),
    }));
}

/// Appends one tag clause per tag id, with the ids as parameters.
fn add_tag_filters(sql: &mut String, params: &mut Vec<SqlValue>, o: &Option<Vec<i64>>)
    ensures
        final(sql)@ == old(sql)@ + tags_sql(match *o { Some(v) => v@.len(), None => 0 }),
        values_view(final(params)@) == values_view(old(params)@) + tag_params(match *o { Some(v) => v@, None => Seq::empty() }),
{
    let ghost s0 = sql@;
    let ghost p0 = values_view(params@);
    match o {
        None => {
            assert(sql@ =~= s0 + tags_sql(0));
            assert(values_view(params@) =~= p0 + tag_params(Seq::empty()));
        },
        Some(ids) => {
            let mut i: usize = 0;
            assert(sql@ =~= s0 + tags_sql(0));
            assert(values_view(params@) =~= p0 + tag_params(ids@.take(0)));
            while i < ids.len()
                invariant
                    i <= ids.len(),
                    sql@ == s0 + tags_sql(i as nat),
                    values_view(params@) == p0 + tag_params(ids@.take(i as int)),
                decreases ids.len() - i,
            {
                sql.append(" AND id IN (SELECT media_id FROM media_tags WHERE tag_id = ?)");
                push_param(params, int_value(ids[i]));
                assert(ids@.take(i + 1) =~= ids@.take(i as int).push(ids@[i as int]));
                assert(tag_params(ids@.take(i + 1)) =~= tag_params(ids@.take(i as int)).push(SqlValueView::Integer(ids@[i as int])));
                assert(sql@ =~= s0 + tags_sql((i + 1) as nat));
                assert(values_view(params@) =~= p0 + tag_params(ids@.take(i + 1)));
                i = i + 1;
            }
            assert(ids@.take(ids.len() as int) =~= ids@);
        },
    }
}

/// Builds the filtering query of a media listing and its parameters.
pub fn list_filter_query(filters: &SearchFilters) -> (r: (String, Vec<SqlValue>))
    ensures
        r.0@ == list_filter_sql(*filters),
        values_view(r.1@) == list_filter_params(*filters),
{
    let mut sql = "SELECT id, file_path, file_type, file_size, width, height, duration, created_at, modified_at, taken_at, device, gps_lat, gps_lon, checksum, thumbnail_path, is_deleted FROM media_files WHERE 1=1".to_owned();
    let mut params: Vec<SqlValue> = Vec::new();
    assert(values_view(params@) =~= Seq::<SqlValueView>::empty());
    add_type_filter(&mut sql, &mut params, filters.file_type);
    add_deleted_filter(&mut sql, &mut params, filters.is_deleted);
    add_int_filter(&mut sql, &mut params, filters.date_from, " AND taken_at >= ?");
    add_int_filter(&mut sql, &mut params, filters.date_to, " AND taken_at <= ?");
    add_int_filter(&mut sql, &mut params, filters.size_min, " AND file_size >= ?");
    add_int_filter(&mut sql, &mut params, filters.size_max, " AND file_size <= ?");
    add_folder_filter(&mut sql, &mut params, &filters.folder);
    add_tag_filters(&mut sql, &mut params, &filters.tag_ids);
    assert(values_view(params@) =~= list_filter_params(*filters));
    (sql, params)
}

/// The queries of a media listing: one counting every selected file, one
/// fetching a page. Both run the same filter with the same parameters.
pub struct ListQueries {
    pub count_sql: String,
    pub count_params: Vec<SqlValue>,
    pub page_sql: String,
    pub page_params: Vec<SqlValue>,
}

/// Builds the queries of a media listing.
pub fn media_list_queries(filters: &SearchFilters, pagination: &Pagination) -> (r: ListQueries)
    requires
        valid_page(*pagination),
    ensures
        r.count_sql@ == list_count_sql(*filters),
        values_view(r.count_params@) == list_filter_params(*filters),
        r.page_sql@ == list_page_sql(*filters),
        values_view(r.page_params@) == list_page_params(*filters, *pagination),
{
    let (sql, params) = list_filter_query(filters);
    let (count_filter, count_params) = list_filter_query(filters);
    let mut count_sql = "SELECT COUNT(*) FROM (".to_owned();
    count_sql.append(count_filter.as_str());
    count_sql.append(")");
    let mut page_sql = sql;
    page_sql.append(" ORDER BY taken_at DESC, created_at DESC LIMIT ? OFFSET ?");
    let mut page_params = params;
    let offset = pagination.offset();
    push_param(&mut page_params, int_value(#[verifier::truncate] (pagination.page_size as i64)));
    push_param(&mut page_params, int_value(#[verifier::truncate] (offset as i64)));
    assert(values_view(page_params@) =~= list_page_params(*filters, *pagination));
    ListQueries { count_sql, count_params, page_sql, page_params }
}

/// The number of `?` placeholders in a statement.
pub open spec fn placeholders(s: Seq<char>) -> nat
    decreases s.len(),
{
    if s.len() == 0 {
        0
    } else {
        placeholders(s.drop_last()) + if s.last() == '?' { 1nat } else { 0nat }
    }
}

/// Placeholders add up over concatenation.
pub proof fn lemma_placeholders_add(a: Seq<char>, b: Seq<char>)
    ensures
        placeholders(a + b) == placeholders(a) + placeholders(b),
    decreases b.len(),
{
    if b.len() == 0 {
        assert(a + b =~= a);
    } else {
        lemma_placeholders_add(a, b.drop_last());
        assert((a + b).drop_last() =~= a + b.drop_last());
        assert((a + b).last() == b.last());
    }
}

/// Text without `?` holds no placeholder.
pub proof fn lemma_no_placeholders(s: Seq<char>)
    requires
        forall|i: int| 0 <= i < s.len() ==> s[i] != '?',
    ensures
        placeholders(s) == 0,
    decreases s.len(),
{
    if s.len() > 0 {
        lemma_no_placeholders(s.drop_last());
    }
}

/// Text whose only `?` is its last character holds one placeholder.
proof fn lemma_placeholder_at_end(s: Seq<char>)
    requires
        s.len() > 0,
        s.last() == '?',
        forall|i: int| 0 <= i < s.len() - 1 ==> s[i] != '?',
    ensures
        placeholders(s) == 1,
{
    lemma_no_placeholders(s.drop_last());
}

/// Text whose only `?` is at position `k` holds one placeholder.
proof fn lemma_placeholder_at(s: Seq<char>, k: int)
    requires
        0 <= k < s.len(),
        s[k] == '?',
        forall|i: int| 0 <= i < s.len() && i != k ==> s[i] != '?',
    ensures
        placeholders(s) == 1,
{
    assert(s =~= s.take(k + 1) + s.skip(k + 1));
    lemma_placeholder_at_end(s.take(k + 1));
    lemma_no_placeholders(s.skip(k + 1));
    lemma_placeholders_add(s.take(k + 1), s.skip(k + 1));
}

/// The clauses of the folder and tag filters hold one placeholder each.
proof fn lemma_membership_fragments()
    ensures
        placeholders(folder_clause()) == 1,
        placeholders(tag_clause()) == 1,
{
    reveal_strlit(" AND instr(file_path, ?) = 1");
    reveal_strlit(" AND id IN (SELECT media_id FROM media_tags WHERE tag_id = ?)");
    let f = folder_clause();
    lemma_placeholder_at(f, f.len() - 6);
    let t = tag_clause();
    lemma_placeholder_at(t, t.len() - 2);
}

/// The tag clauses hold one placeholder per tag.
proof fn lemma_tags_placeholders(n: nat)
    ensures
        placeholders(tags_sql(n)) == n,
    decreases n,
{
    lemma_membership_fragments();
    if n > 0 {
        lemma_tags_placeholders((n - 1) as nat);
        lemma_placeholders_add(tags_sql((n - 1) as nat), tag_clause());
    }
}

/// An optional clause holds a placeholder exactly when it is there.
proof fn lemma_opt_clause_placeholders<T>(o: Option<T>, clause: Seq<char>)
    requires
        placeholders(clause) == 1,
    ensures
        placeholders(opt_clause(o, clause)) == (if o is Some { 1nat } else { 0nat }),
{
}

/// The placeholders of the fixed fragments of a media listing's queries.
proof fn lemma_list_fragments()
    ensures
        placeholders(media_list_base()) == 0,
        placeholders(" AND file_type = ?"@) == 1,
        placeholders(" AND is_deleted = ?"@) == 1,
        placeholders(" AND is_deleted = 0"@) == 0,
        placeholders(" AND taken_at >= ?"@) == 1,
        placeholders(" AND taken_at <= ?"@) == 1,
        placeholders(" AND file_size >= ?"@) == 1,
        placeholders(" AND file_size <= ?"@) == 1,
        placeholders("SELECT COUNT(*) FROM ("@) == 0,
        placeholders(")"@) == 0,
        placeholders(" ORDER BY taken_at DESC, created_at DESC LIMIT ? OFFSET ?"@) == 2,
{
    reveal_strlit("SELECT id, file_path, file_type, file_size, width, height, duration, created_at, modified_at, taken_at, device, gps_lat, gps_lon, checksum, thumbnail_path, is_deleted FROM media_files WHERE 1=1");
    reveal_strlit(" AND file_type = ?");
    reveal_strlit(" AND is_deleted = ?");
    reveal_strlit(" AND is_deleted = 0");
    reveal_strlit(" AND taken_at >= ?");
    reveal_strlit(" AND taken_at <= ?");
    reveal_strlit(" AND file_size >= ?");
    reveal_strlit(" AND file_size <= ?");
    reveal_strlit("SELECT COUNT(*) FROM (");
    reveal_strlit(")");
    reveal_strlit(" ORDER BY taken_at DESC, created_at DESC LIMIT ? OFFSET ?");
    lemma_no_placeholders(media_list_base());
    lemma_placeholder_at_end(" AND file_type = ?"@);
    lemma_placeholder_at_end(" AND is_deleted = ?"@);
    lemma_no_placeholders(" AND is_deleted = 0"@);
    lemma_placeholder_at_end(" AND taken_at >= ?"@);
    lemma_placeholder_at_end(" AND taken_at <= ?"@);
    lemma_placeholder_at_end(" AND file_size >= ?"@);
    lemma_placeholder_at_end(" AND file_size <= ?"@);
    lemma_no_placeholders("SELECT COUNT(*) FROM ("@);
    lemma_no_placeholders(")"@);
    let order = " ORDER BY taken_at DESC, created_at DESC LIMIT ? OFFSET ?"@;
    let k = order.len() - 9;
    assert(order =~= order.take(k) + order.skip(k));
    lemma_placeholder_at_end(order.take(k));
    lemma_placeholder_at_end(order.skip(k));
    lemma_placeholders_add(order.take(k), order.skip(k));
}

/// Every parameter of a media listing's queries fills one placeholder: the
/// counting query takes exactly the filter's parameters, the page query those
/// and then the page size and offset.
pub proof fn law_list_queries_bind_every_placeholder(f: SearchFilters, p: Pagination)
    ensures
        placeholders(list_filter_sql(f)) == list_filter_params(f).len(),
        placeholders(list_count_sql(f)) == list_filter_params(f).len(),
        placeholders(list_page_sql(f)) == list_page_params(f, p).len(),
{
    lemma_list_fragments();
    let c1 = opt_clause(f.file_type, " AND file_type = ?"@);
    let c2 = if f.is_deleted is Some { " AND is_deleted = ?"@ } else { " AND is_deleted = 0"@ };
    let c3 = opt_clause(f.date_from, " AND taken_at >= ?"@);
    let c4 = opt_clause(f.date_to, " AND taken_at <= ?"@);
    let c5 = opt_clause(f.size_min, " AND file_size >= ?"@);
    let c6 = opt_clause(f.size_max, " AND file_size <= ?"@);
    lemma_opt_clause_placeholders(f.file_type, " AND file_type = ?"@);
    lemma_opt_clause_placeholders(f.date_from, " AND taken_at >= ?"@);
    lemma_opt_clause_placeholders(f.date_to, " AND taken_at <= ?"@);
    lemma_opt_clause_placeholders(f.size_min, " AND file_size >= ?"@);
    lemma_opt_clause_placeholders(f.size_max, " AND file_size <= ?"@);
    let b = media_list_base();
    lemma_placeholders_add(b, c1);
    lemma_placeholders_add(b + c1, c2);
    lemma_placeholders_add(b + c1 + c2, c3);
    lemma_placeholders_add(b + c1 + c2 + c3, c4);
    lemma_placeholders_add(b + c1 + c2 + c3 + c4, c5);
    lemma_placeholders_add(b + c1 + c2 + c3 + c4 + c5, c6);
    lemma_membership_fragments();
    let c7 = opt_clause(f.folder, folder_clause());
    let c8 = tags_sql(filter_tags(f).len());
    lemma_opt_clause_placeholders(f.folder, folder_clause());
    lemma_tags_placeholders(filter_tags(f).len());
    lemma_placeholders_add(b + c1 + c2 + c3 + c4 + c5 + c6, c7);
    lemma_placeholders_add(b + c1 + c2 + c3 + c4 + c5 + c6 + c7, c8);
    let sql = list_filter_sql(f);
    lemma_placeholders_add("SELECT COUNT(*) FROM ("@, sql);
    lemma_placeholders_add("SELECT COUNT(*) FROM ("@ + sql, ")"@);
    lemma_placeholders_add(sql, " ORDER BY taken_at DESC, created_at DESC LIMIT ? OFFSET ?"@);
}

/// A record as the catalogue gives it back: with its id, without relations.
pub open spec fn stored_media(m: MediaFile) -> bool {
    m.id is Some && m.tags is None
}

/// The media files the rows of a media query read as.
pub fn media_rows(rows: &Vec<Vec<SqlValue>>) -> (r: Result<Vec<MediaFile>, DbError>)
    ensures
        ok_vec_view(r) == decode_all(rows_view(rows@), media_decoder()),
        r matches Ok(v) ==> forall|i: int| 0 <= i < v.len() ==> stored_media(#[trigger] v@[i]),
        from_reply(ok_vec_view(r), reads_all(media_decoder())),
{
    let r = {
        let r = decode_rows(rows, media_from_row, Ghost(media_decoder()));
        proof {
            if r is Ok {
                let v = r->Ok_0;
                let xs = v@.map_values(|m: MediaFile| m@);
                crate::decode::lemma_decode_all_each(rows_view(rows@), media_decoder(), xs);
                assert forall|i: int| 0 <= i < v.len() implies stored_media(#[trigger] v@[i]) by {
                    assert(xs[i] == v@[i]@);
                    assert(media_decoder()(rows_view(rows@)[i]) == Ok::<MediaFileView, DbError>(xs[i]));
                }
            }
        }
        r
    };
    proof {
        lemma_from_reply(rows_view(rows@), reads_all(media_decoder()));
    }
    r
}

/// The media file the first row of a media query reads as, if there is a row.
pub fn optional_media(rows: &Vec<Vec<SqlValue>>) -> (r: Result<Option<MediaFile>, DbError>)
    ensures
        (match r {
            Ok(Some(m)) => decode_optional(rows_view(rows@), media_decoder()) == Ok::<Option<MediaFileView>, DbError>(Some(m@)),
            Ok(None) => decode_optional(rows_view(rows@), media_decoder()) == Ok::<Option<MediaFileView>, DbError>(None),
            Err(e) => decode_optional(rows_view(rows@), media_decoder()) == Err::<Option<MediaFileView>, DbError>(e),
        }),
        r matches Ok(Some(m)) ==> stored_media(m),
        ok_opt_view(r) == decode_optional(rows_view(rows@), media_decoder()),
        from_reply(ok_opt_view(r), reads_one(media_decoder())),
{
    let r = if rows.len() == 0 {
        Ok(None)
    } else {
        assert(rows_view(rows@)[0] == values_view(rows@[0]@));
        match media_from_row(&rows[0]) {
            Ok(m) => Ok(Some(m)),
            Err(e) => Err(e),
        }
    };
    proof {
        lemma_from_reply(rows_view(rows@), reads_one(media_decoder()));
    }
    r
}

/// A page of media files from the rows of its page query, with the number of
/// all the files selected: the items read from the rows, the page as asked
/// and the number of pages; the first row that cannot be read gives the error.
pub fn media_page(rows: &Vec<Vec<SqlValue>>, total: i64, pagination: &Pagination) -> (r: Result<SearchResult<MediaFile>, DbError>)
    ensures
        (match decode_all(rows_view(rows@), media_decoder()) {
            Err(e) => r == Err::<SearchResult<MediaFile>, DbError>(e),
            Ok(items) => r matches Ok(res) && {
                &&& res.items@.map_values(|m: MediaFile| m@) == items
                &&& res.total == total
                &&& res.page == pagination.page
                &&& res.page_size == pagination.page_size
                &&& res.total_pages == spec_total_pages(total, pagination.page_size)
            },
        }),
        r matches Ok(res) ==> forall|i: int| 0 <= i < res.items.len() ==> stored_media(#[trigger] res.items@[i]),
{
    let items = media_rows(rows)?;
    Ok(SearchResult::new(items, total, pagination.page, pagination.page_size))
}

/// A bound value read back from a column of real affinity, when it is text
/// in the canonical form a real number is written in (such as `1.5`; `1.50`
/// reads back as `1.5`, and text that is no number stays text).
pub open spec fn read_back_as_real(v: SqlValueView) -> SqlValueView {
    match v {
        SqlValueView::Text(t) => SqlValueView::Real(t),
        _ => v,
    }
}

/// The row an insertion with the given parameters and id reads back as when
/// its GPS coordinates are canonical decimal text: the parameters as bound,
/// the coordinates as reals of the same text.
pub open spec fn inserted_media_row(id: i64, params: Seq<SqlValueView>) -> Seq<SqlValueView> {
    seq![SqlValueView::Integer(id)] + params.update(10, read_back_as_real(params[10])).update(
        11,
        read_back_as_real(params[11]),
    )
}

/// The stored name of every file type reads back as that type.
pub proof fn lemma_stored_type_round_trip(t: FileType)
    ensures
        crate::decode::stored_file_type(spec_type_name(t)) == t,
{
    reveal_strlit("image");
    reveal_strlit("video");
    assert(crate::text::all_ascii("image"@));
    assert(crate::text::all_ascii("video"@));
    assert(crate::text::ascii_lower("image"@) =~= "image"@);
    assert(crate::text::ascii_lower("video"@) =~= "video"@);
    assert("image"@[0] != "video"@[0]);
}

/// A media file written by `MediaRepository::insert` reads back, from the row
/// its insertion makes (GPS coordinates in canonical decimal text), as the
/// same record with its assigned id and without relations.
pub proof fn law_media_insert_read_back(m: MediaFileView, id: i64)
    ensures
        spec_media_from_row(inserted_media_row(id, spec_media_insert_params(m))) == Ok::<MediaFileView, DbError>(
            MediaFileView { id: Some(id), tags: None, ..m },
        ),
{
    let row = inserted_media_row(id, spec_media_insert_params(m));
    let kinds = crate::decode::media_kinds();
    assert(row.len() == 16);
    assert forall|j: int| 0 <= j < kinds.len() implies crate::sqlite::column_error(row, j, #[trigger] kinds[j]) is None by {
        assert(row[j] == (if j == 0 { SqlValueView::Integer(id) } else if j == 11 || j == 12 {
            read_back_as_real(spec_media_insert_params(m)[j - 1])
        } else {
            spec_media_insert_params(m)[j - 1]
        }));
    }
    crate::sqlite::lemma_row_error_from(row, kinds, 0);
    lemma_stored_type_round_trip(m.file_type);
    let got = spec_media_from_row(row)->Ok_0;
    assert(got.width == m.width);
    assert(got.height == m.height);
    assert(got.duration == m.duration);
    assert(got.is_deleted == m.is_deleted);
}

/// Media file repository
pub struct MediaRepository;

impl MediaRepository {
    /// Inserts a media file and gives the id SQLite assigned to it.
    pub fn insert(conn: &rusqlite::Connection, media: &MediaFile) -> (r: Result<i64, DbError>)
        ensures
            r matches Err(e) ==> e is Sqlite,
    {
        let (sql, params) = media_insert_statement(media);
        execute(conn, sql.as_str(), &params)?;
        Ok(sqlite_last_insert_rowid(conn))
    }

    /// The media file with the given id, if there is one.
    pub fn get_by_id(conn: &rusqlite::Connection, id: i64) -> (r: Result<Option<MediaFile>, DbError>)
        ensures
            r matches Ok(Some(m)) ==> stored_media(m),
            from_reply(ok_opt_view(r), reads_one(media_decoder())),
    {
        let (sql, params) = media_by_id_query(id);
        let rows = query(conn, sql.as_str(), &params)?;
        optional_media(&rows)
    }

    /// One page of the media files the filters select, with the number of
    /// all of them and the number of pages. It runs the two queries of
    /// `media_list_queries` (`list_count_sql` with `list_filter_params`, then
    /// `list_page_sql` with `list_page_params`, whose LIMIT is the page size
    /// and whose OFFSET is the rows before the page) and reads the replies
    /// with `first_int` and `media_page`.
    pub fn list(conn: &rusqlite::Connection, filters: &SearchFilters, pagination: &Pagination) -> (r: Result<SearchResult<MediaFile>, DbError>)
        requires
            valid_page(*pagination),
        ensures
            r matches Ok(res) ==> {
                &&& res.page == pagination.page
                &&& res.page_size == pagination.page_size
                &&& res.total_pages == spec_total_pages(res.total, pagination.page_size)
                &&& forall|i: int| 0 <= i < res.items.len() ==> stored_media(#[trigger] res.items@[i])
            },
            r matches Ok(res) ==> reply_value(res.items@.map_values(|m: MediaFile| m@), reads_all(media_decoder())),
            r matches Err(e) ==> e is Sqlite || reply_error(e, reads_first(int_decoder())) || reply_error(e, reads_all(media_decoder())),
    {
        let q = media_list_queries(filters, pagination);
        let rows = query(conn, q.count_sql.as_str(), &q.count_params)?;
        let total = match first_int(&rows) {
            Ok(t) => t,
            Err(e) => {
                proof {
                    lemma_from_reply(rows_view(rows@), reads_first(int_decoder()));
                }
                return Err(e);
            },
        };
        let rows = query(conn, q.page_sql.as_str(), &q.page_params)?;
        let r = media_page(&rows, total, pagination);
        proof {
            lemma_from_reply(rows_view(rows@), reads_all(media_decoder()));
        }
        r
    }

    /// Updates the metadata of the media file with the record's id; gives the
    /// number of rows changed.
    pub fn update(conn: &rusqlite::Connection, media: &MediaFile) -> (r: Result<usize, DbError>)
        ensures
            r matches Err(e) ==> e is Sqlite,
    {
        let (sql, params) = media_update_statement(media);
        execute(conn, sql.as_str(), &params)
    }

    /// Marks the media file deleted, stamping its modification time with now.
    pub fn delete(conn: &rusqlite::Connection, id: i64) -> (r: Result<usize, DbError>)
        ensures
            r matches Err(e) ==> e is Sqlite,
    {
        let now = now_timestamp();
        let (sql, params) = media_mark_deleted_statement(now, id);
        execute(conn, sql.as_str(), &params)
    }

    /// Removes the media file's record for good.
    pub fn permanent_delete(conn: &rusqlite::Connection, id: i64) -> (r: Result<usize, DbError>)
        ensures
            r matches Err(e) ==> e is Sqlite,
    {
        let (sql, params) = media_remove_statement(id);
        execute(conn, sql.as_str(), &params)
    }

    /// Whether a media file with this path is recorded.
    pub fn exists_by_path(conn: &rusqlite::Connection, path: &str) -> (r: Result<bool, DbError>)
        ensures
            from_reply(r, reads_nonzero()),
    {
        let (sql, params) = media_path_exists_query(path);
        let rows = query(conn, sql.as_str(), &params)?;
        let r = first_bool(&rows);
        proof {
            lemma_from_reply(rows_view(rows@), reads_nonzero());
        }
        r
    }

    /// The first media file recorded with this checksum, if there is one.
    pub fn get_by_checksum(conn: &rusqlite::Connection, checksum: &str) -> (r: Result<Option<MediaFile>, DbError>)
        ensures
            r matches Ok(Some(m)) ==> stored_media(m),
            from_reply(ok_opt_view(r), reads_one(media_decoder())),
    {
        let (sql, params) = media_by_checksum_query(checksum);
        let rows = query(conn, sql.as_str(), &params)?;
        optional_media(&rows)
    }
}

// ---------------------------------------------------------------- tags

/// A tag as the catalogue gives it back: with its id, without usage count.
pub open spec fn stored_tag(t: Tag) -> bool {
    t.id is Some && t.media_count is None
}

/// The tags the rows of a tag query read as.
pub fn tag_rows(rows: &Vec<Vec<SqlValue>>) -> (r: Result<Vec<Tag>, DbError>)
    ensures
        ok_vec_view(r) == decode_all(rows_view(rows@), tag_decoder()),
        r matches Ok(v) ==> forall|i: int| 0 <= i < v.len() ==> stored_tag(#[trigger] v@[i]),
        from_reply(ok_vec_view(r), reads_all(tag_decoder())),
{
    let r = {
        let r = decode_rows(rows, tag_from_row, Ghost(tag_decoder()));
        proof {
            if r is Ok {
                let v = r->Ok_0;
                let xs = v@.map_values(|t: Tag| t@);
                crate::decode::lemma_decode_all_each(rows_view(rows@), tag_decoder(), xs);
                assert forall|i: int| 0 <= i < v.len() implies stored_tag(#[trigger] v@[i]) by {
                    assert(xs[i] == v@[i]@);
                    assert(tag_decoder()(rows_view(rows@)[i]) == Ok::<TagView, DbError>(xs[i]));
                }
            }
        }
        r
    };
    proof {
        lemma_from_reply(rows_view(rows@), reads_all(tag_decoder()));
    }
    r
}

/// The tag the first row of a tag query reads as, if there is a row.
pub fn optional_tag(rows: &Vec<Vec<SqlValue>>) -> (r: Result<Option<Tag>, DbError>)
    ensures
        crate::decode::ok_opt_view(r) == decode_optional(rows_view(rows@), tag_decoder()),
        r matches Ok(Some(t)) ==> stored_tag(t),
        from_reply(crate::decode::ok_opt_view(r), reads_one(tag_decoder())),
{
    let r = {
        crate::decode::decode_optional_row(rows, tag_from_row, Ghost(tag_decoder()))
    };
    proof {
        lemma_from_reply(rows_view(rows@), reads_one(tag_decoder()));
    }
    r
}

/// The tag usage records the rows of a usage query read as.
pub fn usage_rows(rows: &Vec<Vec<SqlValue>>) -> (r: Result<Vec<TagUsage>, DbError>)
    ensures
        ok_vec_view(r) == decode_all(rows_view(rows@), usage_decoder()),
        from_reply(ok_vec_view(r), reads_all(usage_decoder())),
{
    let r = {
        decode_rows(rows, usage_from_row, Ghost(usage_decoder()))
    };
    proof {
        lemma_from_reply(rows_view(rows@), reads_all(usage_decoder()));
    }
    r
}

/// Parameters of a tag insertion: name, parent, color, creation time.
pub open spec fn spec_tag_insert_params(t: TagView, now: i64) -> Seq<SqlValueView> {
    seq![
        SqlValueView::Text(t.name),
        opt_int_value(t.parent_id),
        opt_text_value(t.color),
        SqlValueView::Integer(now),
    ]
}

/// Parameters of a tag insertion: name, parent, color, creation time.
pub fn tag_insert_params(tag: &Tag, now: i64) -> (r: Vec<SqlValue>)
    ensures
        values_view(r@) == spec_tag_insert_params(tag@, now),
{
    let r = vec![text_value(tag.name.as_str()), opt_int_to_value(tag.parent_id), opt_text_to_value(&tag.color), int_value(now)];
    assert(values_view(r@) =~= spec_tag_insert_params(tag@, now));
    r
}

/// A tag written by `TagRepository::insert` at time `now` reads back, from
/// the row SQLite keeps for it, as the same tag with its assigned id, stamped
/// with `now`, without usage count.
pub proof fn law_tag_insert_read_back(t: TagView, now: i64, id: i64)
    ensures
        crate::decode::spec_tag_from_row(seq![SqlValueView::Integer(id)] + spec_tag_insert_params(t, now))
            == Ok::<TagView, DbError>(TagView { id: Some(id), created_at: now, media_count: None, ..t }),
{
    let row = seq![SqlValueView::Integer(id)] + spec_tag_insert_params(t, now);
    let kinds = crate::decode::tag_kinds();
    assert forall|j: int| 0 <= j < kinds.len() implies crate::sqlite::column_error(row, j, #[trigger] kinds[j]) is None by {
        assert(row[j] == (if j == 0 { SqlValueView::Integer(id) } else { spec_tag_insert_params(t, now)[j - 1] }));
    }
    crate::sqlite::lemma_row_error_from(row, kinds, 0);
}

/// Parameters of a tag update: name, parent, color, then the id.
pub open spec fn spec_tag_update_params(t: TagView) -> Seq<SqlValueView> {
    seq![
        SqlValueView::Text(t.name),
        opt_int_value(t.parent_id),
        opt_text_value(t.color),
        opt_int_value(t.id),
    ]
}

/// Parameters of a tag update: name, parent, color, then the id.
pub fn tag_update_params(tag: &Tag) -> (r: Vec<SqlValue>)
    ensures
        values_view(r@) == spec_tag_update_params(tag@),
{
    let r = vec![text_value(tag.name.as_str()), opt_int_to_value(tag.parent_id), opt_text_to_value(&tag.color), opt_int_to_value(tag.id)];
    assert(values_view(r@) =~= spec_tag_update_params(tag@));
    r
}

/// Items joined by a separator.
pub open spec fn join(items: Seq<Seq<char>>, sep: Seq<char>) -> Seq<char>
    decreases items.len(),
{
    if items.len() == 0 {
        Seq::empty()
    } else if items.len() == 1 {
        items[0]
    } else {
        join(items.drop_last(), sep) + sep + items.last()
    }
}

/// The assignments a partial tag update makes, in the order name, parent, color.
pub open spec fn tag_update_assignments(name: Option<Seq<char>>, parent_id: Option<Option<i64>>, color: Option<Seq<char>>) -> Seq<Seq<char>> {
    (if name is Some { seq!["name = ?"@] } else { Seq::empty() })
        + (if parent_id is Some { seq!["parent_id = ?"@] } else { Seq::empty() })
        + (if color is Some { seq!["color = ?"@] } else { Seq::empty() })
}

/// The parameters of a partial tag update: the values assigned, then the id.
pub open spec fn tag_update_field_params(id: i64, name: Option<Seq<char>>, parent_id: Option<Option<i64>>, color: Option<Seq<char>>) -> Seq<SqlValueView> {
    (match name {
        Some(n) => seq![SqlValueView::Text(n)],
        None => Seq::empty(),
    }) + (match parent_id {
        Some(p) => seq![opt_int_value(p)],
        None => Seq::empty(),
    }) + (match color {
        Some(c) => seq![SqlValueView::Text(c)],
        None => Seq::empty(),
    }) + seq![SqlValueView::Integer(id)]
}

/// The statement of a partial tag update.
pub open spec fn tag_update_sql(name: Option<Seq<char>>, parent_id: Option<Option<i64>>, color: Option<Seq<char>>) -> Seq<char> {
    "UPDATE tags SET "@ + join(tag_update_assignments(name, parent_id, color), ", "@) + " WHERE id = ?"@
}

pub open spec fn opt_str_view(o: Option<&str>) -> Option<Seq<char>> {
    match o {
        Some(s) => Some(s@),
        None => None,
    }
}

/// Appends one assignment to the list of a partial update.
fn add_assignment(set: &mut String, first: bool, Ghost(items): Ghost<Seq<Seq<char>>>, clause: &str)
    requires
        old(set)@ == join(items, ", "@),
        first == (items.len() == 0),
    ensures
        final(set)@ == join(items.push(clause@), ", "@),
{
    let ghost next = items.push(clause@);
    assert(next.drop_last() =~= items);
    if !first {
        set.append(", ");
    }
    set.append(clause);
    if first {
        assert(set@ =~= clause@);
    }
}

/// Builds a partial tag update, or nothing when no field is to change.
pub fn tag_update_statement(id: i64, name: Option<&str>, parent_id: Option<Option<i64>>, color: Option<&str>) -> (r: Option<(String, Vec<SqlValue>)>)
    ensures
        (name is None && parent_id is None && color is None) <==> r is None,
        r matches Some(st) ==> {
            &&& st.0@ == tag_update_sql(opt_str_view(name), parent_id, opt_str_view(color))
            &&& values_view(st.1@) == tag_update_field_params(id, opt_str_view(name), parent_id, opt_str_view(color))
        },
{
    if name.is_none() && parent_id.is_none() && color.is_none() {
        return None;
    }
    let mut set = String::new();
    let mut params: Vec<SqlValue> = Vec::new();
    let ghost mut items: Seq<Seq<char>> = Seq::empty();
    let mut first = true;
    assert(values_view(params@) =~= Seq::<SqlValueView>::empty());
    assert(set@ =~= join(items, ", "@));
    if let Some(n) = name {
        add_assignment(&mut set, first, Ghost(items), "name = ?");
        first = false;
        proof {
            items = items.push("name = ?"@);
        }
        push_param(&mut params, text_value(n));
    }
    if let Some(p) = parent_id {
        add_assignment(&mut set, first, Ghost(items), "parent_id = ?");
        first = false;
        proof {
            items = items.push("parent_id = ?"@);
        }
        push_param(&mut params, opt_int_to_value(p));
    }
    if let Some(c) = color {
        add_assignment(&mut set, first, Ghost(items), "color = ?");
        first = false;
        proof {
            items = items.push("color = ?"@);
        }
        push_param(&mut params, text_value(c));
    }
    push_param(&mut params, int_value(id));
    assert(items =~= tag_update_assignments(opt_str_view(name), parent_id, opt_str_view(color)));
    assert(values_view(params@) =~= tag_update_field_params(id, opt_str_view(name), parent_id, opt_str_view(color)));
    let mut sql = "UPDATE tags SET ".to_owned();
    sql.append(set.as_str());
    sql.append(" WHERE id = ?");
    Some((sql, params))
}

/// Items each holding one placeholder, joined by a separator holding none,
/// hold one placeholder per item.
proof fn lemma_placeholders_join(items: Seq<Seq<char>>, sep: Seq<char>)
    requires
        placeholders(sep) == 0,
        forall|i: int| 0 <= i < items.len() ==> placeholders(#[trigger] items[i]) == 1,
    ensures
        placeholders(join(items, sep)) == items.len(),
    decreases items.len(),
{
    if items.len() > 1 {
        lemma_placeholders_join(items.drop_last(), sep);
        lemma_placeholders_add(join(items.drop_last(), sep), sep);
        lemma_placeholders_add(join(items.drop_last(), sep) + sep, items.last());
    }
}

/// Every parameter of a partial tag update fills one placeholder: one per
/// field assigned, then the id.
pub proof fn law_tag_update_binds_every_placeholder(
    id: i64,
    name: Option<Seq<char>>,
    parent_id: Option<Option<i64>>,
    color: Option<Seq<char>>,
)
    ensures
        placeholders(tag_update_sql(name, parent_id, color)) == tag_update_field_params(id, name, parent_id, color).len(),
{
    reveal_strlit("UPDATE tags SET ");
    reveal_strlit(", ");
    reveal_strlit(" WHERE id = ?");
    reveal_strlit("name = ?");
    reveal_strlit("parent_id = ?");
    reveal_strlit("color = ?");
    lemma_no_placeholders("UPDATE tags SET "@);
    lemma_no_placeholders(", "@);
    lemma_placeholder_at_end(" WHERE id = ?"@);
    lemma_placeholder_at_end("name = ?"@);
    lemma_placeholder_at_end("parent_id = ?"@);
    lemma_placeholder_at_end("color = ?"@);
    let items = tag_update_assignments(name, parent_id, color);
    assert forall|i: int| 0 <= i < items.len() implies placeholders(#[trigger] items[i]) == 1 by {
        assert(items[i] == "name = ?"@ || items[i] == "parent_id = ?"@ || items[i] == "color = ?"@);
    }
    lemma_placeholders_join(items, ", "@);
    let set = join(items, ", "@);
    lemma_placeholders_add("UPDATE tags SET "@, set);
    lemma_placeholders_add("UPDATE tags SET "@ + set, " WHERE id = ?"@);
}

/// A partial tag update binds, at the place of each assignment, the value
/// asked for that field: the new name's text, the new parent's id (or null
/// to clear it), the new color's text; the tag's id comes last.
pub proof fn law_tag_update_binds_asked_values(
    id: i64,
    name: Option<Seq<char>>,
    parent_id: Option<Option<i64>>,
    color: Option<Seq<char>>,
)
    ensures
        ({
            let items = tag_update_assignments(name, parent_id, color);
            let ps = tag_update_field_params(id, name, parent_id, color);
            &&& ps.len() == items.len() + 1
            &&& ps.last() == SqlValueView::Integer(id)
            &&& forall|i: int| 0 <= i < items.len() && #[trigger] items[i] == "name = ?"@ ==> (name matches Some(n) && ps[i] == SqlValueView::Text(n))
            &&& forall|i: int| 0 <= i < items.len() && #[trigger] items[i] == "parent_id = ?"@ ==> (match parent_id {
                Some(Some(p)) => ps[i] == SqlValueView::Integer(p),
                Some(None) => ps[i] == SqlValueView::Null,
                None => false,
            })
            &&& forall|i: int| 0 <= i < items.len() && #[trigger] items[i] == "color = ?"@ ==> (color matches Some(c) && ps[i] == SqlValueView::Text(c))
            &&& name is Some <==> items.contains("name = ?"@)
            &&& parent_id is Some <==> items.contains("parent_id = ?"@)
            &&& color is Some <==> items.contains("color = ?"@)
        }),
{
    reveal_strlit("name = ?");
    reveal_strlit("parent_id = ?");
    reveal_strlit("color = ?");
    assert("name = ?"@ != "parent_id = ?"@) by {
        assert("name = ?"@.len() != "parent_id = ?"@.len());
    }
    assert("name = ?"@ != "color = ?"@) by {
        assert("name = ?"@[0] != "color = ?"@[0]);
    }
    assert("parent_id = ?"@ != "color = ?"@) by {
        assert("parent_id = ?"@.len() != "color = ?"@.len());
    }
    let items = tag_update_assignments(name, parent_id, color);
    let ps = tag_update_field_params(id, name, parent_id, color);
    let a: Seq<Seq<char>> = if name is Some { seq!["name = ?"@] } else { Seq::empty() };
    let b: Seq<Seq<char>> = if parent_id is Some { seq!["parent_id = ?"@] } else { Seq::empty() };
    let c: Seq<Seq<char>> = if color is Some { seq!["color = ?"@] } else { Seq::empty() };
    assert(items == a + b + c);
    if name is Some {
        assert(items[0] == "name = ?"@);
    }
    if parent_id is Some {
        assert(items[a.len() as int] == "parent_id = ?"@);
    }
    if color is Some {
        assert(items[(a.len() + b.len()) as int] == "color = ?"@);
    }
}

/// The tag repository
pub struct TagRepository;

impl TagRepository {
    /// Inserts a tag stamped with the current time and gives its new id.
    pub fn insert(conn: &rusqlite::Connection, tag: &Tag) -> (r: Result<i64, DbError>)
        ensures
            r matches Err(e) ==> e is Sqlite,
    {
        let now = now_timestamp();
        let (sql, params) = tag_insert_statement(tag, now);
        execute(conn, sql.as_str(), &params)?;
        Ok(sqlite_last_insert_rowid(conn))
    }

    /// The tag with the given id, if there is one.
    pub fn get_by_id(conn: &rusqlite::Connection, id: i64) -> (r: Result<Option<Tag>, DbError>)
        ensures
            r matches Ok(Some(t)) ==> stored_tag(t),
            from_reply(ok_opt_view(r), reads_one(tag_decoder())),
    {
        let (sql, params) = tag_by_id_query(id);
        let rows = query(conn, sql.as_str(), &params)?;
        optional_tag(&rows)
    }

    /// All tags, by name.
    pub fn list(conn: &rusqlite::Connection) -> (r: Result<Vec<Tag>, DbError>)
        ensures
            r matches Ok(v) ==> forall|i: int| 0 <= i < v.len() ==> stored_tag(#[trigger] v@[i]),
            from_reply(ok_vec_view(r), reads_all(tag_decoder())),
    {
        let (sql, params) = tags_query();
        let rows = query(conn, sql.as_str(), &params)?;
        tag_rows(&rows)
    }

    /// Every tag with the number of media files it is on, most used first,
    /// then by name.
    pub fn get_usage(conn: &rusqlite::Connection) -> (r: Result<Vec<TagUsage>, DbError>)
        ensures
            from_reply(ok_vec_view(r), reads_all(usage_decoder())),
    {
        let (sql, params) = tag_usage_query();
        let rows = query(conn, sql.as_str(), &params)?;
        usage_rows(&rows)
    }

    /// Updates name, parent and color of the tag with the record's id.
    pub fn update(conn: &rusqlite::Connection, tag: &Tag) -> (r: Result<usize, DbError>)
        ensures
            r matches Err(e) ==> e is Sqlite,
    {
        let (sql, params) = tag_record_update_statement(tag);
        execute(conn, sql.as_str(), &params)
    }

    /// Removes a tag.
    pub fn delete(conn: &rusqlite::Connection, id: i64) -> (r: Result<usize, DbError>)
        ensures
            r matches Err(e) ==> e is Sqlite,
    {
        let (sql, params) = tag_delete_statement(id);
        execute(conn, sql.as_str(), &params)
    }

    /// The tag with the given name, if there is one.
    pub fn get_by_name(conn: &rusqlite::Connection, name: &str) -> (r: Result<Option<Tag>, DbError>)
        ensures
            r matches Ok(Some(t)) ==> stored_tag(t),
            from_reply(ok_opt_view(r), reads_one(tag_decoder())),
    {
        let (sql, params) = tag_by_name_query(name);
        let rows = query(conn, sql.as_str(), &params)?;
        optional_tag(&rows)
    }

    /// Changes only the fields given (a parent given as `Some(None)` is
    /// cleared); with no field given nothing is run and no row changes.
    pub fn update_fields(
        conn: &rusqlite::Connection,
        id: i64,
        name: Option<&str>,
        parent_id: Option<Option<i64>>,
        color: Option<&str>,
    ) -> (r: Result<usize, DbError>)
        ensures
            (name is None && parent_id is None && color is None) ==> r == Ok::<usize, DbError>(0),
            r matches Err(e) ==> e is Sqlite,
    {
        match tag_update_statement(id, name, parent_id, color) {
            None => Ok(0),
            Some((sql, params)) => execute(conn, sql.as_str(), &params),
        }
    }

    /// Whether some tag has this one as its parent.
    pub fn has_children(conn: &rusqlite::Connection, id: i64) -> (r: Result<bool, DbError>)
        ensures
            from_reply(r, reads_positive()),
    {
        let (sql, params) = tag_child_count_query(id);
        let rows = query(conn, sql.as_str(), &params)?;
        proof {
            lemma_from_reply(rows_view(rows@), reads_positive());
        }
        children_from_reply(&rows)
    }

    /// The ids of the direct children of a tag; rows that do not read as an
    /// id are passed over.
    pub fn child_ids(conn: &rusqlite::Connection, id: i64) -> (r: Result<Vec<i64>, DbError>)
        ensures
            r matches Err(e) ==> e is Sqlite,
    {
        let (sql, params) = tag_child_ids_query(id);
        let rows = query(conn, sql.as_str(), &params)?;
        Ok(readable_ids(&rows))
    }

    /// Moves every media link of the source tag to the target tag, keeping a
    /// media file's earliest link time and leaving links the target already
    /// has; then drops the source's links. Gives the number of links added.
    /// A tag merged into itself keeps its links: nothing is run, none added.
    pub fn merge_tags(conn: &rusqlite::Connection, source_id: i64, target_id: i64) -> (r: Result<usize, DbError>)
        ensures
            r matches Err(e) ==> e is Sqlite,
            source_id == target_id ==> r == Ok::<usize, DbError>(0),
    {
        if source_id == target_id {
            return Ok(0);
        }
        let (sql, params) = tag_merge_links_statement(target_id, source_id);
        let rows = execute(conn, sql.as_str(), &params)?;
        let (sql, params) = tag_drop_links_statement(source_id);
        execute(conn, sql.as_str(), &params)?;
        Ok(rows)
    }
}

// ---------------------------------------------------------------- media tags

/// The page query of a tag's media: the tag, then the page size and offset.
pub open spec fn tag_page_params(tag_id: i64, p: Pagination) -> Seq<SqlValueView> {
    seq![
        SqlValueView::Integer(tag_id),
        SqlValueView::Integer(p.page_size as i64),
        SqlValueView::Integer(spec_page_offset(p) as i64),
    ]
}

/// Consecutive pages follow each other: the first page starts at row 0,
/// and the next page of a tag's media, or of a media listing, starts right
/// after the rows of this one (its OFFSET is this OFFSET plus this LIMIT);
/// every page is limited to the page size.
pub proof fn law_pages_follow_each_other(tag_id: i64, f: SearchFilters, p: Pagination)
    requires
        p.page >= 1,
        p.page < usize::MAX,
        p.page * p.page_size <= i64::MAX,
    ensures
        ({
            let q = Pagination { page: (p.page + 1) as usize, page_size: p.page_size };
            let tp = tag_page_params(tag_id, p);
            let tq = tag_page_params(tag_id, q);
            let lp = list_page_params(f, p);
            let lq = list_page_params(f, q);
            let n: int = list_filter_params(f).len() as int;
            &&& tp[0] == SqlValueView::Integer(tag_id)
            &&& tp[1] == SqlValueView::Integer(p.page_size as i64)
            &&& lp[n] == SqlValueView::Integer(p.page_size as i64)
            &&& p.page == 1 ==> tp[2] == SqlValueView::Integer(0) && lp[n + 1] == SqlValueView::Integer(0)
            &&& tp[2] matches SqlValueView::Integer(a)
            &&& tq[2] matches SqlValueView::Integer(b)
            &&& b == a + p.page_size
            &&& lp[n + 1] == tp[2]
            &&& lq[n + 1] == tq[2]
        }),
{
    let a: int = (p.page - 1) * p.page_size;
    let b: int = p.page * p.page_size;
    assert(b == a + p.page_size && 0 <= a <= b && p.page_size <= b) by (nonlinear_arith)
        requires
            a == (p.page - 1) * p.page_size,
            b == p.page * p.page_size,
            p.page >= 1,
    ;
    let q = Pagination { page: (p.page + 1) as usize, page_size: p.page_size };
    assert(spec_page_offset(q) == b);
    assert(spec_page_offset(p) == a);
    if p.page == 1 {
        assert(a == 0) by (nonlinear_arith)
            requires
                a == (p.page - 1) * p.page_size,
                p.page == 1,
        ;
    }
}

/// Parameters of the page query of a tag's media.
pub fn tag_page_query_params(tag_id: i64, pagination: &Pagination) -> (r: Vec<SqlValue>)
    requires
        valid_page(*pagination),
    ensures
        values_view(r@) == tag_page_params(tag_id, *pagination),
{
    let offset = pagination.offset();
    let r = vec![
        int_value(tag_id),
        int_value(#[verifier::truncate] (pagination.page_size as i64)),
        int_value(#[verifier::truncate] (offset as i64)),
    ];
    assert(values_view(r@) =~= tag_page_params(tag_id, *pagination));
    r
}

/// The rows a batch of links added: the counts SQLite reported for each
/// link in order, summed (wrapping around on overflow).
pub open spec fn spec_batch_total(counts: Seq<usize>) -> usize
    decreases counts.len(),
{
    if counts.len() == 0 {
        0
    } else {
        spec_batch_total(counts.drop_last()).wrapping_add(counts.last())
    }
}

/// The rows a batch of links added, from the counts SQLite reported.
pub fn batch_total(counts: &Vec<usize>) -> (r: usize)
    ensures
        r == spec_batch_total(counts@),
{
    let mut total: usize = 0;
    let mut i: usize = 0;
    assert(counts@.take(0) =~= Seq::<usize>::empty());
    while i < counts.len()
        invariant
            i <= counts.len(),
            total == spec_batch_total(counts@.take(i as int)),
        decreases counts.len() - i,
    {
        assert(counts@.take(i + 1).drop_last() =~= counts@.take(i as int));
        total = total.wrapping_add(counts[i]);
        i = i + 1;
    }
    assert(counts@.take(counts.len() as int) =~= counts@);
    total
}

/// Media-tag links
pub struct MediaTagRepository;

impl MediaTagRepository {
    /// Links a tag to a media file, stamped with now; a link that exists is kept.
    pub fn add(conn: &rusqlite::Connection, media_id: i64, tag_id: i64) -> (r: Result<(), DbError>)
        ensures
            r matches Err(e) ==> e is Sqlite,
    {
        let now = now_timestamp();
        let (sql, params) = media_tag_add_statement(media_id, tag_id, now);
        execute(conn, sql.as_str(), &params)?;
        Ok(())
    }

    /// Unlinks a tag from a media file.
    pub fn remove(conn: &rusqlite::Connection, media_id: i64, tag_id: i64) -> (r: Result<usize, DbError>)
        ensures
            r matches Err(e) ==> e is Sqlite,
    {
        let (sql, params) = media_tag_remove_statement(media_id, tag_id);
        execute(conn, sql.as_str(), &params)
    }

    /// The tags linked to a media file.
    pub fn get_tags_for_media(conn: &rusqlite::Connection, media_id: i64) -> (r: Result<Vec<Tag>, DbError>)
        ensures
            r matches Ok(v) ==> forall|i: int| 0 <= i < v.len() ==> stored_tag(#[trigger] v@[i]),
            from_reply(ok_vec_view(r), reads_all(tag_decoder())),
    {
        let (sql, params) = media_tags_query(media_id);
        let rows = query(conn, sql.as_str(), &params)?;
        tag_rows(&rows)
    }

    /// One page of the media files not deleted that carry the tag, newest
    /// taken first, with the number of all of them and the number of pages.
    pub fn get_media_for_tag(conn: &rusqlite::Connection, tag_id: i64, pagination: &Pagination) -> (r: Result<SearchResult<MediaFile>, DbError>)
        requires
            valid_page(*pagination),
        ensures
            r matches Ok(res) ==> {
                &&& res.page == pagination.page
                &&& res.page_size == pagination.page_size
                &&& res.total_pages == spec_total_pages(res.total, pagination.page_size)
                &&& forall|i: int| 0 <= i < res.items.len() ==> stored_media(#[trigger] res.items@[i])
            },
            r matches Ok(res) ==> reply_value(res.items@.map_values(|m: MediaFile| m@), reads_all(media_decoder())),
            r matches Err(e) ==> e is Sqlite || reply_error(e, reads_first(int_decoder())) || reply_error(e, reads_all(media_decoder())),
    {
        let (sql, params) = tag_media_count_query(tag_id);
        let rows = query(conn, sql.as_str(), &params)?;
        let total = match first_int(&rows) {
            Ok(t) => t,
            Err(e) => {
                proof {
                    lemma_from_reply(rows_view(rows@), reads_first(int_decoder()));
                }
                return Err(e);
            },
        };
        let (sql, params) = tag_media_page_query(tag_id, pagination);
        let rows = query(conn, sql.as_str(), &params)?;
        let r = media_page(&rows, total, pagination);
        proof {
            lemma_from_reply(rows_view(rows@), reads_all(media_decoder()));
        }
        r
    }

    /// Links each tag in turn to a media file, all stamped with the same time,
    /// as one transaction: at the first failure every link this call made is
    /// undone and the failure is given. Gives the number of links added (the
    /// count wraps around on overflow); no tags, no statement and no link.
    pub fn batch_add(conn: &rusqlite::Connection, media_id: i64, tag_ids: &[i64]) -> (r: Result<usize, DbError>)
        ensures
            r matches Err(e) ==> e is Sqlite,
            tag_ids.len() == 0 ==> r == Ok::<usize, DbError>(0),
    {
        if tag_ids.len() == 0 {
            return Ok(0);
        }
        let now = now_timestamp();
        execute_batch(conn, batch_begin_statement())?;
        let mut counts: Vec<usize> = Vec::new();
        let mut i: usize = 0;
        while i < tag_ids.len()
            invariant
                i <= tag_ids.len(),
                counts.len() == i,
            decreases tag_ids.len() - i,
        {
            let (sql, params) = media_tag_add_statement(media_id, tag_ids[i], now);
            match execute(conn, sql.as_str(), &params) {
                Ok(rows) => counts.push(rows),
                Err(e) => {
                    let _ = execute_batch(conn, batch_rollback_statement());
                    return Err(e);
                },
            }
            i = i + 1;
        }
        match execute_batch(conn, batch_commit_statement()) {
            Ok(()) => Ok(batch_total(&counts)),
            Err(e) => {
                let _ = execute_batch(conn, batch_rollback_statement());
                Err(e)
            },
        }
    }
}

// ---------------------------------------------------------------- albums

/// An album as the catalogue gives it back: with its id.
pub open spec fn stored_album(a: Album) -> bool {
    a.id is Some
}

/// Reads an album row with its media count.
fn counted_album_from_row(row: &Vec<SqlValue>) -> (r: Result<Album, DbError>)
    ensures
        ok_view(r) == spec_album_from_row(values_view(row@), true),
{
    album_from_row(row, true)
}

/// The albums, with their media counts, the rows of a counting album query
/// read as.
pub fn album_rows(rows: &Vec<Vec<SqlValue>>) -> (r: Result<Vec<Album>, DbError>)
    ensures
        ok_vec_view(r) == decode_all(rows_view(rows@), counted_album_decoder()),
        r matches Ok(v) ==> forall|i: int| 0 <= i < v.len() ==> stored_album(#[trigger] v@[i]) && v@[i].media_count is Some,
        from_reply(ok_vec_view(r), reads_all(counted_album_decoder())),
{
    let r = {
        let r = decode_rows(rows, counted_album_from_row, Ghost(counted_album_decoder()));
        proof {
            if r is Ok {
                let v = r->Ok_0;
                let xs = v@.map_values(|a: Album| a@);
                crate::decode::lemma_decode_all_each(rows_view(rows@), counted_album_decoder(), xs);
                assert forall|i: int| 0 <= i < v.len() implies stored_album(#[trigger] v@[i]) && v@[i].media_count is Some by {
                    assert(xs[i] == v@[i]@);
                    assert(counted_album_decoder()(rows_view(rows@)[i]) == Ok::<AlbumView, DbError>(xs[i]));
                }
            }
        }
        r
    };
    proof {
        lemma_from_reply(rows_view(rows@), reads_all(counted_album_decoder()));
    }
    r
}

/// The album, without media count, the first row of an album query reads as,
/// if there is a row.
pub fn optional_album(rows: &Vec<Vec<SqlValue>>) -> (r: Result<Option<Album>, DbError>)
    ensures
        crate::decode::ok_opt_view(r) == decode_optional(rows_view(rows@), album_decoder()),
        r matches Ok(Some(a)) ==> stored_album(a) && a.media_count is None,
        from_reply(crate::decode::ok_opt_view(r), reads_one(album_decoder())),
{
    let r = {
        if rows.len() == 0 {
            Ok(None)
        } else {
            assert(rows_view(rows@)[0] == values_view(rows@[0]@));
            match album_from_row(&rows[0], false) {
                Ok(a) => Ok(Some(a)),
                Err(e) => Err(e),
            }
        }
    };
    proof {
        lemma_from_reply(rows_view(rows@), reads_one(album_decoder()));
    }
    r
}

/// Parameters of an album insertion: name, description, cover, creation time.
pub open spec fn spec_album_insert_params(a: AlbumView, now: i64) -> Seq<SqlValueView> {
    seq![
        SqlValueView::Text(a.name),
        opt_text_value(a.description),
        opt_int_value(a.cover_media_id),
        SqlValueView::Integer(now),
    ]
}

/// Parameters of an album insertion: name, description, cover, creation time.
pub fn album_insert_params(album: &Album, now: i64) -> (r: Vec<SqlValue>)
    ensures
        values_view(r@) == spec_album_insert_params(album@, now),
{
    let r = vec![text_value(album.name.as_str()), opt_text_to_value(&album.description), opt_int_to_value(album.cover_media_id), int_value(now)];
    assert(values_view(r@) =~= spec_album_insert_params(album@, now));
    r
}

/// An album written by `AlbumRepository::insert` at time `now` reads back,
/// from the row SQLite keeps for it, as the same album with its assigned id,
/// stamped with `now`, without media count.
pub proof fn law_album_insert_read_back(a: AlbumView, now: i64, id: i64)
    ensures
        crate::decode::spec_album_from_row(seq![SqlValueView::Integer(id)] + spec_album_insert_params(a, now), false)
            == Ok::<AlbumView, DbError>(AlbumView { id: Some(id), created_at: now, media_count: None, ..a }),
{
    let row = seq![SqlValueView::Integer(id)] + spec_album_insert_params(a, now);
    let kinds = crate::decode::album_kinds();
    assert forall|j: int| 0 <= j < kinds.len() implies crate::sqlite::column_error(row, j, #[trigger] kinds[j]) is None by {
        assert(row[j] == (if j == 0 { SqlValueView::Integer(id) } else { spec_album_insert_params(a, now)[j - 1] }));
    }
    crate::sqlite::lemma_row_error_from(row, kinds, 0);
}

/// Parameters of an album update: name, description, cover, then the id.
pub open spec fn spec_album_update_params(a: AlbumView) -> Seq<SqlValueView> {
    seq![
        SqlValueView::Text(a.name),
        opt_text_value(a.description),
        opt_int_value(a.cover_media_id),
        opt_int_value(a.id),
    ]
}

/// Parameters of an album update: name, description, cover, then the id.
pub fn album_update_params(album: &Album) -> (r: Vec<SqlValue>)
    ensures
        values_view(r@) == spec_album_update_params(album@),
{
    let r = vec![text_value(album.name.as_str()), opt_text_to_value(&album.description), opt_int_to_value(album.cover_media_id), opt_int_to_value(album.id)];
    assert(values_view(r@) =~= spec_album_update_params(album@));
    r
}

/// Album repository
pub struct AlbumRepository;

impl AlbumRepository {
    /// Inserts an album stamped with the current time and gives its new id.
    pub fn insert(conn: &rusqlite::Connection, album: &Album) -> (r: Result<i64, DbError>)
        ensures
            r matches Err(e) ==> e is Sqlite,
    {
        let now = now_timestamp();
        let (sql, params) = album_insert_statement(album, now);
        execute(conn, sql.as_str(), &params)?;
        Ok(sqlite_last_insert_rowid(conn))
    }

    /// The album with the given id, if there is one (without media count).
    pub fn get_by_id(conn: &rusqlite::Connection, id: i64) -> (r: Result<Option<Album>, DbError>)
        ensures
            r matches Ok(Some(a)) ==> stored_album(a) && a.media_count is None,
            from_reply(ok_opt_view(r), reads_one(album_decoder())),
    {
        let (sql, params) = album_by_id_query(id);
        let rows = query(conn, sql.as_str(), &params)?;
        optional_album(&rows)
    }

    /// All albums with their media counts, newest first.
    pub fn list(conn: &rusqlite::Connection) -> (r: Result<Vec<Album>, DbError>)
        ensures
            r matches Ok(v) ==> forall|i: int| 0 <= i < v.len() ==> stored_album(#[trigger] v@[i]) && v@[i].media_count is Some,
            from_reply(ok_vec_view(r), reads_all(counted_album_decoder())),
    {
        let (sql, params) = albums_query();
        let rows = query(conn, sql.as_str(), &params)?;
        album_rows(&rows)
    }

    /// Updates name, description and cover of the album with the record's id.
    pub fn update(conn: &rusqlite::Connection, album: &Album) -> (r: Result<usize, DbError>)
        ensures
            r matches Err(e) ==> e is Sqlite,
    {
        let (sql, params) = album_update_statement(album);
        execute(conn, sql.as_str(), &params)
    }

    /// Removes an album.
    pub fn delete(conn: &rusqlite::Connection, id: i64) -> (r: Result<usize, DbError>)
        ensures
            r matches Err(e) ==> e is Sqlite,
    {
        let (sql, params) = album_delete_statement(id);
        execute(conn, sql.as_str(), &params)
    }
}

/// Album-media links
pub struct AlbumMediaRepository;

impl AlbumMediaRepository {
    /// Puts a media file in an album at a position, replacing its position if
    /// it is there already.
    pub fn add(conn: &rusqlite::Connection, album_id: i64, media_id: i64, position: i32) -> (r: Result<(), DbError>)
        ensures
            r matches Err(e) ==> e is Sqlite,
    {
        let (sql, params) = album_media_add_statement(album_id, media_id, position);
        execute(conn, sql.as_str(), &params)?;
        Ok(())
    }

    /// Takes a media file out of an album.
    pub fn remove(conn: &rusqlite::Connection, album_id: i64, media_id: i64) -> (r: Result<usize, DbError>)
        ensures
            r matches Err(e) ==> e is Sqlite,
    {
        let (sql, params) = album_media_remove_statement(album_id, media_id);
        execute(conn, sql.as_str(), &params)
    }

    /// The media files not deleted in an album, by position.
    pub fn get_media_for_album(conn: &rusqlite::Connection, album_id: i64) -> (r: Result<Vec<MediaFile>, DbError>)
        ensures
            r matches Ok(v) ==> forall|i: int| 0 <= i < v.len() ==> stored_media(#[trigger] v@[i]),
            from_reply(ok_vec_view(r), reads_all(media_decoder())),
    {
        let (sql, params) = album_media_query(album_id);
        let rows = query(conn, sql.as_str(), &params)?;
        media_rows(&rows)
    }
}

/// The reply of a counting query that takes no parameters, once its first
/// row is known to read as a count.
fn count_of(conn: &rusqlite::Connection, sql: &str) -> (r: Result<Vec<Vec<SqlValue>>, DbError>)
    ensures
        r matches Ok(rows) ==> decode_first(rows_view(rows@), int_decoder()) is Ok,
        r matches Err(e) ==> e is Sqlite || reply_error(e, reads_first(int_decoder())),
{
    let params: Vec<SqlValue> = Vec::new();
    let rows = query(conn, sql, &params)?;
    match first_int(&rows) {
        Ok(_) => Ok(rows),
        Err(e) => {
            proof {
                lemma_from_reply(rows_view(rows@), reads_first(int_decoder()));
            }
            Err(e)
        },
    }
}

/// Counts of the catalogue: files not deleted (all, images, videos), their
/// total size, tags and albums. The counting queries of `stats_queries` run
/// in order, the first failure ending the run; their replies are read by
/// `stats_from_replies`.
pub fn get_stats(conn: &rusqlite::Connection) -> (r: Result<DatabaseStats, DbError>)
    ensures
        r matches Err(e) ==> e is Sqlite || reply_error(e, reads_first(int_decoder())),
{
    let queries = stats_queries();
    let mut replies: Vec<Vec<Vec<SqlValue>>> = Vec::new();
    let mut i: usize = 0;
    while i < queries.len()
        invariant
            i <= queries.len(),
            queries.len() == 6,
            replies.len() == i,
            forall|j: int| 0 <= j < i ==> decode_first(rows_view(#[trigger] replies@[j]@), int_decoder()) is Ok,
        decreases queries.len() - i,
    {
        let rows = count_of(conn, queries[i].as_str())?;
        replies.push(rows);
        i = i + 1;
    }
    let r = stats_from_replies(&replies);
    proof {
        let rv = replies@.map_values(|rows: Vec<Vec<SqlValue>>| rows_view(rows@));
        assert forall|j: int| 0 <= j < 6 implies decode_first(#[trigger] rv[j], int_decoder()) is Ok by {
            assert(rv[j] == rows_view(replies@[j]@));
        }
    }
    r
}

/// The outcome of deleting a tag that must have no children.
#[derive(Debug, Clone, Copy, PartialEq, Eq, Structural)]
pub enum LeafDeletion {
    /// The tag was deleted; the number of rows deleted.
    Deleted(usize),
    /// The tag has children and was left in place.
    HasChildren,
}

impl TagRepository {
    /// Deletes a tag unless some tag has it as parent; then nothing is deleted.
    pub fn delete_if_leaf(conn: &rusqlite::Connection, id: i64) -> (r: Result<LeafDeletion, DbError>)
        ensures
            r matches Err(e) ==> e is Sqlite || reply_error(e, reads_positive()),
    {
        let (sql, params) = tag_child_count_query(id);
        let rows = query(conn, sql.as_str(), &params)?;
        proof {
            lemma_from_reply(rows_view(rows@), reads_positive());
        }
        TagRepository::finish_leaf_deletion(conn, id, &rows)
    }

    /// The rest of deleting a tag that must have no children, once the reply
    /// counting its children is in: a positive count refuses, with nothing
    /// run; a zero count deletes the tag and gives the rows deleted; a reply
    /// that does not read as a count gives its error, with nothing run.
    pub fn finish_leaf_deletion(conn: &rusqlite::Connection, id: i64, count_reply: &Vec<Vec<SqlValue>>) -> (r: Result<LeafDeletion, DbError>)
        ensures
            reads_positive()(rows_view(count_reply@)) == Ok::<bool, DbError>(true) ==> r == Ok::<LeafDeletion, DbError>(LeafDeletion::HasChildren),
            reads_positive()(rows_view(count_reply@)) == Ok::<bool, DbError>(false) ==> (r matches Ok(LeafDeletion::Deleted(_)) || r matches Err(DbError::Sqlite(_))),
            reads_positive()(rows_view(count_reply@)) matches Err(e) ==> r == Err::<LeafDeletion, DbError>(e),
    {
        match children_from_reply(count_reply) {
            Err(e) => Err(e),
            Ok(true) => Ok(LeafDeletion::HasChildren),
            Ok(false) => {
                let (sql, params) = tag_delete_statement(id);
                let n = execute(conn, sql.as_str(), &params)?;
                Ok(LeafDeletion::Deleted(n))
            },
        }
    }
}

impl TagRepository {
    /// Deletes a tag with all its descendants, children first, as the
    /// deletion machine of `tag_tree` directs: it lists each tag's children
    /// and deletes a tag only once every child listed for it is deleted.
    /// Gives the number of rows deleted (wrapping around on overflow). The
    /// first failure ends the deletion and is given.
    pub fn delete_with_children(conn: &rusqlite::Connection, id: i64) -> (r: Result<usize, DbError>)
        ensures
            r matches Err(e) ==> e is Sqlite || e is TreeNotFinished,
    {
        let (mut machine, first) = TagDeletion::start(id);
        let mut step = first;
        let mut budget: u64 = u64::MAX;
        loop
            invariant
                machine.wf(),
                step is ListChildren ==> machine.spec_awaiting() == Awaiting::Children,
                step is Delete ==> machine.spec_awaiting() == Awaiting::Deleted,
            decreases budget,
        {
            if budget == 0 {
                return Err(DbError::TreeNotFinished);
            }
            budget = budget - 1;
            step = match step {
                TagDeletionStep::ListChildren(tag) => {
                    let children = TagRepository::child_ids(conn, tag)?;
                    machine.on_children(children)
                },
                TagDeletionStep::Delete(tag) => {
                    let rows = TagRepository::delete(conn, tag)?;
                    machine.on_deleted(rows)
                },
                TagDeletionStep::Done(total) => {
                    return Ok(total);
                },
            };
        }
    }
}

/// Whether the reply counting a tag's children says it has some: a positive
/// count; a reply that does not read as a count gives its error.
pub fn children_from_reply(rows: &Vec<Vec<SqlValue>>) -> (r: Result<bool, DbError>)
    ensures
        r == reads_positive()(rows_view(rows@)),
{
    match first_int(rows) {
        Ok(n) => Ok(n > 0),
        Err(e) => Err(e),
    }
}

/// The ids the rows of an id query read as, passing over rows that do not.
pub open spec fn spec_readable_ids(rows: Seq<Seq<SqlValueView>>) -> Seq<i64>
    decreases rows.len(),
{
    if rows.len() == 0 {
        Seq::empty()
    } else {
        match crate::decode::spec_int_from_row(rows.last()) {
            Ok(v) => spec_readable_ids(rows.drop_last()).push(v),
            Err(_) => spec_readable_ids(rows.drop_last()),
        }
    }
}

/// The ids the rows of an id query read as, passing over rows that do not.
pub fn readable_ids(rows: &Vec<Vec<SqlValue>>) -> (r: Vec<i64>)
    ensures
        r@ == spec_readable_ids(rows_view(rows@)),
{
    let ghost rv = rows_view(rows@);
    let mut out: Vec<i64> = Vec::new();
    let mut i: usize = 0;
    assert(rv.take(0) =~= Seq::<Seq<SqlValueView>>::empty());
    while i < rows.len()
        invariant
            i <= rows.len(),
            rv == rows_view(rows@),
            out@ == spec_readable_ids(rv.take(i as int)),
        decreases rows.len() - i,
    {
        proof {
            assert(rv.take(i + 1).drop_last() =~= rv.take(i as int));
            assert(rv.take(i + 1).last() == values_view(rows@[i as int]@));
        }
        match crate::decode::int_from_row(&rows[i]) {
            Ok(v) => out.push(v),
            Err(_) => {},
        }
        i = i + 1;
    }
    assert(rv.take(rows.len() as int) =~= rv);
    out
}

} // verus!
