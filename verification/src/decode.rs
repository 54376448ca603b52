//! How catalogue rows read back as records: every column is read in order,
//! the first column that cannot be read as its field's type gives the error.

use vstd::prelude::*;
use crate::models::{
    FileType, MediaFile, MediaFileView, Tag, TagView, Album, AlbumView, TagUsage, TagUsageView,
    spec_type_of_lower_name,
};
use crate::sqlite::{
    SqlValue, SqlValueView, DbError, ColumnKind, values_view, column_error, row_error,
    row_error_from, int_at, opt_int_at, opt_i32_at, text_at, opt_text_at, opt_real_at, check_row,
    get_int, get_opt_int, get_opt_i32, get_text, get_opt_text, get_opt_real,
};
use crate::text::{spec_lowercase, opt_view};

verus! {

/// The mathematical form of the rows a query gave.
pub open spec fn rows_view(rows: Seq<Vec<SqlValue>>) -> Seq<Seq<SqlValueView>> {
    rows.map_values(|r: Vec<SqlValue>| values_view(r@))
}

/// The mathematical form of a decoding outcome.
pub open spec fn ok_view<T: View>(r: Result<T, DbError>) -> Result<T::V, DbError> {
    match r {
        Ok(x) => Ok(x@),
        Err(e) => Err(e),
    }
}

/// Reading every row in order; the first row that cannot be read gives the error.
pub open spec fn decode_all<T>(
    rows: Seq<Seq<SqlValueView>>,
    f: spec_fn(Seq<SqlValueView>) -> Result<T, DbError>,
) -> Result<Seq<T>, DbError>
    decreases rows.len(),
{
    if rows.len() == 0 {
        Ok(Seq::empty())
    } else {
        match decode_all(rows.drop_last(), f) {
            Err(e) => Err(e),
            Ok(xs) => match f(rows.last()) {
                Err(e) => Err(e),
                Ok(x) => Ok(xs.push(x)),
            },
        }
    }
}

/// Reading the first row of a query that must yield one.
pub open spec fn decode_first<T>(
    rows: Seq<Seq<SqlValueView>>,
    f: spec_fn(Seq<SqlValueView>) -> Result<T, DbError>,
) -> Result<T, DbError> {
    if rows.len() == 0 {
        Err(DbError::QueryReturnedNoRows)
    } else {
        f(rows[0])
    }
}

/// Reading the first row of a query that may yield none.
pub open spec fn decode_optional<T>(
    rows: Seq<Seq<SqlValueView>>,
    f: spec_fn(Seq<SqlValueView>) -> Result<T, DbError>,
) -> Result<Option<T>, DbError> {
    if rows.len() == 0 {
        Ok(None)
    } else {
        match f(rows[0]) {
            Ok(x) => Ok(Some(x)),
            Err(e) => Err(e),
        }
    }
}

proof fn lemma_row_ok(row: Seq<SqlValueView>, kinds: Seq<ColumnKind>, i: int)
    requires
        0 <= i <= kinds.len(),
        row_error_from(row, kinds, i) is None,
    ensures
        forall|j: int| i <= j < kinds.len() ==> column_error(row, j, #[trigger] kinds[j]) is None,
    decreases kinds.len() - i,
{
    if i < kinds.len() {
        lemma_row_ok(row, kinds, i + 1);
    }
}

// ---------------------------------------------------------------- media files

/// Column types of a media file row, in the order the queries select them.
pub open spec fn media_kinds() -> Seq<ColumnKind> {
    seq![
        ColumnKind::I64, ColumnKind::Text, ColumnKind::Text, ColumnKind::I64,
        ColumnKind::OptI32, ColumnKind::OptI32, ColumnKind::OptI32, ColumnKind::I64,
        ColumnKind::I64, ColumnKind::OptI64, ColumnKind::OptText, ColumnKind::OptReal,
        ColumnKind::OptReal, ColumnKind::OptText, ColumnKind::OptText, ColumnKind::I32,
    ]
}

fn media_kinds_exec() -> (r: Vec<ColumnKind>)
    ensures
        r@ == media_kinds(),
{
    let r = vec![
        ColumnKind::I64, ColumnKind::Text, ColumnKind::Text, ColumnKind::I64,
        ColumnKind::OptI32, ColumnKind::OptI32, ColumnKind::OptI32, ColumnKind::I64,
        ColumnKind::I64, ColumnKind::OptI64, ColumnKind::OptText, ColumnKind::OptReal,
        ColumnKind::OptReal, ColumnKind::OptText, ColumnKind::OptText, ColumnKind::I32,
    ];
    assert(r@ =~= media_kinds());
    r
}

/// A stored type name reads as its file type; an unknown name reads as an image.
pub open spec fn stored_file_type(t: Seq<char>) -> FileType {
    match spec_type_of_lower_name(spec_lowercase(t)) {
        Some(ft) => ft,
        None => FileType::Image,
    }
}

/// The media file a row of the media columns reads as.
pub open spec fn spec_media_from_row(row: Seq<SqlValueView>) -> Result<MediaFileView, DbError> {
    match row_error(row, media_kinds()) {
        Some(e) => Err(e),
        None => Ok(
            MediaFileView {
                id: Some(int_at(row, 0)),
                file_path: text_at(row, 1),
                file_type: stored_file_type(text_at(row, 2)),
                file_size: int_at(row, 3),
                width: opt_i32_at(row, 4),
                height: opt_i32_at(row, 5),
                duration: opt_i32_at(row, 6),
                created_at: int_at(row, 7),
                modified_at: int_at(row, 8),
                taken_at: opt_int_at(row, 9),
                device: opt_text_at(row, 10),
                gps_lat: opt_real_at(row, 11),
                gps_lon: opt_real_at(row, 12),
                checksum: opt_text_at(row, 13),
                thumbnail_path: opt_text_at(row, 14),
                is_deleted: int_at(row, 15) != 0,
                tags: None,
            },
        ),
    }
}

/// Reads a row of the media columns as a media file.
pub fn media_from_row(row: &Vec<SqlValue>) -> (r: Result<MediaFile, DbError>)
    ensures
        ok_view(r) == spec_media_from_row(values_view(row@)),
{
    let kinds = media_kinds_exec();
    if let Some(e) = check_row(row, &kinds) {
        return Err(e);
    }
    let ghost rv = values_view(row@);
    proof {
        lemma_row_ok(rv, kinds@, 0);
        assert forall|j: int| 0 <= j < 16 implies rv[j] == #[trigger] row@[j]@ by {}
        assert(column_error(rv, 0, kinds@[0]) is None);
        assert(column_error(rv, 15, kinds@[15]) is None);
        assert(column_error(rv, 4, kinds@[4]) is None);
        assert(column_error(rv, 5, kinds@[5]) is None);
        assert(column_error(rv, 6, kinds@[6]) is None);
        assert(column_error(rv, 3, kinds@[3]) is None);
        assert(column_error(rv, 7, kinds@[7]) is None);
        assert(column_error(rv, 8, kinds@[8]) is None);
    }
    let stored_name = get_text(row, 2);
    let file_type = match FileType::from_str(stored_name.as_str()) {
        Some(t) => t,
        None => FileType::Image,
    };
    let m = MediaFile {
        id: Some(get_int(row, 0)),
        file_path: get_text(row, 1),
        file_type,
        file_size: get_int(row, 3),
        width: get_opt_i32(row, 4),
        height: get_opt_i32(row, 5),
        duration: get_opt_i32(row, 6),
        created_at: get_int(row, 7),
        modified_at: get_int(row, 8),
        taken_at: get_opt_int(row, 9),
        device: get_opt_text(row, 10),
        gps_lat: get_opt_real(row, 11),
        gps_lon: get_opt_real(row, 12),
        checksum: get_opt_text(row, 13),
        thumbnail_path: get_opt_text(row, 14),
        is_deleted: get_int(row, 15) != 0,
        tags: None,
    };
    Ok(m)
}

/// Reading a row of the media columns, as a function value.
pub open spec fn media_decoder() -> spec_fn(Seq<SqlValueView>) -> Result<MediaFileView, DbError> {
    |row: Seq<SqlValueView>| spec_media_from_row(row)
}

// ---------------------------------------------------------------- tags

pub open spec fn tag_kinds() -> Seq<ColumnKind> {
    seq![ColumnKind::I64, ColumnKind::Text, ColumnKind::OptI64, ColumnKind::OptText, ColumnKind::I64]
}

/// The tag a row `id, name, parent_id, color, created_at` reads as.
pub open spec fn spec_tag_from_row(row: Seq<SqlValueView>) -> Result<TagView, DbError> {
    match row_error(row, tag_kinds()) {
        Some(e) => Err(e),
        None => Ok(
            TagView {
                id: Some(int_at(row, 0)),
                name: text_at(row, 1),
                parent_id: opt_int_at(row, 2),
                color: opt_text_at(row, 3),
                created_at: int_at(row, 4),
                media_count: None,
            },
        ),
    }
}

pub open spec fn tag_decoder() -> spec_fn(Seq<SqlValueView>) -> Result<TagView, DbError> {
    |row: Seq<SqlValueView>| spec_tag_from_row(row)
}

/// Reads a row `id, name, parent_id, color, created_at` as a tag.
pub fn tag_from_row(row: &Vec<SqlValue>) -> (r: Result<Tag, DbError>)
    ensures
        ok_view(r) == spec_tag_from_row(values_view(row@)),
{
    let kinds = vec![ColumnKind::I64, ColumnKind::Text, ColumnKind::OptI64, ColumnKind::OptText, ColumnKind::I64];
    assert(kinds@ =~= tag_kinds());
    if let Some(e) = check_row(row, &kinds) {
        return Err(e);
    }
    let ghost rv = values_view(row@);
    proof {
        lemma_row_ok(rv, kinds@, 0);
        assert forall|j: int| 0 <= j < 5 implies rv[j] == #[trigger] row@[j]@ by {}
        assert(column_error(rv, 0, kinds@[0]) is None);
        assert(column_error(rv, 4, kinds@[4]) is None);
    }
    Ok(Tag {
        id: Some(get_int(row, 0)),
        name: get_text(row, 1),
        parent_id: get_opt_int(row, 2),
        color: get_opt_text(row, 3),
        created_at: get_int(row, 4),
        media_count: None,
    })
}

/// The usage line a row `id, name, parent_id, color, usage_count` reads as.
pub open spec fn spec_usage_from_row(row: Seq<SqlValueView>) -> Result<TagUsageView, DbError> {
    match row_error(row, tag_kinds()) {
        Some(e) => Err(e),
        None => Ok(
            TagUsageView {
                id: int_at(row, 0),
                name: text_at(row, 1),
                parent_id: opt_int_at(row, 2),
                color: opt_text_at(row, 3),
                usage_count: int_at(row, 4),
            },
        ),
    }
}

pub open spec fn usage_decoder() -> spec_fn(Seq<SqlValueView>) -> Result<TagUsageView, DbError> {
    |row: Seq<SqlValueView>| spec_usage_from_row(row)
}

/// A usage line reads a tag the way the tag reader does: a row reads as a
/// usage line exactly when it reads as a tag, and then the line has the
/// tag's id, name, parent and color; its count is the row's fifth column.
pub proof fn law_usage_line_agrees_with_tag(row: Seq<SqlValueView>)
    ensures
        spec_usage_from_row(row) is Ok <==> spec_tag_from_row(row) is Ok,
        spec_usage_from_row(row) matches Err(e) ==> spec_tag_from_row(row) == Err::<TagView, DbError>(e),
        spec_usage_from_row(row) matches Ok(u) ==> ({
            let t = spec_tag_from_row(row)->Ok_0;
            &&& t.id == Some(u.id)
            &&& t.name == u.name
            &&& t.parent_id == u.parent_id
            &&& t.color == u.color
            &&& u.usage_count == int_at(row, 4)
        }),
{
}

/// Reads a row `id, name, parent_id, color, usage_count` as a usage line.
pub fn usage_from_row(row: &Vec<SqlValue>) -> (r: Result<TagUsage, DbError>)
    ensures
        ok_view(r) == spec_usage_from_row(values_view(row@)),
        r matches Ok(u) ==> {
            &&& u.id == int_at(values_view(row@), 0)
            &&& u.name@ == text_at(values_view(row@), 1)
            &&& u.parent_id == opt_int_at(values_view(row@), 2)
            &&& opt_view(u.color) == opt_text_at(values_view(row@), 3)
            &&& u.usage_count == int_at(values_view(row@), 4)
        },
{
    let kinds = vec![ColumnKind::I64, ColumnKind::Text, ColumnKind::OptI64, ColumnKind::OptText, ColumnKind::I64];
    assert(kinds@ =~= tag_kinds());
    if let Some(e) = check_row(row, &kinds) {
        return Err(e);
    }
    let ghost rv = values_view(row@);
    proof {
        lemma_row_ok(rv, kinds@, 0);
        assert forall|j: int| 0 <= j < 5 implies rv[j] == #[trigger] row@[j]@ by {}
        assert(column_error(rv, 0, kinds@[0]) is None);
        assert(column_error(rv, 4, kinds@[4]) is None);
    }
    Ok(TagUsage {
        id: get_int(row, 0),
        name: get_text(row, 1),
        parent_id: get_opt_int(row, 2),
        color: get_opt_text(row, 3),
        usage_count: get_int(row, 4),
    })
}

// ---------------------------------------------------------------- albums

pub open spec fn album_kinds() -> Seq<ColumnKind> {
    seq![ColumnKind::I64, ColumnKind::Text, ColumnKind::OptText, ColumnKind::OptI64, ColumnKind::I64]
}

pub open spec fn counted_album_kinds() -> Seq<ColumnKind> {
    album_kinds().push(ColumnKind::I64)
}

/// The album a row `id, name, description, cover_media_id, created_at`
/// reads as; with `counted`, a sixth column gives its media count.
pub open spec fn spec_album_from_row(row: Seq<SqlValueView>, counted: bool) -> Result<AlbumView, DbError> {
    match row_error(row, if counted { counted_album_kinds() } else { album_kinds() }) {
        Some(e) => Err(e),
        None => Ok(
            AlbumView {
                id: Some(int_at(row, 0)),
                name: text_at(row, 1),
                description: opt_text_at(row, 2),
                cover_media_id: opt_int_at(row, 3),
                created_at: int_at(row, 4),
                media_count: if counted { Some(int_at(row, 5)) } else { None },
            },
        ),
    }
}

pub open spec fn album_decoder() -> spec_fn(Seq<SqlValueView>) -> Result<AlbumView, DbError> {
    |row: Seq<SqlValueView>| spec_album_from_row(row, false)
}

pub open spec fn counted_album_decoder() -> spec_fn(Seq<SqlValueView>) -> Result<AlbumView, DbError> {
    |row: Seq<SqlValueView>| spec_album_from_row(row, true)
}

/// Reads an album row; with `counted`, its sixth column is the media count.
pub fn album_from_row(row: &Vec<SqlValue>, counted: bool) -> (r: Result<Album, DbError>)
    ensures
        ok_view(r) == spec_album_from_row(values_view(row@), counted),
{
    let mut kinds = vec![ColumnKind::I64, ColumnKind::Text, ColumnKind::OptText, ColumnKind::OptI64, ColumnKind::I64];
    assert(kinds@ =~= album_kinds());
    if counted {
        kinds.push(ColumnKind::I64);
        assert(kinds@ =~= counted_album_kinds());
    }
    if let Some(e) = check_row(row, &kinds) {
        return Err(e);
    }
    let ghost rv = values_view(row@);
    proof {
        lemma_row_ok(rv, kinds@, 0);
        assert forall|j: int| 0 <= j < kinds@.len() implies rv[j] == #[trigger] row@[j]@ by {}
        assert(column_error(rv, 0, kinds@[0]) is None);
        assert(column_error(rv, 4, kinds@[4]) is None);
        if counted {
            assert(column_error(rv, 5, kinds@[5]) is None);
        }
    }
    let media_count = if counted {
        Some(get_int(row, 5))
    } else {
        None
    };
    Ok(Album {
        id: Some(get_int(row, 0)),
        name: get_text(row, 1),
        description: get_opt_text(row, 2),
        cover_media_id: get_opt_int(row, 3),
        created_at: get_int(row, 4),
        media_count,
    })
}

// ---------------------------------------------------------------- single values

/// A row whose first column is an integer reads as that integer.
pub open spec fn spec_int_from_row(row: Seq<SqlValueView>) -> Result<i64, DbError> {
    match row_error(row, seq![ColumnKind::I64]) {
        Some(e) => Err(e),
        None => Ok(int_at(row, 0)),
    }
}

pub open spec fn int_decoder() -> spec_fn(Seq<SqlValueView>) -> Result<i64, DbError> {
    |row: Seq<SqlValueView>| spec_int_from_row(row)
}

/// Reads the first column of a row as an integer.
pub fn int_from_row(row: &Vec<SqlValue>) -> (r: Result<i64, DbError>)
    ensures
        r == spec_int_from_row(values_view(row@)),
{
    let kinds = vec![ColumnKind::I64];
    assert(kinds@ =~= seq![ColumnKind::I64]);
    if let Some(e) = check_row(row, &kinds) {
        return Err(e);
    }
    let ghost rv = values_view(row@);
    proof {
        lemma_row_ok(rv, kinds@, 0);
        assert(rv[0] == row@[0]@);
        assert(column_error(rv, 0, kinds@[0]) is None);
    }
    Ok(get_int(row, 0))
}

/// The integer the first row of a query gives.
pub fn first_int(rows: &Vec<Vec<SqlValue>>) -> (r: Result<i64, DbError>)
    ensures
        r == decode_first(rows_view(rows@), int_decoder()),
{
    if rows.len() == 0 {
        Err(DbError::QueryReturnedNoRows)
    } else {
        int_from_row(&rows[0])
    }
}

/// The truth value the first row of a query gives: a non-zero integer is true.
pub fn first_bool(rows: &Vec<Vec<SqlValue>>) -> (r: Result<bool, DbError>)
    ensures
        r == (match decode_first(rows_view(rows@), int_decoder()) {
            Ok(v) => Ok(v != 0),
            Err(e) => Err(e),
        }),
{
    match first_int(rows) {
        Ok(v) => Ok(v != 0),
        Err(e) => Err(e),
    }
}

// ---------------------------------------------------------------- many rows

/// The mathematical form of a list of decoded records.
pub open spec fn ok_vec_view<T: View>(r: Result<Vec<T>, DbError>) -> Result<Seq<T::V>, DbError> {
    match r {
        Ok(v) => Ok(v@.map_values(|x: T| x@)),
        Err(e) => Err(e),
    }
}

proof fn lemma_decode_all_prefix_err<T>(
    rows: Seq<Seq<SqlValueView>>,
    f: spec_fn(Seq<SqlValueView>) -> Result<T, DbError>,
    k: int,
)
    requires
        0 <= k <= rows.len(),
        decode_all(rows.take(k), f) is Err,
    ensures
        decode_all(rows, f) == decode_all(rows.take(k), f),
    decreases rows.len() - k,
{
    if k == rows.len() {
        assert(rows.take(k) =~= rows);
    } else {
        let d = rows.drop_last();
        assert(d.take(k) =~= rows.take(k));
        lemma_decode_all_prefix_err(d, f, k);
    }
}

/// When every row reads, each record is what its row reads as.
pub proof fn lemma_decode_all_each<T>(
    rows: Seq<Seq<SqlValueView>>,
    f: spec_fn(Seq<SqlValueView>) -> Result<T, DbError>,
    xs: Seq<T>,
)
    requires
        decode_all(rows, f) == Ok::<Seq<T>, DbError>(xs),
    ensures
        xs.len() == rows.len(),
        forall|i: int| 0 <= i < rows.len() ==> f(#[trigger] rows[i]) == Ok::<T, DbError>(xs[i]),
    decreases rows.len(),
{
    if rows.len() > 0 {
        let d = rows.drop_last();
        match decode_all(d, f) {
            Ok(ys) => {
                lemma_decode_all_each(d, f, ys);
                assert forall|i: int| 0 <= i < rows.len() implies f(#[trigger] rows[i]) == Ok::<T, DbError>(xs[i]) by {
                    if i < rows.len() - 1 {
                        assert(rows[i] == d[i]);
                    }
                }
            },
            Err(_) => {},
        }
    }
}

/// Reads every row with `f`; the first row that cannot be read gives the error.
pub(crate) fn decode_rows<T: View, F: Fn(&Vec<SqlValue>) -> Result<T, DbError>>(
    rows: &Vec<Vec<SqlValue>>,
    f: F,
    Ghost(sf): Ghost<spec_fn(Seq<SqlValueView>) -> Result<T::V, DbError>>,
) -> (r: Result<Vec<T>, DbError>)
    requires
        forall|row: &Vec<SqlValue>| #[trigger] f.requires((row,)),
        forall|row: &Vec<SqlValue>, res: Result<T, DbError>|
            #[trigger] f.ensures((row,), res) ==> ok_view(res) == sf(values_view(row@)),
    ensures
        ok_vec_view(r) == decode_all(rows_view(rows@), sf),
{
    let ghost rv = rows_view(rows@);
    let mut out: Vec<T> = Vec::new();
    let mut i: usize = 0;
    assert(rv.take(0) =~= Seq::<Seq<SqlValueView>>::empty());
    assert(out@.map_values(|x: T| x@) =~= Seq::<T::V>::empty());
    while i < rows.len()
        invariant
            i <= rows.len(),
            rv == rows_view(rows@),
            forall|row: &Vec<SqlValue>| #[trigger] f.requires((row,)),
            forall|row: &Vec<SqlValue>, res: Result<T, DbError>|
                #[trigger] f.ensures((row,), res) ==> ok_view(res) == sf(values_view(row@)),
            decode_all(rv.take(i as int), sf) == Ok::<Seq<T::V>, DbError>(out@.map_values(|x: T| x@)),
        decreases rows.len() - i,
    {
        let res = f(&rows[i]);
        proof {
            assert(rv.take(i + 1).drop_last() =~= rv.take(i as int));
            assert(rv.take(i + 1).last() == rv[i as int]);
            assert(rv[i as int] == values_view(rows@[i as int]@));
        }
        match res {
            Ok(x) => {
                let ghost prev = out@.map_values(|y: T| y@);
                let ghost xv = x@;
                out.push(x);
                assert(out@.map_values(|y: T| y@) =~= prev.push(xv));
            },
            Err(e) => {
                proof {
                    lemma_decode_all_prefix_err(rv, sf, i + 1);
                }
                return Err(e);
            },
        }
        i = i + 1;
    }
    assert(rv.take(rows.len() as int) =~= rv);
    Ok(out)
}

/// The mathematical form of an optional decoded record.
pub open spec fn ok_opt_view<T: View>(r: Result<Option<T>, DbError>) -> Result<Option<T::V>, DbError> {
    match r {
        Ok(Some(x)) => Ok(Some(x@)),
        Ok(None) => Ok(None),
        Err(e) => Err(e),
    }
}

/// Reads the first row with `f`, if the query gave a row.
pub(crate) fn decode_optional_row<T: View, F: Fn(&Vec<SqlValue>) -> Result<T, DbError>>(
    rows: &Vec<Vec<SqlValue>>,
    f: F,
    Ghost(sf): Ghost<spec_fn(Seq<SqlValueView>) -> Result<T::V, DbError>>,
) -> (r: Result<Option<T>, DbError>)
    requires
        forall|row: &Vec<SqlValue>| #[trigger] f.requires((row,)),
        forall|row: &Vec<SqlValue>, res: Result<T, DbError>|
            #[trigger] f.ensures((row,), res) ==> ok_view(res) == sf(values_view(row@)),
    ensures
        ok_opt_view(r) == decode_optional(rows_view(rows@), sf),
{
    if rows.len() == 0 {
        Ok(None)
    } else {
        assert(rows_view(rows@)[0] == values_view(rows@[0]@));
        match f(&rows[0]) {
            Ok(x) => Ok(Some(x)),
            Err(e) => Err(e),
        }
    }
}

// ---------------------------------------------------------------- replies

/// Reading the rows of a reply with `f`: its first row, if any.
pub open spec fn reads_one<T>(f: spec_fn(Seq<SqlValueView>) -> Result<T, DbError>) -> spec_fn(Seq<Seq<SqlValueView>>) -> Result<Option<T>, DbError> {
    |rows: Seq<Seq<SqlValueView>>| decode_optional(rows, f)
}

/// Reading the rows of a reply with `f`: every row, in order.
pub open spec fn reads_all<T>(f: spec_fn(Seq<SqlValueView>) -> Result<T, DbError>) -> spec_fn(Seq<Seq<SqlValueView>>) -> Result<Seq<T>, DbError> {
    |rows: Seq<Seq<SqlValueView>>| decode_all(rows, f)
}

/// Reading the rows of a reply with `f`: its first row, which must be there.
pub open spec fn reads_first<T>(f: spec_fn(Seq<SqlValueView>) -> Result<T, DbError>) -> spec_fn(Seq<Seq<SqlValueView>>) -> Result<T, DbError> {
    |rows: Seq<Seq<SqlValueView>>| decode_first(rows, f)
}

/// Reading the first row of a reply as an integer, true when it is not zero.
pub open spec fn reads_nonzero() -> spec_fn(Seq<Seq<SqlValueView>>) -> Result<bool, DbError> {
    |rows: Seq<Seq<SqlValueView>>| match decode_first(rows, int_decoder()) {
        Ok(v) => Ok(v != 0),
        Err(e) => Err(e),
    }
}

/// Reading the first row of a reply as a count, true when it is positive.
pub open spec fn reads_positive() -> spec_fn(Seq<Seq<SqlValueView>>) -> Result<bool, DbError> {
    |rows: Seq<Seq<SqlValueView>>| match decode_first(rows, int_decoder()) {
        Ok(v) => Ok(v > 0),
        Err(e) => Err(e),
    }
}

/// Whether some rows, read with `read`, give this error. It speaks of a
/// possible reply, not of the one the database gave.
pub open spec fn reply_error<T>(e: DbError, read: spec_fn(Seq<Seq<SqlValueView>>) -> Result<T, DbError>) -> bool {
    exists|rows: Seq<Seq<SqlValueView>>| #[trigger] read(rows) == Err::<T, DbError>(e)
}

/// Whether some rows, read with `read`, give this value. It speaks of a
/// possible reply, not of the one the database gave.
pub open spec fn reply_value<T>(x: T, read: spec_fn(Seq<Seq<SqlValueView>>) -> Result<T, DbError>) -> bool {
    exists|rows: Seq<Seq<SqlValueView>>| #[trigger] read(rows) == Ok::<T, DbError>(x)
}

/// An outcome a query read with `read` can have: an error the engine
/// reported, or what some rows read as. This rules out outcomes no reply
/// could give (an error `read` never gives, a record it never builds); it
/// does not say which rows the database gave.
pub open spec fn from_reply<T>(r: Result<T, DbError>, read: spec_fn(Seq<Seq<SqlValueView>>) -> Result<T, DbError>) -> bool {
    match r {
        Err(e) => e is Sqlite || reply_error(e, read),
        Ok(x) => reply_value(x, read),
    }
}

/// What given rows read as is an outcome `from_reply` admits.
pub proof fn lemma_from_reply<T>(rows: Seq<Seq<SqlValueView>>, read: spec_fn(Seq<Seq<SqlValueView>>) -> Result<T, DbError>)
    ensures
        from_reply(read(rows), read),
{
    match read(rows) {
        Ok(x) => assert(read(rows) == Ok::<T, DbError>(x)),
        Err(e) => assert(read(rows) == Err::<T, DbError>(e)),
    }
}

} // verus!
