//! The SQL text of the track queries: column lists and statements.
use vstd::prelude::*;
use crate::text::{decimal, push_char, push_decimal};

verus! {

/// The columns of the `tracks` table, in the order rows are read.
pub open spec fn track_column_names() -> Seq<Seq<char>> {
    seq![
        "id"@,
        "youtube_id"@,
        "title"@,
        "artist"@,
        "duration"@,
        "thumbnail_url"@,
        "youtube_url"@,
        "codec"@,
        "bitrate"@,
        "sample_rate"@,
        "channels"@,
        "filesize"@,
        "description"@,
    ]
}

/// The columns of the `tracks` table, in the order rows are read.
pub fn columns() -> (r: Vec<&'static str>)
    ensures
        r@.map_values(|s: &str| s@) == track_column_names(),
{
    let mut r: Vec<&'static str> = Vec::new();
    r.push("id");
    r.push("youtube_id");
    r.push("title");
    r.push("artist");
    r.push("duration");
    r.push("thumbnail_url");
    r.push("youtube_url");
    r.push("codec");
    r.push("bitrate");
    r.push("sample_rate");
    r.push("channels");
    r.push("filesize");
    r.push("description");
    assert(r@.map_values(|s: &str| s@) =~= track_column_names());
    r
}

/// `parts` joined with `sep` between neighbours.
pub open spec fn join(parts: Seq<Seq<char>>, sep: Seq<char>) -> Seq<char>
    decreases parts.len(),
{
    if parts.len() == 0 {
        Seq::empty()
    } else if parts.len() == 1 {
        parts[0]
    } else {
        join(parts.drop_last(), sep) + sep + parts.last()
    }
}

/// A column name with its table alias, if any (`t.title`).
pub open spec fn qualified(prefix: Seq<char>, column: Seq<char>) -> Seq<char> {
    if prefix.len() == 0 {
        column
    } else {
        prefix + "."@ + column
    }
}

/// The track columns, each qualified by `prefix`, separated by `, `.
pub open spec fn spec_track_columns(prefix: Seq<char>) -> Seq<char> {
    join(track_column_names().map_values(|c: Seq<char>| qualified(prefix, c)), ", "@)
}

/// The select list of the track columns, qualified by `prefix` when it is
/// not empty (`t.id, t.youtube_id, ...`).
pub fn track_columns(prefix: &str) -> (r: String)
    ensures
        r@ == spec_track_columns(prefix@),
{
    let cols = columns();
    let ghost names = track_column_names().map_values(|c: Seq<char>| qualified(prefix@, c));
    let mut out = String::new();
    let mut i: usize = 0;
    proof {
        reveal_strlit(", ");
        reveal_strlit(".");
    }
    while i < cols.len()
        invariant
            0 <= i <= cols@.len(),
            cols@.map_values(|s: &str| s@) == track_column_names(),
            names == track_column_names().map_values(|c: Seq<char>| qualified(prefix@, c)),
            out@ == join(names.subrange(0, i as int), ", "@),
        decreases cols@.len() - i,
    {
        assert(cols@[i as int]@ == track_column_names()[i as int]);
        if i > 0 {
            out.append(", ");
        }
        if !prefix.is_empty() {
            out.append(prefix);
            out.append(".");
        }
        out.append(cols[i]);
        assert(names.subrange(0, i + 1).drop_last() =~= names.subrange(0, i as int));
        assert(out@ =~= join(names.subrange(0, i + 1), ", "@));
        i = i + 1;
    }
    assert(names.subrange(0, cols@.len() as int) =~= names);
    out
}

/// `?1, ?2, ..., ?n`: the numbered parameters of a statement with `n` values.
pub open spec fn placeholders(n: nat) -> Seq<char>
    decreases n,
{
    if n == 0 {
        Seq::empty()
    } else if n == 1 {
        "?1"@
    } else {
        placeholders((n - 1) as nat) + ", "@ + seq!['?'] + decimal(n)
    }
}

/// The statement that adds a track unless one with its YouTube id exists:
/// every column but `id`, with one numbered parameter each.
pub open spec fn spec_insert_track_sql() -> Seq<char> {
    "INSERT OR IGNORE INTO tracks ("@ + join(track_column_names().drop_first(), ", "@)
        + ") VALUES ("@ + placeholders(12) + ")"@
}

/// The statement that adds a track unless one with its YouTube id exists.
pub fn insert_track_sql() -> (r: String)
    ensures
        r@ == spec_insert_track_sql(),
{
    let cols = columns();
    let ghost names = track_column_names().drop_first();
    let mut out = String::from_str("INSERT OR IGNORE INTO tracks (");
    let ghost head = out@;
    proof {
        reveal_strlit(", ");
        reveal_strlit("?1");
    }
    let mut i: usize = 1;
    while i < cols.len()
        invariant
            1 <= i <= cols@.len(),
            cols@.map_values(|s: &str| s@) == track_column_names(),
            names == track_column_names().drop_first(),
            out@ == head + join(names.subrange(0, i - 1), ", "@),
        decreases cols@.len() - i,
    {
        assert(cols@[i as int]@ == names[i - 1]);
        if i > 1 {
            out.append(", ");
        }
        out.append(cols[i]);
        assert(names.subrange(0, i as int).drop_last() =~= names.subrange(0, i - 1));
        assert(out@ =~= head + join(names.subrange(0, i as int), ", "@));
        i = i + 1;
    }
    assert(names.subrange(0, 12) =~= names);
    out.append(") VALUES (");
    let ghost mid = out@;
    let mut k: u64 = 1;
    while k <= 12
        invariant
            1 <= k <= 13,
            out@ == mid + placeholders((k - 1) as nat),
        decreases 13 - k,
    {
        if k > 1 {
            out.append(", ");
        }
        push_char(&mut out, '?');
        push_decimal(&mut out, k);
        proof {
            if k == 1 {
                reveal_strlit("?1");
                assert(decimal(1) == seq!['1']);
                assert(placeholders(1) =~= seq!['?'] + decimal(1));
            }
        }
        assert(out@ =~= mid + placeholders(k as nat));
        k = k + 1;
    }
    out.append(")");
    proof {
        reveal_strlit("INSERT OR IGNORE INTO tracks (");
        reveal_strlit(") VALUES (");
        reveal_strlit(")");
    }
    assert(out@ =~= spec_insert_track_sql());
    out
}

/// The query for one track by id.
pub fn track_by_id_sql() -> (r: String)
    ensures
        r@ == "SELECT "@ + spec_track_columns(""@) + " FROM tracks WHERE id = ?1"@,
{
    let mut out = String::from_str("SELECT ");
    let cols = track_columns("");
    out.append(cols.as_str());
    out.append(" FROM tracks WHERE id = ?1");
    out
}

/// The query for the tracks of the latest plays, newest first, at most `?1` of them.
pub fn history_tracks_sql() -> (r: String)
    ensures
        r@ == "SELECT "@ + spec_track_columns("t"@)
            + " FROM tracks t JOIN play_history h ON t.id = h.track_id ORDER BY h.played_at DESC LIMIT ?1"@,
{
    let mut out = String::from_str("SELECT ");
    let cols = track_columns("t");
    out.append(cols.as_str());
    out.append(
        " FROM tracks t JOIN play_history h ON t.id = h.track_id ORDER BY h.played_at DESC LIMIT ?1",
    );
    out
}

/// The query for the tracks of playlist `?1`, in playlist order.
pub fn playlist_tracks_sql() -> (r: String)
    ensures
        r@ == "SELECT "@ + spec_track_columns("t"@)
            + " FROM tracks t JOIN playlist_tracks pt ON pt.track_id = t.id WHERE pt.playlist_id = ?1 ORDER BY pt.position"@,
{
    let mut out = String::from_str("SELECT ");
    let cols = track_columns("t");
    out.append(cols.as_str());
    out.append(
        " FROM tracks t JOIN playlist_tracks pt ON pt.track_id = t.id WHERE pt.playlist_id = ?1 ORDER BY pt.position",
    );
    out
}

} // verus!
