//! Pieces shared by the result lists: toggling a selection, picking the
//! selected items, cycling the quality choice, fetch outcomes, and the text
//! and look of the lists' rows.
use vstd::prelude::*;
use crate::text::{
    i32_to_string, int_decimal, join, join_strings, nat_decimal, push_decimal, push_str, to_owned_string, truncate,
    truncated, views,
};

verus! {

/// What a provider call for a list of items came back with: items, an empty
/// or unsuccessful answer, or an error message.
pub enum FetchOutcome<T> {
    Found(Vec<T>),
    Empty,
    Failed(String),
}

/// The selected positions that lie below `n`, in selection order.
pub open spec fn in_range(sel: Seq<usize>, n: nat) -> Seq<usize>
    decreases sel.len(),
{
    if sel.len() == 0 {
        sel
    } else {
        let r = in_range(sel.drop_last(), n);
        if (sel.last() as nat) < n {
            r.push(sel.last())
        } else {
            r
        }
    }
}

/// The first position of `x` in `s`, if any.
pub open spec fn first_index_of(s: Seq<usize>, x: usize) -> int
    recommends
        s.contains(x),
{
    choose|i: int| 0 <= i < s.len() && s[i] == x && forall|j: int| 0 <= j < i ==> s[j] != x
}

/// Pressing space on `x`: an already selected `x` leaves the selection (its
/// first occurrence), otherwise it is added at the end.
pub open spec fn toggled(sel: Seq<usize>, x: usize) -> Seq<usize> {
    if sel.contains(x) {
        sel.remove(first_index_of(sel, x))
    } else {
        sel.push(x)
    }
}

/// Adds `x` to the selection, or removes it if it is there.
pub fn toggle_index(sel: &mut Vec<usize>, x: usize)
    ensures
        final(sel)@ == toggled(old(sel)@, x),
{
    let mut i: usize = 0;
    while i < sel.len()
        invariant
            i <= sel@.len(),
            sel@ == old(sel)@,
            forall|j: int| 0 <= j < i ==> sel@[j] != x,
        decreases sel.len() - i,
    {
        if sel[i] == x {
            proof {
                let s = sel@;
                assert(s.contains(x));
                let c = first_index_of(s, x);
                if c < i {
                    assert(s[c] != x);
                } else if c > i {
                    assert(s[i as int] == x);
                }
            }
            sel.remove(i);
            return;
        }
        i += 1;
    }
    sel.push(x);
}

proof fn lemma_toggle_out(sel: Seq<usize>, x: usize)
    requires
        sel.no_duplicates(),
        sel.contains(x),
    ensures
        !toggled(sel, x).contains(x),
        toggled(sel, x).no_duplicates(),
        toggled(sel, x).push(x).to_set() == sel.to_set(),
{
    let t = toggled(sel, x);
    let c = first_index_of(sel, x);
    assert(0 <= c < sel.len() && sel[c] == x);
    assert(t == sel.remove(c));
    assert(!t.contains(x)) by {
        if t.contains(x) {
            let k = choose|k: int| 0 <= k < t.len() && t[k] == x;
            if k < c {
                assert(sel[k] == x);
            } else {
                assert(sel[k + 1] == x);
            }
        }
    }
    let tp = t.push(x);
    assert forall|y: usize| sel.contains(y) implies #[trigger] tp.contains(y) by {
        let k = choose|k: int| 0 <= k < sel.len() && sel[k] == y;
        if k == c {
            assert(tp[t.len() as int] == y);
        } else if k < c {
            assert(tp[k] == y);
        } else {
            assert(tp[k - 1] == y);
        }
    }
    assert forall|y: usize| tp.contains(y) implies #[trigger] sel.contains(y) by {
        let k = choose|k: int| 0 <= k < tp.len() && tp[k] == y;
        if k == t.len() {
            assert(sel[c] == y);
        } else if k < c {
            assert(sel[k] == y);
        } else {
            assert(sel[k + 1] == y);
        }
    }
    assert(tp.to_set() =~= sel.to_set());
    assert forall|a: int, b: int| 0 <= a < t.len() && 0 <= b < t.len() && a != b implies t[a] != t[b] by {
        let a2 = if a < c { a } else { a + 1 };
        let b2 = if b < c { b } else { b + 1 };
        assert(sel[a2] != sel[b2]);
    }
}

proof fn lemma_toggle_in(sel: Seq<usize>, x: usize)
    requires
        sel.no_duplicates(),
        !sel.contains(x),
    ensures
        toggled(sel, x).contains(x),
        toggled(sel, x).no_duplicates(),
        toggled(toggled(sel, x), x) == sel,
{
    let t = toggled(sel, x);
    assert(t == sel.push(x));
    assert(t[sel.len() as int] == x);
    let c = first_index_of(t, x);
    assert(0 <= c < t.len() && t[c] == x);
    assert(c == sel.len()) by {
        if c < sel.len() {
            assert(t[c] == sel[c]);
        }
    }
    assert(t.remove(c) =~= sel);
    assert forall|a: int, b: int| 0 <= a < t.len() && 0 <= b < t.len() && a != b implies t[a] != t[b] by {
        if a == sel.len() {
            assert(sel.contains(t[b]));
        } else if b == sel.len() {
            assert(sel.contains(t[a]));
        }
    }
}

/// Pressing space twice on the same item gives back the same selected set,
/// and a selection never holds a position twice.
pub proof fn law_toggle_twice_restores_set(sel: Seq<usize>, x: usize)
    requires
        sel.no_duplicates(),
    ensures
        toggled(toggled(sel, x), x).to_set() == sel.to_set(),
        toggled(sel, x).no_duplicates(),
        toggled(sel, x).contains(x) == !sel.contains(x),
{
    if sel.contains(x) {
        lemma_toggle_out(sel, x);
    } else {
        lemma_toggle_in(sel, x);
    }
}

/// Clones of the items at the selected positions that exist, in selection order.
pub fn selected_items<T: Clone>(items: &Vec<T>, sel: &Vec<usize>) -> (res: Vec<T>)
    ensures
        res@.len() == in_range(sel@, items@.len()).len(),
        forall|k: int|
            0 <= k < res@.len() ==> cloned::<T>(items@[in_range(sel@, items@.len())[k] as int], #[trigger] res@[k]),
{
    let ghost n = items@.len();
    let mut res: Vec<T> = Vec::new();
    let mut i: usize = 0;
    while i < sel.len()
        invariant
            n == items@.len(),
            i <= sel@.len(),
            res@.len() == in_range(sel@.take(i as int), n).len(),
            forall|k: int|
                0 <= k < res@.len() ==> cloned::<T>(items@[in_range(sel@.take(i as int), n)[k] as int], #[trigger] res@[k]),
            forall|k: int| 0 <= k < in_range(sel@.take(i as int), n).len() ==> #[trigger] in_range(sel@.take(i as int), n)[k] < n,
        decreases sel.len() - i,
    {
        let idx = sel[i];
        proof {
            assert(sel@.take(i + 1).drop_last() == sel@.take(i as int));
        }
        if idx < items.len() {
            let item = items[idx].clone();
            res.push(item);
        }
        i += 1;
    }
    assert(sel@.take(sel.len() as int) == sel@);
    res
}

/// The next quality choice, wrapping around.
pub open spec fn next_quality(qi: usize, n: usize) -> usize {
    ((qi + 1) % (n as int)) as usize
}

/// Moves the quality choice one step on, wrapping around.
pub fn cycle_quality(qi: usize, n: usize) -> (res: usize)
    requires
        n > 0,
        qi < usize::MAX,
    ensures
        res == next_quality(qi, n),
{
    (qi + 1) % n
}

/// How a table row is drawn: under the cursor, chosen, or plain.
#[derive(Clone, Copy, PartialEq, Eq, Structural, Debug)]
pub enum RowStyle {
    Cursor,
    Chosen,
    Plain,
}

/// The cursor's look wins over the chosen one.
pub open spec fn spec_row_style(cursor: bool, chosen: bool) -> RowStyle {
    if cursor {
        RowStyle::Cursor
    } else if chosen {
        RowStyle::Chosen
    } else {
        RowStyle::Plain
    }
}

/// The mark in a row's first column.
pub open spec fn spec_check_mark(chosen: bool) -> Seq<char> {
    if chosen { "[✓]"@ } else { "[ ]"@ }
}

/// A row's look.
pub fn row_style(cursor: bool, chosen: bool) -> (res: RowStyle)
    ensures
        res == spec_row_style(cursor, chosen),
{
    if cursor {
        RowStyle::Cursor
    } else if chosen {
        RowStyle::Chosen
    } else {
        RowStyle::Plain
    }
}

/// A row's check mark.
pub fn check_mark(chosen: bool) -> (res: &'static str)
    ensures
        res@ == spec_check_mark(chosen),
{
    if chosen { "[✓]" } else { "[ ]" }
}

/// The artists' cell: the names joined by ` / `, or `未知` when there are none.
pub open spec fn spec_artist_cell(artists: Seq<Seq<char>>) -> Seq<char> {
    if artists.len() == 0 { "未知"@ } else { join(artists, " / "@) }
}

/// The artists' cell of a row.
pub fn artist_cell(artists: &Vec<String>) -> (res: String)
    ensures
        res@ == spec_artist_cell(views(artists@)),
{
    if artists.len() == 0 {
        to_owned_string("未知")
    } else {
        join_strings(artists, " / ")
    }
}

/// The line that counts the chosen entries: `已选择 n <unit>`, or `未选择`.
pub open spec fn spec_selection_line(count: nat, unit: Seq<char>) -> Seq<char> {
    if count > 0 { "已选择 "@ + nat_decimal(count) + " "@ + unit } else { "未选择"@ }
}

/// The line that counts the chosen entries.
pub fn selection_line(count: usize, unit: &str) -> (res: String)
    ensures
        res@ == spec_selection_line(count as nat, unit@),
{
    if count > 0 {
        let mut s = to_owned_string("已选择 ");
        push_decimal(&mut s, count as u64);
        push_str(&mut s, " ");
        push_str(&mut s, unit);
        s
    } else {
        to_owned_string("未选择")
    }
}

/// The quality choices as shown: the chosen one in brackets; the flag marks
/// it.
pub open spec fn spec_quality_label(name: Seq<char>, chosen: bool) -> Seq<char> {
    if chosen { "["@ + name + "]"@ } else { name }
}

/// The labels of the quality choices, each with whether it is the chosen one.
pub fn quality_labels(options: &Vec<(String, i32)>, chosen: usize) -> (res: Vec<(String, bool)>)
    ensures
        res@.len() == options@.len(),
        forall|i: int|
            0 <= i < res@.len() ==> {
                &&& (#[trigger] res@[i]).1 == (i == chosen)
                &&& res@[i].0@ == spec_quality_label(options@[i].0@, i == chosen)
            },
{
    let mut res: Vec<(String, bool)> = Vec::new();
    let mut i: usize = 0;
    while i < options.len()
        invariant
            i <= options@.len(),
            res@.len() == i,
            forall|k: int|
                0 <= k < i ==> {
                    &&& (#[trigger] res@[k]).1 == (k == chosen)
                    &&& res@[k].0@ == spec_quality_label(options@[k].0@, k == chosen)
                },
        decreases options.len() - i,
    {
        let label = if i == chosen {
            let mut s = to_owned_string("[");
            push_str(&mut s, options[i].0.as_str());
            push_str(&mut s, "]");
            s
        } else {
            to_owned_string(options[i].0.as_str())
        };
        res.push((label, i == chosen));
        i += 1;
    }
    res
}

/// The cells of a song row: mark, title (30 columns), artists (20) and album
/// (25, `未知` when unknown), with the row's look.
pub struct SongRowText {
    pub mark: &'static str,
    pub title: String,
    pub artist: String,
    pub album: String,
    pub style: RowStyle,
}

/// The cells of a song row.
pub fn song_row(title: &str, artists: &Vec<String>, album: Option<&str>, cursor: bool, chosen: bool) -> (res: SongRowText)
    ensures
        res.mark@ == spec_check_mark(chosen),
        res.title@ == truncated(title@, 30),
        res.artist@ == truncated(spec_artist_cell(views(artists@)), 20),
        res.album@ == truncated(
            match album {
                Some(a) => a@,
                None => "未知"@,
            },
            25,
        ),
        res.style == spec_row_style(cursor, chosen),
{
    let artist = artist_cell(artists);
    let album_text = match album {
        Some(a) => a,
        None => "未知",
    };
    SongRowText {
        mark: check_mark(chosen),
        title: truncate(title, 30),
        artist: truncate(artist.as_str(), 20),
        album: truncate(album_text, 25),
        style: row_style(cursor, chosen),
    }
}

/// The cells of an album row: mark, title (30 columns), artists (20), song
/// count and release date (`-` when unknown), with the row's look.
pub struct AlbumRowText {
    pub mark: &'static str,
    pub title: String,
    pub artist: String,
    pub songs: String,
    pub published: String,
    pub style: RowStyle,
}

/// The cells of an album row.
pub fn album_row(
    title: &str,
    artists: &Vec<String>,
    song_count: Option<i32>,
    published: Option<&str>,
    cursor: bool,
    chosen: bool,
) -> (res: AlbumRowText)
    ensures
        res.mark@ == spec_check_mark(chosen),
        res.title@ == truncated(title@, 30),
        res.artist@ == truncated(spec_artist_cell(views(artists@)), 20),
        res.songs@ == match song_count {
            Some(c) => int_decimal(c as int),
            None => "-"@,
        },
        res.published@ == match published {
            Some(p) => p@,
            None => "-"@,
        },
        res.style == spec_row_style(cursor, chosen),
{
    let artist = artist_cell(artists);
    let songs = match song_count {
        Some(c) => i32_to_string(c),
        None => to_owned_string("-"),
    };
    let published_text = match published {
        Some(p) => to_owned_string(p),
        None => to_owned_string("-"),
    };
    AlbumRowText {
        mark: check_mark(chosen),
        title: truncate(title, 30),
        artist: truncate(artist.as_str(), 20),
        songs,
        published: published_text,
        style: row_style(cursor, chosen),
    }
}

/// The cells of a playlist row: mark, title (50 columns) and song count,
/// with the row's look.
pub struct PlaylistRowText {
    pub mark: &'static str,
    pub title: String,
    pub songs: String,
    pub style: RowStyle,
}

/// The cells of a playlist row.
pub fn playlist_row(title: &str, song_count: i32, cursor: bool, chosen: bool) -> (res: PlaylistRowText)
    ensures
        res.mark@ == spec_check_mark(chosen),
        res.title@ == truncated(title@, 50),
        res.songs@ == int_decimal(song_count as int),
        res.style == spec_row_style(cursor, chosen),
{
    PlaylistRowText {
        mark: check_mark(chosen),
        title: truncate(title, 50),
        songs: i32_to_string(song_count),
        style: row_style(cursor, chosen),
    }
}

/// What the list area of a result page shows.
#[derive(Clone, Copy, PartialEq, Eq, Structural, Debug)]
pub enum ListBody {
    /// The loading notice.
    Loading,
    /// The page's message, for an empty list.
    Message,
    /// The table of entries.
    Table,
}

/// The list area: the loading notice while loading, the message for an
/// empty list, the table otherwise.
pub open spec fn spec_list_body(loading: bool, empty: bool) -> ListBody {
    if loading {
        ListBody::Loading
    } else if empty {
        ListBody::Message
    } else {
        ListBody::Table
    }
}

/// The text `prefix keyword [provider]  (Esc 返回)` at the top of a search page.
pub open spec fn spec_search_title(prefix: Seq<char>, keyword: Seq<char>, provider: Seq<char>) -> Seq<char> {
    prefix + keyword + " ["@ + provider + "]  (Esc 返回)"@
}

pub fn search_title(prefix: &str, keyword: &str, provider: &str) -> (res: String)
    ensures
        res@ == spec_search_title(prefix@, keyword@, provider@),
{
    let mut s = to_owned_string(prefix);
    push_str(&mut s, keyword);
    push_str(&mut s, " [");
    push_str(&mut s, provider);
    push_str(&mut s, "]  (Esc 返回)");
    s
}

/// Space on an entry flips whether that entry is chosen and leaves every
/// other entry as it was, on a selection without repeats.
pub proof fn law_toggle_flips_only_that_entry(sel: Seq<usize>, x: usize, y: usize)
    requires
        sel.no_duplicates(),
    ensures
        toggled(sel, x).contains(y) == (if y == x { !sel.contains(x) } else { sel.contains(y) }),
{
    law_toggle_twice_restores_set(sel, x);
    if y != x {
        if sel.contains(x) {
            let c = first_index_of(sel, x);
            assert(0 <= c < sel.len() && sel[c] == x);
            let t = sel.remove(c);
            assert(toggled(sel, x) == t);
            if sel.contains(y) {
                let j = choose|j: int| 0 <= j < sel.len() && sel[j] == y;
                if j < c {
                    assert(t[j] == y);
                } else {
                    assert(t[j - 1] == y);
                }
            }
            if t.contains(y) {
                let j = choose|j: int| 0 <= j < t.len() && t[j] == y;
                if j < c {
                    assert(sel[j] == y);
                } else {
                    assert(sel[j + 1] == y);
                }
            }
        } else {
            let t = sel.push(x);
            assert(toggled(sel, x) == t);
            if sel.contains(y) {
                let j = choose|j: int| 0 <= j < sel.len() && sel[j] == y;
                assert(t[j] == y);
            }
            if t.contains(y) {
                let j = choose|j: int| 0 <= j < t.len() && t[j] == y;
                assert(sel[j] == y);
            }
        }
    }
}

} // verus!
