//! The download page: the list of songs with their status, the counters,
//! the retry rule across quality levels, and the summary when all is done.
use vstd::prelude::*;
use crate::input::KeyCode;
use crate::order::{distinct_below, stable_sort_indices, stably_sorted};
use crate::text::{join, join_strings, nat_decimal, push_decimal, push_str, to_owned_string, views};

verus! {

/// Where a song of the task stands.
pub enum ItemStatus {
    Pending,
    Downloading,
    Complete,
    Existing,
    Error(String),
}

/// A status as plain values.
pub enum ItemStatusView {
    Pending,
    Downloading,
    Complete,
    Existing,
    Error(Seq<char>),
}

impl ItemStatus {
    pub open spec fn view(&self) -> ItemStatusView {
        match self {
            ItemStatus::Pending => ItemStatusView::Pending,
            ItemStatus::Downloading => ItemStatusView::Downloading,
            ItemStatus::Complete => ItemStatusView::Complete,
            ItemStatus::Existing => ItemStatusView::Existing,
            ItemStatus::Error(m) => ItemStatusView::Error(m@),
        }
    }

    /// A copy of the status.
    pub fn copy(&self) -> (res: ItemStatus)
        ensures
            res.view() == self.view(),
    {
        match self {
            ItemStatus::Pending => ItemStatus::Pending,
            ItemStatus::Downloading => ItemStatus::Downloading,
            ItemStatus::Complete => ItemStatus::Complete,
            ItemStatus::Existing => ItemStatus::Existing,
            ItemStatus::Error(m) => ItemStatus::Error(to_owned_string(m.as_str())),
        }
    }
}

/// One song of a download task.
pub struct DownloadItem {
    pub idx: usize,
    pub title: String,
    pub artist: String,
    pub song_id: String,
    pub status: ItemStatus,
}

/// A song of the task as plain values.
pub struct ItemView {
    pub idx: usize,
    pub title: Seq<char>,
    pub artist: Seq<char>,
    pub song_id: Seq<char>,
    pub status: ItemStatusView,
}

pub open spec fn item_view(i: DownloadItem) -> ItemView {
    ItemView { idx: i.idx, title: i.title@, artist: i.artist@, song_id: i.song_id@, status: i.status.view() }
}

pub open spec fn items_view(s: Seq<DownloadItem>) -> Seq<ItemView> {
    s.map_values(|i: DownloadItem| item_view(i))
}

/// A download task: its songs, how many are done, and whether it is over.
pub struct DownloadPageState {
    pub items: Vec<DownloadItem>,
    pub total: usize,
    pub completed: usize,
    pub finished: bool,
    pub cancelled: bool,
    pub interrupted: bool,
    pub provider_name: String,
    pub task_name: String,
    pub threads: usize,
    pub quality_name: String,
    pub output_dir: String,
}

/// The fields of a task other than its songs are those of `b`, with the
/// counter and flags given.
pub open spec fn same_labels(a: &DownloadPageState, b: &DownloadPageState) -> bool {
    &&& a.total == b.total
    &&& a.provider_name@ == b.provider_name@
    &&& a.task_name@ == b.task_name@
    &&& a.threads == b.threads
    &&& a.quality_name@ == b.quality_name@
    &&& a.output_dir@ == b.output_dir@
}

/// Counter and flags are those of `b`.
pub open spec fn same_progress(a: &DownloadPageState, b: &DownloadPageState) -> bool {
    &&& a.completed == b.completed
    &&& a.finished == b.finished
    &&& a.cancelled == b.cancelled
    &&& a.interrupted == b.interrupted
}

/// The counter after one more song is done; the counter wraps like an atomic add.
pub open spec fn bumped(c: usize) -> usize {
    if c == usize::MAX { 0 } else { (c + 1) as usize }
}

impl DownloadPageState {
    /// A task of `total` songs, all pending with empty titles.
    pub fn new(
        provider_name: String,
        task_name: String,
        total: usize,
        threads: usize,
        quality_name: String,
        output_dir: String,
    ) -> (res: Self)
        ensures
            res.items@.len() == total,
            forall|i: int|
                0 <= i < total ==> item_view(#[trigger] res.items@[i]) == (ItemView {
                    idx: i as usize,
                    title: Seq::empty(),
                    artist: Seq::empty(),
                    song_id: Seq::empty(),
                    status: ItemStatusView::Pending,
                }),
            res.total == total,
            res.completed == 0,
            !res.finished,
            !res.cancelled,
            !res.interrupted,
            res.provider_name@ == provider_name@,
            res.task_name@ == task_name@,
            res.threads == threads,
            res.quality_name@ == quality_name@,
            res.output_dir@ == output_dir@,
    {
        let mut items: Vec<DownloadItem> = Vec::new();
        let mut i: usize = 0;
        while i < total
            invariant
                i <= total,
                items@.len() == i,
                forall|k: int|
                    0 <= k < i ==> item_view(#[trigger] items@[k]) == (ItemView {
                        idx: k as usize,
                        title: Seq::empty(),
                        artist: Seq::empty(),
                        song_id: Seq::empty(),
                        status: ItemStatusView::Pending,
                    }),
            decreases total - i,
        {
            items.push(
                DownloadItem {
                    idx: i,
                    title: String::new(),
                    artist: String::new(),
                    song_id: String::new(),
                    status: ItemStatus::Pending,
                },
            );
            i += 1;
        }
        DownloadPageState {
            items,
            total,
            completed: 0,
            finished: false,
            cancelled: false,
            interrupted: false,
            provider_name,
            task_name,
            threads,
            quality_name,
            output_dir,
        }
    }

    /// Fills in the title, artist and id of song `idx`, if it exists.
    pub fn update_item(&mut self, idx: usize, title: String, artist: String, song_id: String)
        ensures
            final(self).items@.len() == old(self).items@.len(),
            same_labels(final(self), old(self)),
            same_progress(final(self), old(self)),
            items_view(final(self).items@) == (if idx < old(self).items@.len() {
                items_view(old(self).items@).update(
                    idx as int,
                    ItemView { title: title@, artist: artist@, song_id: song_id@, ..item_view(old(self).items@[idx as int]) },
                )
            } else {
                items_view(old(self).items@)
            }),
    {
        if idx < self.items.len() {
            let item = DownloadItem {
                idx: self.items[idx].idx,
                title,
                artist,
                song_id,
                status: self.items[idx].status.copy(),
            };
            self.items.set(idx, item);
            assert(items_view(self.items@) =~= items_view(old(self).items@).update(idx as int, item_view(item)));
        }
    }

    /// Sets the status of song `idx`, if it exists.
    pub fn set_status(&mut self, idx: usize, status: ItemStatus)
        ensures
            final(self).items@.len() == old(self).items@.len(),
            same_labels(final(self), old(self)),
            same_progress(final(self), old(self)),
            items_view(final(self).items@) == (if idx < old(self).items@.len() {
                items_view(old(self).items@).update(
                    idx as int,
                    ItemView { status: status.view(), ..item_view(old(self).items@[idx as int]) },
                )
            } else {
                items_view(old(self).items@)
            }),
    {
        if idx < self.items.len() {
            let item = DownloadItem {
                idx: self.items[idx].idx,
                title: to_owned_string(self.items[idx].title.as_str()),
                artist: to_owned_string(self.items[idx].artist.as_str()),
                song_id: to_owned_string(self.items[idx].song_id.as_str()),
                status,
            };
            self.items.set(idx, item);
            assert(items_view(self.items@) =~= items_view(old(self).items@).update(idx as int, item_view(item)));
        }
    }

    /// Counts one more song as done.
    pub fn mark_completed(&mut self)
        ensures
            final(self).items@.len() == old(self).items@.len(),
            same_labels(final(self), old(self)),
            items_view(final(self).items@) == items_view(old(self).items@),
            final(self).completed == bumped(old(self).completed),
            final(self).finished == old(self).finished,
            final(self).cancelled == old(self).cancelled,
            final(self).interrupted == old(self).interrupted,
    {
        self.completed = if self.completed == usize::MAX { 0 } else { self.completed + 1 };
    }

    /// Marks the whole task as over.
    pub fn finish(&mut self)
        ensures
            final(self).items@.len() == old(self).items@.len(),
            same_labels(final(self), old(self)),
            items_view(final(self).items@) == items_view(old(self).items@),
            final(self).finished,
            final(self).completed == old(self).completed,
            final(self).cancelled == old(self).cancelled,
            final(self).interrupted == old(self).interrupted,
    {
        self.finished = true;
    }

    pub fn is_finished(&self) -> (res: bool)
        ensures
            res == self.finished,
    {
        self.finished
    }

    pub fn is_cancelled(&self) -> (res: bool)
        ensures
            res == self.cancelled,
    {
        self.cancelled
    }

    /// A finished task of one song that stands for a failure before any
    /// download began: the song carries `item_title` and the error.
    pub fn failed_task(
        provider_name: String,
        task_name: String,
        quality_name: String,
        output_dir: String,
        item_title: String,
        error: String,
    ) -> (res: Self)
        ensures
            res.items@.len() == 1,
            item_view(res.items@[0]) == (ItemView {
                idx: 0,
                title: item_title@,
                artist: Seq::empty(),
                song_id: Seq::empty(),
                status: ItemStatusView::Error(error@),
            }),
            res.total == 1,
            res.threads == 1,
            res.completed == 1,
            res.finished,
            !res.cancelled,
            !res.interrupted,
            res.provider_name@ == provider_name@,
            res.task_name@ == task_name@,
            res.quality_name@ == quality_name@,
            res.output_dir@ == output_dir@,
    {
        let mut s = DownloadPageState::new(provider_name, task_name, 1, 1, quality_name, output_dir);
        assert(items_view(s.items@)[0] == item_view(s.items@[0]));
        let ghost t = item_title@;
        let ghost e = error@;
        s.update_item(0, item_title, String::new(), String::new());
        assert(items_view(s.items@)[0].title == t);
        assert(items_view(s.items@)[0].idx == 0);
        s.set_status(0, ItemStatus::Error(error));
        assert(items_view(s.items@)[0].status == ItemStatusView::Error(e));
        assert(items_view(s.items@)[0].title == t);
        s.mark_completed();
        s.finish();
        assert(items_view(s.items@)[0] == item_view(s.items@[0]));
        s
    }

    /// Esc during the download: the task is cancelled, interrupted and over.
    pub fn cancel(&mut self)
        ensures
            same_labels(final(self), old(self)),
            items_view(final(self).items@) == items_view(old(self).items@),
            final(self).completed == old(self).completed,
            final(self).cancelled,
            final(self).interrupted,
            final(self).finished,
    {
        self.cancelled = true;
        self.interrupted = true;
        self.finished = true;
    }
}

/// How one attempt at one quality level ended.
pub enum AttemptOutcome {
    /// The file was written.
    Saved,
    /// The file was already there.
    AlreadyExists,
    /// The provider has no data at this quality; the next level is tried.
    NoData(String),
    /// Any other error; no further level is tried.
    Failed(String),
}

/// How many times an attempt with this outcome counts its song as done.
pub open spec fn record_bumps(o: AttemptOutcome) -> nat {
    match o {
        AttemptOutcome::Saved | AttemptOutcome::AlreadyExists => 1,
        _ => 0,
    }
}

/// Whether the next quality level is tried after this outcome.
pub open spec fn tries_next(o: AttemptOutcome) -> bool {
    o is NoData
}

/// How many times closing a song's attempts counts it as done.
pub open spec fn finish_bumps(success: bool, cancelled: bool) -> nat {
    if !success && !cancelled { 1 } else { 0 }
}

/// The done count after being counted `k` (0 or 1) times.
pub open spec fn bumped_by(c: usize, k: nat) -> usize {
    if k == 0 { c } else { bumped(c) }
}

/// How many of the outcomes count the song as done.
pub open spec fn run_bumps(outs: Seq<AttemptOutcome>) -> nat
    decreases outs.len(),
{
    if outs.len() == 0 {
        0
    } else {
        run_bumps(outs.drop_last()) + record_bumps(outs.last())
    }
}

/// Whether the song has succeeded after these outcomes, starting from none.
pub open spec fn run_success(outs: Seq<AttemptOutcome>) -> bool
    decreases outs.len(),
{
    if outs.len() == 0 {
        false
    } else {
        run_success(outs.drop_last()) || record_bumps(outs.last()) == 1
    }
}

/// Outcomes as the download loop records them for one song: every outcome
/// but the last asked for the next quality level.
pub open spec fn attempt_run(outs: Seq<AttemptOutcome>) -> bool {
    forall|j: int| 0 <= j < outs.len() - 1 ==> #[trigger] tries_next(outs[j])
}

/// What is known of a song while its quality levels are tried in turn.
pub struct SongAttempts {
    pub last_error: String,
    pub success: bool,
}

impl SongAttempts {
    pub fn new() -> (res: Self)
        ensures
            res.last_error@ == Seq::<char>::empty(),
            !res.success,
    {
        SongAttempts { last_error: String::new(), success: false }
    }

    /// Records an attempt for song `idx`; the result says whether the next
    /// quality level is to be tried.
    pub fn record(&mut self, state: &mut DownloadPageState, idx: usize, outcome: AttemptOutcome) -> (res: bool)
        ensures
            same_labels(final(state), old(state)),
            final(state).finished == old(state).finished,
            final(state).cancelled == old(state).cancelled,
            final(state).interrupted == old(state).interrupted,
            res == tries_next(outcome),
            final(self).success == (old(self).success || record_bumps(outcome) == 1),
            final(state).completed == bumped_by(old(state).completed, record_bumps(outcome)),
            match outcome {
                AttemptOutcome::Saved => {
                    &&& !res && final(self).success && final(self).last_error@ == old(self).last_error@
                    &&& final(state).completed == bumped(old(state).completed)
                    &&& items_view(final(state).items@) == (if idx < old(state).items@.len() {
                        items_view(old(state).items@).update(idx as int, ItemView { status: ItemStatusView::Complete, ..item_view(old(state).items@[idx as int]) })
                    } else {
                        items_view(old(state).items@)
                    })
                },
                AttemptOutcome::AlreadyExists => {
                    &&& !res && final(self).success && final(self).last_error@ == old(self).last_error@
                    &&& final(state).completed == bumped(old(state).completed)
                    &&& items_view(final(state).items@) == (if idx < old(state).items@.len() {
                        items_view(old(state).items@).update(idx as int, ItemView { status: ItemStatusView::Existing, ..item_view(old(state).items@[idx as int]) })
                    } else {
                        items_view(old(state).items@)
                    })
                },
                AttemptOutcome::NoData(e) => {
                    &&& res && final(self).success == old(self).success && final(self).last_error@ == e@
                    &&& final(state).completed == old(state).completed
                    &&& items_view(final(state).items@) == items_view(old(state).items@)
                },
                AttemptOutcome::Failed(e) => {
                    &&& !res && final(self).success == old(self).success && final(self).last_error@ == e@
                    &&& final(state).completed == old(state).completed
                    &&& items_view(final(state).items@) == items_view(old(state).items@)
                },
            },
    {
        match outcome {
            AttemptOutcome::Saved => {
                state.set_status(idx, ItemStatus::Complete);
                state.mark_completed();
                self.success = true;
                false
            },
            AttemptOutcome::AlreadyExists => {
                state.set_status(idx, ItemStatus::Existing);
                state.mark_completed();
                self.success = true;
                false
            },
            AttemptOutcome::NoData(e) => {
                self.last_error = e;
                true
            },
            AttemptOutcome::Failed(e) => {
                self.last_error = e;
                false
            },
        }
    }

    /// After the last attempt: a song that never succeeded is marked with the
    /// last error and counted, unless the task was cancelled.
    pub fn finish(&self, state: &mut DownloadPageState, idx: usize)
        ensures
            same_labels(final(state), old(state)),
            final(state).finished == old(state).finished,
            final(state).cancelled == old(state).cancelled,
            final(state).interrupted == old(state).interrupted,
            final(state).completed == bumped_by(old(state).completed, finish_bumps(self.success, old(state).cancelled)),
            if !self.success && !old(state).cancelled {
                &&& final(state).completed == bumped(old(state).completed)
                &&& items_view(final(state).items@) == (if idx < old(state).items@.len() {
                    items_view(old(state).items@).update(idx as int, ItemView { status: ItemStatusView::Error(self.last_error@), ..item_view(old(state).items@[idx as int]) })
                } else {
                    items_view(old(state).items@)
                })
            } else {
                &&& final(state).completed == old(state).completed
                &&& items_view(final(state).items@) == items_view(old(state).items@)
            },
    {
        if !self.success && !state.is_cancelled() {
            state.set_status(idx, ItemStatus::Error(to_owned_string(self.last_error.as_str())));
            state.mark_completed();
        }
    }
}

/// The colour family of a song's line.
#[derive(Clone, Copy, PartialEq, Eq, Structural, Debug)]
pub enum Tone {
    Done,
    Existing,
    Failed,
    Running,
    Idle,
}

/// The icon and colour of a song's line: during the download a running song
/// shows `↓` and a waiting one a blank; on the summary both show `?`.
pub open spec fn spec_status_icon(s: ItemStatusView, running: bool) -> (Seq<char>, Tone) {
    match s {
        ItemStatusView::Complete => ("✓"@, Tone::Done),
        ItemStatusView::Existing => ("•"@, Tone::Existing),
        ItemStatusView::Error(_) => ("✗"@, Tone::Failed),
        ItemStatusView::Downloading => if running { ("↓"@, Tone::Running) } else { ("?"@, Tone::Idle) },
        ItemStatusView::Pending => if running { (" "@, Tone::Idle) } else { ("?"@, Tone::Idle) },
    }
}

/// The icon and colour of a song's line.
pub fn status_icon(status: &ItemStatus, running: bool) -> (res: (&'static str, Tone))
    ensures
        (res.0@, res.1) == spec_status_icon(status.view(), running),
{
    match status {
        ItemStatus::Complete => ("✓", Tone::Done),
        ItemStatus::Existing => ("•", Tone::Existing),
        ItemStatus::Error(_) => ("✗", Tone::Failed),
        ItemStatus::Downloading => if running { ("↓", Tone::Running) } else { ("?", Tone::Idle) },
        ItemStatus::Pending => if running { (" ", Tone::Idle) } else { ("?", Tone::Idle) },
    }
}

/// The item shown for an album or playlist whose songs cannot be downloaded:
/// none when the fetch found songs; for an empty list, the list's title
/// marked as empty and a note that it has no songs; for a failed fetch, the
/// title marked as failed and the error.
pub fn list_fetch_failure(album: bool, title: &str, fetched: Result<usize, String>) -> (res: Option<(String, String)>)
    ensures
        match fetched {
            Ok(n) => if n > 0 {
                res is None
            } else {
                res matches Some((t, e)) && t@ == (if album { "专辑无歌曲: "@ } else { "歌单无歌曲: "@ }) + title@
                    && e@ == (if album { "该专辑没有可下载的歌曲"@ } else { "该歌单没有可下载的歌曲"@ })
            },
            Err(err) => res matches Some((t, e)) && t@ == "获取失败: "@ + title@ && e@ == err@,
        },
{
    match fetched {
        Ok(n) => {
            if n > 0 {
                return None;
            }
            let mut t = String::new();
            if album {
                push_str(&mut t, "专辑无歌曲: ");
            } else {
                push_str(&mut t, "歌单无歌曲: ");
            }
            push_str(&mut t, title);
            let e = if album { to_owned_string("该专辑没有可下载的歌曲") } else { to_owned_string("该歌单没有可下载的歌曲") };
            Some((t, e))
        },
        Err(err) => {
            let mut t = String::new();
            push_str(&mut t, "获取失败: ");
            push_str(&mut t, title);
            Some((t, err))
        },
    }
}

/// The artists of a song joined by ` / `.
pub fn artist_text(artists: &Vec<String>) -> (res: String)
    ensures
        res@ == join(views(artists@), " / "@),
{
    join_strings(artists, " / ")
}

/// Display rank of a status: downloading first, then pending, then the rest.
pub open spec fn status_rank(s: ItemStatusView) -> int {
    match s {
        ItemStatusView::Downloading => 0,
        ItemStatusView::Pending => 1,
        _ => 2,
    }
}

fn rank_of(s: &ItemStatus) -> (res: i128)
    ensures
        res == status_rank(s.view()),
{
    match s {
        ItemStatus::Downloading => 0,
        ItemStatus::Pending => 1,
        _ => 2,
    }
}

/// The order in which the songs are listed while downloading: by rank, and in
/// task order within a rank.
pub fn display_order(items: &Vec<DownloadItem>) -> (res: Vec<usize>)
    ensures
        res@.len() == items@.len(),
        distinct_below(res@, items@.len()),
        forall|i: int, j: int|
            0 <= i < j < res@.len() ==> {
                let a = #[trigger] res@[i] as int;
                let b = #[trigger] res@[j] as int;
                &&& status_rank(items@[a].status.view()) <= status_rank(items@[b].status.view())
                &&& (status_rank(items@[a].status.view()) == status_rank(items@[b].status.view()) ==> a < b)
            },
{
    let mut keys: Vec<i128> = Vec::new();
    let mut i: usize = 0;
    while i < items.len()
        invariant
            i <= items@.len(),
            keys@.len() == i,
            forall|k: int| 0 <= k < i ==> #[trigger] keys@[k] == status_rank(items@[k].status.view()),
        decreases items.len() - i,
    {
        keys.push(rank_of(&items[i].status));
        i += 1;
    }
    let res = stable_sort_indices(&keys);
    assert forall|i: int, j: int| 0 <= i < j < res@.len() implies {
        let a = #[trigger] res@[i] as int;
        let b = #[trigger] res@[j] as int;
        &&& status_rank(items@[a].status.view()) <= status_rank(items@[b].status.view())
        &&& (status_rank(items@[a].status.view()) == status_rank(items@[b].status.view()) ==> a < b)
    } by {
        assert(keys@[res@[i] as int] <= keys@[res@[j] as int]);
    }
    res
}

/// Counts of songs that were saved, already present, failed, and never started.
pub struct CompletionStats {
    pub success: usize,
    pub existing: usize,
    pub failed: usize,
    pub skipped: usize,
}

/// The four tallies of a finished task.
#[derive(Clone, Copy, PartialEq, Eq, Structural, Debug)]
pub enum Tally {
    Success,
    Existing,
    Failed,
    Skipped,
}

/// A status counts towards a tally: saved, already present, failed, or never started.
pub open spec fn in_tally(t: Tally, s: ItemStatusView) -> bool {
    match t {
        Tally::Success => s is Complete,
        Tally::Existing => s is Existing,
        Tally::Failed => s is Error,
        Tally::Skipped => s is Pending,
    }
}

/// How many songs of `s` count towards tally `t`.
pub open spec fn count_status(s: Seq<ItemView>, t: Tally) -> nat
    decreases s.len(),
{
    if s.len() == 0 {
        0
    } else {
        count_status(s.drop_last(), t) + if in_tally(t, s.last().status) { 1nat } else { 0nat }
    }
}

proof fn lemma_count_le(s: Seq<ItemView>, t: Tally)
    ensures
        count_status(s, t) <= s.len(),
    decreases s.len(),
{
    if s.len() > 0 {
        lemma_count_le(s.drop_last(), t);
    }
}

/// The tallies shown when a task is over.
pub fn completion_stats(items: &Vec<DownloadItem>) -> (res: CompletionStats)
    ensures
        res.success == count_status(items_view(items@), Tally::Success),
        res.existing == count_status(items_view(items@), Tally::Existing),
        res.failed == count_status(items_view(items@), Tally::Failed),
        res.skipped == count_status(items_view(items@), Tally::Skipped),
{
    let mut res = CompletionStats { success: 0, existing: 0, failed: 0, skipped: 0 };
    let mut i: usize = 0;
    while i < items.len()
        invariant
            i <= items@.len(),
            res.success == count_status(items_view(items@.take(i as int)), Tally::Success),
            res.existing == count_status(items_view(items@.take(i as int)), Tally::Existing),
            res.failed == count_status(items_view(items@.take(i as int)), Tally::Failed),
            res.skipped == count_status(items_view(items@.take(i as int)), Tally::Skipped),
        decreases items.len() - i,
    {
        let ghost before = items_view(items@.take(i as int));
        let ghost after = items_view(items@.take(i + 1));
        proof {
            assert(after.drop_last() =~= before);
            assert(after.last() == item_view(items@[i as int]));
            lemma_count_le(before, Tally::Success);
            lemma_count_le(before, Tally::Existing);
            lemma_count_le(before, Tally::Failed);
            lemma_count_le(before, Tally::Skipped);
        }
        match &items[i].status {
            ItemStatus::Complete => res.success = res.success + 1,
            ItemStatus::Existing => res.existing = res.existing + 1,
            ItemStatus::Error(_) => res.failed = res.failed + 1,
            ItemStatus::Pending => res.skipped = res.skipped + 1,
            _ => {},
        }
        i += 1;
    }
    assert(items@.take(items.len() as int) == items@);
    res
}

/// The summary line of a finished task; the "not downloaded" count appears
/// only when some songs never started.
pub open spec fn spec_stat_line(s: CompletionStats) -> Seq<char> {
    "  ✓ 成功: "@ + nat_decimal(s.success as nat) + " 首  • 已存在: "@ + nat_decimal(s.existing as nat)
        + " 首  ✗ 失败: "@ + nat_decimal(s.failed as nat) + " 首"@ + if s.skipped > 0 {
        "  未下载: "@ + nat_decimal(s.skipped as nat) + " 首"@
    } else {
        Seq::empty()
    }
}

/// Formats the summary line of a finished task.
pub fn stat_line(s: &CompletionStats) -> (res: String)
    ensures
        res@ == spec_stat_line(*s),
{
    let mut r = String::new();
    push_str(&mut r, "  ✓ 成功: ");
    push_decimal(&mut r, s.success as u64);
    push_str(&mut r, " 首  • 已存在: ");
    push_decimal(&mut r, s.existing as u64);
    push_str(&mut r, " 首  ✗ 失败: ");
    push_decimal(&mut r, s.failed as u64);
    push_str(&mut r, " 首");
    if s.skipped > 0 {
        push_str(&mut r, "  未下载: ");
        push_decimal(&mut r, s.skipped as u64);
        push_str(&mut r, " 首");
    }
    r
}

/// The heading of a finished task.
pub fn completion_title(interrupted: bool) -> (res: &'static str)
    ensures
        res@ == (if interrupted { " 下载中断  "@ } else { " 下载完成  "@ }),
{
    if interrupted { " 下载中断  " } else { " 下载完成  " }
}

/// The line for a song: icon, title and artist, and the message of an error.
pub open spec fn spec_item_text(icon: Seq<char>, item: ItemView) -> Seq<char> {
    " "@ + icon + " "@ + item.title + " - "@ + item.artist + match item.status {
        ItemStatusView::Error(m) => ": "@ + m,
        _ => Seq::empty(),
    }
}

/// Formats the line for a song.
pub fn item_text(icon: &str, item: &DownloadItem) -> (res: String)
    ensures
        res@ == spec_item_text(icon@, item_view(*item)),
{
    let mut r = String::new();
    push_str(&mut r, " ");
    push_str(&mut r, icon);
    push_str(&mut r, " ");
    push_str(&mut r, item.title.as_str());
    push_str(&mut r, " - ");
    push_str(&mut r, item.artist.as_str());
    match &item.status {
        ItemStatus::Error(m) => {
            push_str(&mut r, ": ");
            push_str(&mut r, m.as_str());
        },
        _ => {},
    }
    r
}

/// What a key does on the download page.
#[derive(Clone, Copy, PartialEq, Eq, Structural, Debug)]
pub enum DownloadKeyAction {
    Nothing,
    /// Back to the home page.
    Home,
    /// Cancel the running task.
    Cancel,
}

/// Once the task is over Esc, Enter or space go home; while it runs Esc cancels.
pub fn download_key(finished: bool, key: KeyCode) -> (res: DownloadKeyAction)
    ensures
        res == (if finished {
            if key == KeyCode::Esc || key == KeyCode::Enter || key == KeyCode::Char(' ') {
                DownloadKeyAction::Home
            } else {
                DownloadKeyAction::Nothing
            }
        } else if key == KeyCode::Esc {
            DownloadKeyAction::Cancel
        } else {
            DownloadKeyAction::Nothing
        }),
{
    if finished {
        if key == KeyCode::Esc || key == KeyCode::Enter || key == KeyCode::Char(' ') {
            DownloadKeyAction::Home
        } else {
            DownloadKeyAction::Nothing
        }
    } else if key == KeyCode::Esc {
        DownloadKeyAction::Cancel
    } else {
        DownloadKeyAction::Nothing
    }
}

/// Every song is counted once at most: the four tallies never exceed the
/// number of songs.
pub proof fn law_stats_within_total(s: Seq<ItemView>)
    ensures
        count_status(s, Tally::Success) + count_status(s, Tally::Existing) + count_status(s, Tally::Failed)
            + count_status(s, Tally::Skipped) <= s.len(),
    decreases s.len(),
{
    if s.len() > 0 {
        law_stats_within_total(s.drop_last());
    }
}

proof fn lemma_no_bumps(outs: Seq<AttemptOutcome>)
    requires
        forall|j: int| 0 <= j < outs.len() ==> #[trigger] tries_next(outs[j]),
    ensures
        run_bumps(outs) == 0,
        !run_success(outs),
    decreases outs.len(),
{
    if outs.len() > 0 {
        assert(tries_next(outs[outs.len() - 1]));
        let init = outs.drop_last();
        assert forall|j: int| 0 <= j < init.len() implies #[trigger] tries_next(init[j]) by {
            assert(tries_next(outs[j]));
        }
        lemma_no_bumps(init);
    }
}

/// One song's attempts count it as done exactly once, unless the task was
/// cancelled before it succeeded: the records of a run of attempts (each
/// but the last asking for the next level) and the closing `finish`
/// together bump the done count once, or not at all when the song never
/// succeeded and the task was cancelled. The song has succeeded exactly when
/// some attempt counted it.
pub proof fn law_song_counted_once(outs: Seq<AttemptOutcome>, cancelled: bool)
    requires
        attempt_run(outs),
    ensures
        run_bumps(outs) <= 1,
        run_success(outs) == (run_bumps(outs) == 1),
        run_bumps(outs) + finish_bumps(run_success(outs), cancelled) == (if cancelled && !run_success(outs) {
            0nat
        } else {
            1nat
        }),
{
    if outs.len() > 0 {
        let init = outs.drop_last();
        assert forall|j: int| 0 <= j < init.len() implies #[trigger] tries_next(init[j]) by {
            assert(tries_next(outs[j]));
        }
        lemma_no_bumps(init);
    }
}

} // verus!
