use penguin_downloader_tui::input::KeyCode;
use penguin_downloader_tui::pages::download::{
    list_fetch_failure, completion_stats, completion_title, display_order, download_key, item_text, stat_line, AttemptOutcome, CompletionStats,
    DownloadItem, DownloadKeyAction, DownloadPageState, ItemStatus, SongAttempts,
};

fn state(n: usize) -> DownloadPageState {
    DownloadPageState::new("QQ".to_string(), "晴天".to_string(), n, 2, "HQ".to_string(), "/out".to_string())
}

fn item(idx: usize, status: ItemStatus) -> DownloadItem {
    DownloadItem { idx, title: format!("t{}", idx), artist: "a".to_string(), song_id: String::new(), status }
}

#[test]
fn new_state_has_pending_items() {
    let s = state(3);
    assert_eq!(s.items.len(), 3);
    assert!(s.items.iter().enumerate().all(|(i, it)| it.idx == i && matches!(it.status, ItemStatus::Pending)));
    assert_eq!(s.completed, 0);
    assert!(!s.is_finished());
    assert!(!s.is_cancelled());
}

#[test]
fn updates_ignore_bad_index() {
    let mut s = state(2);
    s.update_item(1, "T".to_string(), "A".to_string(), "id".to_string());
    s.set_status(1, ItemStatus::Downloading);
    s.update_item(5, "X".to_string(), "X".to_string(), "X".to_string());
    s.set_status(9, ItemStatus::Complete);
    assert_eq!(s.items[1].title, "T");
    assert!(matches!(s.items[1].status, ItemStatus::Downloading));
    assert_eq!(s.items[0].title, "");
}

#[test]
fn attempts_record_outcomes() {
    let mut s = state(3);
    let mut a = SongAttempts::new();
    assert!(!a.record(&mut s, 0, AttemptOutcome::Saved));
    assert!(matches!(s.items[0].status, ItemStatus::Complete));
    assert_eq!(s.completed, 1);
    let mut b = SongAttempts::new();
    assert!(b.record(&mut s, 1, AttemptOutcome::NoData("empty".to_string())));
    assert!(!b.record(&mut s, 1, AttemptOutcome::Failed("net".to_string())));
    assert_eq!(s.completed, 1);
    b.finish(&mut s, 1);
    assert!(matches!(&s.items[1].status, ItemStatus::Error(m) if m == "net"));
    assert_eq!(s.completed, 2);
    let mut c = SongAttempts::new();
    assert!(!c.record(&mut s, 2, AttemptOutcome::AlreadyExists));
    c.finish(&mut s, 2);
    assert!(matches!(s.items[2].status, ItemStatus::Existing));
    assert_eq!(s.completed, 3);
}

#[test]
fn failures_after_cancel_are_not_counted() {
    let mut s = state(1);
    s.cancel();
    assert!(s.is_cancelled());
    assert!(s.is_finished());
    assert!(s.interrupted);
    let mut a = SongAttempts::new();
    a.record(&mut s, 0, AttemptOutcome::Failed("x".to_string()));
    a.finish(&mut s, 0);
    assert_eq!(s.completed, 0);
    assert!(matches!(s.items[0].status, ItemStatus::Pending));
}

#[test]
fn failed_task_state() {
    let s = DownloadPageState::failed_task(
        "QQ".to_string(),
        "歌单".to_string(),
        "HQ".to_string(),
        "/o".to_string(),
        "歌单".to_string(),
        "获取失败".to_string(),
    );
    assert_eq!(s.total, 1);
    assert_eq!(s.completed, 1);
    assert!(s.finished);
    assert!(matches!(&s.items[0].status, ItemStatus::Error(m) if m == "获取失败"));
}

#[test]
fn stats_count_each_status() {
    let items = vec![
        item(0, ItemStatus::Complete),
        item(1, ItemStatus::Existing),
        item(2, ItemStatus::Error("e".to_string())),
        item(3, ItemStatus::Pending),
        item(4, ItemStatus::Complete),
        item(5, ItemStatus::Downloading),
    ];
    let st = completion_stats(&items);
    assert_eq!((st.success, st.existing, st.failed, st.skipped), (2, 1, 1, 1));
    assert!(st.success + st.existing + st.failed + st.skipped <= items.len());
    assert_eq!(stat_line(&st), "  ✓ 成功: 2 首  • 已存在: 1 首  ✗ 失败: 1 首  未下载: 1 首");
}

#[test]
fn stat_line_without_skipped() {
    let st = CompletionStats { success: 10, existing: 0, failed: 3, skipped: 0 };
    assert_eq!(stat_line(&st), "  ✓ 成功: 10 首  • 已存在: 0 首  ✗ 失败: 3 首");
}

#[test]
fn display_order_downloading_first() {
    let items = vec![
        item(0, ItemStatus::Complete),
        item(1, ItemStatus::Pending),
        item(2, ItemStatus::Downloading),
        item(3, ItemStatus::Error("x".to_string())),
        item(4, ItemStatus::Downloading),
    ];
    assert_eq!(display_order(&items), vec![2, 4, 1, 0, 3]);
}

#[test]
fn item_lines() {
    assert_eq!(item_text("✓", &item(3, ItemStatus::Complete)), " ✓ t3 - a");
    assert_eq!(item_text("✗", &item(1, ItemStatus::Error("超时".to_string()))), " ✗ t1 - a: 超时");
}

#[test]
fn titles_and_keys() {
    assert_eq!(completion_title(true), " 下载中断  ");
    assert_eq!(completion_title(false), " 下载完成  ");
    assert_eq!(download_key(false, KeyCode::Esc), DownloadKeyAction::Cancel);
    assert_eq!(download_key(false, KeyCode::Enter), DownloadKeyAction::Nothing);
    assert_eq!(download_key(true, KeyCode::Char(' ')), DownloadKeyAction::Home);
    assert_eq!(download_key(true, KeyCode::Enter), DownloadKeyAction::Home);
    assert_eq!(download_key(true, KeyCode::Char('q')), DownloadKeyAction::Nothing);
}

#[test]
fn mark_completed_and_finish() {
    let mut s = state(2);
    s.mark_completed();
    s.mark_completed();
    assert_eq!(s.completed, 2);
    s.finish();
    assert!(s.is_finished());
    assert!(!s.is_cancelled());
}

#[test]
fn list_fetch_failures() {
    assert_eq!(list_fetch_failure(true, "范特西", Ok(10)), None);
    assert_eq!(
        list_fetch_failure(true, "范特西", Ok(0)),
        Some(("专辑无歌曲: 范特西".to_string(), "该专辑没有可下载的歌曲".to_string()))
    );
    assert_eq!(
        list_fetch_failure(false, "我喜欢", Ok(0)),
        Some(("歌单无歌曲: 我喜欢".to_string(), "该歌单没有可下载的歌曲".to_string()))
    );
    assert_eq!(
        list_fetch_failure(false, "我喜欢", Err("网络错误".to_string())),
        Some(("获取失败: 我喜欢".to_string(), "网络错误".to_string()))
    );
}

#[test]
fn song_counted_once_over_attempts() {
    // two levels without data, then a saved file: counted once
    let mut s = state(1);
    let mut a = SongAttempts::new();
    assert!(a.record(&mut s, 0, AttemptOutcome::NoData("n1".to_string())));
    assert!(a.record(&mut s, 0, AttemptOutcome::NoData("n2".to_string())));
    assert!(!a.record(&mut s, 0, AttemptOutcome::Saved));
    a.finish(&mut s, 0);
    assert_eq!(s.completed, 1);
    // no level had data: counted once, by finish
    let mut t = state(1);
    let mut b = SongAttempts::new();
    assert!(b.record(&mut t, 0, AttemptOutcome::NoData("n".to_string())));
    b.finish(&mut t, 0);
    assert_eq!(t.completed, 1);
    assert!(matches!(&t.items[0].status, ItemStatus::Error(m) if m == "n"));
}
