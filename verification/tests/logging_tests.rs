use penguin_downloader_tui::logging::{
    is_log_file_name, log_line, logs_to_remove, record_field, simplify_file_path, simplify_target, LogFile, MAX_LOG_FILES,
};

#[test]
fn simplify_target_core_and_tui() {
    assert_eq!(simplify_target("penguin_downloader::core::x"), "[core]");
    // the core prefix is tested first, so the TUI crate is tagged as core too
    assert_eq!(simplify_target("penguin_downloader_tui::app"), "[core]");
}

#[test]
fn simplify_target_provider_and_other() {
    assert_eq!(simplify_target("qq_provider::api"), "[provider]");
    assert_eq!(simplify_target("reqwest::connect"), "[reqwest]");
    assert_eq!(simplify_target("hyper"), "[hyper]");
    assert_eq!(simplify_target(""), "[]");
}

#[test]
fn simplify_file_path_cuts_after_src() {
    assert_eq!(simplify_file_path("/home/u/proj/src/pages/home.rs"), "pages/home.rs");
    assert_eq!(simplify_file_path("C:\\proj\\src\\app.rs"), "app.rs");
    assert_eq!(simplify_file_path("/a/src/b/src/c.rs"), "b/src/c.rs");
    assert_eq!(simplify_file_path("main.rs"), "main.rs");
}

#[test]
fn log_line_exact_format() {
    let l = log_line("12:34:56", "INFO", "reqwest::x", Some("/p/src/app.rs"), Some(42), "hello");
    assert_eq!(l, "12:34:56 INFO [reqwest] app.rs:42 - hello\n");
    let l = log_line("00:00:00", "ERROR", "tokio", None, None, "");
    assert_eq!(l, "00:00:00 ERROR [tokio] unknown:0 - \n");
}

#[test]
fn record_field_message_and_pairs() {
    let mut r = String::new();
    record_field(&mut r, "message", "started");
    assert_eq!(r, "started");
    record_field(&mut r, "count", "3");
    assert_eq!(r, "started, count=3");
    let mut e = String::new();
    record_field(&mut e, "id", "7");
    assert_eq!(e, "id=7");
    let mut d = "x - ".to_string();
    record_field(&mut d, "k", "v");
    assert_eq!(d, "x - k=v");
}

#[test]
fn log_file_names() {
    assert!(is_log_file_name("penguin-downloader_20240101_120000.log"));
    assert!(is_log_file_name("penguin-downloader_.log"));
    assert!(!is_log_file_name("penguin-downloader_x.txt"));
    assert!(!is_log_file_name("other_20240101.log"));
    assert!(!is_log_file_name(".log"));
    assert!(!is_log_file_name(""));
}

fn log(name: &str, t: i128) -> LogFile {
    LogFile { name: name.to_string(), is_file: true, modified: t }
}

#[test]
fn no_logs_removed_below_limit() {
    let files: Vec<LogFile> = (0..(MAX_LOG_FILES as i128 - 1)).map(|i| log(&format!("penguin-downloader_{}.log", i), i)).collect();
    assert!(logs_to_remove(&files).is_empty());
}

#[test]
fn oldest_logs_removed_at_limit() {
    let mut files: Vec<LogFile> = Vec::new();
    for i in 0..22i128 {
        files.push(log(&format!("penguin-downloader_{}.log", i), 100 - i));
    }
    files.push(LogFile { name: "notes.txt".to_string(), is_file: true, modified: 0 });
    files.push(LogFile { name: "penguin-downloader_dir.log".to_string(), is_file: false, modified: 0 });
    let r = logs_to_remove(&files);
    // 22 logs: 3 removed so that 19 remain and the new one makes 20
    assert_eq!(r, vec![21, 20, 19]);
    assert_eq!(22 - r.len(), MAX_LOG_FILES - 1);
}

#[test]
fn equal_times_removed_in_directory_order() {
    let files: Vec<LogFile> = (0..20).map(|i| log(&format!("penguin-downloader_{}.log", i), 5)).collect();
    assert_eq!(logs_to_remove(&files), vec![0]);
}
