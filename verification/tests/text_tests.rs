use penguin_downloader_tui::app::{cleanup_message, pick_provider_name, sanitize_path, tn};
use penguin_downloader_tui::pages::download::artist_text;
use penguin_downloader_tui::text::{i32_to_string, join_strings, truncate, usize_to_string};

#[test]
fn sanitize_replaces_invalid_characters() {
    assert_eq!(sanitize_path("a<b>c:d\"e/f\\g|h?i*j"), "a_b_c_d_e_f_g_h_i_j");
}

#[test]
fn sanitize_trims_whitespace() {
    assert_eq!(sanitize_path("  My Song / Live \n"), "My Song _ Live");
    assert_eq!(sanitize_path("   "), "");
    assert_eq!(sanitize_path("周杰伦 - 晴天"), "周杰伦 - 晴天");
}

#[test]
fn sanitized_name_has_no_invalid_character() {
    let s = sanitize_path(" ?*<>|:\"/\\ x ");
    assert!(!s.chars().any(|c| ['<', '>', ':', '"', '/', '\\', '|', '?', '*'].contains(&c)));
    assert_eq!(s, "_________ x");
}

#[test]
fn task_name_up_to_three() {
    let t = vec!["A".to_string(), "B".to_string(), "C".to_string()];
    assert_eq!(tn(3, &t), "A、B、C");
    assert_eq!(tn(1, &vec!["A".to_string()]), "A");
    assert_eq!(tn(0, &Vec::new()), "");
}

#[test]
fn task_name_more_than_three() {
    let t = vec!["A".to_string(), "B".to_string(), "C".to_string(), "D".to_string()];
    assert_eq!(tn(4, &t), "A、B、C 等");
}

#[test]
fn cleanup_messages() {
    assert_eq!(cleanup_message(Ok(())), "已清理所有下载文件");
    assert_eq!(cleanup_message(Err("denied".to_string())), "清理失败: denied");
}

#[test]
fn provider_name_index_is_clamped() {
    let names = vec!["qq".to_string(), "kugou".to_string()];
    assert_eq!(pick_provider_name(&names, 0), Some("qq".to_string()));
    assert_eq!(pick_provider_name(&names, 1), Some("kugou".to_string()));
    assert_eq!(pick_provider_name(&names, 7), Some("kugou".to_string()));
    assert_eq!(pick_provider_name(&Vec::new(), 0), None);
}

#[test]
fn decimal_and_join_helpers() {
    assert_eq!(usize_to_string(0), "0");
    assert_eq!(usize_to_string(1203), "1203");
    assert_eq!(i32_to_string(-45), "-45");
    assert_eq!(i32_to_string(i32::MIN), "-2147483648");
    assert_eq!(join_strings(&vec!["a".to_string(), "b".to_string()], ", "), "a, b");
    assert_eq!(join_strings(&Vec::new(), ", "), "");
    assert_eq!(artist_text(&vec!["X".to_string(), "Y".to_string()]), "X / Y");
}

#[test]
fn truncate_counts_characters() {
    assert_eq!(truncate("晴天晴天晴天", 5), "晴天...");
    assert_eq!(truncate("abcdef", 2), "...");
    assert_eq!(truncate("abc", 3), "abc");
    assert_eq!(truncate("abc", 10), "abc");
}
