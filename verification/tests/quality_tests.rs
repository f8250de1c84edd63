use penguin_downloader_tui::quality::{
    build_quality_options, quality_name, resolve_quality, sorted_quality_levels, HIGHEST_QUALITY, LOWEST_QUALITY,
};

#[test]
fn options_are_lowest_levels_ascending_highest() {
    let levels = vec![(320, "HQ".to_string()), (128, "标准".to_string()), (999, "无损".to_string())];
    let o = build_quality_options(&levels);
    let names: Vec<&str> = o.iter().map(|(n, _)| n.as_str()).collect();
    let codes: Vec<i32> = o.iter().map(|(_, c)| *c).collect();
    assert_eq!(names, vec!["最低", "标准", "HQ", "无损", "最高"]);
    assert_eq!(codes, vec![LOWEST_QUALITY, 128, 320, 999, HIGHEST_QUALITY]);
}

#[test]
fn options_without_levels() {
    let o = build_quality_options(&Vec::new());
    assert_eq!(o.len(), 2);
    assert_eq!(o[0], ("最低".to_string(), -2));
    assert_eq!(o[1], ("最高".to_string(), -1));
}

#[test]
fn sorted_levels_descending() {
    assert_eq!(sorted_quality_levels(&vec![128, 999, 320, 128]), vec![999, 320, 128, 128]);
    assert_eq!(sorted_quality_levels(&vec![]), Vec::<i32>::new());
}

#[test]
fn resolve_highest_only() {
    assert_eq!(resolve_quality(999, -1), 999);
    assert_eq!(resolve_quality(999, -2), -2);
    assert_eq!(resolve_quality(999, 320), 320);
}

#[test]
fn quality_names() {
    let levels = vec![(320, "HQ".to_string()), (999, "无损".to_string())];
    assert_eq!(quality_name(&levels, 999, -1), "无损");
    assert_eq!(quality_name(&levels, 999, 320), "HQ");
    assert_eq!(quality_name(&levels, 999, 5), "品质5");
    assert_eq!(quality_name(&levels, 999, -2), "品质-2");
}
