use fm_inspect::grouping::group_images;

fn strings(v: &[&str]) -> Vec<String> {
    v.iter().map(|s| s.to_string()).collect()
}

#[test]
fn hidden_and_top_level_files_are_excluded() {
    let paths = strings(&["StationX/a.png", "StationX/.hidden.png", "top.png"]);
    let groups = group_images("picture", &paths);
    assert_eq!(groups.len(), 1);
    assert_eq!(groups[0].0, "StationX");
    assert_eq!(groups[0].1, vec!["StationX/a.png".to_string()]);
}

#[test]
fn parent_named_like_root_is_excluded() {
    let paths = strings(&["picture/a.png", "ST9/b.png"]);
    let groups = group_images("picture", &paths);
    assert_eq!(groups.len(), 1);
    assert_eq!(groups[0].0, "ST9");
}

#[test]
fn hidden_directory_component_is_excluded() {
    let paths = strings(&[".archive/ST1/a.png", "ST1/.tmp/b.png", "ST1/c.png"]);
    let groups = group_images("picture", &paths);
    assert_eq!(groups.len(), 1);
    assert_eq!(groups[0].0, "ST1");
    assert_eq!(groups[0].1, vec!["ST1/c.png".to_string()]);
}

#[test]
fn nested_file_groups_under_immediate_parent() {
    let paths = strings(&["region/ST77/a.png"]);
    let groups = group_images("picture", &paths);
    assert_eq!(groups.len(), 1);
    assert_eq!(groups[0].0, "ST77");
}

#[test]
fn interleaved_stations_keep_first_seen_order() {
    let paths = strings(&["A/1.png", "B/2.png", "A/3.png"]);
    let groups = group_images("picture", &paths);
    assert_eq!(groups.len(), 2);
    assert_eq!(groups[0].0, "A");
    assert_eq!(groups[0].1, vec!["A/1.png".to_string(), "A/3.png".to_string()]);
    assert_eq!(groups[1].0, "B");
    assert_eq!(groups[1].1, vec!["B/2.png".to_string()]);
}

#[test]
fn empty_input_gives_empty_grouping() {
    let groups = group_images("picture", &vec![]);
    assert!(groups.is_empty());
}

#[test]
fn dot_inside_name_is_not_hidden() {
    let paths = strings(&["ST1/shot.final.png"]);
    let groups = group_images("picture", &paths);
    assert_eq!(groups.len(), 1);
    assert_eq!(groups[0].1, vec!["ST1/shot.final.png".to_string()]);
}
