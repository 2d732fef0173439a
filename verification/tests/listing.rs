use jrip::{build_primary_listing, build_sidebar_listing, list_primary, list_sidebar};

fn e(name: &str, is_dir: bool) -> (String, bool) {
    (name.to_string(), is_dir)
}

#[test]
fn primary_puts_directories_before_files_in_enumeration_order() {
    let entries = vec![
        e("clip.mkv", false),
        e("season1", true),
        e("notes.txt", false),
        e("season2", true),
        e("pilot.mkv", false),
    ];
    let listing = build_primary_listing(&entries);
    assert_eq!(
        listing,
        vec![
            e("season1", true),
            e("season2", true),
            e("clip.mkv", false),
            e("pilot.mkv", false),
        ]
    );
}

#[test]
fn primary_keeps_files_iff_name_ends_in_mkv_case_insensitively() {
    let entries = vec![
        e("a.mkv", false),
        e("b.MKV", false),
        e("c.MKv", false),
        e("d.mKv", false),
        e("e.mp4", false),
        e("mkv", false),
        e("f.mkv.txt", false),
        e("g", false),
    ];
    let listing = build_primary_listing(&entries);
    assert_eq!(
        listing,
        vec![
            e("a.mkv", false),
            e("b.MKV", false),
            e("c.MKv", false),
            e("d.mKv", false),
        ]
    );
}

#[test]
fn primary_keeps_every_directory_including_hidden_ones() {
    let entries = vec![e(".config", true), e("videos", true), e(".hidden.mkv", false)];
    let listing = build_primary_listing(&entries);
    assert_eq!(
        listing,
        vec![e(".config", true), e("videos", true), e(".hidden.mkv", false)]
    );
}

#[test]
fn sidebar_keeps_only_visible_directories() {
    let entries = vec![
        e(".config", true),
        e("videos", true),
        e("clip.mkv", false),
        e("music", true),
        e(".cache", true),
        e("notes.txt", false),
    ];
    let listing = build_sidebar_listing(&entries);
    assert_eq!(listing, vec![e("videos", true), e("music", true)]);
}

#[test]
fn unreadable_directory_lists_as_empty() {
    assert_eq!(list_primary(None), vec![]);
    assert_eq!(list_sidebar(None), vec![]);
}

#[test]
fn readable_directory_lists_through_the_filter() {
    let entries = vec![e("clip.mkv", false), e("season1", true)];
    let listing = list_primary(Some(entries));
    assert_eq!(listing, vec![e("season1", true), e("clip.mkv", false)]);
    let side = list_sidebar(Some(vec![e("clip.mkv", false), e("season1", true)]));
    assert_eq!(side, vec![e("season1", true)]);
}

#[test]
fn empty_directory_lists_as_empty() {
    assert_eq!(list_primary(Some(vec![])), vec![]);
    assert_eq!(list_sidebar(Some(vec![])), vec![]);
}
