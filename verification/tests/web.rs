use lestallum::ui::{
    chevron_class, navbar_backdrop_class, navbar_class, overlay_style, reveal_class, video_size_style,
    NavMenus, OverlayGroup, VideoPosition,
};

#[test]
fn overlay_boxes_are_hidden_until_they_play() {
    assert_eq!(
        overlay_style(VideoPosition::Right, true),
        "position:fixed;right:0;top:50%;transform:translateY(-50%);z-index:50;pointer-events:none;"
    );
    assert_eq!(
        overlay_style(VideoPosition::TopLeft, false),
        "position:fixed;top:0;left:0;z-index:50;pointer-events:none;visibility:hidden;"
    );
    assert_eq!(VideoPosition::default(), VideoPosition::Right);
    assert_eq!(VideoPosition::Bottom.to_css(), "bottom:0;left:50%;transform:translateX(-50%);");
}

#[test]
fn videos_are_sized_only_where_a_size_is_given() {
    assert_eq!(video_size_style(Some("400px"), None), "width:400px;");
    assert_eq!(video_size_style(Some("1px"), Some("2px")), "width:1px;height:2px;");
    assert_eq!(video_size_style(None, None), "");
}

#[test]
fn classes_follow_the_page_state() {
    assert_eq!(reveal_class(false), "opacity-0");
    assert!(navbar_class(true).ends_with(" pt-4"));
    assert!(navbar_class(false).ends_with(" pt-0"));
    assert!(navbar_backdrop_class(true).ends_with("ease-out rounded-2xl shadow-2xl"));
    assert_eq!(chevron_class(true), "h-3 w-3 transition-transform duration-200");
    assert_eq!(chevron_class(false), "h-3 w-3 transition-transform duration-200 -rotate-90");
}

#[test]
fn closing_the_menus_closes_every_one() {
    let mut menus = NavMenus::default();
    assert!(!menus.any_open());
    menus.toggle_info();
    menus.toggle_profile();
    assert!(menus.any_open());
    menus.close_all();
    assert!(!menus.any_open());
    menus.toggle_mobile();
    menus.toggle_mobile();
    assert_eq!(menus, NavMenus::default());
}

#[test]
fn overlay_groups_play_one_joined_video_at_a_time() {
    let mut group = OverlayGroup::new(5);
    assert_eq!(group.frequency_ms(), 5000);
    group.start(3);
    assert!(!group.is_playing(0));
    let first = group.join();
    let second = group.join();
    assert_eq!((first, second), (0, 1));
    group.start(7);
    assert!(group.is_playing(1) && !group.is_playing(0));
    group.stop();
    assert!(!group.is_playing(1));
    assert_eq!(OverlayGroup::new(u32::MAX).frequency_ms(), u32::MAX);
}

#[test]
fn videos_joining_a_group_are_numbered_in_order() {
    let mut group = OverlayGroup::new(1);
    let ids: Vec<usize> = (0..5).map(|_| group.join()).collect();
    assert_eq!(ids, [0, 1, 2, 3, 4]);
    assert_eq!(group.child_count(), 5);
}

#[derive(Debug)]
#[allow(dead_code)]
struct DatabaseConfig {
    url: &'static str,
    max_connections: u32,
    min_connections: u32,
    connect_timeout_secs: u64,
    acquire_timeout_secs: u64,
}

#[test]
fn database_configs_are_logged_without_their_url() {
    let config = lestallum::config::DatabaseConfig {
        url: "postgres://user:SECRET-REDACTED@db/lestallum".to_owned(),
        max_connections: 10,
        min_connections: 1,
        connect_timeout_secs: 8,
        acquire_timeout_secs: 8,
    };
    let expected = DatabaseConfig {
        url: "<redacted>",
        max_connections: 10,
        min_connections: 1,
        connect_timeout_secs: 8,
        acquire_timeout_secs: 8,
    };
    assert_eq!(config.debug_text(), format!("{expected:?}"));
    assert!(!config.debug_text().contains("postgres"));
}
