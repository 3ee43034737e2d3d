use hangar::api::{
    HangarRequest, PageRequest, ProjectRequest, ProjectsRequest, VersionRequest, VersionsRequest,
};
use hangar::decode::WireName;
use hangar::object::{Category, Namespace, Pagination, Platform, ProjectsSort};
use hangar::text::{decimal_string, same_text};

fn pair(key: &str, value: &str) -> (String, String) {
    (key.to_string(), value.to_string())
}

fn value_of(params: &[(String, String)], key: &str) -> Option<String> {
    params.iter().find(|(k, _)| k == key).map(|(_, v)| v.clone())
}

#[test]
fn pagination_default_is_first_page_of_25() {
    assert_eq!(Pagination::default(), Pagination { limit: 25, offset: 0 });
}

#[test]
fn pagination_from_tuple_takes_limit_then_offset() {
    assert_eq!(Pagination::from((10, 30)), Pagination { limit: 10, offset: 30 });
    let p: Pagination = (7, 0).into();
    assert_eq!(p, Pagination { limit: 7, offset: 0 });
}

#[test]
fn projects_url_is_fixed() {
    let r = ProjectsRequest::default();
    assert_eq!(r.url(), "https://hangar.papermc.io/api/v1/projects");
}

#[test]
fn project_url_holds_slug() {
    let r = ProjectRequest::new("Maintenance".to_string());
    assert_eq!(r.url(), "https://hangar.papermc.io/api/v1/projects/Maintenance");
    assert!(r.params().is_empty());
}

#[test]
fn page_url_holds_slug_but_not_path() {
    let r = PageRequest::new("Maintenance".to_string(), "docs/setup".to_string());
    assert_eq!(r.url(), "https://hangar.papermc.io/api/v1/pages/page/Maintenance");
    assert_eq!(r.params(), vec![pair("path", "docs/setup")]);
}

#[test]
fn versions_url_holds_slug() {
    let r = VersionsRequest::new("Maintenance".to_string(), Pagination::default());
    assert_eq!(r.url(), "https://hangar.papermc.io/api/v1/projects/Maintenance/versions");
}

#[test]
fn version_url_holds_slug_and_name() {
    let r = VersionRequest::new("Maintenance".to_string(), "4.2.0".to_string());
    assert_eq!(r.url(), "https://hangar.papermc.io/api/v1/projects/Maintenance/versions/4.2.0");
    assert!(r.params().is_empty());
}

#[test]
fn slug_is_passed_through_unchecked() {
    let r = ProjectRequest::new("a b/../c?x=1".to_string());
    assert_eq!(r.url(), "https://hangar.papermc.io/api/v1/projects/a b/../c?x=1");
}

#[test]
fn namespace_url_joins_owner_and_slug() {
    let n = Namespace { owner: "kennytv".to_string(), slug: "Maintenance".to_string() };
    assert_eq!(n.url(), "https://hangar.papermc.io/kennytv/Maintenance");
}

#[test]
fn projects_params_without_filters_hold_only_the_window() {
    let r = ProjectsRequest::default();
    assert_eq!(r.params(), vec![pair("limit", "25"), pair("offset", "0")]);
}

#[test]
fn projects_params_with_every_filter_come_in_order() {
    let r = ProjectsRequest::new(Pagination { limit: 5, offset: 40 })
        .prioritize_exact_match(true)
        .sort(ProjectsSort::RecentDownloads)
        .category(Category::AdminTools)
        .platform(Platform::Velocity)
        .owner("kennytv".to_string())
        .query("maintenance mode".to_string())
        .license("MIT".to_string())
        .version("1.20.4".to_string())
        .tag("ADDON".to_string())
        .member("someone".to_string());
    assert_eq!(
        r.params(),
        vec![
            pair("prioritizeExactMatch", "true"),
            pair("limit", "5"),
            pair("offset", "40"),
            pair("sort", "-recent-downloads"),
            pair("category", "admin_tools"),
            pair("platform", "VELOCITY"),
            pair("owner", "kennytv"),
            pair("query", "maintenance mode"),
            pair("license", "MIT"),
            pair("version", "1.20.4"),
            pair("tag", "ADDON"),
            pair("member", "someone"),
        ]
    );
}

#[test]
fn omitted_owner_leaves_no_owner_key() {
    let r = ProjectsRequest::new(Pagination::default()).query("x".to_string());
    let params = r.params();
    assert!(params.iter().all(|(k, _)| k != "owner"));
    assert_eq!(params, vec![pair("limit", "25"), pair("offset", "0"), pair("query", "x")]);
}

#[test]
fn an_empty_filter_is_sent_as_empty() {
    let r = ProjectsRequest::new(Pagination::default()).owner(String::new());
    assert_eq!(value_of(&r.params(), "owner"), Some(String::new()));
}

#[test]
fn a_false_flag_is_sent() {
    let r = ProjectsRequest::new(Pagination::default()).prioritize_exact_match(false);
    assert_eq!(value_of(&r.params(), "prioritizeExactMatch"), Some("false".to_string()));
}

#[test]
fn setters_change_one_field() {
    let base = ProjectsRequest::new(Pagination { limit: 1, offset: 2 });
    let with_tag = base.clone().tag("LIBRARY".to_string());
    assert_eq!(with_tag.tag, Some("LIBRARY".to_string()));
    assert_eq!(with_tag.pagination, base.pagination);
    assert_eq!(with_tag.owner, None);
    assert_eq!(with_tag.sort, None);
}

#[test]
fn versions_params_come_in_order() {
    let r = VersionsRequest::new("Maintenance".to_string(), Pagination { limit: 3, offset: 9 })
        .include_hidden_channels(false)
        .channel("Release".to_string())
        .platform(Platform::Paper)
        .platform_version("1.21".to_string());
    assert_eq!(
        r.params(),
        vec![
            pair("limit", "3"),
            pair("offset", "9"),
            pair("includeHiddenChannels", "false"),
            pair("channel", "Release"),
            pair("platform", "PAPER"),
            pair("platformVersion", "1.21"),
        ]
    );
}

#[test]
fn versions_params_without_filters_hold_only_the_window() {
    let r = VersionsRequest::new("Maintenance".to_string(), Pagination::default());
    assert_eq!(r.params(), vec![pair("limit", "25"), pair("offset", "0")]);
}

#[test]
fn pagination_round_trips_through_params() {
    let cases: [(i64, i64); 6] =
        [(25, 0), (0, 0), (1, 9), (100, 12345), (i64::MAX, i64::MAX - 1), (7, 1_000_000_007)];
    for (limit, offset) in cases {
        let params = ProjectsRequest::new(Pagination { limit, offset }).params();
        assert_eq!(value_of(&params, "limit").unwrap().parse::<i64>().unwrap(), limit);
        assert_eq!(value_of(&params, "offset").unwrap().parse::<i64>().unwrap(), offset);
        let params = VersionsRequest::new("s".to_string(), Pagination { limit, offset }).params();
        assert_eq!(value_of(&params, "limit").unwrap().parse::<i64>().unwrap(), limit);
        assert_eq!(value_of(&params, "offset").unwrap().parse::<i64>().unwrap(), offset);
    }
}

#[test]
fn negative_window_is_written_with_a_sign() {
    let params = ProjectsRequest::new(Pagination { limit: -1, offset: i64::MIN }).params();
    assert_eq!(params, vec![pair("limit", "-1"), pair("offset", "-9223372036854775808")]);
}

#[test]
fn sort_keys_have_their_exact_names() {
    assert_eq!(ProjectsSort::Views.as_str(), "-views");
    assert_eq!(ProjectsSort::Downloads.as_str(), "-downloads");
    assert_eq!(ProjectsSort::Newest.as_str(), "-newest");
    assert_eq!(ProjectsSort::Stars.as_str(), "-stars");
    assert_eq!(ProjectsSort::Updated.as_str(), "-updated");
    assert_eq!(ProjectsSort::RecentDownloads.as_str(), "-recent-downloads");
    assert_eq!(ProjectsSort::RecentViews.as_str(), "-recent-views");
    assert_eq!(ProjectsSort::Slug.as_str(), "slug");
}

#[test]
fn sort_key_goes_into_params_as_named() {
    let r = ProjectsRequest::new(Pagination::default()).sort(ProjectsSort::Slug);
    assert_eq!(value_of(&r.params(), "sort"), Some("slug".to_string()));
    let r = ProjectsRequest::new(Pagination::default()).sort(ProjectsSort::Views);
    assert_eq!(value_of(&r.params(), "sort"), Some("-views".to_string()));
}

#[test]
fn category_names_on_the_wire() {
    let all = [
        (Category::AdminTools, "admin_tools"),
        (Category::Chat, "chat"),
        (Category::DevTools, "dev_tools"),
        (Category::Economy, "economy"),
        (Category::Gameplay, "gameplay"),
        (Category::Games, "games"),
        (Category::Protection, "protection"),
        (Category::RolePlaying, "role_playing"),
        (Category::WorldManagement, "world_management"),
        (Category::Misc, "misc"),
        (Category::Undefined, "undefined"),
    ];
    for (category, name) in all {
        assert_eq!(category.as_str(), name);
        assert_eq!(Category::from_name(name), Some(category));
    }
    assert_eq!(Category::from_name("Admin Tools"), None);
    assert_eq!(Category::from_name(""), None);
}

#[test]
fn category_names_for_a_reader() {
    assert_eq!(Category::AdminTools.to_string(), "Admin Tools");
    assert_eq!(Category::Chat.to_string(), "Chat");
    assert_eq!(Category::DevTools.to_string(), "Dev Tools");
    assert_eq!(Category::Economy.to_string(), "Economy");
    assert_eq!(Category::Gameplay.to_string(), "Gameplay");
    assert_eq!(Category::Games.to_string(), "Games");
    assert_eq!(Category::Protection.to_string(), "Protection");
    assert_eq!(Category::RolePlaying.to_string(), "Role Playing");
    assert_eq!(Category::WorldManagement.to_string(), "World Management");
    assert_eq!(Category::Misc.to_string(), "Misc");
    assert_eq!(Category::Undefined.to_string(), "Undefined");
}

#[test]
fn platform_names() {
    assert_eq!(Platform::Paper.as_str(), "PAPER");
    assert_eq!(Platform::Waterfall.as_str(), "WATERFALL");
    assert_eq!(Platform::Velocity.as_str(), "VELOCITY");
    assert_eq!(Platform::Paper.to_string(), "Paper");
    assert_eq!(Platform::Waterfall.to_string(), "Waterfall");
    assert_eq!(Platform::Velocity.to_string(), "Velocity");
    assert_eq!(Platform::from_name("PAPER"), Some(Platform::Paper));
    assert_eq!(Platform::from_name("paper"), None);
}

#[test]
fn decimal_text_of_integers() {
    assert_eq!(decimal_string(0), "0");
    assert_eq!(decimal_string(7), "7");
    assert_eq!(decimal_string(10), "10");
    assert_eq!(decimal_string(1234567890), "1234567890");
    assert_eq!(decimal_string(-5), "-5");
    assert_eq!(decimal_string(i64::MAX), "9223372036854775807");
    assert_eq!(decimal_string(i64::MIN), "-9223372036854775808");
    for n in [-1000i64, -999, -10, -1, 0, 1, 9, 10, 11, 99, 100, 101, 65535] {
        assert_eq!(decimal_string(n), format!("{}", n));
    }
}

#[test]
fn same_text_compares_whole_strings() {
    assert!(same_text("", ""));
    assert!(same_text("owner", "owner"));
    assert!(!same_text("owner", "owned"));
    assert!(!same_text("owner", "owne"));
    assert!(!same_text("", "x"));
    assert!(same_text("grüße", "grüße"));
    assert!(!same_text("grüße", "grusse"));
}
