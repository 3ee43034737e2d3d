use hangar::api::{PaginationResponse, ProjectsResponse, VersionsResponse};
use hangar::decode::{Decode, WireName};
use hangar::error::{DecodeError, ErrorKind, Path};
use hangar::json::Json;
use hangar::object::{
    ActualLink, ByPlatform, Category, Channel, ChannelFlags, Donation, License, Link, Namespace,
    PinnedStatus, Platform, Project, ProjectSettings, ProjectStats, ProjectTags, ReviewState,
    UserActions, Version, VersionDownloads, VersionDownloadsFileInfo, VersionPluginDependencies,
    VersionStats, Visibility,
};
use hangar::timestamp::Timestamp;

fn to_json(value: &serde_json::Value) -> Json {
    match value {
        serde_json::Value::Null => Json::Null,
        serde_json::Value::Bool(b) => Json::Bool(*b),
        serde_json::Value::Number(n) => match n.as_i64() {
            Some(i) => Json::Int(i),
            None => Json::Decimal(n.to_string()),
        },
        serde_json::Value::String(s) => Json::Text(s.clone()),
        serde_json::Value::Array(items) => Json::Array(items.iter().map(to_json).collect()),
        serde_json::Value::Object(members) => {
            Json::Object(members.iter().map(|(k, v)| (k.clone(), to_json(v))).collect())
        }
    }
}

fn json(text: &str) -> Json {
    to_json(&serde_json::from_str::<serde_json::Value>(text).unwrap())
}

fn key(name: &'static str, rest: Path) -> Path {
    Path::Key(name, Box::new(rest))
}

fn index(i: usize, rest: Path) -> Path {
    Path::Index(i, Box::new(rest))
}

fn fault(kind: ErrorKind, path: Path) -> DecodeError {
    DecodeError { kind, path }
}

const PROJECT: &str = r#"{
    "createdAt": "2023-01-02T03:04:05Z",
    "name": "Maintenance",
    "namespace": { "owner": "kennytv", "slug": "Maintenance" },
    "stats": {
        "views": 100, "downloads": 50, "recentViews": 10,
        "recentDownloads": 5, "stars": 3, "watchers": 2
    },
    "category": "admin_tools",
    "lastUpdated": "2023-06-07T08:09:10.5+02:00",
    "visibility": "public",
    "avatarUrl": "https://hangar.papermc.io/avatar.png",
    "description": "Enable maintenance mode",
    "userActions": { "starred": false, "watching": true, "flagged": false },
    "settings": {
        "links": [
            { "id": 1, "type": "TOP", "title": null, "links": [
                { "id": 2, "name": "Source", "url": "https://example.org/src" },
                { "id": 3, "name": "Wiki" }
            ] },
            { "id": 4, "type": "SIDEBAR", "title": "More", "links": [] }
        ],
        "tags": ["ADDON", "SUPPORTS_FOLIA"],
        "license": { "name": "MIT", "url": null, "type": "MIT" },
        "keywords": ["maintenance", "motd"],
        "sponsors": "",
        "donation": { "enable": false, "subject": "" }
    },
    "somethingNew": [1, 2, 3]
}"#;

const VERSION: &str = r##"{
    "createdAt": "2023-01-02T03:04:05Z",
    "name": "4.2.0",
    "visibility": "needsApproval",
    "description": "Fixes",
    "stats": { "totalDownloads": 12, "platformDownloads": { "PAPER": 7, "VELOCITY": 5 } },
    "author": "kennytv",
    "reviewState": "partiallyReviewed",
    "channel": {
        "createdAt": "2022-12-31T23:59:59Z",
        "name": "Release",
        "description": null,
        "color": "#14b8a6",
        "flags": ["FROZEN", "PINNED", "SENDS_NOTIFICATIONS"]
    },
    "pinnedStatus": "NONE",
    "downloads": {
        "PAPER": {
            "fileInfo": { "name": "m.jar", "sizeBytes": 1024, "sha256Hash": "abc" },
            "downloadUrl": "https://hangar.papermc.io/dl/m.jar"
        },
        "VELOCITY": { "externalUrl": "https://example.org/m.jar" }
    },
    "pluginDependencies": {
        "PAPER": [
            { "name": "ProtocolLib", "required": false, "externalUrl": null, "platform": "PAPER" },
            { "name": "Other", "required": true, "externalUrl": "https://example.org", "platform": "PAPER" }
        ]
    },
    "platformDependencies": { "PAPER": ["1.19", "1.20"], "VELOCITY": ["3.2"] },
    "platformDependenciesFormatted": { "PAPER": ["1.19-1.20"], "VELOCITY": ["3.2"], "WATERFALL": null }
}"##;

fn without(document: &Json, name: &str) -> Json {
    match document {
        Json::Object(members) => {
            Json::Object(members.iter().filter(|(k, _)| k != name).cloned().collect())
        }
        _ => panic!("not an object"),
    }
}

fn with(document: &Json, name: &str, value: Json) -> Json {
    match without(document, name) {
        Json::Object(mut members) => {
            members.push((name.to_string(), value));
            Json::Object(members)
        }
        _ => panic!("not an object"),
    }
}

#[test]
fn by_platform_with_paper_only() {
    let b = ByPlatform::<i64>::decode(&json(r#"{"PAPER": 5}"#)).unwrap();
    assert_eq!(b.get(Platform::Paper), Some(&5));
    assert_eq!(b.get(Platform::Waterfall), None);
    assert_eq!(b.get(Platform::Velocity), None);
    assert_eq!(b.iter(), vec![(Platform::Paper, &5)]);
}

#[test]
fn by_platform_iterates_in_fixed_order() {
    let b = ByPlatform::<i64>::decode(&json(r#"{"VELOCITY": 3, "PAPER": 1, "WATERFALL": 2}"#))
        .unwrap();
    assert_eq!(
        b.iter(),
        vec![(Platform::Paper, &1), (Platform::Waterfall, &2), (Platform::Velocity, &3)]
    );
    assert_eq!(b.iter(), b.iter());
    let b = ByPlatform { paper: None, waterfall: Some(2i64), velocity: Some(3i64) };
    assert_eq!(b.iter(), vec![(Platform::Waterfall, &2), (Platform::Velocity, &3)]);
    assert_eq!(b.get(Platform::Paper), None);
    assert_eq!(b.get(Platform::Velocity), Some(&3));
}

#[test]
fn by_platform_empty_and_null() {
    let b = ByPlatform::<i64>::decode(&json("{}")).unwrap();
    assert_eq!(b, ByPlatform { paper: None, waterfall: None, velocity: None });
    assert!(b.iter().is_empty());
    let b = ByPlatform::<i64>::decode(&json(r#"{"PAPER": null, "OTHER": 1}"#)).unwrap();
    assert_eq!(b, ByPlatform { paper: None, waterfall: None, velocity: None });
}

#[test]
fn by_platform_faults() {
    assert_eq!(
        ByPlatform::<i64>::decode(&json(r#"{"PAPER": "5"}"#)),
        Err(fault(ErrorKind::WrongShape, key("PAPER", Path::Here)))
    );
    assert_eq!(
        ByPlatform::<i64>::decode(&json("[5]")),
        Err(fault(ErrorKind::WrongShape, Path::Here))
    );
    let twice = Json::Object(vec![
        ("PAPER".to_string(), Json::Int(1)),
        ("PAPER".to_string(), Json::Int(2)),
    ]);
    assert_eq!(
        ByPlatform::<i64>::decode(&twice),
        Err(fault(ErrorKind::RepeatedField, key("PAPER", Path::Here)))
    );
}

#[test]
fn downloads_with_file_info_and_download_url_are_internal() {
    let d = VersionDownloads::decode(&json(
        r#"{"fileInfo": {"name": "m.jar", "sizeBytes": 1024, "sha256Hash": "abc"},
            "downloadUrl": "https://hangar.papermc.io/dl/m.jar"}"#,
    ));
    assert_eq!(
        d,
        Ok(VersionDownloads::Internal {
            file_info: VersionDownloadsFileInfo {
                name: "m.jar".to_string(),
                size_bytes: 1024,
                sha256_hash: "abc".to_string(),
            },
            download_url: "https://hangar.papermc.io/dl/m.jar".to_string(),
        })
    );
}

#[test]
fn downloads_with_only_external_url_are_external() {
    let d = VersionDownloads::decode(&json(r#"{"externalUrl": "https://example.org/m.jar"}"#));
    assert_eq!(
        d,
        Ok(VersionDownloads::External { external_url: "https://example.org/m.jar".to_string() })
    );
}

#[test]
fn downloads_with_neither_shape_fail() {
    let none = fault(ErrorKind::NoVariantMatched, Path::Here);
    assert_eq!(VersionDownloads::decode(&json("{}")), Err(fault(ErrorKind::NoVariantMatched, Path::Here)));
    assert_eq!(VersionDownloads::decode(&json(r#"{"other": 1}"#)), Err(fault(ErrorKind::NoVariantMatched, Path::Here)));
    assert_eq!(VersionDownloads::decode(&json("null")), Err(fault(ErrorKind::NoVariantMatched, Path::Here)));
    assert_eq!(VersionDownloads::decode(&json(r#""x""#)), Err(fault(ErrorKind::NoVariantMatched, Path::Here)));
    // half of the hosted shape is no shape
    assert_eq!(
        VersionDownloads::decode(&json(r#"{"downloadUrl": "https://x"}"#)),
        Err(fault(ErrorKind::NoVariantMatched, Path::Here))
    );
    assert_eq!(
        VersionDownloads::decode(&json(
            r#"{"fileInfo": {"name": "m.jar", "sizeBytes": "big", "sha256Hash": "abc"},
                "downloadUrl": "https://x"}"#
        )),
        Err(none)
    );
}

#[test]
fn downloads_try_the_hosted_shape_first() {
    let both = json(
        r#"{"fileInfo": {"name": "m.jar", "sizeBytes": 1, "sha256Hash": "h"},
            "downloadUrl": "https://a", "externalUrl": "https://b"}"#,
    );
    assert!(matches!(VersionDownloads::decode(&both), Ok(VersionDownloads::Internal { .. })));
    assert!(matches!(VersionDownloads::decode_external(&both), Ok(VersionDownloads::External { .. })));
    // a broken hosted shape falls back to the other
    let fallback = json(r#"{"fileInfo": 3, "downloadUrl": "https://a", "externalUrl": "https://b"}"#);
    assert_eq!(
        VersionDownloads::decode(&fallback),
        Ok(VersionDownloads::External { external_url: "https://b".to_string() })
    );
    assert_eq!(
        VersionDownloads::decode_internal(&fallback),
        Err(fault(ErrorKind::WrongShape, key("fileInfo", Path::Here)))
    );
}

#[test]
fn project_decodes_in_full() {
    let p = Project::decode(&json(PROJECT)).unwrap();
    let expected = Project {
        created_at: Timestamp { unix_nanos: 1_672_628_645_000_000_000, offset_seconds: 0 },
        name: "Maintenance".to_string(),
        namespace: Namespace { owner: "kennytv".to_string(), slug: "Maintenance".to_string() },
        stats: ProjectStats {
            views: 100,
            downloads: 50,
            recent_views: 10,
            recent_downloads: 5,
            stars: 3,
            watchers: 2,
        },
        category: Category::AdminTools,
        last_updated: Timestamp { unix_nanos: 1_686_118_150_500_000_000, offset_seconds: 7200 },
        visibility: Visibility::Public,
        avatar_url: "https://hangar.papermc.io/avatar.png".to_string(),
        description: "Enable maintenance mode".to_string(),
        user_actions: UserActions { starred: false, watching: true, flagged: false },
        settings: ProjectSettings {
            links: vec![
                Link {
                    id: 1,
                    link_type: "TOP".to_string(),
                    title: None,
                    links: vec![
                        ActualLink {
                            id: 2,
                            name: "Source".to_string(),
                            url: Some("https://example.org/src".to_string()),
                        },
                        ActualLink { id: 3, name: "Wiki".to_string(), url: None },
                    ],
                },
                Link {
                    id: 4,
                    link_type: "SIDEBAR".to_string(),
                    title: Some("More".to_string()),
                    links: vec![],
                },
            ],
            tags: vec![ProjectTags::Addon, ProjectTags::SupportsFolia],
            license: License { name: Some("MIT".to_string()), url: None, license_type: "MIT".to_string() },
            keywords: vec!["maintenance".to_string(), "motd".to_string()],
            sponsors: String::new(),
            donation: Donation { enable: false, subject: String::new() },
        },
    };
    assert_eq!(p, expected);
    assert_eq!(p.namespace.url(), "https://hangar.papermc.io/kennytv/Maintenance");
}

#[test]
fn project_with_unknown_category_fails_at_category() {
    let doc = with(&json(PROJECT), "category", Json::Text("minigames".to_string()));
    let e = Project::decode(&doc).unwrap_err();
    assert_eq!(e, fault(ErrorKind::UnknownVariant, key("category", Path::Here)));
    assert_eq!(e.message(), "unknown variant at $.category");
    assert!(e.message().contains("category"));
}

#[test]
fn project_created_at_is_the_written_instant() {
    let doc = with(&json(PROJECT), "createdAt", Json::Text("1970-01-01T00:00:00Z".to_string()));
    assert_eq!(
        Project::decode(&doc).unwrap().created_at,
        Timestamp { unix_nanos: 0, offset_seconds: 0 }
    );
    let doc = with(&json(PROJECT), "createdAt", Json::Text("2023-01-02T05:04:05+02:00".to_string()));
    let at = Project::decode(&doc).unwrap().created_at;
    assert_eq!(at, Timestamp { unix_nanos: 1_672_628_645_000_000_000, offset_seconds: 7200 });
    let same = time::OffsetDateTime::from_unix_timestamp(1_672_628_645).unwrap();
    assert_eq!(at.unix_nanos, same.unix_timestamp_nanos());
}

#[test]
fn project_with_malformed_timestamp_fails() {
    for bad in ["yesterday", "2023-01-02", "2023-01-02T03:04:05", "2023-13-02T03:04:05Z", "", "1672628645"] {
        let doc = with(&json(PROJECT), "createdAt", Json::Text(bad.to_string()));
        assert_eq!(
            Project::decode(&doc),
            Err(fault(ErrorKind::MalformedTimestamp, key("createdAt", Path::Here)))
        );
    }
    let doc = with(&json(PROJECT), "lastUpdated", Json::Int(1672628645));
    assert_eq!(
        Project::decode(&doc),
        Err(fault(ErrorKind::WrongShape, key("lastUpdated", Path::Here)))
    );
}

#[test]
fn timestamp_parse_reads_rfc3339() {
    assert_eq!(
        Timestamp::parse("2023-01-02T03:04:05Z"),
        Ok(Timestamp { unix_nanos: 1_672_628_645_000_000_000, offset_seconds: 0 })
    );
    assert_eq!(
        Timestamp::parse("2023-01-02T03:04:05.123456789-05:30"),
        Ok(Timestamp {
            unix_nanos: (1_672_628_645 + 5 * 3600 + 30 * 60) * 1_000_000_000 + 123_456_789,
            offset_seconds: -(5 * 3600 + 30 * 60),
        })
    );
    assert_eq!(
        Timestamp::parse("1969-12-31T23:59:59Z"),
        Ok(Timestamp { unix_nanos: -1_000_000_000, offset_seconds: 0 })
    );
    assert_eq!(
        Timestamp::parse("not a time"),
        Err(fault(ErrorKind::MalformedTimestamp, Path::Here))
    );
    assert_eq!(
        Timestamp::parse("2023-01-02T03:04:05Z trailing"),
        Err(fault(ErrorKind::MalformedTimestamp, Path::Here))
    );
}

#[test]
fn timestamp_from_parsed_keeps_or_refuses() {
    let t = Timestamp { unix_nanos: 5, offset_seconds: -60 };
    assert_eq!(Timestamp::from_parsed(Some(t)), Ok(t));
    assert_eq!(Timestamp::from_parsed(None), Err(fault(ErrorKind::MalformedTimestamp, Path::Here)));
}

#[test]
fn project_missing_field_names_the_field() {
    let doc = without(&json(PROJECT), "avatarUrl");
    let e = Project::decode(&doc).unwrap_err();
    assert_eq!(e, fault(ErrorKind::MissingField, key("avatarUrl", Path::Here)));
    assert_eq!(e.message(), "missing field at $.avatarUrl");
}

#[test]
fn project_fault_deep_inside_has_the_whole_path() {
    let doc = json(&PROJECT.replace(r#"{ "id": 3, "name": "Wiki" }"#, r#"{ "id": "3", "name": "Wiki" }"#));
    let e = Project::decode(&doc).unwrap_err();
    assert_eq!(
        e,
        fault(
            ErrorKind::WrongShape,
            key("settings", key("links", index(0, key("links", index(1, key("id", Path::Here))))))
        )
    );
    assert_eq!(e.message(), "wrong shape at $.settings.links[0].links[1].id");
}

#[test]
fn project_unknown_tag_is_refused() {
    let doc = json(&PROJECT.replace(r#"["ADDON", "SUPPORTS_FOLIA"]"#, r#"["ADDON", "PLUGIN"]"#));
    assert_eq!(
        Project::decode(&doc),
        Err(fault(ErrorKind::UnknownVariant, key("settings", key("tags", index(1, Path::Here)))))
    );
}

#[test]
fn first_fault_in_field_order_is_reported() {
    // both `name` and `category` are wrong; `name` is declared first
    let doc = with(&with(&json(PROJECT), "category", Json::Int(1)), "name", Json::Null);
    assert_eq!(Project::decode(&doc), Err(fault(ErrorKind::WrongShape, key("name", Path::Here))));
}

#[test]
fn project_must_be_an_object() {
    assert_eq!(Project::decode(&json("[]")), Err(fault(ErrorKind::WrongShape, Path::Here)));
    assert_eq!(Project::decode(&json("null")), Err(fault(ErrorKind::WrongShape, Path::Here)));
    assert_eq!(
        Project::decode(&json("{}")),
        Err(fault(ErrorKind::MissingField, key("createdAt", Path::Here)))
    );
}

#[test]
fn repeated_member_is_refused() {
    let doc = Json::Object(vec![
        ("owner".to_string(), Json::Text("a".to_string())),
        ("slug".to_string(), Json::Text("b".to_string())),
        ("owner".to_string(), Json::Text("c".to_string())),
    ]);
    let e = Namespace::decode(&doc).unwrap_err();
    assert_eq!(e, fault(ErrorKind::RepeatedField, key("owner", Path::Here)));
    assert_eq!(e.message(), "repeated field at $.owner");
}

#[test]
fn numbers_must_be_integers() {
    assert_eq!(i64::decode(&json("5")), Ok(5));
    assert_eq!(i64::decode(&json("-9223372036854775808")), Ok(i64::MIN));
    assert_eq!(i64::decode(&json("5.5")), Err(fault(ErrorKind::WrongShape, Path::Here)));
    assert_eq!(i64::decode(&json("18446744073709551615")), Err(fault(ErrorKind::WrongShape, Path::Here)));
    assert_eq!(i64::decode(&json(r#""5""#)), Err(fault(ErrorKind::WrongShape, Path::Here)));
    assert_eq!(bool::decode(&json("true")), Ok(true));
    assert_eq!(bool::decode(&json("1")), Err(fault(ErrorKind::WrongShape, Path::Here)));
    assert_eq!(String::decode(&json(r#""x""#)), Ok("x".to_string()));
    assert_eq!(String::decode(&json("null")), Err(fault(ErrorKind::WrongShape, Path::Here)));
}

#[test]
fn optional_values_and_arrays() {
    assert_eq!(Option::<i64>::decode(&json("null")), Ok(None));
    assert_eq!(Option::<i64>::decode(&json("3")), Ok(Some(3)));
    assert_eq!(Option::<i64>::decode(&json("true")), Err(fault(ErrorKind::WrongShape, Path::Here)));
    assert_eq!(Vec::<i64>::decode(&json("[]")), Ok(vec![]));
    assert_eq!(Vec::<i64>::decode(&json("[1, 2, 3]")), Ok(vec![1, 2, 3]));
    assert_eq!(
        Vec::<i64>::decode(&json(r#"[1, "2", null]"#)),
        Err(fault(ErrorKind::WrongShape, index(1, Path::Here)))
    );
    assert_eq!(Vec::<i64>::decode(&json("{}")), Err(fault(ErrorKind::WrongShape, Path::Here)));
    assert_eq!(
        Vec::<Vec<bool>>::decode(&json("[[true], [false, 0]]")),
        Err(fault(ErrorKind::WrongShape, index(1, index(1, Path::Here))))
    );
}

#[test]
fn link_target_may_be_absent() {
    assert_eq!(
        ActualLink::decode(&json(r#"{"id": 1, "name": "n"}"#)),
        Ok(ActualLink { id: 1, name: "n".to_string(), url: None })
    );
    assert_eq!(
        ActualLink::decode(&json(r#"{"id": 1, "name": "n", "url": null}"#)),
        Ok(ActualLink { id: 1, name: "n".to_string(), url: None })
    );
    assert_eq!(
        ActualLink::decode(&json(r#"{"id": 1, "name": "n", "url": 7}"#)),
        Err(fault(ErrorKind::WrongShape, key("url", Path::Here)))
    );
}

#[test]
fn closed_sets_round_trip_and_refuse_the_rest() {
    for v in [Visibility::Public, Visibility::New, Visibility::NeedsChanges, Visibility::NeedsApproval, Visibility::SoftDelete] {
        assert_eq!(Visibility::from_name(v.as_str()), Some(v));
        assert_eq!(Visibility::decode(&Json::Text(v.as_str().to_string())), Ok(v));
    }
    for v in [ReviewState::Unreviewed, ReviewState::Reviewed, ReviewState::UnderReview, ReviewState::PartiallyReviewed] {
        assert_eq!(ReviewState::from_name(v.as_str()), Some(v));
    }
    for v in [ChannelFlags::Frozen, ChannelFlags::Unstable, ChannelFlags::Pinned, ChannelFlags::SendsNotifications, ChannelFlags::HideByDefault] {
        assert_eq!(ChannelFlags::from_name(v.as_str()), Some(v));
    }
    for v in [PinnedStatus::NotPinned, PinnedStatus::Version, PinnedStatus::Channel] {
        assert_eq!(PinnedStatus::from_name(v.as_str()), Some(v));
    }
    for v in [ProjectTags::Addon, ProjectTags::Library, ProjectTags::SupportsFolia] {
        assert_eq!(ProjectTags::from_name(v.as_str()), Some(v));
    }
    assert_eq!(Visibility::decode(&json(r#""needsChanges""#)), Ok(Visibility::NeedsChanges));
    assert_eq!(Visibility::decode(&json(r#""softDelete""#)), Ok(Visibility::SoftDelete));
    assert_eq!(ReviewState::decode(&json(r#""underReview""#)), Ok(ReviewState::UnderReview));
    assert_eq!(ChannelFlags::decode(&json(r#""HIDE_BY_DEFAULT""#)), Ok(ChannelFlags::HideByDefault));
    assert_eq!(PinnedStatus::decode(&json(r#""NONE""#)), Ok(PinnedStatus::NotPinned));
    assert_eq!(ProjectTags::decode(&json(r#""LIBRARY""#)), Ok(ProjectTags::Library));
    assert_eq!(Platform::decode(&json(r#""WATERFALL""#)), Ok(Platform::Waterfall));
    assert_eq!(Category::decode(&json(r#""world_management""#)), Ok(Category::WorldManagement));
    assert_eq!(
        Visibility::decode(&json(r#""NeedsChanges""#)),
        Err(fault(ErrorKind::UnknownVariant, Path::Here))
    );
    assert_eq!(Platform::decode(&json(r#""paper""#)), Err(fault(ErrorKind::UnknownVariant, Path::Here)));
    assert_eq!(Platform::decode(&json("0")), Err(fault(ErrorKind::WrongShape, Path::Here)));
}

#[test]
fn version_decodes_in_full() {
    let v = Version::decode(&json(VERSION)).unwrap();
    let expected = Version {
        created_at: Timestamp { unix_nanos: 1_672_628_645_000_000_000, offset_seconds: 0 },
        name: "4.2.0".to_string(),
        visibility: Visibility::NeedsApproval,
        description: "Fixes".to_string(),
        stats: VersionStats {
            total_downloads: 12,
            platform_downloads: ByPlatform { paper: Some(7), waterfall: None, velocity: Some(5) },
        },
        author: "kennytv".to_string(),
        review_state: ReviewState::PartiallyReviewed,
        channel: Channel {
            created_at: Timestamp { unix_nanos: 1_672_531_199_000_000_000, offset_seconds: 0 },
            name: "Release".to_string(),
            description: None,
            color: "#14b8a6".to_string(),
            flags: vec![ChannelFlags::Frozen, ChannelFlags::Pinned, ChannelFlags::SendsNotifications],
        },
        pinned_status: PinnedStatus::NotPinned,
        downloads: ByPlatform {
            paper: Some(VersionDownloads::Internal {
                file_info: VersionDownloadsFileInfo {
                    name: "m.jar".to_string(),
                    size_bytes: 1024,
                    sha256_hash: "abc".to_string(),
                },
                download_url: "https://hangar.papermc.io/dl/m.jar".to_string(),
            }),
            waterfall: None,
            velocity: Some(VersionDownloads::External {
                external_url: "https://example.org/m.jar".to_string(),
            }),
        },
        plugin_dependencies: ByPlatform {
            paper: Some(vec![
                VersionPluginDependencies {
                    name: "ProtocolLib".to_string(),
                    required: false,
                    external_url: None,
                    platform: Platform::Paper,
                },
                VersionPluginDependencies {
                    name: "Other".to_string(),
                    required: true,
                    external_url: Some("https://example.org".to_string()),
                    platform: Platform::Paper,
                },
            ]),
            waterfall: None,
            velocity: None,
        },
        platform_dependencies: ByPlatform {
            paper: Some(vec!["1.19".to_string(), "1.20".to_string()]),
            waterfall: None,
            velocity: Some(vec!["3.2".to_string()]),
        },
        platform_dependencies_formatted: ByPlatform {
            paper: Some(vec!["1.19-1.20".to_string()]),
            waterfall: None,
            velocity: Some(vec!["3.2".to_string()]),
        },
    };
    assert_eq!(v, expected);
    assert_eq!(v.downloads.iter().len(), 2);
    assert_eq!(v.stats.platform_downloads.iter(), vec![(Platform::Paper, &7), (Platform::Velocity, &5)]);
}

#[test]
fn version_download_of_no_shape_fails_at_its_platform() {
    let doc = json(&VERSION.replace(r#"{ "externalUrl": "https://example.org/m.jar" }"#, r#"{ "url": "x" }"#));
    let e = Version::decode(&doc).unwrap_err();
    assert_eq!(
        e,
        fault(ErrorKind::NoVariantMatched, key("downloads", key("VELOCITY", Path::Here)))
    );
    assert_eq!(e.message(), "no variant matched at $.downloads.VELOCITY");
}

#[test]
fn version_channel_timestamp_fault_has_its_path() {
    let doc = json(&VERSION.replace("2022-12-31T23:59:59Z", "2022-12-31 midnight"));
    let e = Version::decode(&doc).unwrap_err();
    assert_eq!(e, fault(ErrorKind::MalformedTimestamp, key("channel", key("createdAt", Path::Here))));
    assert_eq!(e.message(), "malformed timestamp at $.channel.createdAt");
}

#[test]
fn projects_response_decodes() {
    let text = format!(
        r#"{{"pagination": {{"limit": 25, "offset": 0, "count": 2}}, "result": [{}, {}]}}"#,
        PROJECT, PROJECT
    );
    let r = ProjectsResponse::decode(&json(&text)).unwrap();
    assert_eq!(r.pagination, PaginationResponse { limit: 25, offset: 0, count: 2 });
    assert_eq!(r.result.len(), 2);
    assert_eq!(r.result[1], Project::decode(&json(PROJECT)).unwrap());
}

#[test]
fn projects_response_fault_names_the_project() {
    let broken = PROJECT.replace(r#""category": "admin_tools""#, r#""category": "toys""#);
    let text = format!(
        r#"{{"pagination": {{"limit": 25, "offset": 0, "count": 2}}, "result": [{}, {}]}}"#,
        PROJECT, broken
    );
    let e = ProjectsResponse::decode(&json(&text)).unwrap_err();
    assert_eq!(
        e,
        fault(ErrorKind::UnknownVariant, key("result", index(1, key("category", Path::Here))))
    );
    assert_eq!(e.message(), "unknown variant at $.result[1].category");
}

#[test]
fn versions_response_decodes() {
    let text = format!(
        r#"{{"pagination": {{"limit": 1, "offset": 4, "count": 9}}, "result": [{}]}}"#,
        VERSION
    );
    let r = VersionsResponse::decode(&json(&text)).unwrap();
    assert_eq!(r.pagination, PaginationResponse { limit: 1, offset: 4, count: 9 });
    assert_eq!(r.result, vec![Version::decode(&json(VERSION)).unwrap()]);
    let e = VersionsResponse::decode(&json(r#"{"result": []}"#)).unwrap_err();
    assert_eq!(e, fault(ErrorKind::MissingField, key("pagination", Path::Here)));
}

#[test]
fn documents_and_errors_can_be_copied() {
    let doc = json(PROJECT);
    assert_eq!(doc.clone(), doc);
    let e = fault(ErrorKind::MissingField, index(2, key("a", Path::Here)));
    assert_eq!(e.clone(), e);
}

#[test]
fn error_messages_read_as_kind_and_place() {
    assert_eq!(fault(ErrorKind::WrongShape, Path::Here).message(), "wrong shape at $");
    assert_eq!(
        fault(ErrorKind::MissingField, index(12, key("a", index(0, Path::Here)))).message(),
        "missing field at $[12].a[0]"
    );
    assert_eq!(
        fault(ErrorKind::UnknownVariant, key("x", Path::Here)).message(),
        "unknown variant at $.x"
    );
}
