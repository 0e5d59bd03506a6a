use unified_hifi_control::api::{find_by_id, Zone};
use unified_hifi_control::now_playing::{
    art_url, now_playing_fetch, play_button_label, track_lines, NowPlaying, NowPlayingFetch,
    NowPlayingMap,
};
use unified_hifi_control::pages::library::{
    all_tabs, armed_source, browsable_zones, browse_zone_id, crumb_location, effective_tab,
    empty_state_body, empty_state_heading, error_heading, everywhere_panel, image_src,
    is_searching, library_content, library_route, library_sources, library_uses_cards,
    local_matches, lowered_match, missing_now_playing_zones, next_request_offset, page_request,
    play_message, playing_title, resolve_armed_zone, resolve_source, route_tab, row_is_playing,
    should_restart_zones, visible_tabs_for, visible_tabs_of, CollectionBreadcrumb, CollectionItem,
    CollectionPage, EverywherePanel, GlobalSearch, Level, LevelError, LibraryContent, LibraryLayout,
    LibraryRoute, PageOutcome, PlayOutcome, SearchOutcome, SearchResult, StatusToast, Tab,
};
use unified_hifi_control::sse::{LmsPlayerPayload, SseEvent, VolumePayload, ZonePayload};

fn zone(id: &str) -> Zone {
    Zone {
        zone_id: id.to_string(),
        ..Zone::default()
    }
}

fn source_zone(id: &str, source: Option<&str>, browse: bool) -> Zone {
    Zone {
        zone_id: id.to_string(),
        source: source.map(str::to_string),
        browse_supported: browse,
        ..Zone::default()
    }
}

fn zone_payload(zone_id: &str) -> ZonePayload {
    ZonePayload {
        zone_id: zone_id.to_string(),
    }
}

fn playing(title: &str) -> NowPlaying {
    NowPlaying {
        is_playing: true,
        line1: Some(title.to_string()),
        ..NowPlaying::default()
    }
}

#[test]
fn structural_events_restart_zones() {
    for event in [
        SseEvent::ZoneRemoved {
            payload: zone_payload("roon:1"),
        },
        SseEvent::RoonConnected,
        SseEvent::RoonDisconnected,
        SseEvent::LmsConnected,
        SseEvent::LmsDisconnected,
    ] {
        assert!(
            should_restart_zones(Some(&event)),
            "expected {event:?} to restart the zones resource"
        );
    }
}

#[test]
fn discovered_zone_restarts_zones() {
    let event = SseEvent::ZoneDiscovered {
        payload: zone_payload("roon:1"),
    };
    assert!(should_restart_zones(Some(&event)));
}

#[test]
fn zone_updated_does_not_restart_zones() {
    let event = SseEvent::ZoneUpdated {
        payload: zone_payload("roon:1"),
    };
    assert!(!should_restart_zones(Some(&event)));
}

#[test]
fn playback_and_volume_events_do_not_restart_zones() {
    for event in [
        SseEvent::NowPlayingChanged {
            payload: zone_payload("roon:1"),
        },
        SseEvent::SeekPositionChanged {
            payload: zone_payload("roon:1"),
        },
        SseEvent::VolumeChanged {
            payload: VolumePayload {
                output_id: "roon:1".to_string(),
                value_bits: 10.0f32.to_bits(),
                is_muted: false,
            },
        },
    ] {
        assert!(
            !should_restart_zones(Some(&event)),
            "expected {event:?} not to restart the zones resource"
        );
    }
}

#[test]
fn no_event_does_not_restart_zones() {
    assert!(!should_restart_zones(None));
}

#[test]
fn all_zones_missing_on_first_load() {
    let list = vec![zone("roon:1"), zone("roon:2")];
    let now_playing = NowPlayingMap::new();
    let missing = missing_now_playing_zones(&list, &now_playing);
    assert_eq!(missing.len(), 2);
}

#[test]
fn already_known_zones_are_not_refetched() {
    let list = vec![zone("roon:1"), zone("roon:2")];
    let mut now_playing = NowPlayingMap::new();
    now_playing.insert("roon:1".to_string(), NowPlaying::default());
    now_playing.insert("roon:2".to_string(), NowPlaying::default());
    let missing = missing_now_playing_zones(&list, &now_playing);
    assert!(missing.is_empty());
}

#[test]
fn only_the_newly_discovered_zone_is_fetched() {
    let list = vec![zone("roon:1"), zone("roon:2")];
    let mut now_playing = NowPlayingMap::new();
    now_playing.insert("roon:1".to_string(), NowPlaying::default());
    let missing = missing_now_playing_zones(&list, &now_playing);
    assert_eq!(missing.len(), 1);
    assert_eq!(missing[0].zone_id, "roon:2");
}

#[test]
fn empty_zone_list_fetches_nothing() {
    let missing = missing_now_playing_zones(&[], &NowPlayingMap::new());
    assert!(missing.is_empty());
}

#[test]
fn api_image_url_is_used_verbatim_as_img_src() {
    let api_value = "/api/collections/image?ref=ref_abc123";
    let src = image_src("", api_value);
    assert_eq!(src, api_value, "the API value must pass through verbatim");
    assert!(
        !src.contains("?ref=/api/"),
        "src must never be double-prefixed"
    );
}

#[test]
fn pictures_and_artwork_go_below_the_base_path() {
    let base = "/api/hassio_ingress/token";
    assert_eq!(
        image_src(base, "/api/collections/image?ref=ref_abc123"),
        "/api/hassio_ingress/token/api/collections/image?ref=ref_abc123"
    );
    assert_eq!(
        image_src(base, "https://example.org/cover.jpg"),
        "https://example.org/cover.jpg"
    );
    assert_eq!(image_src(base, ""), "");
    let mut np = playing("Song");
    np.image_url = Some("/art".to_string());
    np.image_key = Some("k1".to_string());
    assert_eq!(art_url(base, Some(&np)), "/api/hassio_ingress/token/art?k=k1");
    assert_eq!(art_url(base, None), "");
}

#[test]
fn roon_tab_list_hides_favorites_and_radio() {
    let served = vec!["browse".to_string(), "playlists".to_string()];
    assert_eq!(visible_tabs_for(&served), vec![Tab::Browse, Tab::Playlists]);
}

#[test]
fn missing_tab_information_shows_every_tab() {
    assert_eq!(visible_tabs_for(&[]), all_tabs());
    assert_eq!(
        all_tabs(),
        vec![Tab::Browse, Tab::Playlists, Tab::Favorites, Tab::Radio]
    );
}

#[test]
fn unsupported_deep_linked_tab_falls_back_to_browse() {
    let visible = vec![Tab::Browse, Tab::Playlists];
    assert_eq!(effective_tab(Tab::Favorites, &visible), Tab::Browse);
    assert_eq!(effective_tab(Tab::Radio, &visible), Tab::Browse);
    assert_eq!(effective_tab(Tab::Playlists, &visible), Tab::Playlists);
}

#[test]
fn loaded_page_advances_to_provider_continuation() {
    let mut continuation = None;
    let mut requests = Vec::new();

    for append in [false, true, true, true, false] {
        let Some(offset) = next_request_offset(append, continuation) else {
            continue;
        };
        requests.push(offset);
        continuation = match offset {
            0 => Some(30),
            30 => Some(60),
            60 => None,
            _ => unreachable!("unexpected test page offset"),
        };
    }

    assert_eq!(requests, vec![0, 30, 60, 0]);
    assert_eq!(next_request_offset(true, None), None);
    assert_eq!(next_request_offset(false, None), Some(0));
    assert_eq!(next_request_offset(false, Some(60)), Some(0));
}

#[test]
fn layout_preference_overrides_automatic_shape_without_changing_items() {
    let folders = vec![CollectionItem {
        title: "Folder".to_string(),
        location: Some("loc_folder".to_string()),
        ..CollectionItem::default()
    }];
    let tracks = vec![CollectionItem {
        title: "Track".to_string(),
        item_ref: Some("ref_track".to_string()),
        ..CollectionItem::default()
    }];

    assert!(!library_uses_cards(LibraryLayout::Auto, &folders));
    assert!(library_uses_cards(LibraryLayout::Auto, &tracks));
    assert!(library_uses_cards(LibraryLayout::Cards, &folders));
    assert!(!library_uses_cards(LibraryLayout::List, &tracks));
}

#[test]
fn half_playable_level_uses_cards_and_an_empty_one_does_not() {
    let folder = CollectionItem::default();
    let track = CollectionItem {
        item_ref: Some("r".to_string()),
        ..CollectionItem::default()
    };
    let half = vec![folder.clone(), track.clone()];
    let third = vec![folder.clone(), track, folder];
    assert!(library_uses_cards(LibraryLayout::Auto, &half));
    assert!(!library_uses_cards(LibraryLayout::Auto, &third));
    assert!(!library_uses_cards(LibraryLayout::Auto, &[]));
    assert!(library_uses_cards(LibraryLayout::Cards, &[]));
}

#[test]
fn tab_names_actions_and_media_types() {
    let rows = [
        (Tab::Browse, "browse", "browse", None, "Browse"),
        (Tab::Playlists, "playlists", "playlists", None, "Playlists"),
        (Tab::Favorites, "favorites", "favorites", Some("tracks"), "Favorites"),
        (Tab::Radio, "radio", "favorites", Some("radio"), "Radio"),
    ];
    for (tab, name, action, media, label) in rows {
        assert_eq!(tab.as_str(), name);
        assert_eq!(Tab::parse(name), tab);
        assert_eq!(tab.action(), action);
        assert_eq!(tab.media_type(), media);
        assert_eq!(tab.label(), label);
    }
    assert_eq!(Tab::parse("nonsense"), Tab::Browse);
    assert_eq!(route_tab(None), Tab::Browse);
    assert_eq!(route_tab(Some("radio")), Tab::Radio);
}

#[test]
fn layout_names_round_trip() {
    for layout in [LibraryLayout::Auto, LibraryLayout::List, LibraryLayout::Cards] {
        assert_eq!(LibraryLayout::parse(layout.as_str()), layout);
        assert_eq!(LibraryLayout::restore(Some(layout.as_str())), layout);
    }
    assert_eq!(LibraryLayout::restore(None), LibraryLayout::Auto);
    assert_eq!(LibraryLayout::default(), LibraryLayout::Auto);
    assert_eq!(LibraryLayout::parse("grid"), LibraryLayout::Auto);
}

#[test]
fn tab_order_is_fixed_whatever_the_server_sends() {
    let served = vec!["radio".to_string(), "bogus".to_string(), "browse".to_string()];
    assert_eq!(visible_tabs_for(&served), vec![Tab::Browse, Tab::Radio]);
    assert!(visible_tabs_for(&["bogus".to_string()]).is_empty());
}

#[test]
fn library_routes_take_their_shortest_form() {
    let some = |s: &str| Some(s.to_string());
    assert!(matches!(
        library_route(None, some("radio"), some("loc")),
        LibraryRoute::LibraryHome
    ));
    match library_route(some("roon"), some("browse"), None) {
        LibraryRoute::LibrarySource { source } => assert_eq!(source, "roon"),
        other => panic!("unexpected {other:?}"),
    }
    match library_route(some("roon"), some(""), some("loc")) {
        LibraryRoute::LibrarySource { source } => assert_eq!(source, "roon"),
        other => panic!("unexpected {other:?}"),
    }
    match library_route(some("roon"), some("radio"), None) {
        LibraryRoute::LibraryView { source, view } => {
            assert_eq!((source.as_str(), view.as_str()), ("roon", "radio"))
        }
        other => panic!("unexpected {other:?}"),
    }
    match library_route(some("roon"), some("browse"), some("loc_1")) {
        LibraryRoute::LibraryLocation {
            source,
            view,
            location,
        } => assert_eq!(
            (source.as_str(), view.as_str(), location.as_str()),
            ("roon", "browse", "loc_1")
        ),
        other => panic!("unexpected {other:?}"),
    }
}

#[test]
fn armed_zone_prefers_the_last_pick_then_playback_then_the_first() {
    let zones = vec![zone("a"), zone("b"), zone("c")];
    let mut map = NowPlayingMap::new();
    assert_eq!(
        resolve_armed_zone(&zones, &map, None).map(|z| z.zone_id.as_str()),
        Some("a")
    );
    map.insert("b".to_string(), playing("Song"));
    assert_eq!(
        resolve_armed_zone(&zones, &map, None).map(|z| z.zone_id.as_str()),
        Some("b")
    );
    assert_eq!(
        resolve_armed_zone(&zones, &map, Some("c")).map(|z| z.zone_id.as_str()),
        Some("c")
    );
    assert_eq!(
        resolve_armed_zone(&zones, &map, Some("gone")).map(|z| z.zone_id.as_str()),
        Some("b")
    );
    assert!(resolve_armed_zone(&[], &map, Some("a")).is_none());
}

#[test]
fn source_comes_from_the_address_then_the_armed_zone_then_the_first_browsable() {
    let zones = vec![
        source_zone("1", Some("upnp"), false),
        source_zone("2", Some("roon"), true),
        source_zone("3", Some("lms"), true),
        source_zone("4", Some("roon"), true),
        source_zone("5", None, true),
    ];
    let browsable = browsable_zones(&zones);
    assert_eq!(browsable.len(), 4);
    assert_eq!(
        resolve_source(Some("lms"), None, &browsable).as_deref(),
        Some("lms")
    );
    assert_eq!(
        resolve_source(Some("upnp"), Some(&zones[2]), &browsable).as_deref(),
        Some("lms")
    );
    assert_eq!(
        resolve_source(Some(""), Some(&zones[0]), &browsable).as_deref(),
        Some("roon")
    );
    assert_eq!(resolve_source(None, None, &[]), None);
    assert_eq!(library_sources(&browsable), vec!["roon", "lms"]);
}

#[test]
fn browse_zone_is_the_armed_one_of_the_source_or_the_first() {
    let zones = vec![
        source_zone("1", Some("roon"), false),
        source_zone("2", Some("roon"), true),
        source_zone("3", Some("roon"), true),
    ];
    let roon = Some("roon".to_string());
    assert_eq!(
        browse_zone_id(&zones, &roon, &Some("3".to_string())).as_deref(),
        Some("3")
    );
    assert_eq!(
        browse_zone_id(&zones, &roon, &Some("1".to_string())).as_deref(),
        Some("2")
    );
    assert_eq!(browse_zone_id(&zones, &Some("lms".to_string()), &None), None);
    assert_eq!(
        armed_source(&zones, "1", &Some("lms".to_string())).as_deref(),
        Some("roon")
    );
    assert_eq!(
        armed_source(&zones, "9", &Some("lms".to_string())).as_deref(),
        Some("lms")
    );
    assert!(find_by_id(&zones, "9").is_none());
}

#[test]
fn tabs_follow_the_zone_that_is_browsed_through() {
    let mut roon = source_zone("1", Some("roon"), true);
    roon.library_tabs = vec!["playlists".to_string()];
    let zones = vec![roon];
    assert_eq!(
        visible_tabs_of(&zones, &Some("1".to_string())),
        vec![Tab::Playlists]
    );
    assert_eq!(visible_tabs_of(&zones, &None), all_tabs());
    assert_eq!(visible_tabs_of(&zones, &Some("9".to_string())), all_tabs());
}

#[test]
fn page_request_uses_the_location_or_the_tab_root() {
    let zone = Some("z".to_string());
    let root = page_request(&zone, Tab::Radio, &None, false, Some(60)).unwrap();
    assert_eq!(root.zone_id, "z");
    assert_eq!(root.action, "favorites");
    assert_eq!(root.media_type.as_deref(), Some("radio"));
    assert_eq!((root.limit, root.offset), (30, 0));
    let below =
        page_request(&zone, Tab::Playlists, &Some("loc".to_string()), true, Some(30)).unwrap();
    assert_eq!(below.action, "browse");
    assert_eq!(below.media_type, None);
    assert_eq!(below.location.as_deref(), Some("loc"));
    assert_eq!(below.offset, 30);
    assert!(page_request(&zone, Tab::Browse, &None, true, None).is_none());
    assert!(page_request(&None, Tab::Browse, &None, false, None).is_none());
}

fn item(title: &str, subtitle: Option<&str>) -> CollectionItem {
    CollectionItem {
        title: title.to_string(),
        subtitle: subtitle.map(str::to_string),
        ..CollectionItem::default()
    }
}

fn titles(items: &[CollectionItem]) -> Vec<&str> {
    items.iter().map(|i| i.title.as_str()).collect()
}

#[test]
fn pages_add_up_and_failures_clear_or_keep_the_level() {
    let mut level = Level::new();
    level.begin();
    assert!(level.loading);
    level.load_page(
        false,
        PageOutcome::Page(CollectionPage {
            items: vec![item("a", None)],
            next_offset: Some(30),
            breadcrumbs: vec![CollectionBreadcrumb {
                title: "Folder".to_string(),
                location: "loc_f".to_string(),
            }],
        }),
    );
    assert!(!level.loading);
    level.begin();
    level.load_page(
        true,
        PageOutcome::Page(CollectionPage {
            items: vec![item("b", None)],
            next_offset: None,
            breadcrumbs: Vec::new(),
        }),
    );
    assert_eq!(titles(&level.items), vec!["a", "b"]);
    assert_eq!(level.next_offset, None);
    assert_eq!(level.breadcrumbs.len(), 1);

    level.begin();
    level.load_page(true, PageOutcome::Unreachable("down".to_string()));
    assert_eq!(titles(&level.items), vec!["a", "b"]);
    assert!(level.error.as_ref().unwrap().unreachable);

    level.begin();
    assert!(level.error.is_none());
    level.load_page(false, PageOutcome::Refused("no".to_string()));
    assert!(level.items.is_empty() && level.breadcrumbs.is_empty());
    assert!(!level.error.as_ref().unwrap().unreachable);
    assert_eq!(level.error.as_ref().unwrap().message, "no");
}

#[test]
fn crumbs_lead_to_the_root_or_to_their_location() {
    let crumbs = vec![
        CollectionBreadcrumb {
            title: "A".to_string(),
            location: "loc_a".to_string(),
        },
        CollectionBreadcrumb {
            title: "B".to_string(),
            location: "loc_b".to_string(),
        },
    ];
    assert_eq!(crumb_location(&crumbs, 0), None);
    assert_eq!(crumb_location(&crumbs, 1).as_deref(), Some("loc_a"));
    assert_eq!(crumb_location(&crumbs, 2).as_deref(), Some("loc_b"));
    assert_eq!(crumb_location(&crumbs, 3), None);
}

#[test]
fn play_messages_and_toast_generations() {
    assert_eq!(play_message("queue", PlayOutcome::Accepted), "Added to queue");
    assert_eq!(play_message("next", PlayOutcome::Accepted), "Playing next");
    assert_eq!(play_message("play", PlayOutcome::Accepted), "Playing");
    assert_eq!(
        play_message("play", PlayOutcome::Refused("denied".to_string())),
        "denied"
    );
    assert_eq!(
        play_message("play", PlayOutcome::Unreachable("offline".to_string())),
        "offline"
    );

    let mut toast = StatusToast::new();
    toast.working();
    assert_eq!(toast.message.as_deref(), Some("Working…"));
    let first = toast.show("Playing".to_string());
    let second = toast.show("Added to queue".to_string());
    toast.expire(first);
    assert_eq!(toast.message.as_deref(), Some("Added to queue"));
    toast.expire(second);
    assert_eq!(toast.message, None);
    toast.working();
    toast.clear();
    assert_eq!(toast.message, None);
}

#[test]
fn superseded_searches_change_nothing() {
    let mut search = GlobalSearch::new();
    let first = search.query_changed("ab").unwrap();
    let second = search.query_changed("abc").unwrap();
    assert!(!search.debounced(first));
    assert!(search.debounced(second));
    assert_eq!(everywhere_panel(&search), EverywherePanel::Searching);
    search.answered(first, SearchOutcome::Failed("late".to_string()));
    assert!(search.searching && search.error.is_none());
    search.answered(
        second,
        SearchOutcome::Results(vec![SearchResult {
            title: "Hit".to_string(),
            subtitle: None,
            image: None,
            item_ref: None,
            location: None,
        }]),
    );
    assert_eq!(everywhere_panel(&search), EverywherePanel::Results);
    let third = search.query_changed("abcd").unwrap();
    assert!(search.debounced(third));
    search.answered(third, SearchOutcome::Failed("boom".to_string()));
    assert_eq!(everywhere_panel(&search), EverywherePanel::Error);
    assert_eq!(search.query_changed("   "), None);
    assert!(search.results.is_empty() && !search.searching);
    assert_eq!(everywhere_panel(&search), EverywherePanel::Error);
    search.error = None;
    assert_eq!(everywhere_panel(&search), EverywherePanel::NoMatches);
}

#[test]
fn local_search_ignores_case_in_title_and_subtitle() {
    let items = vec![
        item("Blue Train", Some("John Coltrane")),
        item("Kind of Blue", None),
        item("Giant Steps", Some("COLTRANE")),
    ];
    let found: Vec<&str> = local_matches(&items, "coltrane")
        .iter()
        .map(|i| i.title.as_str())
        .collect();
    assert_eq!(found, vec!["Blue Train", "Giant Steps"]);
    assert_eq!(local_matches(&items, "BLUE").len(), 2);
    assert!(local_matches(&items, "  ").is_empty());
    assert!(!is_searching(" \t"));
    assert!(is_searching(" x "));
    assert!(lowered_match("abc", None, "bc"));
    assert!(lowered_match("abc", Some("xyz"), "yz"));
    assert!(!lowered_match("abc", Some("xyz"), "q"));
}

#[test]
fn content_of_the_page_in_order_of_precedence() {
    let mut level = Level::new();
    assert_eq!(library_content(false, &level, "q"), LibraryContent::NoSources);
    assert_eq!(library_content(true, &level, ""), LibraryContent::Empty);
    level.loading = true;
    assert_eq!(library_content(true, &level, "q"), LibraryContent::Skeleton);
    level.items = vec![item("a", None)];
    assert_eq!(library_content(true, &level, "q"), LibraryContent::Search);
    level.next_offset = Some(30);
    assert_eq!(
        library_content(true, &level, ""),
        LibraryContent::Rows { load_more: true }
    );
    level.next_offset = None;
    assert_eq!(
        library_content(true, &level, " "),
        LibraryContent::Rows { load_more: false }
    );
    level.error = Some(LevelError {
        message: "m".to_string(),
        unreachable: true,
    });
    assert_eq!(library_content(true, &level, "q"), LibraryContent::Error);
    assert_eq!(
        error_heading(level.error.as_ref().unwrap(), "Roon"),
        "Roon isn't reachable right now."
    );
    assert_eq!(
        error_heading(
            &LevelError {
                message: String::new(),
                unreachable: false
            },
            "Roon"
        ),
        "This view isn't available."
    );
}

#[test]
fn empty_states_name_the_tab() {
    assert_eq!(empty_state_heading(Tab::Browse), "Nothing here yet");
    assert_eq!(empty_state_heading(Tab::Radio), "No radio stations yet");
    assert_eq!(empty_state_heading(Tab::Playlists), "No playlists yet");
    assert_eq!(empty_state_heading(Tab::Favorites), "No favorites yet");
    assert_eq!(empty_state_body(Tab::Browse), "This folder is empty.");
    assert_eq!(
        empty_state_body(Tab::Favorites),
        "The ♥ on any album or track lands here."
    );
}

#[test]
fn the_row_with_the_playing_title_is_marked() {
    let mut map = NowPlayingMap::new();
    map.insert("z".to_string(), playing("Song"));
    let armed = Some("z".to_string());
    let title = playing_title(&map, &armed);
    assert_eq!(title, Some("Song"));
    assert!(row_is_playing(&item("Song", None), title));
    assert!(!row_is_playing(&item("Other", None), title));
    assert!(!row_is_playing(&item("Song", None), None));
    assert_eq!(playing_title(&map, &None), None);
}

#[test]
fn merging_replaces_newer_and_keeps_the_rest() {
    let mut map = NowPlayingMap::new();
    map.insert("a".to_string(), playing("old a"));
    map.insert("b".to_string(), playing("old b"));
    let mut newer = NowPlayingMap::new();
    newer.insert("b".to_string(), playing("new b"));
    map.merge(newer);
    assert_eq!(map.get("a").unwrap().line1.as_deref(), Some("old a"));
    assert_eq!(map.get("b").unwrap().line1.as_deref(), Some("new b"));
    assert!(map.is_playing("a") && !map.is_playing("c"));
}

#[test]
fn events_fetch_one_zone_every_zone_or_none() {
    let update = SseEvent::ZoneUpdated {
        payload: zone_payload("z1"),
    };
    match now_playing_fetch(Some(&update)) {
        NowPlayingFetch::Zone(id) => assert_eq!(id, "z1"),
        _ => panic!("expected one zone"),
    }
    let player = SseEvent::LmsPlayerStateChanged {
        payload: LmsPlayerPayload {
            player_id: "p".to_string(),
        },
    };
    assert!(matches!(
        now_playing_fetch(Some(&player)),
        NowPlayingFetch::Every
    ));
    let seek = SseEvent::SeekPositionChanged {
        payload: zone_payload("z1"),
    };
    assert!(matches!(
        now_playing_fetch(Some(&seek)),
        NowPlayingFetch::Nothing
    ));
    assert!(matches!(now_playing_fetch(None), NowPlayingFetch::Nothing));
}

#[test]
fn artwork_and_track_of_a_card() {
    let mut np = playing("Song");
    assert_eq!(art_url("", Some(&np)), "");
    np.image_key = Some("k1".to_string());
    assert_eq!(art_url("", Some(&np)), "?k=k1");
    np.image_url = Some("/art".to_string());
    assert_eq!(art_url("", Some(&np)), "/art?k=k1");
    np.image_url = Some("/art?z=1".to_string());
    assert_eq!(art_url("", Some(&np)), "/art?z=1&k=k1");
    np.image_key = None;
    assert_eq!(art_url("", Some(&np)), "/art?z=1");
    assert_eq!(art_url("", None), "");
    np.line2 = Some("Artist".to_string());
    let lines = track_lines(Some(&np));
    assert_eq!((lines.track.as_str(), lines.artist.as_str()), ("Song", "Artist"));
    np.line1 = Some("Idle".to_string());
    let lines = track_lines(Some(&np));
    assert_eq!((lines.track.as_str(), lines.artist.as_str()), ("", ""));
    assert_eq!(play_button_label(true), "Pause");
    assert_eq!(play_button_label(false), "Play");
}
