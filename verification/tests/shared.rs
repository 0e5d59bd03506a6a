use unified_hifi_control::api::{AdapterSettings, AppSettings, Zone};
use unified_hifi_control::grouping::{group_zones_by_source, rank_of_lowered, sorted_by_name};
use unified_hifi_control::markup::aria_bool;
use unified_hifi_control::rate::{padded_number, scaled_number};
use unified_hifi_control::settings_context::{NavigationVisibility, SettingsContext};
use unified_hifi_control::sorting::{order_by_rank, order_by_text};
use unified_hifi_control::sse::{
    AdapterPayload, LmsPlayerPayload, SseContext, SseEvent, VolumePayload, ZonePayload,
};
use unified_hifi_control::text::{
    contains, join, le, number, parse_i32, parse_port, parse_u32, parse_unsigned, same,
    signed_number, split, starts_with, strip_prefix, trim, white_space,
};
use unified_hifi_control::theme::{root_class, Theme, ThemeContext};
use unified_hifi_control::url::{address_with, href, now_playing_url};

fn zone_payload(zone_id: &str) -> ZonePayload {
    ZonePayload {
        zone_id: zone_id.to_string(),
    }
}

fn every_event() -> Vec<SseEvent> {
    vec![
        SseEvent::RoonConnected,
        SseEvent::RoonDisconnected,
        SseEvent::ZoneDiscovered {
            payload: zone_payload("z"),
        },
        SseEvent::ZoneUpdated {
            payload: zone_payload("z"),
        },
        SseEvent::ZoneRemoved {
            payload: zone_payload("z"),
        },
        SseEvent::NowPlayingChanged {
            payload: zone_payload("z"),
        },
        SseEvent::VolumeChanged {
            payload: VolumePayload {
                output_id: "o".to_string(),
                value_bits: 0,
                is_muted: true,
            },
        },
        SseEvent::SeekPositionChanged {
            payload: zone_payload("z"),
        },
        SseEvent::HqpConnected,
        SseEvent::HqpDisconnected,
        SseEvent::HqpStateChanged,
        SseEvent::HqpPipelineChanged,
        SseEvent::LmsConnected,
        SseEvent::LmsDisconnected,
        SseEvent::LmsPlayerStateChanged {
            payload: LmsPlayerPayload {
                player_id: "p".to_string(),
            },
        },
        SseEvent::OpenHomeDeviceFound,
        SseEvent::OpenHomeDeviceLost,
        SseEvent::UpnpRendererFound,
        SseEvent::UpnpRendererLost,
        SseEvent::AdapterConnected {
            payload: AdapterPayload {
                adapter: "roon".to_string(),
            },
        },
        SseEvent::AdapterDisconnected {
            payload: AdapterPayload {
                adapter: "roon".to_string(),
            },
        },
        SseEvent::Unknown,
    ]
}

fn refreshed(check: fn(&SseContext) -> bool) -> Vec<usize> {
    let mut found = Vec::new();
    for (index, event) in every_event().into_iter().enumerate() {
        let mut context = SseContext::new();
        assert!(!check(&context));
        context.received(Some(event));
        if check(&context) {
            found.push(index);
        }
    }
    found
}

#[test]
fn events_refresh_their_lists() {
    assert_eq!(
        refreshed(SseContext::should_refresh_zones),
        vec![0, 1, 3, 4, 5, 6, 7, 12, 13, 14]
    );
    assert_eq!(refreshed(SseContext::should_refresh_roon), vec![0, 1]);
    assert_eq!(refreshed(SseContext::should_refresh_hqp), vec![8, 9, 10, 11]);
    assert_eq!(refreshed(SseContext::should_refresh_lms), vec![12, 13, 14]);
    assert_eq!(
        refreshed(SseContext::should_refresh_discovery),
        vec![0, 1, 15, 16, 17, 18]
    );
    assert_eq!(
        refreshed(SseContext::should_refresh_knobs),
        vec![0, 1, 3, 4, 12, 13]
    );
}

#[test]
fn only_zone_events_name_a_zone() {
    let named: Vec<usize> = every_event()
        .iter()
        .enumerate()
        .filter(|(_, event)| event.zone_id() == Some("z"))
        .map(|(index, _)| index)
        .collect();
    assert_eq!(named, vec![3, 4, 5, 7]);
}

#[test]
fn the_stream_counts_what_it_can_read() {
    let mut context = SseContext::new();
    context.opened();
    assert!(context.connected);
    context.received(None);
    assert_eq!(context.event_count, 0);
    context.received(Some(SseEvent::Unknown));
    context.received(Some(SseEvent::LmsConnected));
    assert_eq!(context.event_count, 2);
    assert_eq!(context.last_event, Some(SseEvent::LmsConnected));
    context.failed();
    assert!(!context.connected);
}

#[test]
fn themes_round_trip_through_storage() {
    let mut context = ThemeContext::new();
    assert_eq!(context.get(), Theme::System);
    for theme in [Theme::System, Theme::Light, Theme::Dark, Theme::Oled] {
        let stored = context.set(theme);
        assert_eq!(stored, theme.as_str());
        let mut next = ThemeContext::new();
        next.restore(Some(stored));
        assert_eq!(next.get(), theme);
        assert_eq!(root_class(theme).unwrap_or(""), theme.css_class());
    }
    context.restore(None);
    assert_eq!(context.get(), Theme::System);
    assert_eq!(Theme::parse("neon"), Theme::System);
    assert_eq!(Theme::default(), Theme::System);
    assert_eq!(Theme::Oled.label(), "OLED Black");
    assert_eq!(Theme::Dark.css_class(), "theme-dark");
    assert_eq!(Theme::Light.button_class(Theme::Light), "btn-primary py-3");
    assert_eq!(Theme::Light.button_class(Theme::Dark), "btn-outline py-3");
    assert_eq!(
        Theme::Light.description(),
        "Light theme for bright environments."
    );
}

#[test]
fn navigation_follows_the_settings() {
    let (context, visibility) = SettingsContext::start(None);
    assert!(!context.is_loaded());
    assert_eq!(visibility, NavigationVisibility::default());
    let settings = AppSettings {
        adapters: AdapterSettings {
            roon: false,
            lms: true,
            openhome: false,
            upnp: false,
            hqplayer: false,
            spotify: true,
            applemusic: false,
            musicassistant: false,
            mqtt: false,
        },
        hide_knobs_page: true,
        hide_hqp_page: false,
        hide_lms_page: false,
    };
    let initial = NavigationVisibility::of(&settings);
    let (mut context, visibility) = SettingsContext::start(Some(initial));
    assert!(context.is_loaded());
    assert_eq!(visibility, initial);
    assert!(context.hide_knobs() && context.hide_hqp());
    assert!(!context.hide_lms() && !context.hide_spotify());
    context.update(false, true, false, false);
    assert!(!context.hide_knobs() && !context.hide_hqp());
    assert!(context.hide_lms() && context.hide_spotify());
    context.adopt(&settings);
    assert!(context.hide_knobs() && context.is_loaded());
    assert_eq!(context.navigation(None), initial);
    let page = NavigationVisibility {
        hide_lms: true,
        ..NavigationVisibility::default()
    };
    let shown = context.navigation(Some(page));
    assert!(shown.hide_hqp && shown.hide_lms && !shown.hide_spotify && shown.hide_knobs);
    assert_eq!(aria_bool(true), "true");
}

#[test]
fn white_space_is_unicode_white_space() {
    for code in 0..=0x10FFFFu32 {
        if let Some(c) = char::from_u32(code) {
            assert_eq!(white_space(c), c.is_whitespace(), "{code:x}");
        }
    }
}

#[test]
fn text_helpers_agree_with_the_standard_library() {
    let samples = [
        "", " ", "a", " a ", "\u{3000}héllo\t", "a b", "abcabc", "ÄÖ", "aa", "aab", "zzz", "🎵 x ",
    ];
    for a in samples {
        assert_eq!(trim(a), a.trim());
        for b in samples {
            assert_eq!(same(a, b), a == b);
            assert_eq!(contains(a, b), a.contains(b), "{a:?} {b:?}");
            assert_eq!(starts_with(a, b), a.starts_with(b));
            assert_eq!(strip_prefix(a, b).as_deref(), a.strip_prefix(b));
            assert_eq!(le(a, b), a <= b, "{a:?} {b:?}");
        }
        assert_eq!(split(a, 'a'), a.split('a').collect::<Vec<_>>());
    }
    let parts = vec!["x".to_string(), "".to_string(), "z".to_string()];
    assert_eq!(join(&parts, "--"), parts.join("--"));
    assert_eq!(join(&Vec::new(), "--"), "");
}

#[test]
fn numbers_agree_with_the_standard_library() {
    for n in [0, 1, 9, 10, 11, 99, 100, 12345, u64::MAX] {
        assert_eq!(number(n), n.to_string());
    }
    for n in [0, -1, 7, i64::MIN, i64::MAX] {
        assert_eq!(signed_number(n), n.to_string());
    }
    for s in [
        "", "+", "-", "+5", "-5", "--5", "+-5", "-+5", "007", "65535", "65536", "4294967295",
        "4294967296", "2147483647", "2147483648", "-2147483648", "-2147483649", " 1", "1 ", "1a", "٣",
        "18446744073709551615", "18446744073709551616", "-0",
    ] {
        assert_eq!(parse_port(s), s.parse::<u16>().ok(), "{s}");
        assert_eq!(parse_u32(s), s.parse::<u32>().ok(), "{s}");
        assert_eq!(parse_i32(s), s.parse::<i32>().ok(), "{s}");
        assert_eq!(parse_unsigned(s, u64::MAX), s.parse::<u64>().ok(), "{s}");
    }
    assert_eq!(padded_number(7, 2), "07");
    assert_eq!(scaled_number(441, 1), "44.1");
    assert_eq!(scaled_number(10_050, 4), "1.005");
    assert_eq!(scaled_number(20_000, 4), "2");
}

#[test]
fn addresses_from_the_root_go_below_the_base_path() {
    assert_eq!(href("", "/zones"), "/zones");
    assert_eq!(href("/base", "/zones"), "/base/zones");
    assert_eq!(href("/base", ""), "");
    assert_eq!(href("/base", "zones"), "zones");
}

#[test]
fn a_whole_stream_of_notices() {
    let mut sse = SseContext::new();
    assert_eq!(sse.last_event, None);
    assert!(!sse.connected);
    assert_eq!(sse.event_count, 0);
    sse.received(None);
    sse.opened();
    sse.received(Some(SseEvent::RoonConnected));
    sse.received(None);
    sse.failed();
    sse.received(Some(SseEvent::LmsConnected));
    assert_eq!(sse.last_event, Some(SseEvent::LmsConnected));
    assert!(!sse.connected);
    assert_eq!(sse.event_count, 2);
    sse.opened();
    sse.received(None);
    assert_eq!(sse.last_event, Some(SseEvent::LmsConnected));
    assert!(sse.connected);
    assert_eq!(sse.event_count, 2);
    sse.event_count = u64::MAX;
    sse.received(None);
    assert_eq!(sse.event_count, u64::MAX);
}

#[test]
fn joined_groups_hold_every_zone_once() {
    let named = [("d", "UPnP"), ("a", "Roon"), ("c", "roon"), ("b", "Other"), ("a", "Roon")];
    let zones: Vec<Zone> = named
        .iter()
        .map(|(id, source)| Zone {
            zone_id: id.to_string(),
            zone_name: id.to_string(),
            source: Some(source.to_string()),
            ..Zone::default()
        })
        .collect();
    let groups = group_zones_by_source(&zones);
    let mut joined: Vec<&str> = groups
        .iter()
        .flat_map(|group| group.zones.iter().map(|zone| zone.zone_id.as_str()))
        .collect();
    joined.sort();
    assert_eq!(joined, vec!["a", "a", "b", "c", "d"]);
}

#[test]
fn addresses_are_percent_encoded() {
    assert_eq!(
        now_playing_url("roon:zone 1/é~"),
        "/now_playing?zone_id=roon%3Azone%201%2F%C3%A9~"
    );
    assert_eq!(address_with("/x?k=", "A-z0.9_~"), "/x?k=A-z0.9_~");
    assert_eq!(now_playing_url(""), "/now_playing?zone_id=");
}

fn zone(id: &str, name: &str, source: Option<&str>) -> Zone {
    Zone {
        zone_id: id.to_string(),
        zone_name: name.to_string(),
        source: source.map(str::to_string),
        ..Zone::default()
    }
}

#[test]
fn zones_are_grouped_ranked_and_sorted() {
    let zones = vec![
        zone("1", "B", Some("upnp")),
        zone("2", "Z", Some("Roon")),
        zone("3", "A", None),
        zone("4", "A", Some("Roon")),
        zone("5", "x", Some("spotify")),
        zone("6", "A", Some("Roon")),
        zone("7", "k", Some("LMS")),
    ];
    let groups = group_zones_by_source(&zones);
    let shape: Vec<(&str, Vec<&str>)> = groups
        .iter()
        .map(|g| {
            (
                g.source.as_str(),
                g.zones.iter().map(|z| z.zone_id.as_str()).collect(),
            )
        })
        .collect();
    assert_eq!(
        shape,
        vec![
            ("Roon", vec!["4", "6", "2"]),
            ("LMS", vec!["7"]),
            ("upnp", vec!["1"]),
            ("Other", vec!["3"]),
            ("spotify", vec!["5"]),
        ]
    );
    assert!(group_zones_by_source(&[]).is_empty());
    assert_eq!(rank_of_lowered("openhome"), 2);
    assert_eq!(rank_of_lowered("Roon"), 4);
    let refs: Vec<&Zone> = zones.iter().collect();
    let names: Vec<&str> = sorted_by_name(&refs)
        .iter()
        .map(|z| z.zone_name.as_str())
        .collect();
    assert_eq!(names, vec!["A", "A", "A", "B", "Z", "k", "x"]);
}

#[test]
fn orders_are_stable() {
    let keys = vec!["b", "a", "b", "", "a"];
    assert_eq!(order_by_text(&keys), vec![3, 1, 4, 0, 2]);
    assert_eq!(order_by_rank(&vec![2, 0, 2, 1, 0]), vec![1, 4, 3, 0, 2]);
}
