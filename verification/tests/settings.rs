use serde_json::Value;
use unified_hifi_control::api::{
    AdapterSettings, AppSettings, AppleBridgeCompanionStatus, AppleBridgeStatus, HqpStatus,
    LmsConfig, PendingPairing, RoonStatus, Zone,
};
use unified_hifi_control::pages::settings::features::{
    apple_music_live_companion_count, apple_music_status_state, applemusic_badge,
    applemusic_feature, applemusic_panel, companion_badge, companion_hint, device_list_heading,
    hqplayer_feature, lms_feature, mqtt_feature, musicassistant_feature, openhome_feature,
    remove_companion_question, roon_feature, spotify_device_state_class,
    spotify_device_state_label, spotify_devices, spotify_feature, upnp_feature, zone_state_label,
    AppleMusicPanel, AppleMusicStatusState, OpenHomeStatus, ProviderRun, UpnpStatus,
};
use unified_hifi_control::pages::settings::providers::{
    broker_line, from_environment, mqtt_state, musicassistant_endpoint_line, musicassistant_needs_setup,
    musicassistant_state, save_label, MqttForm, MqttStatus, MusicAssistantEndpoint,
    MusicAssistantForm, MusicAssistantStatus,
};
use unified_hifi_control::pages::settings::spotify_setup::{
    account_lines, connect_disabled, connect_label, default_spotify_redirect_uri,
    info_panel_class, open_tunnel_label, spotify_badge, step_facts, tunnel_mismatch,
    verification_text, ActionScope, SpotifyAccount, SpotifyAccountResponse, SpotifySetup,
    SpotifyTunnelStatus, StepFacts, TunnelWatch, DEFAULT_SPOTIFY_REDIRECT_URI,
};
use unified_hifi_control::pages::settings::zone_table::{
    move_announcement, move_button_class, moved_flag, name_field_class, position_text,
    zone_list_panel, zone_rows, DragState, ManagedZone, MoveDirection, ZoneEditor, ZoneListPanel,
};
use unified_hifi_control::pages::settings::{
    bootstrap_prompt_due, copy_route, feature_toggle_key, feedback_line, is_loopback_host,
    location_search, navigation_query, query_param, settings_save_alert, settings_save_failure,
    settings_with_toggle, settings_write_error, spotify_callback_feedback,
    spotify_oauth_error_message, write_outcome, AdapterToggle, CopyRoute, CopyState,
    FeatureSwitches, ProviderActionState, SettingsToggle,
};
use unified_hifi_control::settings_context::SettingsContext;
use unified_hifi_control::url::address_with;

fn settings_fixture() -> AppSettings {
    AppSettings {
        adapters: AdapterSettings {
            roon: true,
            lms: false,
            openhome: false,
            upnp: true,
            hqplayer: false,
            spotify: false,
            applemusic: true,
            musicassistant: false,
            mqtt: false,
        },
        hide_knobs_page: false,
        hide_hqp_page: true,
        hide_lms_page: true,
    }
}

fn object(members: &[(&str, Value)]) -> Value {
    let mut map = serde_json::Map::new();
    for (key, value) in members {
        map.insert(key.to_string(), value.clone());
    }
    Value::Object(map)
}

fn text(value: &str) -> Value {
    Value::String(value.to_string())
}

#[test]
fn settings_write_requires_an_explicit_success_acknowledgement() {
    assert_eq!(
        settings_write_error(&object(&[("ok", Value::Bool(true))])),
        None
    );
    assert_eq!(
        settings_write_error(&object(&[
            ("ok", Value::Bool(false)),
            ("error", text("Apple Music could not start"))
        ])),
        Some("Apple Music could not start".to_string())
    );
    assert!(settings_write_error(&object(&[])).is_some());
}

#[test]
fn write_errors_fall_back_to_a_general_sentence() {
    let general = "UHC could not apply that change. Your previous setting was restored.";
    assert_eq!(settings_write_error(&Value::Null).as_deref(), Some(general));
    assert_eq!(
        settings_write_error(&object(&[("error", text(""))])).as_deref(),
        Some(general)
    );
    assert_eq!(
        settings_write_error(&object(&[("ok", text("true"))])).as_deref(),
        Some(general)
    );
    assert_eq!(write_outcome(Some(true), Some("ignored")), None);
    assert_eq!(write_outcome(None, Some("why")).as_deref(), Some("why"));
    assert_eq!(
        settings_save_failure(&Err("offline".to_string())).as_deref(),
        Some("offline")
    );
    assert_eq!(
        settings_save_failure(&Ok(object(&[("ok", Value::Bool(true))]))),
        None
    );
    assert_eq!(
        settings_save_alert("x"),
        "UHC could not apply that change. Your previous setting is still active.\n\nx"
    );
}

#[test]
fn provider_toggle_changes_only_the_requested_provider() {
    let updated = settings_with_toggle(
        settings_fixture(),
        SettingsToggle::Adapter(AdapterToggle::AppleMusic, false),
    );

    assert!(!updated.adapters.applemusic);
    assert!(updated.adapters.roon);
    assert!(updated.adapters.upnp);
    assert!(!updated.adapters.spotify);
}

#[test]
fn hqplayer_toggle_keeps_its_derived_page_visibility_in_sync() {
    let updated = settings_with_toggle(
        settings_fixture(),
        SettingsToggle::Adapter(AdapterToggle::HqPlayer, true),
    );

    assert!(updated.adapters.hqplayer);
    assert!(!updated.hide_hqp_page);
}

#[test]
fn every_toggle_moves_its_own_switch_and_moves_back() {
    let before = settings_fixture();
    for which in [
        AdapterToggle::Roon,
        AdapterToggle::Lms,
        AdapterToggle::OpenHome,
        AdapterToggle::Upnp,
        AdapterToggle::HqPlayer,
        AdapterToggle::Spotify,
        AdapterToggle::AppleMusic,
        AdapterToggle::MusicAssistant,
        AdapterToggle::Mqtt,
    ] {
        let on = settings_with_toggle(before, SettingsToggle::Adapter(which, true));
        let off = settings_with_toggle(before, SettingsToggle::Adapter(which, false));
        assert_ne!(on, off);
        assert!(on == before || off == before);
        assert_eq!(
            settings_with_toggle(on, SettingsToggle::Adapter(which, false)),
            off
        );
    }
    let hidden = settings_with_toggle(before, SettingsToggle::HideKnobs(false));
    assert!(hidden.hide_knobs_page);
    assert_eq!(
        settings_with_toggle(hidden, SettingsToggle::HideKnobs(true)),
        before
    );
}

#[test]
fn switches_load_and_ask() {
    let settings = settings_fixture();
    let mut switches = FeatureSwitches::new(&settings);
    let known = switches.navigation();
    assert!(known.hide_hqp && known.hide_lms && known.hide_spotify && !known.hide_knobs);
    assert!(switches
        .request(SettingsToggle::Adapter(AdapterToggle::Lms, true))
        .is_none());
    let (mut context, _) = SettingsContext::start(None);
    switches.load(&settings, &mut context);
    assert!(context.is_loaded());
    assert!(context.hide_lms() && context.hide_hqp() && context.hide_spotify());
    assert!(!context.hide_knobs());
    let asked = switches
        .request(SettingsToggle::Adapter(AdapterToggle::Lms, true))
        .unwrap();
    assert!(asked.adapters.lms);
    assert!(switches.shows_streaming_providers());
    assert_eq!(feature_toggle_key("Enable Roon"), "adapters.roon");
    assert_eq!(feature_toggle_key("Show Controllers page"), "hide_knobs_page");
    assert_eq!(feature_toggle_key("Enable Music Assistant"), "");
    assert!(bootstrap_prompt_due(true, true, false));
    assert!(!bootstrap_prompt_due(true, true, true));
}

#[test]
fn apple_music_status_projection_distinguishes_unpaired_from_saved_pairing() {
    let unpaired = AppleBridgeStatus::default();
    assert_eq!(
        apple_music_status_state(Some(&unpaired)),
        AppleMusicStatusState::Unpaired
    );

    let paired_waiting = AppleBridgeStatus {
        paired: true,
        ..AppleBridgeStatus::default()
    };
    assert_eq!(
        apple_music_status_state(Some(&paired_waiting)),
        AppleMusicStatusState::PairedWaiting
    );
}

#[test]
fn apple_music_status_projection_uses_live_companion_state_not_snapshot_presence() {
    let waiting = AppleBridgeStatus {
        paired: true,
        companions: vec![AppleBridgeCompanionStatus {
            bridge_id: "mac".to_string(),
            paired: true,
            live: false,
            has_snapshot: true,
            ..AppleBridgeCompanionStatus::default()
        }],
        ..AppleBridgeStatus::default()
    };
    assert_eq!(
        apple_music_status_state(Some(&waiting)),
        AppleMusicStatusState::PairedWaiting
    );
    assert_eq!(apple_music_live_companion_count(Some(&waiting)), 0);

    let live = AppleBridgeStatus {
        paired: true,
        live: true,
        companions: vec![AppleBridgeCompanionStatus {
            bridge_id: "mac".to_string(),
            paired: true,
            live: true,
            ..AppleBridgeCompanionStatus::default()
        }],
        ..AppleBridgeStatus::default()
    };
    assert_eq!(
        apple_music_status_state(Some(&live)),
        AppleMusicStatusState::Live
    );
    assert_eq!(apple_music_live_companion_count(Some(&live)), 1);
}

#[test]
fn apple_music_panels_and_badges() {
    assert_eq!(
        apple_music_status_state(None),
        AppleMusicStatusState::Unpaired
    );
    assert_eq!(apple_music_live_companion_count(None), 0);
    assert_eq!(applemusic_panel(None), AppleMusicPanel::Checking);
    let mut status = AppleBridgeStatus::default();
    assert_eq!(applemusic_panel(Some(&status)), AppleMusicPanel::PairCompanion);
    status.paired = true;
    assert_eq!(
        applemusic_panel(Some(&status)),
        AppleMusicPanel::WaitingForCompanion
    );
    status.companions.push(AppleBridgeCompanionStatus {
        paired: true,
        live: true,
        ..AppleBridgeCompanionStatus::default()
    });
    assert_eq!(applemusic_panel(Some(&status)), AppleMusicPanel::Companions);
    assert_eq!(companion_badge(&status.companions[0]).text, "Live");
    assert_eq!(
        companion_hint(&status.companions[0]),
        "Ready for playback through UHC."
    );
    status.companions[0].live = false;
    assert_eq!(companion_badge(&status.companions[0]).text, "Offline · paired");
    assert_eq!(
        companion_hint(&status.companions[0]),
        "Pairing is saved. Open the companion app to reconnect it to UHC."
    );
    status.companions[0].paired = false;
    assert_eq!(
        companion_hint(&status.companions[0]),
        "Waiting for this companion to finish pairing."
    );
    status.pending_pairings.push(PendingPairing {
        bridge_id: "b".to_string(),
        pairing_code: "1234".to_string(),
    });
    assert_eq!(applemusic_panel(Some(&status)), AppleMusicPanel::ConfirmCode);
    assert_eq!(
        applemusic_badge(true, AppleMusicStatusState::Live, 1).text,
        "1 companion live"
    );
    assert_eq!(
        applemusic_badge(true, AppleMusicStatusState::Live, 2).text,
        "2 companions live"
    );
    assert_eq!(
        applemusic_badge(false, AppleMusicStatusState::Live, 2).text,
        "Disabled"
    );
    assert_eq!(applemusic_feature(true, None).text, "Checking...");
    assert_eq!(applemusic_feature(false, None).text, "-");
    assert_eq!(
        remove_companion_question("Mac"),
        "Remove Mac from UHC? This revokes its saved pairing."
    );
}

#[test]
fn query_param_extracts_and_decodes_value() {
    assert_eq!(
        query_param("?spotify=error&reason=expired_state", "reason"),
        Some("expired_state".to_string())
    );
    assert_eq!(
        query_param("?spotify=error&reason=token_exchange%5Ffailed", "reason"),
        Some("token_exchange_failed".to_string())
    );
    assert_eq!(query_param("?spotify=connected", "reason"), None);
    assert_eq!(query_param("", "reason"), None);
}

#[test]
fn an_encoded_value_reads_back_from_a_query() {
    for value in ["a b/ü%&=+", "", "100%25", "\u{1F3B5}"] {
        let query = address_with("?spotify=error&reason=", value);
        assert_eq!(query_param(&query, "reason").as_deref(), Some(value));
    }
}

#[test]
fn a_query_reads_back_among_its_other_parameters() {
    let query = format!(
        "?{}&{}&{}&{}",
        address_with("reasons=", "longer"),
        address_with("reason=", "a&b=c?"),
        address_with("reason=", "second"),
        address_with("spotify=", "é"),
    );
    assert_eq!(query_param(&query, "reason").as_deref(), Some("a&b=c?"));
    assert_eq!(query_param(&query, "reasons").as_deref(), Some("longer"));
    assert_eq!(query_param(&query, "spotify").as_deref(), Some("é"));
    assert_eq!(query_param(&query, "reaso"), None);
    assert_eq!(query_param(&query, "b"), None);
}

#[test]
fn the_source_of_broker_settings() {
    assert!(from_environment(Some("environment")));
    assert!(!from_environment(Some("file")));
    assert!(!from_environment(None));
}

#[test]
fn zones_are_announced_with_their_source() {
    let mut zone = managed("z", "Kitchen", false);
    assert_eq!(zone.qualified_label(), "Kitchen (Roon)");
    zone.source = "sonos".to_string();
    assert_eq!(zone.qualified_label(), "Kitchen (sonos)");
}

#[test]
fn query_param_edge_cases() {
    assert_eq!(
        query_param("??reason=a&reason=b", "reason").as_deref(),
        Some("a")
    );
    assert_eq!(
        query_param("reasons=a&reason=%zz%4", "reason").as_deref(),
        Some("%zz%4")
    );
    assert_eq!(query_param("reason=%ff", "reason").as_deref(), Some(""));
    assert_eq!(query_param("reason=%C3%A9+", "reason").as_deref(), Some("é+"));
    assert_eq!(query_param("reason", "reason"), None);
    assert_eq!(query_param("reason=", "reason").as_deref(), Some(""));
}

#[test]
fn callback_feedback_reports_success_without_error_styling() {
    let feedback = spotify_callback_feedback("?spotify=connected").unwrap();
    assert!(!feedback.is_error);
    assert!(feedback.message.contains("connected"));

    let legacy = spotify_callback_feedback("?oauth=success").unwrap();
    assert!(!legacy.is_error);
}

#[test]
fn callback_feedback_is_none_without_a_recognized_marker() {
    assert!(spotify_callback_feedback("?tab=devices").is_none());
    assert!(spotify_callback_feedback("").is_none());
}

#[test]
fn callback_feedback_reports_errors_with_a_per_reason_actionable_message() {
    let expired = spotify_callback_feedback("?spotify=error&reason=expired_state").unwrap();
    assert!(expired.is_error);
    assert!(expired.message.contains("expired"));

    let mismatch =
        spotify_callback_feedback("?spotify=error&reason=token_exchange_failed").unwrap();
    assert!(mismatch.is_error);
    assert!(mismatch.message.contains("does not exactly match"));

    let unknown_reason = spotify_callback_feedback("?spotify=error&reason=made_up").unwrap();
    assert!(unknown_reason.is_error);
    assert!(unknown_reason.message.contains("Try Connect again"));

    let no_reason = spotify_callback_feedback("?spotify=error").unwrap();
    assert!(no_reason.is_error);
}

#[test]
fn every_oauth_callback_error_code_has_a_distinct_actionable_message() {
    let codes = [
        "invalid_state",
        "expired_state",
        "provider_denied",
        "provider_oauth_error",
        "missing_authorization_code",
        "token_exchange_failed",
        "token_storage_failed",
        "oauth_not_configured",
        "invalid_client_configuration",
        "adapter_unavailable",
        "adapter_start_failed",
        "companion_required",
    ];
    let generic = spotify_oauth_error_message(Some("unmapped_code_xyz"));
    for code in codes {
        let message = spotify_oauth_error_message(Some(code));
        assert_ne!(
            message, generic,
            "code {code} should not fall back to the generic message"
        );
    }
    assert_eq!(spotify_oauth_error_message(None), generic);
}

#[test]
fn success_wins_and_lines_show_one_kind() {
    let both = spotify_callback_feedback("?spotify=connected&oauth=error");
    assert_eq!(
        feedback_line(&both, false),
        Some("Spotify connected. Refreshing available devices…")
    );
    assert_eq!(feedback_line(&both, true), None);
    assert_eq!(feedback_line(&None, true), None);
}

#[test]
fn the_query_is_recovered_from_the_navigation() {
    assert_eq!(navigation_query("http://h/x?a=1?b").as_deref(), Some("?a=1?b"));
    assert_eq!(navigation_query("http://h/x"), None);
    assert_eq!(
        location_search(Some("?now=1"), Some("http://h/?old=1")).as_deref(),
        Some("?now=1")
    );
    assert_eq!(
        location_search(Some(""), Some("http://h/?old=1")).as_deref(),
        Some("?old=1")
    );
    assert_eq!(location_search(None, None), None);
    assert!(is_loopback_host("localhost") && is_loopback_host("::1"));
    assert!(!is_loopback_host("nas.local"));
}

#[test]
fn copy_buttons_and_actions() {
    assert_eq!(CopyState::default().label("Copy URL"), "Copy URL");
    assert_eq!(CopyState::Copying.label("Copy URL"), "Copying…");
    assert_eq!(CopyState::finished(true).label("x"), "Copied");
    assert_eq!(CopyState::finished(false).label("x"), "Copy failed");
    assert_eq!(CopyState::Copied.expired(CopyState::Copied), CopyState::Idle);
    assert_eq!(
        CopyState::Copying.expired(CopyState::Copied),
        CopyState::Copying
    );
    assert_eq!(copy_route(false, true), CopyRoute::Unavailable);
    assert_eq!(copy_route(true, true), CopyRoute::Clipboard);
    assert_eq!(copy_route(true, false), CopyRoute::Legacy);
    assert_eq!(ProviderActionState::default().message(), None);
    assert_eq!(ProviderActionState::Success.message(), Some("Updated."));
    assert_eq!(
        ProviderActionState::Failed.message(),
        Some("Something went wrong. Try again or open Client settings.")
    );
}

#[test]
fn feature_rows() {
    let roon = RoonStatus {
        connected: true,
        core_name: Some("Core".to_string()),
        core_version: None,
    };
    assert_eq!(roon_feature(true, Some(&roon)).text, "✓ Core");
    assert_eq!(roon_feature(false, Some(&roon)).text, "-");
    assert_eq!(roon_feature(true, None).text, "...");
    assert_eq!(
        openhome_feature(true, Some(OpenHomeStatus { device_count: 3 })).text,
        "✓ 3 devices"
    );
    assert_eq!(
        upnp_feature(true, Some(UpnpStatus { renderer_count: 0 })).text,
        "Searching..."
    );
    let lms = LmsConfig {
        configured: true,
        connected: true,
        host: None,
        port: None,
        cli_subscription_active: false,
        poll_interval_secs: 2,
    };
    assert_eq!(lms_feature(true, Some(&lms)).text, "⚠ Polling");
    let hqp = HqpStatus {
        connected: false,
        host: None,
    };
    assert_eq!(hqplayer_feature(true, Some(&hqp)).text, "✗ Not connected");
    let waiting = Some(ProviderRun {
        configured: true,
        running: false,
    });
    let fresh = Some(ProviderRun {
        configured: false,
        running: false,
    });
    let running = Some(ProviderRun {
        configured: true,
        running: true,
    });
    assert_eq!(musicassistant_feature(true, waiting).text, "Configured · waiting");
    assert_eq!(musicassistant_feature(true, fresh).text, "Setup required");
    assert_eq!(spotify_feature(true, Some(0)).text, "✗ No Connect devices");
    assert_eq!(spotify_feature(true, Some(12)).text, "✓ 12 device(s)");
    let mqtt = mqtt_feature(true, fresh, false);
    assert!(mqtt.needs_broker);
    assert_eq!(mqtt.line.text, "No broker yet — set one up");
    assert_eq!(
        mqtt_feature(true, running, true).line.text,
        "✓ Connected · via add-on"
    );
    assert_eq!(
        mqtt_feature(false, None, false).line.text,
        "Off — no Home Assistant entities"
    );
}

#[test]
fn spotify_devices_are_told_by_their_id() {
    let zone = |id: &str, state: Option<&str>| Zone {
        zone_id: id.to_string(),
        state: state.map(str::to_string),
        ..Zone::default()
    };
    let zones = vec![
        zone("roon:1", None),
        zone("spotify:a", Some("playing")),
        zone("spotify:b", None),
        zone("spotify:c", Some("buffering")),
    ];
    let devices = spotify_devices(&zones);
    assert_eq!(devices.len(), 3);
    assert_eq!(spotify_device_state_label(devices[0]), "Playing");
    assert_eq!(spotify_device_state_label(devices[1]), "No playback reported");
    assert_eq!(spotify_device_state_label(devices[2]), "buffering");
    assert_eq!(zone_state_label(devices[1]), "unknown");
    assert_eq!(spotify_device_state_class(devices[1]), "text-muted text-sm");
    assert_eq!(spotify_device_state_class(devices[0]), "status-ok text-sm");
    assert_eq!(device_list_heading(Some(3)), "Available devices (3)");
    assert_eq!(device_list_heading(None), "Available devices");
}

fn managed(id: &str, name: &str, hidden: bool) -> ManagedZone {
    ManagedZone {
        zone_id: id.to_string(),
        zone_name: name.to_string(),
        provider_name: format!("{name} provider"),
        source: "roon".to_string(),
        hidden,
        renamed: false,
    }
}

#[test]
fn visible_zones_are_numbered() {
    let zones = vec![
        managed("1", "A", true),
        managed("2", "B", false),
        managed("3", "C", true),
        managed("4", "D", false),
    ];
    let rows = zone_rows(&zones);
    assert_eq!(rows.visible_total, 2);
    let positions: Vec<Option<usize>> = rows.rows.iter().map(|r| r.position).collect();
    assert_eq!(positions, vec![None, Some(1), None, Some(2)]);
    assert!(rows.rows[1].at_top && !rows.rows[1].at_bottom);
    assert!(rows.rows[3].at_bottom && !rows.rows[3].at_top);
    assert!(!rows.rows[0].at_top && !rows.rows[2].at_bottom);
    assert_eq!(position_text(Some(1), 2), "1 of 2");
    assert_eq!(position_text(None, 2), "Hidden");
    assert_eq!(zone_list_panel(None), ZoneListPanel::Loading);
    assert_eq!(zone_list_panel(Some(None)), ZoneListPanel::LoadFailed);
    assert_eq!(zone_list_panel(Some(Some(0))), ZoneListPanel::Empty);
    assert_eq!(zone_list_panel(Some(Some(1))), ZoneListPanel::Table);
    assert_eq!(move_button_class(true), "btn btn-outline btn-sm opacity-45");
    assert_eq!(name_field_class(true), "input w-full text-muted");
}

#[test]
fn drags_end_on_the_dragged_row() {
    let zones = vec![managed("1", "A", false), managed("2", "B", false)];
    let mut drag = DragState::new();
    drag.over("2");
    assert_eq!(drag.drop_target, None);
    drag.start("1");
    drag.over("2");
    assert_eq!(
        drag.row_class("2"),
        "zone-row zone-row-drop-target border-b border-default"
    );
    assert_eq!(
        drag.row_class("1"),
        "zone-row zone-row-dragging border-b border-default"
    );
    assert_eq!(drag.drop_on(&zones), Some(0));
    assert_eq!(drag.row_class("1"), "zone-row border-b border-default");
    assert_eq!(drag.drop_on(&zones), None);
    drag.start("gone");
    assert_eq!(drag.drop_on(&zones), None);
}

#[test]
fn zone_changes_are_announced() {
    let mut editor = ZoneEditor::new();
    editor.visibility_answered("Den", true, Ok(()));
    assert_eq!(editor.status, "Den hidden.");
    editor.visibility_answered("Den", false, Ok(()));
    assert_eq!(editor.status, "Den shown.");
    editor.visibility_answered("Den", true, Err("no".to_string()));
    assert_eq!(editor.error.as_deref(), Some("no"));
    assert_eq!(editor.revision, 1);
    assert!(!editor.move_pressed("Den", MoveDirection::Up, true));
    assert_eq!(editor.status, "Den is already first.");
    assert!(editor.move_pressed("Den", MoveDirection::Up, false));
    editor.move_answered("Den", MoveDirection::Down, Ok(true));
    assert_eq!(editor.status, "Den moved down.");
    assert_eq!(editor.error, None);
    editor.move_answered("Den", MoveDirection::Down, Ok(false));
    assert_eq!(editor.status, "Den is already last.");
    editor.drop_answered("Den", "Attic", Ok(()));
    assert_eq!(editor.status, "Den moved to Attic's position.");
    assert_eq!(move_announcement("X", MoveDirection::Up, true), "X moved up.");
    assert!(moved_flag(&Value::Null));
    assert!(!moved_flag(&object(&[("moved", Value::Bool(false))])));
    assert!(moved_flag(&object(&[("moved", Value::Bool(true))])));
    editor.report_failure("again".to_string());
    editor.dismiss_error();
    assert_eq!((editor.revision, editor.error), (2, None));
}

#[test]
fn names_typed_during_a_rename_survive() {
    let zone = managed("1", "Den", false);
    let mut editor = ZoneEditor::new();
    assert_eq!(editor.name_value(&zone), "Den");
    editor.typed("1", "  Den ".to_string());
    assert_eq!(editor.name_value(&zone), "  Den ");
    assert!(editor.rename(&zone, "  Den ").is_none());
    assert_eq!(editor.name_value(&zone), "Den");

    editor.typed("1", " Attic ".to_string());
    let request = editor.rename(&zone, " Attic ").unwrap();
    assert_eq!(request.name.as_deref(), Some("Attic"));
    editor.typed("1", "Attic 2".to_string());
    editor.rename_answered(&zone, &request, Ok(()));
    assert_eq!(editor.status, "Renamed to Attic.");
    assert_eq!(editor.name_value(&zone), "Attic 2");
    editor.typed("1", "Attic".to_string());
    editor.rename_answered(&zone, &request, Ok(()));
    assert_eq!(editor.name_value(&zone), "Den");

    let reset = editor.rename(&zone, "   ").unwrap();
    assert_eq!(reset.name, None);
    editor.typed("1", " ".to_string());
    editor.rename_answered(&zone, &reset, Ok(()));
    assert_eq!(editor.status, "Name reset to Den provider.");
    assert_eq!(editor.name_value(&zone), "Den");
    editor.rename_answered(&zone, &reset, Err("bad".to_string()));
    assert_eq!(editor.error.as_deref(), Some("bad"));
}

fn tunnel(phase: &str, url: Option<&str>) -> SpotifyTunnelStatus {
    SpotifyTunnelStatus {
        phase: phase.to_string(),
        url: url.map(str::to_string),
        ..SpotifyTunnelStatus::default()
    }
}

#[test]
fn an_entered_redirect_address_is_never_replaced() {
    let mut setup = SpotifySetup::new();
    assert_eq!(setup.redirect_uri, DEFAULT_SPOTIFY_REDIRECT_URI);
    assert_eq!(default_spotify_redirect_uri(), DEFAULT_SPOTIFY_REDIRECT_URI);
    let first = tunnel("active", Some("https://one"));
    setup.offer_tunnel(&first);
    assert_eq!(
        setup.redirect_uri,
        "https://one/api/providers/spotify/oauth/callback"
    );
    assert!(!tunnel_mismatch(&setup, &first));
    let second = tunnel("active", Some("https://two"));
    setup.offer_tunnel(&second);
    assert_eq!(
        setup.redirect_uri,
        "https://one/api/providers/spotify/oauth/callback"
    );
    assert!(tunnel_mismatch(&setup, &second));
    setup.local_setup_saved = true;
    setup.use_tunnel_address(&second);
    assert!(!setup.local_setup_saved && setup.resave_needed);
    assert!(!tunnel_mismatch(&setup, &second));
    setup.edit_redirect_uri("  ".to_string());
    setup.offer_tunnel(&first);
    assert!(setup.redirect_uri.starts_with("https://one/"));
}

#[test]
fn the_tunnel_is_watched_while_active() {
    let mut watch = TunnelWatch::new();
    assert!(!watch.start_polling());
    watch.request();
    assert!(watch.busy);
    assert!(watch.start_answered(Ok(tunnel("starting", None))));
    assert!(watch.busy);
    assert!(!watch.start_answered(Ok(tunnel("active", Some("https://one")))));
    assert!(!watch.busy);
    assert!(watch.start_polling());
    assert!(!watch.start_polling());
    assert!(watch.polled(Some(tunnel("active", Some("https://one")))));
    assert!(!watch.polled(Some(tunnel("error", None))));
    assert!(!watch.polling);
    watch.request();
    assert!(!watch.start_answered(Err(Some("no ssh".to_string()))));
    assert_eq!(watch.status.error_message().as_deref(), Some("no ssh"));
    watch.request();
    assert!(!watch.start_answered(Err(None)));
    assert!(watch.status.is_error());
    watch.request();
    watch.stop_answered(Some(tunnel("idle", None)));
    assert!(!watch.busy && !watch.status.is_active());
    assert!(!watch.polled(None));
}

#[test]
fn tunnel_texts() {
    let mut status = tunnel("starting", None);
    assert_eq!(open_tunnel_label(&status), "Opening an address via a public relay…");
    status.provider = Some("relay".to_string());
    assert_eq!(open_tunnel_label(&status), "Opening an address via relay…");
    assert_eq!(status.callback(), "");
    assert_eq!(open_tunnel_label(&tunnel("", None)), "Get an HTTPS address");
    assert_eq!(status.minutes_remaining(), None);
    status.seconds_remaining = Some(30);
    assert_eq!(status.minutes_remaining(), Some(1));
    status.seconds_remaining = Some(119);
    assert_eq!(status.minutes_remaining(), Some(1));
    status.seconds_remaining = Some(900);
    assert_eq!(status.minutes_remaining(), Some(15));
    assert_eq!(verification_text(Some(true)).class, "mt-2 text-xs status-ok");
    assert_eq!(verification_text(Some(false)).class, "mt-2 text-xs status-err");
    assert_eq!(verification_text(None).class, "mt-2 text-xs text-muted");
}

#[test]
fn saving_connecting_and_disconnecting_spotify() {
    let mut setup = SpotifySetup::new();
    assert!(setup.save().is_none());
    assert_eq!(
        setup.status_in(ActionScope::Save).as_deref(),
        Some("Enter your Client ID first.")
    );
    assert_eq!(setup.status_in(ActionScope::Connect), None);
    setup.edit_client_id(" id ".to_string());
    setup.edit_client_secret("  ".to_string());
    let request = setup.save().unwrap();
    assert_eq!(request.client_id, "id");
    assert_eq!(request.client_secret, None);
    assert_eq!(
        request.redirect_uri.as_deref(),
        Some(DEFAULT_SPOTIFY_REDIRECT_URI)
    );
    assert_eq!(setup.action, ProviderActionState::Loading);
    setup.toggle_step(3);
    assert!(!setup.save_answered(Ok(false)));
    assert_eq!(
        setup.error.as_deref(),
        Some("Spotify configuration was not accepted.")
    );
    setup.save();
    assert!(setup.save_answered(Ok(true)));
    assert!(setup.local_setup_saved && !setup.resave_needed);
    assert_eq!(setup.reopened, None);
    assert_eq!(setup.status_message().as_deref(), Some("Updated."));
    setup.connect();
    assert_eq!(
        setup.connect_answered(Ok("https://accounts".to_string())).as_deref(),
        Some("https://accounts")
    );
    assert_eq!(setup.connect_answered(Ok(String::new())), None);
    assert_eq!(
        setup.status_in(ActionScope::Connect).as_deref(),
        Some("Spotify did not return an authorization URL.")
    );
    setup.redirect_failed("blocked".to_string());
    assert_eq!(setup.error.as_deref(), Some("blocked"));
    assert_eq!(setup.connect_answered(Err(None)), None);
    assert_eq!(
        setup.status_message().as_deref(),
        Some("Something went wrong. Try again or open Client settings.")
    );
    setup.disconnect();
    assert!(setup.disconnect_answered(Ok(())));
    assert!(!setup.disconnect_answered(Err(Some("x".to_string()))));
    assert_eq!(
        setup.status_in(ActionScope::Disconnect).as_deref(),
        Some("x")
    );
}

#[test]
fn the_stepper_goes_to_the_first_unfinished_step() {
    let mut facts = StepFacts {
        configured: false,
        connected: false,
        app_done: false,
        callback_done: false,
        resave_needed: false,
        tunnel_mismatch: false,
    };
    assert_eq!(facts.current_step(), 1);
    facts.app_done = true;
    assert_eq!(facts.current_step(), 2);
    facts.callback_done = true;
    assert_eq!(facts.current_step(), 3);
    assert!(facts.is_open(3, None) && !facts.is_open(1, None));
    assert!(facts.is_open(1, Some(1)));
    assert_eq!(
        facts.step_class(3),
        "relative rounded-md border border-default bg-elevated p-4"
    );
    assert_eq!(facts.step_class(2), "relative rounded-md border border-default p-4");
    assert_eq!(
        facts.step_class(4),
        "relative rounded-md border border-default p-4 opacity-60"
    );
    assert_eq!(facts.step_mark(1).text, "✓");
    assert_eq!(facts.step_mark(3).text, "3");
    assert_eq!(
        connect_label(ProviderActionState::Idle, &facts),
        "Finish the steps above first"
    );
    assert!(connect_disabled(ProviderActionState::Idle, &facts));
    assert_eq!(spotify_badge(true, &facts).text, "Setup required");
    facts.configured = true;
    assert_eq!(facts.current_step(), 4);
    assert_eq!(connect_label(ProviderActionState::Idle, &facts), "Connect Spotify");
    assert_eq!(spotify_badge(true, &facts).text, "Configured");
    facts.connected = true;
    assert_eq!(facts.current_step(), 5);
    assert_eq!(connect_label(ProviderActionState::Idle, &facts), "Reconnect Spotify");
    assert_eq!(
        connect_label(ProviderActionState::Loading, &facts),
        "Opening Spotify…"
    );
    assert_eq!(spotify_badge(true, &facts).text, "Connected");
    assert_eq!(spotify_badge(false, &facts).text, "Disabled");
    facts.tunnel_mismatch = true;
    assert_eq!(facts.current_step(), 2);
    facts.tunnel_mismatch = false;
    facts.resave_needed = true;
    assert_eq!(facts.current_step(), 3);
    let mut setup = SpotifySetup::new();
    setup.toggle_step(2);
    assert_eq!(setup.reopened, Some(2));
    setup.attest_app();
    assert!(setup.app_done && setup.reopened.is_none());
    setup.toggle_step(2);
    setup.toggle_step(2);
    assert_eq!(setup.reopened, None);
    setup.toggle_info(4);
    assert_eq!(setup.info_open, Some(4));
    setup.attest_callback();
    assert!(setup.callback_done);
    assert!(!info_panel_class(Some(4), 4).contains("hidden"));
    assert!(info_panel_class(Some(4), 3).ends_with("hidden group-hover:block"));
    let facts = step_facts(None, &setup, &tunnel("", None));
    assert!(facts.app_done && facts.callback_done && !facts.configured);
}

#[test]
fn account_details_fall_back() {
    let lines = account_lines(None);
    assert_eq!(lines.display, "Not connected");
    let mut response = SpotifyAccountResponse {
        configured: true,
        account: Some(SpotifyAccount {
            id: "id1".to_string(),
            display_name: Some(String::new()),
            email: None,
        }),
        error: Some("User not registered for this application".to_string()),
    };
    let lines = account_lines(Some(&response));
    assert_eq!((lines.display.as_str(), lines.id.as_str()), ("id1", "id1"));
    assert_eq!(
        lines.email,
        "Email unavailable; reconnect Spotify to grant profile access."
    );
    assert!(lines.unregistered_user);
    response.error = None;
    if let Some(account) = response.account.as_mut() {
        account.display_name = Some("Name".to_string());
        account.email = Some("a@b".to_string());
    }
    let lines = account_lines(Some(&response));
    assert_eq!((lines.display.as_str(), lines.email.as_str()), ("Name", "a@b"));
    assert!(!lines.unregistered_user);
    let facts = step_facts(Some(&response), &SpotifySetup::new(), &tunnel("", None));
    assert!(facts.connected && facts.configured);
}

#[test]
fn music_assistant_form() {
    let mut form = MusicAssistantForm::new();
    assert_eq!(form.port, "8095");
    assert!(form.save().is_none());
    assert_eq!(
        form.error.as_deref(),
        Some("Enter a Music Assistant host and valid port.")
    );
    let status = MusicAssistantStatus {
        configured: false,
        running: false,
        endpoint: Some(MusicAssistantEndpoint {
            host: "ma".to_string(),
            port: 1234,
            tls: false,
            allow_insecure_http: true,
        }),
        error: None,
    };
    form.fill(&status);
    assert_eq!((form.host.as_str(), form.port.as_str()), ("ma", "1234"));
    form.token = " secret ".to_string();
    let request = form.save().unwrap();
    assert_eq!((request.host.as_str(), request.port), ("ma", 1234));
    assert_eq!(request.token.as_deref(), Some("secret"));
    assert!(request.allow_insecure_http && !request.tls);
    for bad in ["0", "65536", "x", ""] {
        form.port = bad.to_string();
        assert!(form.save().is_none(), "{bad}");
    }
    assert!(form.save_answered(Ok(())));
    assert_eq!(form.token, "");
    assert!(!form.save_answered(Err(Some("no".to_string()))));
    assert_eq!(form.error.as_deref(), Some("no"));
    assert_eq!(musicassistant_state(&status).text, "Setup required");
    assert!(musicassistant_needs_setup(Some(&status)) && musicassistant_needs_setup(None));
    assert_eq!(
        musicassistant_endpoint_line(status.endpoint.as_ref().unwrap()),
        "Current endpoint: HTTP://ma:1234"
    );
    assert_eq!(
        save_label(ProviderActionState::Loading, "Saving…", "Save"),
        "Saving…"
    );
}

#[test]
fn mqtt_broker_form() {
    let mut form = MqttForm::new();
    assert_eq!(
        (form.base_topic.as_str(), form.discovery_prefix.as_str()),
        ("unified-hifi", "homeassistant")
    );
    assert!(form.save().is_none());
    assert_eq!(form.error.as_deref(), Some("Enter an MQTT broker host."));
    let mut status = MqttStatus {
        configured: false,
        running: false,
        host: Some("broker".to_string()),
        port: Some(1883),
        tls: None,
        base_topic: None,
        discovery_prefix: Some("ha".to_string()),
        environment_managed: false,
    };
    form.tls = true;
    form.fill(&status);
    assert_eq!((form.host.as_str(), form.port.as_str()), ("broker", "1883"));
    assert!(form.tls);
    assert_eq!(form.base_topic, "unified-hifi");
    form.port = "none".to_string();
    form.password = " ".to_string();
    let request = form.save().unwrap();
    assert_eq!(request.port, None);
    assert_eq!(request.password, None);
    assert_eq!(request.discovery_prefix.as_deref(), Some("ha"));
    form.password = "pw".to_string();
    assert!(form.save_answered(Ok(())));
    assert_eq!(form.password, "");
    assert!(!form.save_answered(Err("x".to_string())));
    assert_eq!(form.error.as_deref(), Some("x"));
    assert!(form.shows_form(Some(&status)));
    assert_eq!(
        mqtt_state(&status).first.text,
        "No broker yet — nothing is being published"
    );
    assert_eq!(
        broker_line(&status).as_deref(),
        Some("Current broker: mqtt://broker:1883")
    );
    status.environment_managed = true;
    status.tls = Some(true);
    status.port = None;
    assert!(!form.shows_form(Some(&status)));
    form.manual_open = true;
    assert!(form.shows_form(Some(&status)));
    assert_eq!(
        mqtt_state(&status).second.unwrap().text,
        "Not connected to the broker yet"
    );
    assert_eq!(
        broker_line(&status).as_deref(),
        Some("Current broker: mqtts://broker:0")
    );
    assert!(form.info_panel_class().ends_with("hidden group-hover:block"));
}
