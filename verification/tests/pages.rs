use unified_hifi_control::api::{
    AdapterSettings, AppSettings, HqpStatus, LmsConfig, LmsStatus, RoonStatus, Zone, ZoneDsp,
};
use unified_hifi_control::now_playing::{NowPlaying, NowPlayingMap};
use unified_hifi_control::pages::configurator::{
    art_color, condition_display, conditions_summary, default_true_val, device_display_name,
    dial_icon_x, dial_line_y, dial_lines, element_title, entry_layout_name, icon_char, is_licensed,
    media_screen, palette_categories, palette_elements, palette_members, preview_is_playing, preview_shape,
    prompt_with, rect_icons, rect_line_class, save_layout, seek_fraction, shown_message, shows_id,
    transport_icons,
    ActionDef, Chat, ChatMessage, ConditionDef, DisplayDef, ElementDef, FastState, LayoutShelf,
    LayoutSummary, LineDef, ManifestResponse, PreviewShape, SaveLayout, ScreenDef, SeekFraction,
    StackEditor, StackEntryDef,
};
use unified_hifi_control::pages::hqplayer::DspChange;
use unified_hifi_control::pages::knobs::{
    cascade_box_class, cascade_summary, fallback_name, firmware_text, format_ago,
    format_timeout, id_tail, knob_config_url, knob_display_name, knob_list_panel, knob_row,
    power_cascade, save_status_class, ConfigDialog, FetchFirmwareResponse, FirmwareFetch,
    KnobConfig, KnobDevice, KnobForm, KnobListPanel, KnobStatus, PowerModeConfig, PowerState,
};
use unified_hifi_control::pages::lms::PlayersPanel;
use unified_hifi_control::pages::onboarding::OnboardingStep;
use unified_hifi_control::pages::spotify::{
    active_device, card_art_url, card_title, device_summary, retry_delays, spotify_panel,
    track_changed, track_mark, FollowAction, FollowEvent, FollowUp, PendingCommand, SpotifyPanel,
    SpotifyReaction,
};
use unified_hifi_control::pages::zone::{
    hqp_follow, selected_zone, shaper_name, shaper_name_of_lowered, volume_display, zone_lines,
    zone_option_text, zone_read_after, zone_refresh, DspRead, HqpFollow,
};
use unified_hifi_control::pages::zones::{
    has_any_hqp, has_matrix, matrix_error, profile_error, restarts_zone_list, shows_hqp_controls,
    zones_panel, ZonesPanel,
};
use unified_hifi_control::pages::{dashboard, lms, onboarding};
use unified_hifi_control::sse::{SseContext, SseEvent, VolumePayload, ZonePayload};

fn zone(id: &str, name: &str, source: Option<&str>, dsp: Option<&str>) -> Zone {
    Zone {
        zone_id: id.to_string(),
        zone_name: name.to_string(),
        source: source.map(str::to_string),
        dsp: dsp.map(|kind| ZoneDsp {
            kind: Some(kind.to_string()),
        }),
        ..Zone::default()
    }
}

fn zone_updated(id: &str) -> SseEvent {
    SseEvent::ZoneUpdated {
        payload: ZonePayload {
            zone_id: id.to_string(),
        },
    }
}

fn track_event(id: &str) -> SseEvent {
    SseEvent::NowPlayingChanged {
        payload: ZonePayload {
            zone_id: id.to_string(),
        },
    }
}

fn volume_event(id: &str) -> SseEvent {
    SseEvent::VolumeChanged {
        payload: VolumePayload {
            output_id: id.to_string(),
            value_bits: 0,
            is_muted: false,
        },
    }
}

// ── Knobs ───────────────────────────────────────────────────────────────────

fn knob(id: &str, name: Option<&str>) -> KnobDevice {
    KnobDevice {
        knob_id: id.to_string(),
        name: name.map(str::to_string),
        version: None,
        status: None,
    }
}

#[test]
fn times_ago_in_words() {
    for (secs, text) in [
        (-5, "just now"),
        (0, "just now"),
        (59, "59s ago"),
        (60, "1m ago"),
        (3599, "59m ago"),
        (3600, "1h ago"),
        (86399, "23h ago"),
        (86400, "1d ago"),
    ] {
        assert_eq!(format_ago(Some("2026-01-01T00:00:00Z"), Some(secs)), text);
    }
    assert_eq!(format_ago(Some("2026-01-01T00:00:00Z"), None), "recently");
    assert_eq!(format_ago(None, None), "never");
    assert_eq!(format_ago(None, Some(5)), "never");
}

#[test]
fn knobs_are_named_after_their_id() {
    assert_eq!(knob_display_name(&knob("x", Some("Den"))), "Den");
    assert_eq!(
        knob_display_name(&knob("AA:BB-CC:12:34", Some(""))),
        "roon-knob-cc1234"
    );
    assert_eq!(knob_display_name(&knob("-:-", None)), "unnamed");
    assert_eq!(id_tail("AA:BB-CC:12:34"), "CC1234");
    assert_eq!(fallback_name("ab"), "roon-knob-ab");
    assert_eq!(fallback_name(""), "unnamed");
}

#[test]
fn knob_rows_show_dashes_for_what_is_unknown() {
    let zones = vec![zone("z1", "Den", None, None)];
    let row = knob_row(&knob("abc", None), &zones);
    assert_eq!(
        (row.version.as_str(), row.ip.as_str(), row.zone.as_str(), row.battery.as_str()),
        ("—", "—", "—", "—")
    );
    let mut device = knob("abc", None);
    device.version = Some("1.2".to_string());
    device.status = Some(KnobStatus {
        battery_level: Some(80),
        battery_charging: Some(true),
        zone_id: Some("z1".to_string()),
        ip: Some("10.0.0.5".to_string()),
    });
    let row = knob_row(&device, &zones);
    assert_eq!(row.battery, "80% ⚡");
    assert_eq!((row.zone.as_str(), row.ip.as_str(), row.version.as_str()), ("Den", "10.0.0.5", "1.2"));
    if let Some(status) = device.status.as_mut() {
        status.battery_charging = None;
        status.zone_id = Some("gone".to_string());
    }
    let row = knob_row(&device, &zones);
    assert_eq!((row.battery.as_str(), row.zone.as_str()), ("80%", "—"));
    assert_eq!(knob_list_panel(None), KnobListPanel::Loading);
    assert_eq!(knob_list_panel(Some(None)), KnobListPanel::Empty);
    assert_eq!(knob_list_panel(Some(Some(0))), KnobListPanel::Empty);
    assert_eq!(knob_list_panel(Some(Some(2))), KnobListPanel::Table);
}

#[test]
fn timeouts_in_words() {
    for (secs, text) in [
        (0, "skip"),
        (45, "45s"),
        (59, "59s"),
        (60, "60s"),
        (61, "1m1s"),
        (90, "1m30s"),
        (120, "2m"),
        (1200, "20m"),
        (3599, "59m59s"),
        (3600, "1h"),
        (3659, "1h"),
        (5400, "1h30m"),
    ] {
        assert_eq!(format_timeout(secs), text);
    }
}

fn mode(enabled: bool, timeout_sec: u32) -> PowerModeConfig {
    PowerModeConfig {
        enabled,
        timeout_sec,
    }
}

#[test]
fn the_power_cascade_skips_what_is_off() {
    let states = power_cascade(mode(true, 60), mode(false, 30), mode(true, 0), mode(true, 300));
    assert_eq!(
        states,
        vec![
            (PowerState::Normal, 0),
            (PowerState::Art, 60),
            (PowerState::Off, 300)
        ]
    );
    assert_eq!(
        cascade_summary(&states),
        "Powers off after inactivity. Rotate to wake."
    );
    assert!(cascade_box_class(&states, 0).ends_with("dark:text-gray-200"));
    assert!(cascade_box_class(&states, 2).contains("bg-red-500/20"));
    let on = power_cascade(mode(true, 60), mode(true, 30), mode(true, 10), mode(false, 300));
    assert_eq!(cascade_summary(&on), "Display stays on.");
    assert!(cascade_box_class(&on, 3).contains("bg-green-500/20"));
    assert_eq!((on[3].0.name(), on[3].0.icon()), ("Sleep", "💤"));
    assert_eq!(PowerModeConfig::typed("0"), Some(mode(false, 0)));
    assert_eq!(PowerModeConfig::typed("15"), Some(mode(true, 15)));
    assert_eq!(PowerModeConfig::typed("x"), None);
}

#[test]
fn knob_configurations_load_and_store() {
    let defaults = KnobForm::new();
    assert_eq!((defaults.rotation_charging, defaults.rotation_not_charging), (180, 0));
    assert_eq!(defaults.dim_charging, mode(true, 120));
    assert_eq!(defaults.deep_sleep_charging, mode(false, 0));
    assert_eq!(defaults.deep_sleep_battery, mode(true, 300));
    assert_eq!(defaults.sleep_poll_stopped, 60);
    let stored = defaults.to_config();
    assert_eq!(stored.name, None);
    assert_eq!(stored.sleep_battery, Some(mode(true, 60)));
    let mut form = KnobForm::load(Some(KnobConfig {
        name: Some("Den".to_string()),
        rotation_charging: None,
        rotation_not_charging: Some(90),
        wifi_power_save_enabled: Some(true),
        sleep_poll_stopped_sec: None,
        ..stored
    }));
    assert_eq!((form.name.as_str(), form.rotation_charging), ("Den", 180));
    assert_eq!(form.rotation_not_charging, 90);
    assert!(form.wifi_power_save);
    form.pick_rotation(true, "-90");
    form.pick_rotation(false, "x");
    form.type_poll_interval("120");
    form.type_poll_interval("-1");
    assert_eq!((form.rotation_charging, form.rotation_not_charging), (-90, 90));
    let again = KnobForm::load(Some(form.to_config()));
    assert_eq!(again.name, form.name);
    assert_eq!(again.sleep_poll_stopped, 120);
    assert_eq!(again.art_mode_battery, form.art_mode_battery);
}

#[test]
fn the_config_dialog_fetches_and_saves() {
    let mut dialog = ConfigDialog::new();
    assert!(dialog.save().is_none());
    assert_eq!(dialog.open_for("a b"), "/knob/config?knob_id=a%20b");
    assert_eq!(knob_config_url("a:b"), "/knob/config?knob_id=a%3Ab");
    assert!(dialog.open && dialog.loading);
    dialog.loaded(Err("gone".to_string()));
    assert_eq!(dialog.status.as_deref(), Some("Error: gone"));
    assert_eq!(save_status_class("Error: gone"), "status-err");
    dialog.open_for("a b");
    dialog.loaded(Ok(None));
    dialog.form.name = "Den".to_string();
    let save = dialog.save().unwrap();
    assert_eq!(save.url, "/knob/config?knob_id=a%20b");
    assert_eq!(save.config.name.as_deref(), Some("Den"));
    assert_eq!(save_status_class(dialog.status.as_deref().unwrap()), "text-muted");
    assert!(!dialog.saved(Err("no".to_string())));
    assert!(dialog.open);
    assert!(dialog.saved(Ok(())));
    assert!(!dialog.open);
    dialog.close();
    assert!(!dialog.open);
}

#[test]
fn firmware_downloads_are_told() {
    let mut fetch = FirmwareFetch::new();
    fetch.start();
    assert!(fetch.fetching);
    assert!(fetch.finished(Ok(FetchFirmwareResponse {
        version: Some("2.0".to_string()),
        error: Some("ignored".to_string()),
    })));
    let line = fetch.line().unwrap();
    assert_eq!((line.class, line.text.as_str()), ("status-ok", "✓ Downloaded v2.0"));
    fetch.start();
    assert!(fetch.line().is_none());
    assert!(!fetch.finished(Ok(FetchFirmwareResponse {
        version: None,
        error: Some("rate limit".to_string()),
    })));
    assert_eq!(fetch.line().unwrap().text, "rate limit");
    assert!(!fetch.finished(Ok(FetchFirmwareResponse {
        version: None,
        error: None,
    })));
    assert_eq!(fetch.line().unwrap().text, "rate limit");
    assert!(!fetch.finished(Err("offline".to_string())));
    assert_eq!(fetch.line().unwrap().class, "status-err");
    assert_eq!(firmware_text(Some("1.0")), "v1.0");
    assert_eq!(firmware_text(None), "Not installed");
}

// ── Configurator ────────────────────────────────────────────────────────────

fn screen(kind: &str, id: &str) -> ScreenDef {
    ScreenDef {
        screen_type: kind.to_string(),
        id: id.to_string(),
        lines: Vec::new(),
        elements: None,
        background_color: None,
        image_url: None,
    }
}

fn manifest(screens: Vec<ScreenDef>) -> ManifestResponse {
    ManifestResponse {
        version: 1,
        sha: "s".to_string(),
        screens,
        fast: None,
    }
}

fn element(icon: Option<&str>, active: Option<bool>) -> ElementDef {
    ElementDef {
        display: DisplayDef {
            icon: icon.map(str::to_string),
            label: None,
            active,
        },
        on_tap: None,
        on_long_press: None,
    }
}

#[test]
fn the_preview_shows_the_first_media_screen() {
    let mut shown = manifest(vec![
        screen("clock", "c"),
        screen("media", "m1"),
        screen("media", "m2"),
    ]);
    assert_eq!(media_screen(Some(&shown)).map(|s| s.id.as_str()), Some("m1"));
    assert!(media_screen(Some(&manifest(vec![screen("clock", "c")]))).is_none());
    assert!(media_screen(None).is_none());
    assert!(!preview_is_playing(Some(&shown)));
    let fast = |position: Option<i64>, length: Option<u32>| FastState {
        zone_id: String::new(),
        is_playing: true,
        seek_position: position,
        length,
        transport: None,
    };
    assert_eq!(
        seek_fraction(&fast(Some(30), Some(60))),
        Some(SeekFraction {
            elapsed: 30,
            length: 60
        })
    );
    assert_eq!(seek_fraction(&fast(Some(-3), Some(60))).map(|f| f.elapsed), Some(0));
    assert_eq!(seek_fraction(&fast(Some(90), Some(60))).map(|f| f.elapsed), Some(60));
    assert_eq!(seek_fraction(&fast(Some(9), Some(0))), None);
    assert_eq!(seek_fraction(&fast(None, Some(9))), None);
    shown.fast = Some(fast(None, None));
    assert!(preview_is_playing(Some(&shown)));
    assert!(is_licensed(Some(true)) && !is_licensed(Some(false)) && !is_licensed(None));
}

#[test]
fn icons_of_the_preview() {
    assert_eq!(icon_char("pause"), "\u{23F8}");
    assert_eq!(icon_char("volume_mute"), icon_char("volume_off"));
    assert_eq!(icon_char("replay_30"), "\u{00AB}30");
    assert_eq!(icon_char("unheard of"), "\u{25CF}");
    let standard = transport_icons(&Vec::new(), true);
    let shown: Vec<(&str, bool)> = standard.iter().map(|t| (t.icon, t.active)).collect();
    assert_eq!(
        shown,
        vec![("\u{23EE}", false), ("\u{23F8}", true), ("\u{23ED}", false)]
    );
    let own = transport_icons(
        &vec![
            element(Some("stop"), Some(true)),
            element(None, Some(true)),
            element(Some("repeat"), None),
        ],
        false,
    );
    let shown: Vec<(&str, bool)> = own.iter().map(|t| (t.icon, t.active)).collect();
    assert_eq!(shown, vec![("\u{23F9}", true), ("\u{1F501}", false)]);
    let mut tapped = element(None, None);
    assert_eq!(element_title(&tapped), "");
    tapped.on_tap = Some(ActionDef {
        action: "next".to_string(),
        params: None,
    });
    assert_eq!(element_title(&tapped), "next");
    tapped.display.icon = Some("skip_next".to_string());
    let icons = rect_icons(&vec![
        element(Some("stop"), Some(true)),
        element(None, Some(true)),
        tapped,
    ]);
    let shown: Vec<(&str, bool, &str)> = icons
        .iter()
        .map(|icon| (icon.icon, icon.active, icon.title.as_str()))
        .collect();
    assert_eq!(shown, vec![("\u{23F9}", true, ""), ("\u{23ED}", false, "next")]);
    assert!(rect_icons(&Vec::new()).is_empty());
}

#[test]
fn lines_and_geometry_of_the_preview() {
    let line = |text: &str, style: &str| LineDef {
        text: text.to_string(),
        style: style.to_string(),
    };
    let none = dial_lines(&Vec::new());
    assert_eq!((none.len(), none[0].text.as_str(), none[0].color), (1, "No manifest", "#6b7280"));
    let shown = dial_lines(&vec![
        line("a", "title"),
        line("b", "subtitle"),
        line("c", "x"),
        line("d", "title"),
    ]);
    let colors: Vec<&str> = shown.iter().map(|l| l.color).collect();
    assert_eq!(colors, vec!["#ffffff", "#9ca3af", "#6b7280"]);
    assert_eq!(dial_line_y(0), 160);
    assert_eq!(dial_line_y(2), 192);
    assert_eq!((dial_icon_x(0, 3), dial_icon_x(1, 3), dial_icon_x(2, 3)), (112, 140, 168));
    assert_eq!(dial_icon_x(0, 1), 140);
    assert_eq!(dial_icon_x(0, 12), -14);
    assert_eq!(art_color(None), "#1a1a2e");
    assert_eq!(art_color(Some("red")), "red");
    assert_eq!(preview_shape("Dial"), PreviewShape::Dial);
    assert_eq!(preview_shape("Frame"), PreviewShape::Rect { rounded: false });
    assert_eq!(preview_shape("Tough"), PreviewShape::Rect { rounded: true });
    assert_eq!(
        rect_line_class("subtitle"),
        "text-gray-400 text-xs truncate"
    );
}

#[test]
fn devices_are_named_by_name_address_or_id() {
    let mut device = knob("0123456789abcdef", Some("Den"));
    assert_eq!(device_display_name(&device), "Den");
    device.name = Some(String::new());
    assert_eq!(device_display_name(&device), "0123456789ab...");
    device.status = Some(KnobStatus {
        battery_level: None,
        battery_charging: None,
        zone_id: None,
        ip: Some("10.0.0.9".to_string()),
    });
    assert_eq!(device_display_name(&device), "Device @ 10.0.0.9");
    assert_eq!(device_display_name(&knob("012345678901", None)), "012345678901");
    assert_eq!(device_display_name(&knob("ééééééé", None)), "éééééé...");
}

#[test]
fn a_device_goes_by_its_id_only_without_name_and_address() {
    let mut device = knob("0123456789ab€", Some("Den"));
    assert!(!shows_id(&device));
    device.knob_id = "0123456789a€".to_string();
    assert_eq!(device_display_name(&device), "Den");
    device.name = Some(String::new());
    assert!(shows_id(&device));
    device.status = Some(KnobStatus {
        battery_level: None,
        battery_charging: None,
        zone_id: None,
        ip: Some("10.0.0.9".to_string()),
    });
    assert!(!shows_id(&device));
    assert_eq!(device_display_name(&device), "Device @ 10.0.0.9");
}

#[test]
fn the_palette_names_its_categories_once() {
    let elements = palette_elements();
    assert_eq!(elements.len(), 11);
    assert_eq!((elements[6].icon, elements[6].label), ("30\u{00BB}", "+30s"));
    assert_eq!(palette_categories(&elements), vec!["Transport", "Seek", "Volume"]);
    assert_eq!(prompt_with("  ", "Add a stop button"), "Add a stop button");
    assert_eq!(
        prompt_with(" big clock ", "Add a Stop button"),
        "big clock, add a stop button"
    );
}

#[test]
fn the_chat_sends_and_hears() {
    let mut chat = Chat::new();
    let mut preview = None;
    chat.input = "  ".to_string();
    assert!(chat.send("Dial").is_none());
    chat.input = " a clock ".to_string();
    let request = chat.send("Dial").unwrap();
    assert_eq!(request.prompt, "a clock");
    assert_eq!(request.device_type.as_deref(), Some("dial"));
    assert!(chat.loading && chat.input.is_empty());
    chat.input = "again".to_string();
    assert!(chat.send("Dial").is_none());
    chat.answered(&mut preview, Err("busy".to_string()));
    assert!(preview.is_none() && !chat.loading);
    assert_eq!(chat.messages.last().unwrap().text, "error:busy");
    chat.answered(&mut preview, Ok(manifest(vec![screen("media", "m")])));
    assert!(preview.is_some());
    assert_eq!(chat.messages.last().unwrap().text, "ok:Layout updated.");
    chat.reset(&mut preview);
    assert!(preview.is_none());
    chat.load_layout(&mut preview, layout("1", "Mine", vec![screen("media", "m")]));
    assert_eq!(preview.as_ref().unwrap().screens.len(), 1);
    assert_eq!(chat.messages.last().unwrap().text, "ok:Loaded layout \"Mine\".");
    chat.stack_saved(Err("x".to_string()));
    assert_eq!(chat.messages.last().unwrap().text, "error:Stack save failed: x");
    chat.stack_saved(Ok(()));
    assert_eq!(chat.messages.last().unwrap().text, "ok:Condition stack saved.");
    let shown = shown_message(&chat.messages[0]);
    assert_eq!((shown.class, shown.text.as_str()), ("inline-block bg-blue-900 rounded px-2 py-1", "a clock"));
    let shown = shown_message(&chat.messages[1]);
    assert_eq!(
        (shown.class, shown.text.as_str()),
        ("inline-block bg-red-900 text-red-200 rounded px-2 py-1", "busy")
    );
    let shown = shown_message(&chat.messages[2]);
    assert_eq!(shown.text, "Layout updated.");
    let plain = ChatMessage {
        is_user: false,
        text: "plain".to_string(),
    };
    assert_eq!(shown_message(&plain).class, "inline-block bg-base-200 rounded px-2 py-1");
}

fn layout(id: &str, name: &str, screens: Vec<ScreenDef>) -> LayoutSummary {
    LayoutSummary {
        id: id.to_string(),
        name: name.to_string(),
        screens,
        nav: None,
    }
}

#[test]
fn layouts_are_kept_and_deleted() {
    let full = manifest(vec![screen("media", "m"), screen("clock", "c")]);
    assert!(matches!(save_layout(" ", Some(&full)), SaveLayout::Unnamed));
    assert!(matches!(save_layout("x", None), SaveLayout::NothingToSave));
    assert!(matches!(
        save_layout("x", Some(&manifest(Vec::new()))),
        SaveLayout::NothingToSave
    ));
    match save_layout(" Mine ", Some(&full)) {
        SaveLayout::Send(request) => {
            assert_eq!(request.name, "Mine");
            assert_eq!(request.screens.len(), 2);
            assert_eq!(request.nav.order, vec!["m", "c"]);
            assert_eq!(request.nav.default, "m");
        }
        _ => panic!("expected a request"),
    }
    let mut shelf = LayoutShelf::new();
    let mut chat = Chat::new();
    shelf.show_save_input = true;
    shelf.saved(&mut chat, Err("full".to_string()));
    assert!(shelf.show_save_input);
    for id in ["1", "2", "1"] {
        shelf.saved(&mut chat, Ok(layout(id, "L", Vec::new())));
    }
    assert!(!shelf.show_save_input);
    assert_eq!(chat.messages.last().unwrap().text, "ok:Layout \"L\" saved.");
    assert_eq!(entry_layout_name(&shelf.layouts, "2"), "L");
    assert_eq!(entry_layout_name(&shelf.layouts, "9"), "9");
    shelf.deleted(&mut chat, "1", Err("no".to_string()));
    assert_eq!(shelf.layouts.len(), 3);
    shelf.deleted(&mut chat, "1", Ok(()));
    assert_eq!(shelf.layouts.len(), 1);
    assert_eq!(shelf.layouts[0].id, "2");
    shelf.name_input = "typing".to_string();
    shelf.cancel_save();
    assert!(shelf.name_input.is_empty());
}

#[test]
fn the_condition_stack_is_edited_for_the_selected_device() {
    let mut editor = StackEditor::new();
    assert!(editor.shows_empty_note());
    assert_eq!(editor.save_address(), None);
    assert_eq!(
        editor.select("k1".to_string()).as_deref(),
        Some("/api/devices/k1/stack")
    );
    assert!(editor.loading);
    editor.select("k2".to_string());
    let entry = |id: &str| StackEntryDef {
        layout_id: id.to_string(),
        conditions: Vec::new(),
        enabled: true,
    };
    editor.fetched("k1", Some(vec![entry("late")]));
    assert!(editor.entries.is_empty());
    editor.fetched("k2", Some(vec![entry("a"), entry("b")]));
    assert_eq!(editor.entries.len(), 2);
    editor.add_entry();
    assert_eq!(editor.entries.len(), 2);
    editor.cond_value = " Den ".to_string();
    editor.add_condition();
    editor.cond_field = "default".to_string();
    editor.cond_value = "ignored".to_string();
    editor.add_condition();
    assert_eq!(condition_display(&editor.new_conditions[0]), "zone_name equals Den");
    assert_eq!(editor.new_conditions[1].value, None);
    assert_eq!(
        conditions_summary(&editor.new_conditions),
        "zone_name equals Den, default equals"
    );
    assert_eq!(conditions_summary(&Vec::<ConditionDef>::new()), "No conditions");
    editor.remove_condition(1);
    editor.show_add_entry = true;
    editor.new_layout_id = "c".to_string();
    editor.add_entry();
    assert!(!editor.show_add_entry && editor.new_conditions.is_empty());
    assert_eq!(editor.entries[2].conditions.len(), 1);
    editor.set_enabled(1, false);
    assert!(editor.entries[0].enabled && !editor.entries[1].enabled);
    editor.remove_entry(0);
    assert_eq!(editor.entries[0].layout_id, "b");
    assert_eq!(editor.save_address().as_deref(), Some("/api/devices/k2/stack"));
    editor.cond_value = "x".to_string();
    editor.cancel_entry();
    assert!(editor.cond_value.is_empty());
    editor.fetched("k2", None);
    assert!(editor.entries.is_empty());
    assert_eq!(editor.select(String::new()), None);
    assert_eq!(editor.selected_device, None);
    assert!(default_true_val());
}

// ── Spotify ─────────────────────────────────────────────────────────────────

#[test]
fn pending_commands_settle_when_they_show() {
    let mut pending = PendingCommand::new();
    pending.send("spotify:a", "play_pause");
    assert!(pending.is_pending("spotify:a"));
    assert!(matches!(
        pending.on_event(Some(&zone_updated("spotify:b"))),
        SpotifyReaction::Fetch(_)
    ));
    assert!(pending.is_pending("spotify:a"));
    pending.on_event(Some(&zone_updated("spotify:a")));
    assert!(!pending.is_pending("spotify:a"));

    pending.send("spotify:a", "next");
    pending.on_event(Some(&zone_updated("spotify:a")));
    assert!(pending.is_pending("spotify:a"));
    pending.on_event(Some(&track_event("spotify:a")));
    assert!(!pending.is_pending("spotify:a") && !pending.track_change);

    pending.send("spotify:a", "previous");
    match pending.on_event(Some(&volume_event("spotify:a"))) {
        SpotifyReaction::Fetch(id) => assert_eq!(id, "spotify:a"),
        _ => panic!("expected a fetch"),
    }
    assert!(!pending.is_pending("spotify:a"));
    assert!(matches!(
        pending.on_event(Some(&volume_event("roon:a"))),
        SpotifyReaction::Nothing
    ));
    let removed = SseEvent::ZoneRemoved {
        payload: ZonePayload {
            zone_id: "spotify:a".to_string(),
        },
    };
    assert!(matches!(
        pending.on_event(Some(&removed)),
        SpotifyReaction::RestartZones
    ));
    assert!(matches!(pending.on_event(None), SpotifyReaction::Nothing));
}

#[test]
fn an_accepted_change_is_read_back() {
    assert_eq!(zone_read_after(DspChange::Pipeline), DspRead::Pipeline);
    assert_eq!(zone_read_after(DspChange::Profile), DspRead::Pipeline);
    assert_eq!(zone_read_after(DspChange::Matrix), DspRead::Matrix);
}

#[test]
fn connection_details_of_a_connected_server() {
    assert!(lms::shows_connection_details(&lms_config(true, true)));
    assert!(!lms::shows_connection_details(&lms_config(true, false)));
    assert!(!lms::shows_connection_details(&lms_config(false, true)));
}

#[test]
fn palette_members_keep_their_order() {
    let elements = palette_elements();
    let mut listed = 0;
    for category in palette_categories(&elements) {
        let members = palette_members(&elements, category);
        assert!(!members.is_empty());
        assert!(members.iter().all(|element| element.category == category));
        listed += members.len();
    }
    assert_eq!(listed, elements.len());
    assert!(palette_members(&elements, "nothing").is_empty());
}

#[test]
fn a_follow_up_looks_until_the_track_shows() {
    let old_track = NowPlaying {
        line1: Some("Song".to_string()),
        ..NowPlaying::default()
    };
    let new_track = NowPlaying {
        line1: Some("Other".to_string()),
        ..NowPlaying::default()
    };
    let mut map = NowPlayingMap::new();
    map.insert("spotify:a".to_string(), old_track.clone());
    let mut pending = PendingCommand::new();
    pending.send("spotify:a", "next");
    let mut follow_up = FollowUp::new("spotify:a", track_mark(&map, "spotify:a"));
    assert_eq!(
        pending.follow(&mut follow_up, FollowEvent::Started),
        FollowAction::Pause { millis: 250 }
    );
    assert_eq!(
        pending.follow(&mut follow_up, FollowEvent::Paused),
        FollowAction::Look
    );
    let failed = FollowEvent::Looked { now: None };
    assert_eq!(
        pending.follow(&mut follow_up, failed),
        FollowAction::Pause { millis: 500 }
    );
    let same = FollowEvent::Looked {
        now: Some(&old_track),
    };
    assert_eq!(
        pending.follow(&mut follow_up, same),
        FollowAction::Pause { millis: 750 }
    );
    assert!(pending.is_pending("spotify:a"));
    let other = FollowEvent::Looked {
        now: Some(&new_track),
    };
    assert_eq!(pending.follow(&mut follow_up, other), FollowAction::Stop);
    assert!(!pending.is_pending("spotify:a"));
    assert_eq!(
        pending.follow(&mut follow_up, FollowEvent::Paused),
        FollowAction::Stop
    );
}

#[test]
fn a_follow_up_gives_up_after_six_looks() {
    let track = NowPlaying {
        line1: Some("Song".to_string()),
        ..NowPlaying::default()
    };
    let mut map = NowPlayingMap::new();
    map.insert("spotify:a".to_string(), track.clone());
    let mut pending = PendingCommand::new();
    pending.send("spotify:a", "previous");
    let mut follow_up = FollowUp::new("spotify:a", track_mark(&map, "spotify:a"));
    let mut action = pending.follow(&mut follow_up, FollowEvent::Started);
    let mut pauses = Vec::new();
    while let FollowAction::Pause { millis } = action {
        pauses.push(millis);
        assert!(pending.is_pending("spotify:a"));
        assert_eq!(
            pending.follow(&mut follow_up, FollowEvent::Paused),
            FollowAction::Look
        );
        let event = FollowEvent::Looked { now: Some(&track) };
        action = pending.follow(&mut follow_up, event);
    }
    assert_eq!(pauses, retry_delays());
    assert_eq!(action, FollowAction::GiveUp);
    assert!(!pending.is_pending("spotify:a"));
}

#[test]
fn card_artwork_goes_below_the_base_path() {
    let np = NowPlaying {
        image_url: Some("/art?z=1".to_string()),
        image_key: Some("k".to_string()),
        ..NowPlaying::default()
    };
    assert_eq!(
        card_art_url("/api/hassio_ingress/token", Some(&np)),
        "/api/hassio_ingress/token/art?z=1&k=k"
    );
    assert_eq!(card_art_url("/base", None), "");
    assert_eq!(card_art_url("/base", Some(&NowPlaying::default())), "");
}

#[test]
fn track_changes_are_followed_up() {
    let mut pending = PendingCommand::new();
    pending.send("spotify:a", "next");
    assert!(pending.answered("next", false));
    assert!(!pending.answered("play_pause", false));
    assert!(pending.is_pending("spotify:a"));
    assert!(!pending.answered("next", true));
    assert!(!pending.is_pending("spotify:a"));
    assert_eq!(retry_delays(), vec![250, 500, 750, 1000, 1500, 2000]);
    let mut map = NowPlayingMap::new();
    assert!(track_mark(&map, "spotify:a").is_none());
    let mut np = NowPlaying {
        line1: Some("Song".to_string()),
        image_key: Some("k".to_string()),
        ..NowPlaying::default()
    };
    map.insert("spotify:a".to_string(), np.clone());
    let mark = track_mark(&map, "spotify:a");
    assert!(!track_changed(&mark, &np));
    assert!(track_changed(&None, &np));
    np.image_key = None;
    assert!(track_changed(&mark, &np));
}

#[test]
fn the_spotify_page_and_its_cards() {
    assert_eq!(spotify_panel(Some(false), true, 2), SpotifyPanel::Disabled);
    assert_eq!(spotify_panel(None, false, 0), SpotifyPanel::Loading);
    assert_eq!(spotify_panel(Some(true), true, 0), SpotifyPanel::Empty);
    assert_eq!(spotify_panel(None, true, 1), SpotifyPanel::Devices);
    let zones = vec![zone("a", "Den", None, None), zone("b", "Attic", None, None)];
    let refs: Vec<&Zone> = zones.iter().collect();
    let mut map = NowPlayingMap::new();
    assert!(active_device(&refs, &map).is_none());
    map.insert(
        "b".to_string(),
        NowPlaying {
            is_playing: true,
            ..NowPlaying::default()
        },
    );
    assert_eq!(active_device(&refs, &map).map(|z| z.zone_name.as_str()), Some("Attic"));
    assert_eq!(device_summary(2, Some("Attic")), "2 device(s) · Playing on Attic");
    assert_eq!(device_summary(0, None), "0 device(s)");
    let mut np = NowPlaying {
        line1: Some("Idle".to_string()),
        image_key: Some("k".to_string()),
        ..NowPlaying::default()
    };
    assert_eq!(card_title(Some(&np)), "Nothing playing");
    assert_eq!(card_art_url("", Some(&np)), "");
    np.line1 = Some("Song".to_string());
    np.image_url = Some("/a?b".to_string());
    assert_eq!(card_title(Some(&np)), "Song");
    assert_eq!(card_art_url("", Some(&np)), "/a?b&k=k");
    np.image_key = None;
    assert_eq!(card_art_url("", Some(&np)), "/a?b");
    assert_eq!(card_art_url("", None), "");
}

// ── Zones, Zone ─────────────────────────────────────────────────────────────

#[test]
fn the_zones_page() {
    assert!(restarts_zone_list(Some(&zone_updated("z"))));
    assert!(restarts_zone_list(Some(&SseEvent::LmsConnected)));
    assert!(!restarts_zone_list(Some(&track_event("z"))));
    assert!(!restarts_zone_list(None));
    let zones = vec![
        zone("1", "A", None, Some("other")),
        zone("2", "B", None, Some("hqplayer")),
    ];
    assert!(has_any_hqp(&zones));
    assert!(!has_any_hqp(&zones[..1]));
    assert_eq!(zones_panel(false, 0), ZonesPanel::Loading);
    assert_eq!(zones_panel(true, 0), ZonesPanel::Empty);
    assert_eq!(zones_panel(true, 2), ZonesPanel::Groups);
    assert!(!has_matrix(None));
    assert!(shows_hqp_controls(&zones[1], 1, None));
    assert!(!shows_hqp_controls(&zones[1], 0, None));
    assert!(!shows_hqp_controls(&zones[0], 1, None));
    assert_eq!(profile_error("x"), "Profile load failed: x");
    assert_eq!(matrix_error("x"), "Matrix profile failed: x");
}

#[test]
fn the_zone_page() {
    assert_eq!(selected_zone(String::new()), None);
    assert_eq!(selected_zone("z".to_string()).as_deref(), Some("z"));
    let zones = vec![
        zone("1", "A", Some("roon"), None),
        zone("2", "B", None, Some("hqplayer")),
    ];
    assert_eq!(hqp_follow(&zones, &Some("1".to_string())), HqpFollow::Clear);
    assert_eq!(hqp_follow(&zones, &Some("2".to_string())), HqpFollow::Fetch);
    assert_eq!(hqp_follow(&zones, &Some("3".to_string())), HqpFollow::Keep);
    assert_eq!(hqp_follow(&zones, &None), HqpFollow::Clear);
    assert_eq!(zone_option_text(&zones[0]), "A (roon)");
    assert_eq!(zone_option_text(&zones[1]), "B [HQP]");
    let mut sse = SseContext::new();
    sse.received(Some(track_event("1")));
    let refresh = zone_refresh(&sse, false, true);
    assert!(refresh.zones && !refresh.now_playing && !refresh.pipeline);
    assert!(zone_refresh(&sse, true, true).now_playing);
    sse.received(Some(SseEvent::HqpStateChanged));
    assert!(zone_refresh(&sse, true, true).pipeline);
    assert!(!zone_refresh(&sse, true, false).pipeline);
    let np = NowPlaying {
        line1: Some("Song".to_string()),
        line3: Some("Album".to_string()),
        ..NowPlaying::default()
    };
    let lines = zone_lines(Some(&np));
    assert_eq!(
        (lines.track.as_str(), lines.artist.as_str(), lines.album.as_str()),
        ("Song", "", "Album")
    );
    assert!(zone_lines(None).track.is_empty());
}

#[test]
fn volumes_and_shapers() {
    let kind = |s: &str| Some(s.to_string());
    assert_eq!(volume_display(&kind("db"), Some(-12)).text, "-12 dB");
    assert_eq!(volume_display(&kind("number"), Some(40)).text, "40");
    let fixed = volume_display(&None, None);
    assert_eq!((fixed.text.as_str(), fixed.shows_controls), ("—", false));
    let steps = volume_display(&kind("incremental"), None);
    assert!(steps.shows_controls && steps.incremental && steps.text.is_empty());
    assert_eq!(shaper_name(Some("SDM (DSD)")), "Modulator");
    assert_eq!(shaper_name(Some("PCM")), "Dither");
    assert_eq!(shaper_name(None), "Shaper");
    assert_eq!(shaper_name_of_lowered("dsd"), "Modulator");
    assert_eq!(shaper_name_of_lowered("DSD"), "Dither");
}

// ── LMS, Dashboard, Onboarding ──────────────────────────────────────────────

fn lms_config(configured: bool, connected: bool) -> LmsConfig {
    LmsConfig {
        configured,
        connected,
        host: Some("lms".to_string()),
        port: None,
        cli_subscription_active: true,
        poll_interval_secs: 2,
    }
}

#[test]
fn the_lms_form() {
    let mut form = lms::LmsForm::new();
    assert!(form.is_shown(None));
    form.fill(&lms_config(false, false));
    assert_eq!(form.host, "");
    assert!(form.save().is_none());
    let line = lms::save_status_line(form.status.as_deref().unwrap());
    assert_eq!((line.class, line.text.as_str()), ("status-err", "Host is required"));
    let config = lms_config(true, true);
    form.fill(&config);
    assert_eq!((form.host.as_str(), form.port), ("lms", 9000));
    form.type_port("9001");
    form.type_port("zzz");
    form.password = "pw".to_string();
    let request = form.save().unwrap();
    assert_eq!(request.port, 9001);
    assert_eq!((request.username, request.password.as_deref()), (None, Some("pw")));
    assert_eq!(lms::save_status_line("Connecting...").class, "text-muted");
    form.show_form = true;
    assert!(!form.saved(Err("no".to_string())));
    assert!(form.show_form);
    assert_eq!(lms::save_status_line(form.status.as_deref().unwrap()).class, "status-err");
    assert!(form.saved(Ok(())));
    assert!(!form.is_shown(Some(&config)) && form.shows_reconfigure(Some(&config)));
    assert_eq!(lms::save_status_line("Connected!").text, "✓ Connected!");
}

#[test]
fn lms_lines_and_panels() {
    assert_eq!(lms::connection_line(None).text, "Checking...");
    assert_eq!(
        lms::connection_line(Some(&lms_config(false, false))).text,
        "Not configured"
    );
    assert_eq!(
        lms::connection_line(Some(&lms_config(true, true))).text,
        "✓ Connected to lms:9000"
    );
    assert_eq!(
        lms::connection_line(Some(&lms_config(true, false))).text,
        "✗ Configured but not connected (lms:9000)"
    );
    assert_eq!(lms::subscription_line(true).text, "CLI: active");
    assert_eq!(lms::subscription_line(false).text, "CLI: inactive (polling only)");
    assert_eq!(lms::players_panel(false, None, true, 1), PlayersPanel::LoadingSettings);
    assert_eq!(lms::players_panel(true, Some(false), true, 1), PlayersPanel::Disabled);
    assert_eq!(lms::players_panel(true, None, false, 1), PlayersPanel::Loading);
    assert_eq!(lms::players_panel(true, Some(true), true, 0), PlayersPanel::Empty);
    assert_eq!(lms::players_panel(true, Some(true), true, 1), PlayersPanel::Players);
    assert_eq!(lms::play_icon("play"), "⏸︎");
    assert_eq!(lms::play_icon("pause"), "▶");
}

#[test]
fn the_dashboard() {
    let mut sse = SseContext::new();
    assert!(!dashboard::refreshes_status(&sse));
    sse.received(Some(SseEvent::HqpConnected));
    assert!(dashboard::refreshes_status(&sse));
    sse.received(Some(zone_updated("z")));
    assert!(!dashboard::refreshes_status(&sse));
    assert!(dashboard::is_loading(false, true) && dashboard::is_loading(true, false));
    assert!(!dashboard::is_loading(true, true));
    assert_eq!(dashboard::adapter_state(true).text, "✓ Connected");
    assert_eq!(dashboard::adapter_state(false).class, "status-err");
    let mut roon = RoonStatus {
        connected: true,
        core_name: Some("Core".to_string()),
        core_version: Some("2".to_string()),
    };
    assert_eq!(dashboard::roon_details(&roon), "Core v2");
    roon.core_name = None;
    assert_eq!(dashboard::roon_details(&roon), "v2");
    assert_eq!(
        dashboard::hqp_details(&HqpStatus {
            connected: true,
            host: Some("hq".to_string())
        }),
        "hq"
    );
    let mut server = LmsStatus {
        connected: true,
        host: Some("l".to_string()),
        port: Some(9000),
    };
    assert_eq!(dashboard::lms_details(&server), "l:9000");
    server.port = None;
    assert_eq!(dashboard::lms_details(&server), "");
}

#[test]
fn onboarding_texts() {
    assert!(onboarding::should_refresh_zones(Some(&SseEvent::UpnpRendererLost)));
    assert!(onboarding::should_refresh_zones(Some(&zone_updated("z"))));
    assert!(!onboarding::should_refresh_zones(Some(&track_event("z"))));
    assert!(!onboarding::should_refresh_zones(None));
    assert_eq!((onboarding::plural(1), onboarding::plural(0)), ("", "s"));
    assert_eq!(onboarding::found_text(1), "Found 1 zone:");
    assert_eq!(onboarding::group_count_text(2), "(2 zones)");
    assert_eq!(
        onboarding::ready_summary(3, 1),
        "Found 3 zones from 1 source."
    );
    assert!(onboarding::ready_summary(0, 0).starts_with("No zones found yet"));
    assert_eq!(
        onboarding::discovery_hint(false, 0),
        "Searching... zones will appear as they are found."
    );
    assert!(onboarding::shows_spinner(false, 0) && !onboarding::shows_spinner(false, 1));
    assert_eq!(onboarding::continue_label(0), "Continue anyway");
    assert_eq!(onboarding::get_bridge_host(None), "uhc.local:8088");
    assert_eq!(onboarding::get_bridge_host(Some(String::new())), "uhc.local:8088");
    assert_eq!(onboarding::get_bridge_host(Some("h:1".to_string())), "h:1");
    assert_eq!(onboarding::mcp_url("h:1"), "http://h:1/mcp");
    assert_eq!(onboarding::knob_hint("h"), "Point your roon-knob at h");
    assert_eq!(onboarding::counted(2, "source"), "2 sources");
    assert_eq!(
        onboarding::step_dot_class(OnboardingStep::Ready, OnboardingStep::Ready),
        "w-2.5 h-2.5 rounded-full bg-primary"
    );
    let settings = onboarding::OnboardingSettings {
        settings: AppSettings {
            adapters: AdapterSettings {
                roon: true,
                lms: true,
                openhome: false,
                upnp: false,
                hqplayer: false,
                spotify: false,
                applemusic: false,
                musicassistant: false,
                mqtt: false,
            },
            hide_knobs_page: true,
            hide_hqp_page: false,
            hide_lms_page: false,
        },
        onboarding_completed: false,
    };
    let done = settings.completed();
    assert!(done.onboarding_completed);
    assert_eq!(done.settings, settings.settings);
}
