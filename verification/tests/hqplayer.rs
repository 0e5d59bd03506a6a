use unified_hifi_control::api::Zone;
use unified_hifi_control::now_playing::NowPlaying;
use unified_hifi_control::pages::hqplayer::{
    apply_hqp_shaper_rate_guidance, candidate_text, choice_text, config_status_class, connected_flag, connected_line,
    controlled_zones, default_instance, feedback_text, filter_hqp_options, format_hqp_time,
    hqp_live_mode_readout, hqp_live_output_readout, hqp_reads_after,
    hqp_reads_after_configuration, hqp_reads_on_event, hqp_shaper_minimum_rate_hz,
    hqplayer_mute_control, instance_text, is_linked, is_zone_match_candidate, junk_filter_options,
    link_row, match_candidates, normalized_match_selection, option_matches, option_text,
    pairing_request, playback_control_error, playback_path_label, playback_source_label,
    readout_or, repeat_options, selected_value, shaper_label, shaper_options, shows_advanced,
    shows_nothing_paired, sorted_links, toggle_text, transport, zone_match_availability,
    zone_match_key, CoalescingRefresh, ConnectionForm, DspChange, HqpActions, HqpAdvanced,
    HqpConfig, HqpIndexed, HqpInstance, HqpOption, HqpPipelineStatus, HqpReads, HqpSettingOptions, LoadedOnce,
    ZoneLink, ZoneMatchAvailability, ZoneMatchFeedback, ZoneMatching,
};
use unified_hifi_control::rate::format_hqp_rate;
use unified_hifi_control::sse::{SseContext, SseEvent};

#[test]
fn accepted_changes_read_the_advanced_state_and_events_never_do() {
    let none = HqpReads {
        status: false,
        pipeline: false,
        profiles: false,
        zones: false,
        advanced: false,
    };
    let pipeline = HqpReads {
        pipeline: true,
        advanced: true,
        ..none
    };
    assert_eq!(hqp_reads_after(DspChange::Pipeline), pipeline);
    let profile = HqpReads {
        profiles: true,
        ..pipeline
    };
    assert_eq!(hqp_reads_after(DspChange::Profile), profile);
    let matrix = HqpReads {
        advanced: true,
        ..none
    };
    assert_eq!(hqp_reads_after(DspChange::Matrix), matrix);
    let configured = HqpReads {
        status: true,
        ..profile
    };
    assert_eq!(hqp_reads_after_configuration(), configured);
    let mut sse = SseContext::new();
    assert_eq!(hqp_reads_on_event(&sse), none);
    sse.received(Some(SseEvent::HqpStateChanged));
    let engine = HqpReads {
        status: true,
        pipeline: true,
        ..none
    };
    assert_eq!(hqp_reads_on_event(&sse), engine);
    sse.received(Some(SseEvent::RoonConnected));
    let zones = HqpReads { zones: true, ..none };
    assert_eq!(hqp_reads_on_event(&sse), zones);
    sse.received(Some(SseEvent::UpnpRendererFound));
    assert_eq!(hqp_reads_on_event(&sse), none);
}

#[test]
fn texts_that_stand_in_for_missing_names() {
    assert_eq!(choice_text("44100", Some("44.1 kHz".to_string())), "44.1 kHz");
    assert_eq!(choice_text("44100", None), "44100");
    assert_eq!(connected_line(Some("music.local")), "Connected to music.local");
    assert_eq!(connected_line(None), "Connected to HQPlayer");
}

#[test]
fn advanced_refreshes_never_overlap_and_coalesce_bursts() {
    let mut refresh = CoalescingRefresh::default();

    assert!(
        refresh.request_initial(),
        "the mounted page starts one initial fetch"
    );
    assert!(
        !refresh.request_initial(),
        "rerenders cannot restart the initial fetch"
    );
    assert!(!refresh.request(), "an in-flight fetch is not duplicated");
    assert!(
        !refresh.request(),
        "a burst still queues only one follow-up"
    );
    assert!(
        refresh.complete(),
        "one dirty follow-up starts after completion"
    );
    assert!(!refresh.complete(), "the clean follow-up settles it");
    assert!(
        !refresh.request_initial(),
        "settling cannot turn a rerender into another initial fetch"
    );
    assert!(refresh.request(), "a later event can start a fresh fetch");
}

fn at_volume_floor(volume: Option<f32>, volume_min: Option<f32>) -> bool {
    match (volume, volume_min) {
        (Some(value), Some(minimum)) => value <= minimum + 0.01,
        _ => false,
    }
}

#[test]
fn hqplayer_mute_matches_the_native_volume_floor_semantics() {
    let audible = hqplayer_mute_control(at_volume_floor(Some(-3.0), Some(-60.0)));
    assert_eq!(audible.label, "Mute to minimum volume");
    assert!(!audible.disabled);

    let floored = hqplayer_mute_control(at_volume_floor(Some(-60.0), Some(-60.0)));
    assert_eq!(floored.label, "At minimum volume");
    assert!(floored.disabled);
}

#[test]
fn rejected_queue_skip_explains_the_linked_transport_fallback() {
    assert_eq!(
        playback_control_error("HTTP 500: HQPlayer rejected Next (no reason given)"),
        "HQPlayer has no usable native queue for next track. Use the linked playback zone's transport controls."
    );
    assert_eq!(
        playback_control_error("HTTP 500: HQPlayer rejected Previous: empty playlist"),
        "HQPlayer has no usable native queue for previous track. Use the linked playback zone's transport controls."
    );
}

#[test]
fn other_control_errors_are_told_as_they_are() {
    assert_eq!(
        playback_control_error("HTTP 404"),
        "Playback control failed: HTTP 404"
    );
}

#[test]
fn active_rates_are_presented_as_human_frequencies() {
    assert_eq!(format_hqp_rate(44_100), "44.1 kHz");
    assert_eq!(format_hqp_rate(384_000), "384 kHz");
    assert_eq!(format_hqp_rate(5_644_800), "5.6448 MHz");
}

fn double_rate(rate: u64) -> String {
    let (scaled, unit, precision) = if rate >= 1_000_000 {
        (rate as f64 / 1_000_000.0, "MHz", 4)
    } else if rate >= 1_000 {
        (rate as f64 / 1_000.0, "kHz", 3)
    } else {
        return format!("{rate} Hz");
    };
    let mut number = format!("{scaled:.precision$}");
    while number.contains('.') && number.ends_with('0') {
        number.pop();
    }
    if number.ends_with('.') {
        number.pop();
    }
    format!("{number} {unit}")
}

#[test]
fn rates_agree_with_double_precision_arithmetic() {
    for rate in 0..200_000u64 {
        assert_eq!(format_hqp_rate(rate), double_rate(rate), "{rate}");
    }
    for k in 0..200_000u64 {
        let tie = 1_000_050 + 100 * k;
        assert_eq!(format_hqp_rate(tie), double_rate(tie), "{tie}");
    }
    let mut rate: u64 = 1;
    for _ in 0..200_000u64 {
        rate = rate
            .wrapping_mul(6364136223846793005)
            .wrapping_add(1442695040888963407);
        for shift in [0u32, 11, 20, 30, 40, 50] {
            let value = rate >> shift;
            assert_eq!(format_hqp_rate(value), double_rate(value), "{value}");
        }
    }
    for value in [u64::MAX, u64::MAX - 1024, (1 << 53) - 1, 1 << 53, (1 << 53) + 1, 999_999, 1_000_000] {
        assert_eq!(format_hqp_rate(value), double_rate(value), "{value}");
    }
}

#[test]
fn stopped_and_paused_engines_do_not_advertise_stale_mode_or_output() {
    for state in ["Stopped", "Paused"] {
        let status = HqpPipelineStatus {
            state: Some(state.to_string()),
            mode: Some("SDM (DSD)".to_string()),
            active_mode: Some("PCM".to_string()),
            active_rate: Some(5_644_800),
            ..HqpPipelineStatus::default()
        };

        assert_eq!(hqp_live_mode_readout(&status), "—");
        assert_eq!(hqp_live_output_readout(&status), "—");
    }
}

#[test]
fn playing_engine_readouts_use_only_active_mode_and_rate() {
    let status = HqpPipelineStatus {
        state: Some("Playing".to_string()),
        mode: Some("PCM".to_string()),
        active_mode: Some("SDM (DSD)".to_string()),
        active_rate: Some(5_644_800),
        ..HqpPipelineStatus::default()
    };

    assert_eq!(hqp_live_mode_readout(&status), "SDM (DSD)");
    assert_eq!(hqp_live_output_readout(&status), "5.6448 MHz");
}

#[test]
fn blank_modes_and_zero_rates_are_not_shown() {
    let status = HqpPipelineStatus {
        state: Some("Playing".to_string()),
        active_mode: Some("  ".to_string()),
        active_rate: Some(0),
        ..HqpPipelineStatus::default()
    };
    assert_eq!(hqp_live_mode_readout(&status), "—");
    assert_eq!(hqp_live_output_readout(&status), "—");
    assert_eq!(readout_or(&None, "Unknown"), "Unknown");
    assert_eq!(readout_or(&Some("x".to_string()), "Unknown"), "x");
}

fn option(value: &str, label: Option<&str>) -> HqpOption {
    HqpOption {
        value: value.to_string(),
        label: label.map(str::to_string),
        disabled: false,
        reason: None,
    }
}

#[test]
fn filter_search_keeps_the_current_choice_visible_without_lying_about_matches() {
    let options = vec![
        HqpOption {
            value: "poly-sinc-gauss-long".to_string(),
            label: None,
            disabled: false,
            reason: None,
        },
        HqpOption {
            value: "poly-sinc-ext2-hires-lp".to_string(),
            label: None,
            disabled: false,
            reason: None,
        },
        HqpOption {
            value: "IIR".to_string(),
            label: None,
            disabled: false,
            reason: None,
        },
    ];

    let filtered = filter_hqp_options(&options, "hires", "poly-sinc-gauss-long");
    assert_eq!(
        filtered
            .iter()
            .map(|option| option.value.as_str())
            .collect::<Vec<_>>(),
        vec!["poly-sinc-gauss-long", "poly-sinc-ext2-hires-lp"]
    );
}

#[test]
fn filter_search_ignores_case_and_surrounding_space() {
    let options = vec![option("IIR", None), option("x", Some("Minimum Phase"))];
    assert_eq!(filter_hqp_options(&options, " iir ", "").len(), 1);
    assert_eq!(filter_hqp_options(&options, "PHASE", "")[0].value, "x");
    let all = filter_hqp_options(&options, "  ", "");
    assert_eq!(all.len(), 2);
    assert!(all.iter().zip(&options).all(|(a, b)| a.value == b.value && a.label == b.label));
    assert!(option_matches("iir", Some("label"), "lab"));
    assert!(!option_matches("iir", None, "lab"));
}

#[test]
fn hqptuner_rate_gates_are_applied_to_rate_specific_modulators() {
    assert_eq!(hqp_shaper_minimum_rate_hz("DSD7 256+fs"), Some(10_240_000));
    assert_eq!(
        hqp_shaper_minimum_rate_hz("ASDM7EC-fast 512+fs"),
        Some(22_579_200)
    );
    assert_eq!(
        hqp_shaper_minimum_rate_hz("AMSDM7EC 512+fs"),
        Some(20_480_000)
    );
    assert_eq!(hqp_shaper_minimum_rate_hz("AHM7EC8B"), Some(40_960_000));
    assert_eq!(hqp_shaper_minimum_rate_hz("ASDM7EC-fast"), None);
}

#[test]
fn rate_specific_modulators_stay_visible_but_explain_why_they_are_unavailable() {
    let options = HqpSettingOptions {
        options: vec![
            HqpOption {
                value: "ASDM7EC-fast".to_string(),
                label: Some("ASDM7EC-fast".to_string()),
                disabled: false,
                reason: None,
            },
            HqpOption {
                value: "ASDM7EC-fast 512+fs".to_string(),
                label: Some("ASDM7EC-fast 512+fs".to_string()),
                disabled: false,
                reason: None,
            },
        ],
        selected: None,
    };

    let guided = apply_hqp_shaper_rate_guidance(options, 11_289_600);
    assert!(!guided.options[0].disabled);
    assert!(guided.options[1].disabled);
    assert_eq!(
        guided.options[1].reason.as_deref(),
        Some("needs at least 22.5792 MHz")
    );
}

#[test]
fn guidance_follows_the_selected_sample_rate() {
    let shaper = || HqpSettingOptions {
        options: vec![option("DSD7 256+fs", None)],
        selected: None,
    };
    let rates = |value: &str| HqpSettingOptions {
        options: Vec::new(),
        selected: Some(option(value, None)),
    };
    assert!(shaper_options(shaper(), Some(&rates("44100"))).options[0].disabled);
    assert!(!shaper_options(shaper(), Some(&rates("10240000"))).options[0].disabled);
    assert!(!shaper_options(shaper(), Some(&rates("auto"))).options[0].disabled);
    assert!(!shaper_options(shaper(), Some(&rates("0"))).options[0].disabled);
    assert!(!shaper_options(shaper(), None).options[0].disabled);
    assert_eq!(selected_value(Some(&rates("44100"))), "44100");
    assert_eq!(selected_value(None), "");
    assert_eq!(shaper_label(&None), "Dither / modulator");
    let mut ruled_out = option("v", Some("Label"));
    assert_eq!(option_text(&ruled_out), "Label");
    ruled_out.reason = Some("why".to_string());
    assert_eq!(option_text(&ruled_out), "Label — why");
    ruled_out.label = None;
    assert_eq!(option_text(&ruled_out), "v — why");
}

#[test]
fn zone_matching_distinguishes_loading_from_an_empty_system() {
    assert_eq!(
        zone_match_availability(false, 0, 0),
        ZoneMatchAvailability::Loading,
        "pending zone, link, and instance reads are not an empty system"
    );
}

#[test]
fn zone_matching_names_what_is_missing() {
    assert_eq!(
        zone_match_availability(true, 3, 0),
        ZoneMatchAvailability::NoInstances
    );
    assert_eq!(
        zone_match_availability(true, 0, 1),
        ZoneMatchAvailability::NoPlaybackZones
    );
    assert_eq!(
        zone_match_availability(true, 1, 1),
        ZoneMatchAvailability::Ready
    );
    assert!(shows_nothing_paired(0, ZoneMatchAvailability::Ready));
    assert!(shows_nothing_paired(0, ZoneMatchAvailability::NoPlaybackZones));
    assert!(!shows_nothing_paired(0, ZoneMatchAvailability::Loading));
    assert!(!shows_nothing_paired(1, ZoneMatchAvailability::Ready));
}

#[test]
fn zone_matching_only_offers_unmatched_playback_zones() {
    assert!(is_zone_match_candidate(
        "roon:hqplayer-dsp",
        Some("roon"),
        false
    ));
    assert!(!is_zone_match_candidate(
        "hqplayer:default",
        Some("hqplayer"),
        false
    ));
    assert!(!is_zone_match_candidate(
        "roon:already-matched",
        Some("roon"),
        true
    ));
}

#[test]
fn zone_matching_moves_selection_after_the_selected_zone_is_saved() {
    let choices = vec!["roon:bedroom".to_string(), "roon:patio".to_string()];
    assert_eq!(
        normalized_match_selection("roon:just-saved", &choices),
        "roon:bedroom",
        "a saved zone disappears from the candidate list, so the form must select a valid next choice"
    );
}

#[test]
fn selections_that_are_offered_stay() {
    let choices = vec!["roon:bedroom".to_string(), "roon:patio".to_string()];
    assert_eq!(normalized_match_selection("roon:patio", &choices), "roon:patio");
    assert_eq!(normalized_match_selection("x", &Vec::new()), "");
}

#[test]
fn playback_paths_name_direct_and_paired_control_without_implying_routing() {
    assert_eq!(playback_path_label(Some("hqplayer")), "Direct HQPlayer");
    assert_eq!(playback_path_label(Some("roon")), "Roon + HQPlayer DSP");
    assert_eq!(playback_path_label(None), "Playback + HQPlayer DSP");
}

#[test]
fn playback_sources_have_names() {
    assert_eq!(playback_source_label(Some("lms")), "LMS");
    assert_eq!(playback_source_label(Some("openhome")), "OpenHome");
    assert_eq!(playback_source_label(Some("upnp")), "UPnP");
    assert_eq!(playback_source_label(Some("jplay")), "jplay");
    assert_eq!(playback_source_label(None), "Playback zone");
}

fn zone(id: &str, name: &str, source: Option<&str>) -> Zone {
    Zone {
        zone_id: id.to_string(),
        zone_name: name.to_string(),
        source: source.map(str::to_string),
        ..Zone::default()
    }
}

fn link(zone_id: &str, instance: &str) -> ZoneLink {
    ZoneLink {
        zone_id: zone_id.to_string(),
        instance: instance.to_string(),
    }
}

#[test]
fn controlled_and_pairable_zones() {
    let zones = vec![
        zone("roon:2", "Patio", Some("roon")),
        zone("hqplayer:main", "HQ", Some("hqplayer")),
        zone("roon:1", "Bedroom", Some("roon")),
        zone("lms:1", "Attic", None),
    ];
    let links = vec![link("roon:1", "main")];
    let controlled: Vec<&str> = controlled_zones(&zones, &links)
        .iter()
        .map(|z| z.zone_id.as_str())
        .collect();
    assert_eq!(controlled, vec!["hqplayer:main", "roon:1"]);
    let candidates: Vec<&str> = match_candidates(&zones, &links)
        .iter()
        .map(|z| z.zone_name.as_str())
        .collect();
    assert_eq!(candidates, vec!["Attic", "Patio"]);
    assert!(is_linked(&links, "roon:1") && !is_linked(&links, "roon:2"));
    assert_eq!(candidate_text(&zones[0]), "Patio (Roon)");
    assert_eq!(candidate_text(&zones[3]), "Attic (Playback zone)");
}

#[test]
fn pairings_are_sorted_and_described() {
    let links = vec![link("b", "x"), link("a", "y")];
    let sorted: Vec<&str> = sorted_links(&links).iter().map(|l| l.zone_id.as_str()).collect();
    assert_eq!(sorted, vec!["a", "b"]);
    assert_eq!(zone_match_key(&links), "a=y|b=x");
    assert_eq!(zone_match_key(&[]), "");
    let zones = vec![zone("a", "Attic", Some("lms"))];
    let instances = vec![
        HqpInstance {
            name: "y".to_string(),
            host: Some("10.0.0.2".to_string()),
        },
        HqpInstance {
            name: "x".to_string(),
            host: None,
        },
    ];
    let row = link_row(&links[1], &zones, &instances);
    assert_eq!(row.zone_name, "Attic");
    assert_eq!(row.source_label, "LMS");
    assert_eq!(row.instance_detail, "y at 10.0.0.2");
    let row = link_row(&links[0], &zones, &instances);
    assert_eq!(row.zone_name, "b");
    assert_eq!(row.source_label, "Playback zone");
    assert_eq!(row.instance_detail, "x");
    assert_eq!(default_instance(&instances), "y");
    assert_eq!(default_instance(&[]), "");
    assert_eq!(instance_text(&instances[0]), "y (10.0.0.2)");
    assert_eq!(instance_text(&instances[1]), "x");
}

#[test]
fn pairing_needs_a_zone_and_an_instance() {
    let ids = vec!["a".to_string(), "b".to_string()];
    let made = pairing_request("b", &ids, "", "main").unwrap();
    assert_eq!((made.zone_id.as_str(), made.instance.as_str()), ("b", "main"));
    let made = pairing_request("gone", &ids, "second", "main").unwrap();
    assert_eq!((made.zone_id.as_str(), made.instance.as_str()), ("a", "second"));
    assert!(pairing_request("b", &Vec::new(), "x", "main").is_none());
    assert!(pairing_request("b", &ids, "", "").is_none());
}

#[test]
fn pairing_feedback() {
    let mut matching = ZoneMatching::new();
    matching.begin();
    assert!(matching.busy);
    assert!(matching.answered(true, Ok(())));
    let shown = feedback_text(matching.feedback.as_ref().unwrap());
    assert_eq!(shown.text, "Paired. Playback and DSP now share one control card.");
    assert_eq!(shown.class, "mt-4 text-sm status-ok");
    matching.begin();
    assert!(matching.feedback.is_none());
    assert!(matching.answered(false, Ok(())));
    assert!(matches!(matching.feedback, Some(ZoneMatchFeedback::Removed)));
    assert!(!matching.answered(false, Err("boom".to_string())));
    assert_eq!(
        feedback_text(matching.feedback.as_ref().unwrap()).text,
        "Could not remove this pairing: boom"
    );
    assert!(!matching.answered(true, Err("boom".to_string())));
    let shown = feedback_text(matching.feedback.as_ref().unwrap());
    assert_eq!(shown.text, "Could not pair this playback path: boom");
    assert_eq!(shown.class, "mt-4 text-sm text-red-400");
}

#[test]
fn connection_form_fills_saves_and_reports() {
    let mut form = ConnectionForm::new();
    assert_eq!((form.port, form.web_port), (4321, 8088));
    form.fill(&HqpConfig {
        host: Some("hq".to_string()),
        port: None,
        web_port: Some(80),
        has_web_credentials: true,
    });
    assert_eq!((form.host.as_str(), form.port, form.web_port), ("hq", 4321, 80));
    assert!(form.has_credentials);
    form.type_port("70000");
    assert_eq!(form.port, 4321);
    form.type_port("5000");
    form.type_web_port("+81");
    assert_eq!((form.port, form.web_port), (5000, 81));
    form.username = "me".to_string();
    let request = form.save();
    assert_eq!(form.status.as_deref(), Some("Testing connection…"));
    assert_eq!(request.username.as_deref(), Some("me"));
    assert_eq!(request.password, None);
    assert!(form.saved(Ok(true)));
    assert_eq!(form.status.as_deref(), Some("Connected and verified."));
    assert_eq!(config_status_class(form.status.as_ref().unwrap()), "status-ok");
    assert!(form.saved(Ok(false)));
    assert_eq!(config_status_class(form.status.as_ref().unwrap()), "status-err");
    assert!(!form.saved(Err("refused".to_string())));
    assert_eq!(
        form.status.as_deref(),
        Some("Connection failed: refused. Check the address, ports, and web credentials.")
    );
    assert_eq!(config_status_class(form.status.as_ref().unwrap()), "status-err");
    assert_eq!(config_status_class("Testing connection…"), "text-muted");
}

#[test]
fn connected_flag_reads_the_answer() {
    let mut map = serde_json::Map::new();
    assert!(!connected_flag(&serde_json::Value::Object(map.clone())));
    map.insert("connected".to_string(), serde_json::Value::Bool(true));
    assert!(connected_flag(&serde_json::Value::Object(map.clone())));
    map.insert(
        "connected".to_string(),
        serde_json::Value::String("true".to_string()),
    );
    assert!(!connected_flag(&serde_json::Value::Object(map)));
    assert!(!connected_flag(&serde_json::Value::Null));
}

#[test]
fn dsp_changes_report_their_failures() {
    let mut actions = HqpActions::new();
    actions.begin();
    assert!(actions.loading);
    assert!(actions.finish(DspChange::Pipeline, Ok(())));
    for (change, text) in [
        (DspChange::Pipeline, "Pipeline update failed: x"),
        (DspChange::Profile, "Profile load failed: x"),
        (DspChange::Matrix, "Matrix profile failed: x"),
    ] {
        actions.begin();
        assert!(!actions.finish(change, Err("x".to_string())));
        assert_eq!(actions.error.as_deref(), Some(text));
    }
    actions.control_sent();
    assert_eq!(actions.error, None);
    actions.control_failed("y");
    assert_eq!(actions.error.as_deref(), Some("Playback control failed: y"));
}

#[test]
fn transport_keeps_the_slider_in_range() {
    let mut np = NowPlaying {
        is_playing: true,
        seek_position: Some(90),
        length: Some(60),
        is_next_allowed: true,
        ..NowPlaying::default()
    };
    let shown = transport(Some(&np));
    assert!(shown.is_playing && shown.can_next && !shown.can_previous && shown.can_seek);
    assert_eq!((shown.seek_position, shown.slider_value, shown.slider_max), (90, 60, 60));
    np.seek_position = Some(-5);
    np.length = None;
    let shown = transport(Some(&np));
    assert!(!shown.can_seek);
    assert_eq!((shown.seek_position, shown.slider_value, shown.slider_max), (0, 0, 1));
    np.seek_position = Some(4_294_967_299);
    np.length = Some(10);
    assert_eq!(transport(Some(&np)).seek_position, 3);
    assert!(!transport(None).is_playing);
    assert_eq!(format_hqp_time(0), "0:00");
    assert_eq!(format_hqp_time(65), "1:05");
    assert_eq!(format_hqp_time(3599), "59:59");
}

fn indexed(index: u32, name: &str) -> HqpIndexed {
    HqpIndexed {
        index,
        name: name.to_string(),
    }
}

#[test]
fn advanced_processing_choices() {
    let mut advanced = HqpAdvanced {
        profiles: Vec::new(),
        current: None,
        junk_filters: Vec::new(),
        junk_filter: Some(7),
        repeat: None,
        convolution: None,
        adaptive_volume: None,
        random: None,
    };
    assert!(!shows_advanced(Some(&advanced)));
    assert!(!shows_advanced(None));
    assert!(junk_filter_options(&advanced).is_none());
    advanced.junk_filters = vec![indexed(3, "soft"), indexed(7, "hard")];
    assert!(shows_advanced(Some(&advanced)));
    let options = junk_filter_options(&advanced).unwrap();
    assert_eq!(options.options[0].label.as_deref(), Some("soft"));
    assert_eq!(options.selected.unwrap().value, "hard");
    advanced.junk_filter = Some(1);
    assert!(junk_filter_options(&advanced).unwrap().selected.is_none());

    assert!(repeat_options(None).is_none());
    let repeat = repeat_options(Some(1)).unwrap();
    assert_eq!(repeat.options[2].value, "all");
    assert_eq!(repeat.selected.unwrap().label.as_deref(), Some("Current track"));
    assert!(repeat_options(Some(3)).unwrap().selected.is_none());

    let on = toggle_text(true);
    assert_eq!((on.text, on.state, on.next), ("On", "on", "false"));
    let off = toggle_text(false);
    assert_eq!((off.text, off.state, off.next), ("Off", "off", "true"));
}

#[test]
fn loaded_once_is_not_taken_back() {
    let mut loaded = LoadedOnce::new();
    loaded.note(true, false, false);
    loaded.note(false, true, false);
    assert!(loaded.controlled_zones_ready());
    assert!(!loaded.pairing_ready());
    loaded.note(false, false, true);
    assert!(loaded.pairing_ready());
}
