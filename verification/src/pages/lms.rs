//! LMS page: the server's connection and its players.

use crate::api::LmsConfig;
use crate::markup::StatusText;
use crate::text::{
    cat2, cat4, contains, decimal, has_prefix, non_empty, number, occurs_in, opt_text, parse_port,
    parsed_unsigned, same, starts_with,
};
use vstd::prelude::*;

verus! {

/// What is sent to set up the connection.
#[derive(Debug)]
pub struct LmsConfigureRequest {
    pub host: String,
    pub port: u16,
    pub username: Option<String>,
    pub password: Option<String>,
}

/// The connection form.
pub struct LmsForm {
    pub show_form: bool,
    pub status: Option<String>,
    pub host: String,
    pub port: u16,
    pub username: String,
    pub password: String,
}

impl LmsForm {
    pub fn new() -> (r: Self)
        ensures
            !r.show_form,
            r.status is None,
            r.host@.len() == 0,
            r.port == 9000,
            r.username@.len() == 0 && r.password@.len() == 0,
    {
        LmsForm {
            show_form: false,
            status: None,
            host: String::new(),
            port: 9000,
            username: String::new(),
            password: String::new(),
        }
    }

    /// Fills the form from the stored connection, where there is one.
    pub fn fill(&mut self, config: &LmsConfig)
        ensures
            !config.configured ==> *final(self) == *old(self),
            config.configured ==> {
                &&& final(self).host@ == config_host(*config)
                &&& final(self).port == config_port(*config)
                &&& *final(self) == (LmsForm {
                    host: final(self).host,
                    port: final(self).port,
                    ..*old(self)
                })
            },
    {
        if config.configured {
            self.host =
            match &config.host {
                Some(host) => host.clone(),
                None => String::new(),
            };
            self.port =
            match config.port {
                Some(port) => port,
                None => 9000,
            };
        }
    }

    /// A port was typed; text that is no port changes nothing.
    pub fn type_port(&mut self, text: &str)
        ensures
            match parsed_unsigned(text@, 65535) {
                Some(port) => final(self).port == port && *final(self) == (LmsForm {
                    port: final(self).port,
                    ..*old(self)
                }),
                None => *final(self) == *old(self),
            },
    {
        if let Some(port) = parse_port(text) {
            self.port = port;
        }
    }

    /// Save was pressed. Without a host nothing is sent; blank credentials are left
    /// out.
    pub fn save(&mut self) -> (r: Option<LmsConfigureRequest>)
        ensures
            *final(self) == (LmsForm { status: final(self).status, ..*old(self) }),
            r is Some <==> old(self).host@.len() > 0,
            r is None ==> opt_text(final(self).status) == Some("Host is required"@),
            r is Some ==> {
                &&& opt_text(final(self).status) == Some("Connecting..."@)
                &&& r->0.host@ == old(self).host@
                &&& r->0.port == old(self).port
                &&& opt_text(r->0.username) == (if old(self).username@.len() == 0 {
                    None
                } else {
                    Some(old(self).username@)
                })
                &&& opt_text(r->0.password) == (if old(self).password@.len() == 0 {
                    None
                } else {
                    Some(old(self).password@)
                })
            },
    {
        if self.host.as_str().is_empty() {
            self.status = Some("Host is required".to_owned());
            return None;
        }
        self.status = Some("Connecting...".to_owned());
        Some(
            LmsConfigureRequest {
                host: self.host.clone(),
                port: self.port,
                username: non_empty(self.username.clone()),
                password: non_empty(self.password.clone()),
            },
        )
    }

    /// The answer to a save. After a success the form closes and everything is read
    /// again.
    pub fn saved(&mut self, answer: Result<(), String>) -> (refresh: bool)
        ensures
            refresh == (answer is Ok),
            match answer {
                Ok(_) => opt_text(final(self).status) == Some("Connected!"@) && *final(self) == (
                LmsForm { status: final(self).status, show_form: false, ..*old(self) }),
                Err(error) => opt_text(final(self).status) == Some("Error: "@ + error@)
                    && *final(self) == (LmsForm { status: final(self).status, ..*old(self) }),
            },
    {
        match answer {
            Ok(_) => {
                self.status = Some("Connected!".to_owned());
                self.show_form = false;
                true
            },
            Err(error) => {
                self.status = Some(cat2("Error: ", error.as_str()));
                false
            },
        }
    }

    /// Whether the form is shown: on request, and while nothing is configured.
    pub fn is_shown(&self, config: Option<&LmsConfig>) -> (r: bool)
        ensures
            r == (self.show_form || config is None || !config->0.configured),
    {
        self.show_form || match config {
            Some(config) => !config.configured,
            None => true,
        }
    }

    /// Whether the button that opens the form is shown.
    pub fn shows_reconfigure(&self, config: Option<&LmsConfig>) -> (r: bool)
        ensures
            r == (!self.show_form && config is Some && config->0.configured),
    {
        !self.show_form && match config {
            Some(config) => config.configured,
            None => false,
        }
    }
}

/// The form and the button that opens it are never shown together, and one of them
/// always is.
pub proof fn form_or_button(form: LmsForm, config: Option<LmsConfig>)
    ensures
        (form.show_form || config is None || !config->0.configured) != (!form.show_form
            && config is Some && config->0.configured),
{
}

/// The stored host, empty where there is none.
pub open spec fn config_host(config: LmsConfig) -> Seq<char> {
    match config.host {
        Some(host) => host@,
        None => Seq::empty(),
    }
}

/// The stored port, the usual one where there is none.
pub open spec fn config_port(config: LmsConfig) -> u16 {
    match config.port {
        Some(port) => port,
        None => 9000,
    }
}

/// How the save status is shown.
pub fn save_status_line(status: &str) -> (r: StatusText)
    ensures
        if has_prefix(status@, "Error"@) || occurs_in(status@, "required"@) {
            r.shows("status-err"@, status@)
        } else if occurs_in(status@, "Connected"@) {
            r.shows("status-ok"@, "✓ "@ + status@)
        } else {
            r.shows("text-muted"@, status@)
        },
{
    if starts_with(status, "Error") || contains(status, "required") {
        StatusText { class: "status-err", text: status.to_owned() }
    } else if contains(status, "Connected") {
        StatusText { class: "status-ok", text: cat2("✓ ", status) }
    } else {
        StatusText { class: "text-muted", text: status.to_owned() }
    }
}

/// How the connection is shown.
pub fn connection_line(config: Option<&LmsConfig>) -> (r: StatusText)
    ensures
        config is None ==> r.shows("text-muted"@, "Checking..."@),
        config is Some && !config->0.configured ==> r.shows("text-muted"@, "Not configured"@),
        config is Some && config->0.configured && config->0.connected ==> r.shows(
            "status-ok"@,
            "✓ Connected to "@ + config_host(*config->0) + ":"@ + decimal(
                config_port(*config->0) as nat,
            ),
        ),
        config is Some && config->0.configured && !config->0.connected ==> r.shows(
            "status-err"@,
            "✗ Configured but not connected ("@ + config_host(*config->0) + ":"@ + decimal(
                config_port(*config->0) as nat,
            ) + ")"@,
        ),
{
    let config = match config {
        Some(config) => config,
        None => {
            return StatusText::fixed("text-muted", "Checking...");
        },
    };
    if !config.configured {
        return StatusText::fixed("text-muted", "Not configured");
    }
    let host = match &config.host {
        Some(host) => host.clone(),
        None => String::new(),
    };
    let port = number(
        match config.port {
            Some(port) => port as u64,
            None => 9000,
        },
    );
    if config.connected {
        StatusText {
            class: "status-ok",
            text: cat4("✓ Connected to ", host.as_str(), ":", port.as_str()),
        }
    } else {
        StatusText {
            class: "status-err",
            text: crate::text::cat5(
                "✗ Configured but not connected (",
                host.as_str(),
                ":",
                port.as_str(),
                ")",
            ),
        }
    }
}

/// Whether the page shows how events arrive: only of a server that is set up and
/// connected.
pub fn shows_connection_details(config: &LmsConfig) -> (r: bool)
    ensures
        r == (config.configured && config.connected),
{
    config.configured && config.connected
}

/// How events arrive.
pub fn subscription_line(active: bool) -> (r: StatusText)
    ensures
        active ==> r.shows("text-green-600"@, "CLI: active"@),
        !active ==> r.shows("text-yellow-600"@, "CLI: inactive (polling only)"@),
{
    if active {
        StatusText::fixed("text-green-600", "CLI: active")
    } else {
        StatusText::fixed("text-yellow-600", "CLI: inactive (polling only)")
    }
}

/// What stands where the players go.
#[derive(Clone, Copy, Debug, PartialEq, Eq, Structural)]
pub enum PlayersPanel {
    LoadingSettings,
    Disabled,
    Loading,
    Empty,
    Players,
}

/// What stands where the players go.
pub open spec fn players_shown(
    settings_loaded: bool,
    enabled: Option<bool>,
    config_loaded: bool,
    player_count: int,
) -> PlayersPanel {
    if !settings_loaded {
        PlayersPanel::LoadingSettings
    } else if enabled == Some(false) {
        PlayersPanel::Disabled
    } else if !config_loaded {
        PlayersPanel::Loading
    } else if player_count == 0 {
        PlayersPanel::Empty
    } else {
        PlayersPanel::Players
    }
}

/// Nothing is said before the settings are there, and of a switched-off adapter nothing
/// else; players show just where everything is there and there are some.
pub proof fn players_show_once_everything_is_there(
    settings_loaded: bool,
    enabled: Option<bool>,
    config_loaded: bool,
    player_count: int,
)
    requires
        0 <= player_count,
    ensures
        ({
            let r = players_shown(settings_loaded, enabled, config_loaded, player_count);
            &&& r == PlayersPanel::LoadingSettings <==> !settings_loaded
            &&& r == PlayersPanel::Disabled <==> settings_loaded && enabled == Some(false)
            &&& r == PlayersPanel::Players <==> settings_loaded && enabled != Some(false)
                && config_loaded && player_count > 0
            &&& r == PlayersPanel::Empty ==> config_loaded && player_count == 0
            &&& r == PlayersPanel::Loading ==> !config_loaded
        }),
{
}

/// Picks what stands where the players go. `enabled` is the adapter's switch, where
/// the settings could be fetched.
pub fn players_panel(
    settings_loaded: bool,
    enabled: Option<bool>,
    config_loaded: bool,
    player_count: usize,
) -> (r: PlayersPanel)
    ensures
        r == players_shown(settings_loaded, enabled, config_loaded, player_count as int),
        r == (if !settings_loaded {
            PlayersPanel::LoadingSettings
        } else if enabled == Some(false) {
            PlayersPanel::Disabled
        } else if !config_loaded {
            PlayersPanel::Loading
        } else if player_count == 0 {
            PlayersPanel::Empty
        } else {
            PlayersPanel::Players
        }),
{
    if !settings_loaded {
        return PlayersPanel::LoadingSettings;
    }
    if let Some(false) = enabled {
        return PlayersPanel::Disabled;
    }
    if !config_loaded {
        PlayersPanel::Loading
    } else if player_count == 0 {
        PlayersPanel::Empty
    } else {
        PlayersPanel::Players
    }
}

/// The symbol on a player's play button.
pub fn play_icon(mode: &str) -> (r: &'static str)
    ensures
        r@ == (if mode@ == "play"@ {
            "⏸︎"@
        } else {
            "▶"@
        }),
{
    if same(mode, "play") {
        "⏸︎"
    } else {
        "▶"
    }
}

/// The form shows the configured server, and where something is missing an empty host and
/// the usual port.
pub proof fn form_falls_back_to_the_usual_port(config: LmsConfig)
    ensures
        config.host is Some ==> config_host(config) == config.host->0@,
        config.host is None ==> config_host(config).len() == 0,
        config.port is Some ==> config_port(config) == config.port->0,
        config.port is None ==> config_port(config) == 9000,
{
}

} // verus!
