//! Connecting a Music Assistant server and an MQTT broker.

use crate::markup::StatusText;
use crate::pages::settings::spotify_setup::nonblank;
use crate::pages::settings::ProviderActionState;
use crate::text::{
    cat5, decimal, non_empty, number, opt_str, opt_text, parse_port, parsed_unsigned, same, trim,
    trimmed,
};
use vstd::prelude::*;

verus! {

// ── Music Assistant ─────────────────────────────────────────────────────────

/// Where the Music Assistant server answers.
#[derive(Debug)]
pub struct MusicAssistantEndpoint {
    pub host: String,
    pub port: u16,
    pub tls: bool,
    pub allow_insecure_http: bool,
}

/// The state of the Music Assistant adapter.
#[derive(Debug)]
pub struct MusicAssistantStatus {
    pub configured: bool,
    pub running: bool,
    pub endpoint: Option<MusicAssistantEndpoint>,
    pub error: Option<String>,
}

/// What is sent to connect a Music Assistant server.
pub struct MusicAssistantConfigureRequest {
    pub host: String,
    pub port: u16,
    pub token: Option<String>,
    pub tls: bool,
    pub allow_insecure_http: bool,
}

/// The Music Assistant form.
pub struct MusicAssistantForm {
    pub action: ProviderActionState,
    pub error: Option<String>,
    pub host: String,
    pub port: String,
    pub token: String,
    pub tls: bool,
    pub insecure_http: bool,
}

/// The port that a text spells, where it spells one other than zero.
pub open spec fn usable_port(text: Seq<char>) -> Option<int> {
    match parsed_unsigned(trimmed(text), 65535) {
        Some(port) => if port == 0 {
            None
        } else {
            Some(port)
        },
        None => None,
    }
}

impl MusicAssistantForm {
    pub fn new() -> (r: Self)
        ensures
            r.action == ProviderActionState::Idle,
            r.error is None,
            r.host@.len() == 0,
            r.port@ == "8095"@,
            r.token@.len() == 0,
            r.tls,
            !r.insecure_http,
    {
        MusicAssistantForm {
            action: ProviderActionState::Idle,
            error: None,
            host: String::new(),
            port: "8095".to_owned(),
            token: String::new(),
            tls: true,
            insecure_http: false,
        }
    }

    /// Fills the form from the endpoint that the bridge reports, where it does.
    pub fn fill(&mut self, status: &MusicAssistantStatus)
        ensures
            final(self).action == old(self).action,
            final(self).error == old(self).error,
            final(self).token == old(self).token,
            status.endpoint is None ==> *final(self) == *old(self),
            status.endpoint is Some ==> {
                &&& final(self).host == status.endpoint->0.host
                &&& final(self).port@ == decimal(status.endpoint->0.port as nat)
                &&& final(self).tls == status.endpoint->0.tls
                &&& final(self).insecure_http == status.endpoint->0.allow_insecure_http
            },
    {
        if let Some(endpoint) = &status.endpoint {
            self.host = endpoint.host.clone();
            self.port = number(endpoint.port as u64);
            self.tls = endpoint.tls;
            self.insecure_http = endpoint.allow_insecure_http;
        }
    }

    /// Save was pressed. Without a host and a usable port nothing is sent; a blank
    /// token keeps the saved one.
    pub fn save(&mut self) -> (r: Option<MusicAssistantConfigureRequest>)
        ensures
            *final(self) == (MusicAssistantForm {
                action: final(self).action,
                error: final(self).error,
                ..*old(self)
            }),
            r is Some <==> trimmed(old(self).host@).len() > 0 && usable_port(old(self).port@) is Some,
            r is None ==> final(self).action == ProviderActionState::Failed && opt_text(
                final(self).error,
            ) == Some("Enter a Music Assistant host and valid port."@),
            r is Some ==> {
                &&& final(self).action == ProviderActionState::Loading
                &&& final(self).error is None
                &&& r->0.host@ == trimmed(old(self).host@)
                &&& r->0.port == usable_port(old(self).port@)->0
                &&& opt_text(r->0.token) == nonblank(old(self).token@)
                &&& r->0.tls == old(self).tls
                &&& r->0.allow_insecure_http == old(self).insecure_http
            },
    {
        let host = trim(self.host.as_str());
        let port_text = trim(self.port.as_str());
        let port: u16 = match parse_port(port_text.as_str()) {
            Some(port) => port,
            None => 0,
        };
        let token = trim(self.token.as_str());
        if host.as_str().is_empty() || port == 0 {
            self.action = ProviderActionState::Failed;
            self.error = Some("Enter a Music Assistant host and valid port.".to_owned());
            return None;
        }
        self.action = ProviderActionState::Loading;
        self.error = None;
        Some(
            MusicAssistantConfigureRequest {
                host,
                port,
                token: non_empty(token),
                tls: self.tls,
                allow_insecure_http: self.insecure_http,
            },
        )
    }

    /// The answer to a save. After a success the token leaves the form.
    pub fn save_answered(&mut self, answer: Result<(), Option<String>>) -> (refresh: bool)
        ensures
            refresh == (answer is Ok),
            match answer {
                Ok(_) => final(self).token@.len() == 0 && *final(self) == (MusicAssistantForm {
                    action: ProviderActionState::Success,
                    token: final(self).token,
                    ..*old(self)
                }),
                Err(error) => *final(self) == (MusicAssistantForm {
                    action: ProviderActionState::Failed,
                    error,
                    ..*old(self)
                }),
            },
    {
        match answer {
            Ok(_) => {
                self.action = ProviderActionState::Success;
                self.token = String::new();
                true
            },
            Err(error) => {
                self.action = ProviderActionState::Failed;
                self.error = error;
                false
            },
        }
    }
}

/// The state of the Music Assistant adapter in words.
pub fn musicassistant_state(status: &MusicAssistantStatus) -> (r: StatusText)
    ensures
        status.running ==> r.shows("status-ok"@, "Connected"@),
        !status.running && status.configured ==> r.shows(
            "text-yellow-500"@,
            "Configured, not currently connected"@,
        ),
        !status.running && !status.configured ==> r.shows("text-muted"@, "Setup required"@),
{
    if status.running {
        StatusText::fixed("status-ok", "Connected")
    } else if status.configured {
        StatusText::fixed("text-yellow-500", "Configured, not currently connected")
    } else {
        StatusText::fixed("text-muted", "Setup required")
    }
}

/// Whether the instructions for a first connection are shown.
pub fn musicassistant_needs_setup(status: Option<&MusicAssistantStatus>) -> (r: bool)
    ensures
        r == (status is None || !status->0.configured),
{
    match status {
        Some(status) => !status.configured,
        None => true,
    }
}

/// The line that names the current endpoint.
pub fn musicassistant_endpoint_line(endpoint: &MusicAssistantEndpoint) -> (r: String)
    ensures
        r@ == "Current endpoint: "@ + (if endpoint.tls {
            "HTTPS"@
        } else {
            "HTTP"@
        }) + "://"@ + endpoint.host@ + (":"@ + decimal(endpoint.port as nat)),
{
    let scheme = if endpoint.tls {
        "HTTPS"
    } else {
        "HTTP"
    };
    let number = number(endpoint.port as u64);
    let port = crate::text::cat2(":", number.as_str());
    cat5("Current endpoint: ", scheme, "://", endpoint.host.as_str(), port.as_str())
}

/// The text on a save button.
pub fn save_label(action: ProviderActionState, busy: &'static str, idle: &'static str) -> (r:
    &'static str)
    ensures
        r@ == (if action == ProviderActionState::Loading {
            busy@
        } else {
            idle@
        }),
{
    if action == ProviderActionState::Loading {
        busy
    } else {
        idle
    }
}

// ── MQTT ────────────────────────────────────────────────────────────────────

/// The state of the MQTT publisher.
#[derive(Debug)]
pub struct MqttStatus {
    pub configured: bool,
    pub running: bool,
    pub host: Option<String>,
    pub port: Option<u16>,
    pub tls: Option<bool>,
    pub base_topic: Option<String>,
    pub discovery_prefix: Option<String>,
    /// The add-on's environment supplies the broker.
    pub environment_managed: bool,
}

/// Whether the broker's settings come from the add-on's environment, by the source
/// that the bridge names for them.
pub fn from_environment(source: Option<&str>) -> (r: bool)
    ensures
        r == (opt_str(source) == Some("environment"@)),
{
    match source {
        Some(source) => same(source, "environment"),
        None => false,
    }
}

/// What is sent to connect a broker.
pub struct MqttConfigureRequest {
    pub host: String,
    pub port: Option<u16>,
    pub tls: bool,
    pub username: Option<String>,
    pub password: Option<String>,
    pub base_topic: Option<String>,
    pub discovery_prefix: Option<String>,
}

/// The broker form.
pub struct MqttForm {
    pub action: ProviderActionState,
    pub error: Option<String>,
    pub host: String,
    pub port: String,
    pub username: String,
    pub password: String,
    pub base_topic: String,
    pub discovery_prefix: String,
    pub tls: bool,
    pub info_open: bool,
    /// The user asked for the form although the add-on supplies the broker.
    pub manual_open: bool,
}

/// The text, or what stands there already where there is none.
pub open spec fn replaced(current: Seq<char>, new: Option<String>) -> Seq<char> {
    match new {
        Some(text) => text@,
        None => current,
    }
}

impl MqttForm {
    pub fn new() -> (r: Self)
        ensures
            r.action == ProviderActionState::Idle,
            r.error is None,
            r.host@.len() == 0 && r.port@.len() == 0 && r.username@.len() == 0
                && r.password@.len() == 0,
            r.base_topic@ == "unified-hifi"@,
            r.discovery_prefix@ == "homeassistant"@,
            !r.tls && !r.info_open && !r.manual_open,
    {
        MqttForm {
            action: ProviderActionState::Idle,
            error: None,
            host: String::new(),
            port: String::new(),
            username: String::new(),
            password: String::new(),
            base_topic: "unified-hifi".to_owned(),
            discovery_prefix: "homeassistant".to_owned(),
            tls: false,
            info_open: false,
            manual_open: false,
        }
    }

    /// Fills the form from what the bridge reports; what it does not report stays.
    pub fn fill(&mut self, status: &MqttStatus)
        ensures
            final(self).host@ == replaced(old(self).host@, status.host),
            final(self).port@ == (match status.port {
                Some(port) => decimal(port as nat),
                None => old(self).port@,
            }),
            final(self).tls == (match status.tls {
                Some(tls) => tls,
                None => old(self).tls,
            }),
            final(self).base_topic@ == replaced(old(self).base_topic@, status.base_topic),
            final(self).discovery_prefix@ == replaced(
                old(self).discovery_prefix@,
                status.discovery_prefix,
            ),
            *final(self) == (MqttForm {
                host: final(self).host,
                port: final(self).port,
                tls: final(self).tls,
                base_topic: final(self).base_topic,
                discovery_prefix: final(self).discovery_prefix,
                ..*old(self)
            }),
    {
        if let Some(host) = &status.host {
            self.host = host.clone();
        }
        if let Some(port) = status.port {
            self.port = number(port as u64);
        }
        if let Some(tls) = status.tls {
            self.tls = tls;
        }
        if let Some(base_topic) = &status.base_topic {
            self.base_topic = base_topic.clone();
        }
        if let Some(discovery_prefix) = &status.discovery_prefix {
            self.discovery_prefix = discovery_prefix.clone();
        }
    }

    /// Save was pressed. Without a host nothing is sent. A port that cannot be read
    /// and blank optional fields are left out of the request.
    pub fn save(&mut self) -> (r: Option<MqttConfigureRequest>)
        ensures
            *final(self) == (MqttForm {
                action: final(self).action,
                error: final(self).error,
                ..*old(self)
            }),
            r is Some <==> trimmed(old(self).host@).len() > 0,
            r is None ==> final(self).action == ProviderActionState::Failed && opt_text(
                final(self).error,
            ) == Some("Enter an MQTT broker host."@),
            r is Some ==> {
                &&& final(self).action == ProviderActionState::Loading
                &&& final(self).error is None
                &&& r->0.host@ == trimmed(old(self).host@)
                &&& (match r->0.port {
                    Some(port) => parsed_unsigned(trimmed(old(self).port@), 65535) == Some(
                        port as int,
                    ),
                    None => parsed_unsigned(trimmed(old(self).port@), 65535) is None,
                })
                &&& r->0.tls == old(self).tls
                &&& opt_text(r->0.username) == nonblank(old(self).username@)
                &&& opt_text(r->0.password) == nonblank(old(self).password@)
                &&& opt_text(r->0.base_topic) == nonblank(old(self).base_topic@)
                &&& opt_text(r->0.discovery_prefix) == nonblank(old(self).discovery_prefix@)
            },
    {
        let host = trim(self.host.as_str());
        if host.as_str().is_empty() {
            self.action = ProviderActionState::Failed;
            self.error = Some("Enter an MQTT broker host.".to_owned());
            return None;
        }
        let port_text = trim(self.port.as_str());
        let request = MqttConfigureRequest {
            host,
            port: parse_port(port_text.as_str()),
            tls: self.tls,
            username: non_empty(trim(self.username.as_str())),
            password: non_empty(trim(self.password.as_str())),
            base_topic: non_empty(trim(self.base_topic.as_str())),
            discovery_prefix: non_empty(trim(self.discovery_prefix.as_str())),
        };
        self.action = ProviderActionState::Loading;
        self.error = None;
        Some(request)
    }

    /// The answer to a save. After a success the password leaves the form.
    pub fn save_answered(&mut self, answer: Result<(), String>) -> (refresh: bool)
        ensures
            refresh == (answer is Ok),
            match answer {
                Ok(_) => final(self).password@.len() == 0 && *final(self) == (MqttForm {
                    action: ProviderActionState::Success,
                    password: final(self).password,
                    ..*old(self)
                }),
                Err(error) => *final(self) == (MqttForm {
                    action: ProviderActionState::Failed,
                    error: Some(error),
                    ..*old(self)
                }),
            },
    {
        match answer {
            Ok(_) => {
                self.action = ProviderActionState::Success;
                self.password = String::new();
                true
            },
            Err(error) => {
                self.action = ProviderActionState::Failed;
                self.error = Some(error);
                false
            },
        }
    }

    /// Whether the form is shown. Where the add-on supplies the broker there is
    /// nothing to fill in, so it waits until it is asked for.
    pub fn shows_form(&self, status: Option<&MqttStatus>) -> (r: bool)
        ensures
            r == (!(status is Some && status->0.environment_managed) || self.manual_open),
    {
        let managed = match status {
            Some(status) => status.environment_managed,
            None => false,
        };
        !managed || self.manual_open
    }

    /// The class of the explanation's panel.
    pub fn info_panel_class(&self) -> (r: &'static str)
        ensures
            r@ == (if self.info_open {
                "absolute left-0 top-full z-20 mt-1 w-80 max-w-[85vw] rounded-md border border-default bg-elevated p-3 text-left text-xs text-secondary shadow-lg"@
            } else {
                "absolute left-0 top-full z-20 mt-1 w-80 max-w-[85vw] rounded-md border border-default bg-elevated p-3 text-left text-xs text-secondary shadow-lg hidden group-hover:block"@
            }),
    {
        if self.info_open {
            "absolute left-0 top-full z-20 mt-1 w-80 max-w-[85vw] rounded-md border border-default bg-elevated p-3 text-left text-xs text-secondary shadow-lg"
        } else {
            "absolute left-0 top-full z-20 mt-1 w-80 max-w-[85vw] rounded-md border border-default bg-elevated p-3 text-left text-xs text-secondary shadow-lg hidden group-hover:block"
        }
    }
}

/// The state of the publisher in words, with a second line where there is one.
pub struct MqttStateLines {
    pub first: StatusText,
    pub second: Option<StatusText>,
}

/// The state of the publisher in words.
pub fn mqtt_state(status: &MqttStatus) -> (r: MqttStateLines)
    ensures
        status.environment_managed ==> {
            &&& r.first.shows("font-medium"@, "Set up by the Home Assistant add-on"@)
            &&& r.second is Some
            &&& if status.running {
                r.second->0.shows(
                    "mt-1 status-ok"@,
                    "Connected — your zones are in Home Assistant"@,
                )
            } else {
                r.second->0.shows("mt-1 text-yellow-500"@, "Not connected to the broker yet"@)
            }
        },
        !status.environment_managed && status.running ==> r.second is None && r.first.shows(
            "status-ok"@,
            "Connected — your zones are in Home Assistant"@,
        ),
        !status.environment_managed && !status.running && status.configured ==> r.second is None
            && r.first.shows("text-yellow-500"@, "Configured, not currently connected"@),
        !status.environment_managed && !status.running && !status.configured ==> {
            &&& r.first.shows("font-medium"@, "No broker yet — nothing is being published"@)
            &&& r.second is Some
            &&& r.second->0.shows(
                "mt-1 text-secondary"@,
                "Add your broker below and your zones and controllers show up in Home Assistant as entities."@,
            )
        },
{
    if status.environment_managed {
        let second = if status.running {
            StatusText::fixed("mt-1 status-ok", "Connected — your zones are in Home Assistant")
        } else {
            StatusText::fixed("mt-1 text-yellow-500", "Not connected to the broker yet")
        };
        MqttStateLines {
            first: StatusText::fixed("font-medium", "Set up by the Home Assistant add-on"),
            second: Some(second),
        }
    } else if status.running {
        MqttStateLines {
            first: StatusText::fixed("status-ok", "Connected — your zones are in Home Assistant"),
            second: None,
        }
    } else if status.configured {
        MqttStateLines {
            first: StatusText::fixed("text-yellow-500", "Configured, not currently connected"),
            second: None,
        }
    } else {
        MqttStateLines {
            first: StatusText::fixed("font-medium", "No broker yet — nothing is being published"),
            second: Some(
                StatusText::fixed(
                    "mt-1 text-secondary",
                    "Add your broker below and your zones and controllers show up in Home Assistant as entities.",
                ),
            ),
        }
    }
}

/// The line that names the current broker.
pub fn broker_line(status: &MqttStatus) -> (r: Option<String>)
    ensures
        opt_text(r) == (match status.host {
            Some(host) => Some(
                "Current broker: "@ + (if status.tls == Some(true) {
                    "mqtts://"@
                } else {
                    "mqtt://"@
                }) + host@ + ":"@ + decimal(
                    match status.port {
                        Some(port) => port as nat,
                        None => 0,
                    },
                ),
            ),
            None => None,
        }),
{
    match &status.host {
        Some(host) => {
            let scheme = match status.tls {
                Some(true) => "mqtts://",
                _ => "mqtt://",
            };
            let port = number(
                match status.port {
                    Some(port) => port as u64,
                    None => 0,
                },
            );
            Some(cat5("Current broker: ", scheme, host.as_str(), ":", port.as_str()))
        },
        None => None,
    }
}

/// A port is usable just where the text spells a number from one to the largest port,
/// white space around it set aside.
pub proof fn ports_are_numbers_but_zero(port: nat, text: Seq<char>)
    ensures
        1 <= port <= 65535 && trimmed(text) == crate::text::decimal(port) ==> usable_port(text)
            == Some(port as int),
        (port == 0 || port > 65535) && trimmed(text) == crate::text::decimal(port) ==> usable_port(
            text,
        ) is None,
        trimmed(text).len() == 0 ==> usable_port(text) is None,
        usable_port(text) is Some ==> 1 <= usable_port(text)->0 <= 65535,
{
    crate::text::written_number_reads_back(port, 65535);
    let s = trimmed(text);
    if usable_port(text) is Some {
        crate::text::numbers_are_runs_of_digits(s, 65535);
        crate::text::read_numbers_are_natural(s, 65535);
    }
}

/// A value that the bridge gives replaces the one in the form; where it gives none, the
/// one in the form stays.
pub proof fn given_values_replace(current: Seq<char>, new: Option<String>)
    ensures
        new is Some ==> replaced(current, new) == new->0@,
        new is None ==> replaced(current, new) == current,
{
}

} // verus!
