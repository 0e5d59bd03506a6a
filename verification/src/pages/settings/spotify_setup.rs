//! Setting up Spotify: the four-step onboarding, the temporary HTTPS address for
//! the sign-in, and the account that results.
//!
//! Steps one and two happen in Spotify's own dashboard, where nothing can be
//! observed, so the user attests them. Steps three and four follow from what the
//! bridge reports.

use crate::markup::StatusText;
use crate::pages::settings::{action_message, ProviderActionState};
use crate::text::{
    cat2, cat3, contains, decimal, non_empty, number, occurs_in, opt_text, same, trim, trimmed,
};
use vstd::prelude::*;

verus! {

/// The callback address that works when browser and bridge share a machine.
pub const DEFAULT_SPOTIFY_REDIRECT_URI: &'static str =
    "http://127.0.0.1:8088/api/providers/spotify/oauth/callback";

/// The callback address that works when browser and bridge share a machine.
pub fn default_spotify_redirect_uri() -> (r: String)
    ensures
        r@ == DEFAULT_SPOTIFY_REDIRECT_URI@,
{
    DEFAULT_SPOTIFY_REDIRECT_URI.to_owned()
}

// ── The tunnel ──────────────────────────────────────────────────────────────

/// The state of the temporary HTTPS address.
#[derive(Debug)]
pub struct SpotifyTunnelStatus {
    pub phase: String,
    pub url: Option<String>,
    pub provider: Option<String>,
    pub message: Option<String>,
    pub seconds_remaining: Option<u64>,
    /// Whether the address answered when it was checked from outside.
    pub verified: Option<bool>,
}

impl Default for SpotifyTunnelStatus {
    fn default() -> (r: Self)
        ensures
            r.phase@.len() == 0,
            r.url is None,
            r.provider is None,
            r.message is None,
            r.seconds_remaining is None,
            r.verified is None,
    {
        SpotifyTunnelStatus {
            phase: String::new(),
            url: None,
            provider: None,
            message: None,
            seconds_remaining: None,
            verified: None,
        }
    }
}

/// Whole minutes of a time that is left, never less than one.
pub open spec fn minutes_left(seconds: int) -> int {
    if seconds < 120 {
        1
    } else {
        seconds / 60
    }
}

/// A time of `m` minutes and some seconds has `m` minutes left, and one below a minute
/// still one.
pub proof fn minutes_run_down_to_one(m: int, s: int)
    requires
        0 <= m,
        0 <= s < 60,
    ensures
        m >= 1 ==> minutes_left(m * 60 + s) == m,
        m == 0 ==> minutes_left(s) == 1,
{
}

/// The callback address below a tunnel's address.
pub open spec fn callback_of(url: Seq<char>) -> Seq<char> {
    url + "/api/providers/spotify/oauth/callback"@
}

impl SpotifyTunnelStatus {
    pub open spec fn active(self) -> bool {
        self.phase@ == "active"@
    }

    pub open spec fn starting(self) -> bool {
        self.phase@ == "starting"@
    }

    pub open spec fn failed(self) -> bool {
        self.phase@ == "error"@
    }

    /// The callback address of the live tunnel, empty where there is none.
    pub open spec fn callback_text(self) -> Seq<char> {
        match self.url {
            Some(url) => callback_of(url@),
            None => Seq::empty(),
        }
    }

    pub fn is_active(&self) -> (r: bool)
        ensures
            r == self.active(),
    {
        same(self.phase.as_str(), "active")
    }

    pub fn is_starting(&self) -> (r: bool)
        ensures
            r == self.starting(),
    {
        same(self.phase.as_str(), "starting")
    }

    pub fn is_error(&self) -> (r: bool)
        ensures
            r == self.failed(),
    {
        same(self.phase.as_str(), "error")
    }

    /// The state that stands for a start that failed.
    pub fn start_failed(error: String) -> (r: Self)
        ensures
            r.failed(),
            r.message == Some(error),
            r.url is None,
            r.provider is None,
            r.seconds_remaining is None,
            r.verified is None,
    {
        SpotifyTunnelStatus {
            phase: "error".to_owned(),
            url: None,
            provider: None,
            message: Some(error),
            seconds_remaining: None,
            verified: None,
        }
    }

    /// Who relays the tunnel.
    pub fn provider_label(&self) -> (r: String)
        ensures
            r@ == (match self.provider {
                Some(provider) => provider@,
                None => "a public relay"@,
            }),
    {
        match &self.provider {
            Some(provider) => provider.clone(),
            None => "a public relay".to_owned(),
        }
    }

    /// The message of a tunnel that failed.
    pub fn error_message(&self) -> (r: Option<String>)
        ensures
            opt_text(r) == (if self.failed() {
                opt_text(self.message)
            } else {
                None
            }),
    {
        if self.is_error() {
            self.message.clone()
        } else {
            None
        }
    }

    /// Whole minutes until the tunnel closes, never less than one.
    pub fn minutes_remaining(&self) -> (r: Option<u64>)
        ensures
            r is Some <==> self.seconds_remaining is Some,
            r is Some ==> r->0 == minutes_left(self.seconds_remaining->0 as int),
            r == (match self.seconds_remaining {
                Some(seconds) => Some(
                    if seconds < 120 {
                        1u64
                    } else {
                        (seconds as int / 60) as u64
                    },
                ),
                None => None,
            }),
    {
        match self.seconds_remaining {
            Some(seconds) => {
                let minutes: u64 = seconds / 60;
                Some(
                    if minutes < 1 {
                        1
                    } else {
                        minutes
                    },
                )
            },
            None => None,
        }
    }

    /// The tunnel's callback address, empty where there is no tunnel.
    pub fn callback(&self) -> (r: String)
        ensures
            r@ == self.callback_text(),
    {
        match &self.url {
            Some(url) => cat2(url.as_str(), "/api/providers/spotify/oauth/callback"),
            None => String::new(),
        }
    }
}

/// The sentence on whether the tunnel's address answers from outside.
pub fn verification_text(verified: Option<bool>) -> (r: StatusText)
    ensures
        verified == Some(true) ==> r.shows(
            "mt-2 text-xs status-ok"@,
            "✓ Checked: this address answers from the internet."@,
        ),
        verified == Some(false) ==> r.shows(
            "mt-2 text-xs status-err"@,
            "This address did not answer when UHC checked it from the internet. Stop it and try again before adding it to Spotify."@,
        ),
        verified is None ==> r.shows(
            "mt-2 text-xs text-muted"@,
            "Checking that this address answers from the internet…"@,
        ),
{
    match verified {
        Some(true) => StatusText::fixed(
            "mt-2 text-xs status-ok",
            "✓ Checked: this address answers from the internet.",
        ),
        Some(false) => StatusText::fixed(
            "mt-2 text-xs status-err",
            "This address did not answer when UHC checked it from the internet. Stop it and try again before adding it to Spotify.",
        ),
        None => StatusText::fixed(
            "mt-2 text-xs text-muted",
            "Checking that this address answers from the internet…",
        ),
    }
}

/// The text on the button that opens a tunnel.
pub fn open_tunnel_label(tunnel: &SpotifyTunnelStatus) -> (r: String)
    ensures
        r@ == (if tunnel.starting() {
            "Opening an address via "@ + (match tunnel.provider {
                Some(provider) => provider@,
                None => "a public relay"@,
            }) + "…"@
        } else {
            "Get an HTTPS address"@
        }),
{
    if tunnel.is_starting() {
        let provider = tunnel.provider_label();
        cat3("Opening an address via ", provider.as_str(), "…")
    } else {
        "Get an HTTPS address".to_owned()
    }
}

/// The tunnel as the page follows it: its last known state, whether a start or
/// stop is under way, and whether a poll loop runs.
pub struct TunnelWatch {
    pub status: SpotifyTunnelStatus,
    pub busy: bool,
    pub polling: bool,
}

impl TunnelWatch {
    pub fn new() -> (r: Self)
        ensures
            !r.busy,
            !r.polling,
            r.status.phase@.len() == 0,
            r.status.url is None && r.status.provider is None && r.status.message is None,
            r.status.seconds_remaining is None && r.status.verified is None,
    {
        TunnelWatch { status: SpotifyTunnelStatus::default(), busy: false, polling: false }
    }

    /// Starts the poll loop that keeps an active tunnel's state fresh. There is one
    /// loop at a time, and none while the tunnel is not active.
    pub fn start_polling(&mut self) -> (start: bool)
        ensures
            start == (old(self).status.active() && !old(self).polling),
            final(self).polling == (old(self).polling || start),
            final(self).status == old(self).status,
            final(self).busy == old(self).busy,
    {
        if !self.status.is_active() || self.polling {
            return false;
        }
        self.polling = true;
        true
    }

    /// One poll came back. The loop goes on exactly while the tunnel is active; a
    /// poll that fails ends it and leaves the last known state.
    pub fn polled(&mut self, answer: Option<SpotifyTunnelStatus>) -> (go_on: bool)
        ensures
            go_on == (answer is Some && answer->0.active()),
            final(self).polling == (old(self).polling && go_on),
            final(self).busy == old(self).busy,
            answer is Some ==> final(self).status == answer->0,
            answer is None ==> final(self).status == old(self).status,
    {
        let go_on = match answer {
            Some(status) => {
                let active = status.is_active();
                self.status = status;
                active
            },
            None => false,
        };
        if !go_on {
            self.polling = false;
        }
        go_on
    }

    /// A start or stop was asked for.
    pub fn request(&mut self)
        ensures
            *final(self) == (TunnelWatch { busy: true, ..*old(self) }),
    {
        self.busy = true;
    }

    /// The answer to a start, or to a look at a tunnel that is starting. While it
    /// is starting the page looks again and stays busy. An error without text (one
    /// that is shown elsewhere) leaves the state.
    pub fn start_answered(&mut self, answer: Result<SpotifyTunnelStatus, Option<String>>) -> (look_again:
        bool)
        ensures
            final(self).polling == old(self).polling,
            final(self).busy == (old(self).busy && look_again),
            match answer {
                Ok(status) => look_again == status.starting() && final(self).status == status,
                Err(Some(error)) => {
                    &&& !look_again
                    &&& final(self).status.failed()
                    &&& final(self).status.message == Some(error)
                    &&& final(self).status.url is None
                    &&& final(self).status.provider is None
                    &&& final(self).status.seconds_remaining is None
                    &&& final(self).status.verified is None
                },
                Err(None) => !look_again && final(self).status == old(self).status,
            },
    {
        let look_again = match answer {
            Ok(status) => {
                let starting = status.is_starting();
                self.status = status;
                starting
            },
            Err(Some(error)) => {
                self.status = SpotifyTunnelStatus::start_failed(error);
                false
            },
            Err(None) => false,
        };
        if !look_again {
            self.busy = false;
        }
        look_again
    }

    /// The answer to a stop.
    pub fn stop_answered(&mut self, answer: Option<SpotifyTunnelStatus>)
        ensures
            !final(self).busy,
            final(self).polling == old(self).polling,
            answer is Some ==> final(self).status == answer->0,
            answer is None ==> final(self).status == old(self).status,
    {
        if let Some(status) = answer {
            self.status = status;
        }
        self.busy = false;
    }
}

// ── The client settings form ────────────────────────────────────────────────

/// What is sent to save the client settings.
pub struct SpotifyConfigureRequest {
    pub client_id: String,
    pub client_secret: Option<String>,
    pub redirect_uri: Option<String>,
}

/// Which action a status message belongs to, so that it is shown in that step.
#[derive(Clone, Copy, Debug, PartialEq, Eq, Structural)]
pub enum ActionScope {
    Nothing,
    Save,
    Connect,
    Disconnect,
}

/// The state of the onboarding.
pub struct SpotifySetup {
    pub action: ProviderActionState,
    pub error: Option<String>,
    pub scope: ActionScope,
    /// The settings shown here were accepted by the bridge.
    pub local_setup_saved: bool,
    /// The user says that the Spotify app exists.
    pub app_done: bool,
    /// The user says that the callback address is registered.
    pub callback_done: bool,
    /// A completed step that is open again.
    pub reopened: Option<u8>,
    /// The step whose explanation is pinned open.
    pub info_open: Option<u8>,
    /// What is shown differs from what was last saved.
    pub resave_needed: bool,
    pub client_id: String,
    pub client_secret: String,
    pub redirect_uri: String,
}

/// Nothing but the action's state differs.
pub open spec fn same_form(a: SpotifySetup, b: SpotifySetup) -> bool {
    &&& a.local_setup_saved == b.local_setup_saved
    &&& a.app_done == b.app_done
    &&& a.callback_done == b.callback_done
    &&& a.reopened == b.reopened
    &&& a.info_open == b.info_open
    &&& a.resave_needed == b.resave_needed
    &&& a.client_id == b.client_id
    &&& a.client_secret == b.client_secret
    &&& a.redirect_uri == b.redirect_uri
}

/// What was typed and what was ticked outlives an action that keeps the form.
pub proof fn kept_forms_keep_what_was_typed(a: SpotifySetup, b: SpotifySetup)
    requires
        same_form(a, b),
    ensures
        a.client_id == b.client_id && a.client_secret == b.client_secret && a.redirect_uri
            == b.redirect_uri,
        a.app_done == b.app_done && a.callback_done == b.callback_done,
        a.local_setup_saved == b.local_setup_saved && a.resave_needed == b.resave_needed,
        a.reopened == b.reopened && a.info_open == b.info_open,
{
}

impl SpotifySetup {
    pub fn new() -> (r: Self)
        ensures
            r.action == ProviderActionState::Idle,
            r.error is None,
            r.scope == ActionScope::Nothing,
            !r.local_setup_saved && !r.app_done && !r.callback_done && !r.resave_needed,
            r.reopened is None && r.info_open is None,
            r.client_id@.len() == 0 && r.client_secret@.len() == 0,
            r.redirect_uri@ == DEFAULT_SPOTIFY_REDIRECT_URI@,
    {
        SpotifySetup {
            action: ProviderActionState::Idle,
            error: None,
            scope: ActionScope::Nothing,
            local_setup_saved: false,
            app_done: false,
            callback_done: false,
            reopened: None,
            info_open: None,
            resave_needed: false,
            client_id: String::new(),
            client_secret: String::new(),
            redirect_uri: default_spotify_redirect_uri(),
        }
    }

    /// Whether the redirect field may be filled in: it is blank or still holds the
    /// default. An address that the user entered is never replaced.
    pub open spec fn redirect_untouched(self) -> bool {
        trimmed(self.redirect_uri@).len() == 0 || self.redirect_uri@
            == DEFAULT_SPOTIFY_REDIRECT_URI@
    }

    /// A tunnel's address is known: it is offered in the redirect field where the
    /// user has not entered another.
    pub fn offer_tunnel(&mut self, tunnel: &SpotifyTunnelStatus)
        ensures
            tunnel_offered(*old(self), *tunnel, *final(self)),
    {
        if tunnel.url.is_some() {
            let callback = tunnel.callback();
            if !same(self.redirect_uri.as_str(), callback.as_str()) && (trim(
                self.redirect_uri.as_str(),
            ).as_str().is_empty() || same(self.redirect_uri.as_str(), DEFAULT_SPOTIFY_REDIRECT_URI)) {
                self.redirect_uri = callback;
                self.local_setup_saved = false;
            }
        }
    }

    /// The user takes over the tunnel's address; it then has to be saved again.
    pub fn use_tunnel_address(&mut self, tunnel: &SpotifyTunnelStatus)
        ensures
            final(self).redirect_uri@ == tunnel.callback_text(),
            *final(self) == (SpotifySetup {
                redirect_uri: final(self).redirect_uri,
                local_setup_saved: false,
                resave_needed: true,
                ..*old(self)
            }),
    {
        self.redirect_uri = tunnel.callback();
        self.local_setup_saved = false;
        self.resave_needed = true;
    }

    /// The user edits the client id.
    pub fn edit_client_id(&mut self, text: String)
        ensures
            *final(self) == (SpotifySetup {
                client_id: text,
                local_setup_saved: false,
                resave_needed: true,
                ..*old(self)
            }),
    {
        self.local_setup_saved = false;
        self.resave_needed = true;
        self.client_id = text;
    }

    /// The user edits the client secret.
    pub fn edit_client_secret(&mut self, text: String)
        ensures
            *final(self) == (SpotifySetup {
                client_secret: text,
                local_setup_saved: false,
                resave_needed: true,
                ..*old(self)
            }),
    {
        self.local_setup_saved = false;
        self.resave_needed = true;
        self.client_secret = text;
    }

    /// The user edits the redirect address.
    pub fn edit_redirect_uri(&mut self, text: String)
        ensures
            *final(self) == (SpotifySetup {
                redirect_uri: text,
                local_setup_saved: false,
                resave_needed: true,
                ..*old(self)
            }),
    {
        self.local_setup_saved = false;
        self.resave_needed = true;
        self.redirect_uri = text;
    }

    /// The user attests that the Spotify app exists.
    pub fn attest_app(&mut self)
        ensures
            *final(self) == (SpotifySetup { app_done: true, reopened: None, ..*old(self) }),
    {
        self.app_done = true;
        self.reopened = None;
    }

    /// The user attests that the callback address is registered.
    pub fn attest_callback(&mut self)
        ensures
            *final(self) == (SpotifySetup { callback_done: true, reopened: None, ..*old(self) }),
    {
        self.callback_done = true;
        self.reopened = None;
    }

    /// A step's heading was pressed: it opens again, or closes where it was.
    pub fn toggle_step(&mut self, step: u8)
        ensures
            *final(self) == (SpotifySetup {
                reopened: if old(self).reopened == Some(step) {
                    None
                } else {
                    Some(step)
                },
                ..*old(self)
            }),
    {
        self.reopened = toggled_pin(self.reopened, step);
    }

    /// A step's explanation was pressed.
    pub fn toggle_info(&mut self, step: u8)
        ensures
            *final(self) == (SpotifySetup {
                info_open: if old(self).info_open == Some(step) {
                    None
                } else {
                    Some(step)
                },
                ..*old(self)
            }),
    {
        self.info_open = toggled_pin(self.info_open, step);
    }

    fn begin(&mut self, scope: ActionScope)
        ensures
            *final(self) == (SpotifySetup {
                action: ProviderActionState::Loading,
                error: None,
                scope,
                ..*old(self)
            }),
    {
        self.scope = scope;
        self.action = ProviderActionState::Loading;
        self.error = None;
    }

    fn fail(&mut self, error: Option<String>)
        ensures
            *final(self) == (SpotifySetup {
                action: ProviderActionState::Failed,
                error,
                ..*old(self)
            }),
    {
        self.action = ProviderActionState::Failed;
        self.error = error;
    }

    /// Save was pressed. Without a client id nothing is sent. Blank optional fields
    /// are left out of the request.
    pub fn save(&mut self) -> (r: Option<SpotifyConfigureRequest>)
        ensures
            same_form(*final(self), *old(self)),
            final(self).scope == ActionScope::Save,
            r is Some <==> trimmed(old(self).client_id@).len() > 0,
            r is None ==> final(self).action == ProviderActionState::Failed && opt_text(
                final(self).error,
            ) == Some("Enter your Client ID first."@),
            r is Some ==> {
                &&& final(self).action == ProviderActionState::Loading
                &&& final(self).error is None
                &&& r->0.client_id@ == trimmed(old(self).client_id@)
                &&& opt_text(r->0.client_secret) == nonblank(old(self).client_secret@)
                &&& opt_text(r->0.redirect_uri) == nonblank(old(self).redirect_uri@)
            },
    {
        let client_id = trim(self.client_id.as_str());
        let client_secret = trim(self.client_secret.as_str());
        let redirect_uri = trim(self.redirect_uri.as_str());
        self.scope = ActionScope::Save;
        if client_id.as_str().is_empty() {
            self.fail(Some("Enter your Client ID first.".to_owned()));
            return None;
        }
        self.begin(ActionScope::Save);
        Some(
            SpotifyConfigureRequest {
                client_id,
                client_secret: non_empty(client_secret),
                redirect_uri: non_empty(redirect_uri),
            },
        )
    }

    /// The answer to a save. Where it was accepted, what is shown is saved, and the
    /// page goes on to the next step.
    pub fn save_answered(&mut self, answer: Result<bool, Option<String>>) -> (go_on: bool)
        ensures
            go_on == (answer == Ok::<bool, Option<String>>(true)),
            final(self).scope == old(self).scope,
            match answer {
                Ok(configured) => if configured {
                    *final(self) == (SpotifySetup {
                        action: ProviderActionState::Success,
                        local_setup_saved: true,
                        resave_needed: false,
                        reopened: None,
                        ..*old(self)
                    })
                } else {
                    same_form(*final(self), *old(self)) && final(self).action
                        == ProviderActionState::Failed && opt_text(final(self).error) == Some(
                        "Spotify configuration was not accepted."@,
                    )
                },
                Err(error) => *final(self) == (SpotifySetup {
                    action: ProviderActionState::Failed,
                    error,
                    ..*old(self)
                }),
            },
    {
        match answer {
            Ok(configured) => if configured {
                self.action = ProviderActionState::Success;
                self.local_setup_saved = true;
                self.resave_needed = false;
                self.reopened = None;
                true
            } else {
                self.fail(Some("Spotify configuration was not accepted.".to_owned()));
                false
            },
            Err(error) => {
                self.fail(error);
                false
            },
        }
    }

    /// Connect was pressed.
    pub fn connect(&mut self)
        ensures
            *final(self) == (SpotifySetup {
                action: ProviderActionState::Loading,
                error: None,
                scope: ActionScope::Connect,
                ..*old(self)
            }),
    {
        self.begin(ActionScope::Connect);
    }

    /// The answer to a connect: where it holds an address, the browser goes there.
    pub fn connect_answered(&mut self, answer: Result<String, Option<String>>) -> (go: Option<String>)
        ensures
            same_form(*final(self), *old(self)),
            final(self).scope == old(self).scope,
            match answer {
                Ok(url) => if url@.len() > 0 {
                    go == Some(url) && *final(self) == *old(self)
                } else {
                    go is None && final(self).action == ProviderActionState::Failed && opt_text(
                        final(self).error,
                    ) == Some("Spotify did not return an authorization URL."@)
                },
                Err(error) => go is None && final(self).action == ProviderActionState::Failed
                    && final(self).error == error,
            },
    {
        match answer {
            Ok(url) => if !url.as_str().is_empty() {
                Some(url)
            } else {
                self.fail(Some("Spotify did not return an authorization URL.".to_owned()));
                None
            },
            Err(error) => {
                self.fail(error);
                None
            },
        }
    }

    /// The browser could not go to the sign-in page.
    pub fn redirect_failed(&mut self, error: String)
        ensures
            *final(self) == (SpotifySetup {
                action: ProviderActionState::Failed,
                error: Some(error),
                ..*old(self)
            }),
    {
        self.fail(Some(error));
    }

    /// Disconnect was pressed.
    pub fn disconnect(&mut self)
        ensures
            *final(self) == (SpotifySetup {
                action: ProviderActionState::Loading,
                error: None,
                scope: ActionScope::Disconnect,
                ..*old(self)
            }),
    {
        self.begin(ActionScope::Disconnect);
    }

    /// The answer to a disconnect. After a success the zones are fetched again.
    pub fn disconnect_answered(&mut self, answer: Result<(), Option<String>>) -> (refresh: bool)
        ensures
            refresh == (answer is Ok),
            match answer {
                Ok(_) => *final(self) == (SpotifySetup {
                    action: ProviderActionState::Success,
                    ..*old(self)
                }),
                Err(error) => *final(self) == (SpotifySetup {
                    action: ProviderActionState::Failed,
                    error,
                    ..*old(self)
                }),
            },
    {
        match answer {
            Ok(_) => {
                self.action = ProviderActionState::Success;
                true
            },
            Err(error) => {
                self.fail(error);
                false
            },
        }
    }

    /// The message of the last action: its error, or what its state says.
    pub open spec fn message_text(self) -> Option<Seq<char>> {
        match self.error {
            Some(error) => Some(error@),
            None => action_message(self.action),
        }
    }

    /// The message of the last action.
    pub fn status_message(&self) -> (r: Option<String>)
        ensures
            opt_text(r) == self.message_text(),
    {
        match &self.error {
            Some(error) => Some(error.clone()),
            None => match self.action.message() {
                Some(message) => Some(message.to_owned()),
                None => None,
            },
        }
    }

    /// The message to show in one step: nothing where the last action belongs to
    /// another.
    pub fn status_in(&self, scope: ActionScope) -> (r: Option<String>)
        ensures
            opt_text(r) == (if self.scope == scope {
                self.message_text()
            } else {
                None
            }),
    {
        if self.scope == scope {
            self.status_message()
        } else {
            None
        }
    }
}

fn toggled_pin(pinned: Option<u8>, step: u8) -> (r: Option<u8>)
    ensures
        r == (if pinned == Some(step) {
            None
        } else {
            Some(step)
        }),
{
    if let Some(current) = pinned {
        if current == step {
            return None;
        }
    }
    Some(step)
}

/// The text without surrounding space, where anything is left of it.
pub open spec fn nonblank(text: Seq<char>) -> Option<Seq<char>> {
    if trimmed(text).len() == 0 {
        None
    } else {
        Some(trimmed(text))
    }
}

/// What a tunnel's address does to the form: an untouched redirect field that holds
/// another address takes it over, and what was saved no longer counts. Nothing
/// else changes.
pub open spec fn tunnel_offered(before: SpotifySetup, tunnel: SpotifyTunnelStatus, after: SpotifySetup) -> bool {
    if tunnel.url is Some && before.redirect_untouched() && before.redirect_uri@
        != tunnel.callback_text() {
        &&& after.redirect_uri@ == tunnel.callback_text()
        &&& after == (SpotifySetup {
            redirect_uri: after.redirect_uri,
            local_setup_saved: false,
            ..before
        })
    } else {
        after == before
    }
}

/// An address that the user entered is never replaced by a tunnel's, whatever
/// tunnels come and go, and such an address is what the stepper warns of.
pub proof fn entered_address_is_kept(before: SpotifySetup, tunnel: SpotifyTunnelStatus, after: SpotifySetup)
    requires
        tunnel_offered(before, tunnel, after),
        !before.redirect_untouched(),
    ensures
        after == before,
        tunnel.url is Some && before.redirect_uri@ != tunnel.callback_text() ==> mismatch(
            after,
            tunnel,
        ),
{
}

/// Offering a tunnel's address leaves no mismatch where the field was untouched.
pub proof fn offered_address_matches(before: SpotifySetup, tunnel: SpotifyTunnelStatus, after: SpotifySetup)
    requires
        tunnel_offered(before, tunnel, after),
        before.redirect_untouched(),
    ensures
        !mismatch(after, tunnel),
{
}

// ── The stepper ─────────────────────────────────────────────────────────────

/// What the bridge reports of the Spotify account.
#[derive(Debug)]
pub struct SpotifyAccount {
    pub id: String,
    pub display_name: Option<String>,
    pub email: Option<String>,
}

/// The bridge's answer on the Spotify account.
#[derive(Debug)]
pub struct SpotifyAccountResponse {
    pub configured: bool,
    pub account: Option<SpotifyAccount>,
    pub error: Option<String>,
}

/// The facts that the stepper follows.
#[derive(Clone, Copy, Debug, PartialEq, Eq, Structural)]
pub struct StepFacts {
    pub configured: bool,
    pub connected: bool,
    pub app_done: bool,
    pub callback_done: bool,
    pub resave_needed: bool,
    pub tunnel_mismatch: bool,
}

/// A live tunnel's address differs from the one that the user entered.
pub open spec fn mismatch(setup: SpotifySetup, tunnel: SpotifyTunnelStatus) -> bool {
    tunnel.url is Some && setup.redirect_uri@ != tunnel.callback_text()
        && !setup.redirect_untouched()
}

/// Whether a live tunnel's address differs from the one that the user entered.
pub fn tunnel_mismatch(setup: &SpotifySetup, tunnel: &SpotifyTunnelStatus) -> (r: bool)
    ensures
        r == mismatch(*setup, *tunnel),
{
    tunnel.url.is_some() && !same(setup.redirect_uri.as_str(), tunnel.callback().as_str()) && !trim(
        setup.redirect_uri.as_str(),
    ).as_str().is_empty() && !same(setup.redirect_uri.as_str(), DEFAULT_SPOTIFY_REDIRECT_URI)
}

/// The facts that the stepper follows: an account means connected, and a
/// connected account, a saved form or the bridge's word mean configured.
pub fn step_facts(
    account: Option<&SpotifyAccountResponse>,
    setup: &SpotifySetup,
    tunnel: &SpotifyTunnelStatus,
) -> (r: StepFacts)
    ensures
        r.connected == (account is Some && account->0.account is Some),
        r.configured == ((account is Some && account->0.configured) || r.connected
            || setup.local_setup_saved),
        r.app_done == setup.app_done,
        r.callback_done == setup.callback_done,
        r.resave_needed == setup.resave_needed,
        r.tunnel_mismatch == mismatch(*setup, *tunnel),
{
    let connected = match account {
        Some(response) => response.account.is_some(),
        None => false,
    };
    let reported = match account {
        Some(response) => response.configured,
        None => false,
    };
    StepFacts {
        configured: reported || connected || setup.local_setup_saved,
        connected,
        app_done: setup.app_done,
        callback_done: setup.callback_done,
        resave_needed: setup.resave_needed,
        tunnel_mismatch: tunnel_mismatch(setup, tunnel),
    }
}

impl StepFacts {
    /// Whether a step is done. A tunnel whose address no longer matches reopens
    /// step two, and unsaved edits reopen step three.
    pub open spec fn complete(self, step: int) -> bool {
        if step == 1 {
            self.configured || self.app_done
        } else if step == 2 {
            (self.configured || self.callback_done) && !self.tunnel_mismatch
        } else if step == 3 {
            self.configured && !self.resave_needed
        } else if step == 4 {
            self.connected
        } else {
            true
        }
    }

    /// The step to do next: the first that is not done, five where all are.
    pub open spec fn current(self) -> int {
        if !self.complete(1) {
            1
        } else if !self.complete(2) {
            2
        } else if !self.complete(3) {
            3
        } else if !self.complete(4) {
            4
        } else {
            5
        }
    }

    /// Whether a step is done.
    pub fn is_complete(&self, step: u8) -> (r: bool)
        ensures
            r == self.complete(step as int),
    {
        if step == 1 {
            self.configured || self.app_done
        } else if step == 2 {
            (self.configured || self.callback_done) && !self.tunnel_mismatch
        } else if step == 3 {
            self.configured && !self.resave_needed
        } else if step == 4 {
            self.connected
        } else {
            true
        }
    }

    /// The step to do next.
    pub fn current_step(&self) -> (r: u8)
        ensures
            r == self.current(),
    {
        if !self.is_complete(1) {
            1
        } else if !self.is_complete(2) {
            2
        } else if !self.is_complete(3) {
            3
        } else if !self.is_complete(4) {
            4
        } else {
            5
        }
    }

    /// Whether a step's body is shown.
    pub open spec fn open(self, step: int, reopened: Option<u8>) -> bool {
        self.current() == step || (reopened is Some && reopened->0 == step)
    }

    /// Whether a step's body is shown.
    pub fn is_open(&self, step: u8, reopened: Option<u8>) -> (r: bool)
        ensures
            r == self.open(step as int, reopened),
    {
        self.current_step() == step || match reopened {
            Some(other) => other == step,
            None => false,
        }
    }

    /// The class of a step.
    pub fn step_class(&self, step: u8) -> (r: &'static str)
        ensures
            r@ == (if self.current() == step {
                "relative rounded-md border border-default bg-elevated p-4"@
            } else if self.complete(step as int) {
                "relative rounded-md border border-default p-4"@
            } else {
                "relative rounded-md border border-default p-4 opacity-60"@
            }),
    {
        if self.current_step() == step {
            "relative rounded-md border border-default bg-elevated p-4"
        } else if self.is_complete(step) {
            "relative rounded-md border border-default p-4"
        } else {
            "relative rounded-md border border-default p-4 opacity-60"
        }
    }

    /// The mark in front of a step: a tick, or its number.
    pub fn step_mark(&self, step: u8) -> (r: StatusText)
        ensures
            self.complete(step as int) ==> r.shows(
                "flex h-6 w-6 shrink-0 items-center justify-center rounded-full border border-default text-xs status-ok"@,
                "✓"@,
            ),
            !self.complete(step as int) ==> r.shows(
                "flex h-6 w-6 shrink-0 items-center justify-center rounded-full border border-default text-xs text-muted"@,
                decimal(step as nat),
            ),
    {
        if self.is_complete(step) {
            StatusText::fixed(
                "flex h-6 w-6 shrink-0 items-center justify-center rounded-full border border-default text-xs status-ok",
                "✓",
            )
        } else {
            StatusText {
                class:
                    "flex h-6 w-6 shrink-0 items-center justify-center rounded-full border border-default text-xs text-muted",
                text: number(step as u64),
            }
        }
    }
}

/// Every step before the current one is done, and the current one is not.
pub proof fn current_step_is_first_unfinished(facts: StepFacts, step: int)
    requires
        1 <= step <= 4,
    ensures
        1 <= facts.current() <= 5,
        step < facts.current() ==> facts.complete(step),
        step == facts.current() ==> !facts.complete(step),
{
}

/// Exactly one step is open unless the user opens another: the current one. Once
/// all steps are done, none is.
pub proof fn one_step_open_at_a_time(facts: StepFacts, step: int)
    requires
        1 <= step <= 4,
    ensures
        facts.open(step, None) <==> step == facts.current(),
{
}

/// A connected account needs no attestation: all that can still be open is a
/// changed tunnel address or an unsaved edit.
pub proof fn connected_account_finishes_setup(facts: StepFacts)
    requires
        facts.configured,
        facts.connected,
        !facts.tunnel_mismatch,
        !facts.resave_needed,
    ensures
        facts.current() == 5,
{
}

/// A tunnel whose address changed is never hidden in a closed step: the stepper
/// goes back to the step that warns of it, unless the first is not even done.
pub proof fn changed_tunnel_reopens_registration(facts: StepFacts)
    requires
        facts.tunnel_mismatch,
        facts.complete(1),
    ensures
        facts.current() == 2,
{
}

/// The class of a step's explanation.
pub fn info_panel_class(pinned: Option<u8>, step: u8) -> (r: &'static str)
    ensures
        r@ == (if pinned == Some(step) {
            "absolute right-0 top-full z-20 mt-1 w-72 max-w-[85vw] rounded-md border border-default bg-elevated p-3 text-left text-xs text-secondary shadow-lg"@
        } else {
            "absolute right-0 top-full z-20 mt-1 w-72 max-w-[85vw] rounded-md border border-default bg-elevated p-3 text-left text-xs text-secondary shadow-lg hidden group-hover:block"@
        }),
{
    if let Some(open) = pinned {
        if open == step {
            return
                "absolute right-0 top-full z-20 mt-1 w-72 max-w-[85vw] rounded-md border border-default bg-elevated p-3 text-left text-xs text-secondary shadow-lg";
        }
    }
    "absolute right-0 top-full z-20 mt-1 w-72 max-w-[85vw] rounded-md border border-default bg-elevated p-3 text-left text-xs text-secondary shadow-lg hidden group-hover:block"
}

/// Whether the connect button is disabled.
pub fn connect_disabled(action: ProviderActionState, facts: &StepFacts) -> (r: bool)
    ensures
        r == (action == ProviderActionState::Loading || !facts.complete(3)),
{
    action == ProviderActionState::Loading || !facts.is_complete(3)
}

/// The text on the connect button.
pub fn connect_label(action: ProviderActionState, facts: &StepFacts) -> (r: &'static str)
    ensures
        r@ == (if action == ProviderActionState::Loading {
            "Opening Spotify…"@
        } else if facts.connected {
            "Reconnect Spotify"@
        } else if facts.complete(3) {
            "Connect Spotify"@
        } else {
            "Finish the steps above first"@
        }),
{
    if action == ProviderActionState::Loading {
        "Opening Spotify…"
    } else if facts.connected {
        "Reconnect Spotify"
    } else if facts.is_complete(3) {
        "Connect Spotify"
    } else {
        "Finish the steps above first"
    }
}

/// The word on the Spotify card's badge.
pub open spec fn badge_word(enabled: bool, connected: bool, configured: bool) -> Seq<char> {
    if !enabled {
        "Disabled"@
    } else if connected {
        "Connected"@
    } else if configured {
        "Configured"@
    } else {
        "Setup required"@
    }
}

/// A switched-off adapter is told as such whatever else is known of it, a connected one as
/// connected whether or not it is configured, and one without setup never as configured.
pub proof fn badges_tell_the_furthest_state(connected: bool, configured: bool)
    ensures
        badge_word(false, connected, configured) == "Disabled"@,
        badge_word(true, true, configured) == "Connected"@,
        badge_word(true, false, true) == "Configured"@,
        badge_word(true, false, false) == "Setup required"@,
{
}

/// The badge on the Spotify card.
pub fn spotify_badge(enabled: bool, facts: &StepFacts) -> (r: StatusText)
    ensures
        r.text@ == badge_word(enabled, facts.connected, facts.configured),
        !enabled ==> r.shows("badge badge-secondary shrink-0"@, "Disabled"@),
        enabled && facts.connected ==> r.shows("badge badge-success shrink-0"@, "Connected"@),
        enabled && !facts.connected && facts.configured ==> r.shows(
            "badge badge-secondary shrink-0"@,
            "Configured"@,
        ),
        enabled && !facts.connected && !facts.configured ==> r.shows(
            "badge badge-secondary shrink-0"@,
            "Setup required"@,
        ),
{
    if !enabled {
        StatusText::fixed("badge badge-secondary shrink-0", "Disabled")
    } else if facts.connected {
        StatusText::fixed("badge badge-success shrink-0", "Connected")
    } else if facts.configured {
        StatusText::fixed("badge badge-secondary shrink-0", "Configured")
    } else {
        StatusText::fixed("badge badge-secondary shrink-0", "Setup required")
    }
}

// ── The account ─────────────────────────────────────────────────────────────

/// What the card shows of the account.
pub struct AccountLines {
    pub display: String,
    pub id: String,
    pub email: String,
    pub error: Option<String>,
    /// The error is that the account is not on the app's list of users.
    pub unregistered_user: bool,
}

/// The account's display name, its id where it has none.
pub fn account_lines(response: Option<&SpotifyAccountResponse>) -> (r: AccountLines)
    ensures
        r.display@ == (if response is Some && response->0.account is Some {
            let account = response->0.account->0;
            if account.display_name is Some && account.display_name->0@.len() > 0 {
                account.display_name->0@
            } else {
                account.id@
            }
        } else {
            "Not connected"@
        }),
        r.id@ == (if response is Some && response->0.account is Some {
            response->0.account->0.id@
        } else {
            Seq::empty()
        }),
        r.email@ == (if response is Some && response->0.account is Some
            && response->0.account->0.email is Some && response->0.account->0.email->0@.len() > 0 {
            response->0.account->0.email->0@
        } else {
            "Email unavailable; reconnect Spotify to grant profile access."@
        }),
        opt_text(r.error) == (match response {
            Some(response) => opt_text(response.error),
            None => None,
        }),
        r.unregistered_user == (response is Some && response->0.error is Some && occurs_in(
            response->0.error->0@,
            "not registered for this application"@,
        )),
{
    let no_email = "Email unavailable; reconnect Spotify to grant profile access.";
    let (error, unregistered_user) = match response {
        Some(response) => match &response.error {
            Some(error) => (
                Some(error.clone()),
                contains(error.as_str(), "not registered for this application"),
            ),
            None => (None, false),
        },
        None => (None, false),
    };
    let account = match response {
        Some(response) => response.account.as_ref(),
        None => None,
    };
    match account {
        Some(account) => {
            let display = match &account.display_name {
                Some(name) => if name.as_str().is_empty() {
                    account.id.clone()
                } else {
                    name.clone()
                },
                None => account.id.clone(),
            };
            let email = match &account.email {
                Some(email) => if email.as_str().is_empty() {
                    no_email.to_owned()
                } else {
                    email.clone()
                },
                None => no_email.to_owned(),
            };
            AccountLines { display, id: account.id.clone(), email, error, unregistered_user }
        },
        None => AccountLines {
            display: "Not connected".to_owned(),
            id: String::new(),
            email: no_email.to_owned(),
            error,
            unregistered_user,
        },
    }
}

/// What finishes a step: registering the app or being configured the first, attesting the
/// callback or being configured the second unless the tunnel's address differs, a saved
/// form without edits the third, and an account the fourth.
pub proof fn steps_finish_by_their_own_facts(facts: StepFacts)
    ensures
        facts.complete(1) <==> facts.configured || facts.app_done,
        facts.tunnel_mismatch ==> !facts.complete(2),
        !facts.tunnel_mismatch ==> (facts.complete(2) <==> facts.configured
            || facts.callback_done),
        facts.resave_needed ==> !facts.complete(3),
        !facts.resave_needed ==> (facts.complete(3) <==> facts.configured),
        facts.complete(4) <==> facts.connected,
        facts.current() == 5 <==> facts.complete(1) && facts.complete(2) && facts.complete(3)
            && facts.complete(4),
{
}

/// Another step is open only where the user opened it.
pub proof fn reopened_steps_stay_open(facts: StepFacts, step: u8, reopened: Option<u8>)
    ensures
        reopened == Some(step) ==> facts.open(step as int, reopened),
        facts.open(step as int, reopened) && reopened != Some(step) ==> facts.current() == step,
{
}

/// The callback stands below the tunnel's address, and a tunnel without one has none.
pub proof fn callbacks_stand_below_the_tunnel(tunnel: SpotifyTunnelStatus)
    ensures
        tunnel.url is Some ==> tunnel.callback_text() == tunnel.url->0@
            + "/api/providers/spotify/oauth/callback"@,
        tunnel.url is None ==> tunnel.callback_text().len() == 0,
        tunnel.active() <==> tunnel.phase@ == "active"@,
        tunnel.starting() <==> tunnel.phase@ == "starting"@,
        tunnel.failed() <==> tunnel.phase@ == "error"@,
{
}

/// A field counts as untouched while it is blank or holds the usual address; then it takes
/// over a tunnel's, and what was saved no longer counts. All else in the form stays.
pub proof fn untouched_field_takes_the_tunnel(
    before: SpotifySetup,
    tunnel: SpotifyTunnelStatus,
    after: SpotifySetup,
)
    requires
        tunnel_offered(before, tunnel, after),
    ensures
        before.redirect_untouched() <==> trimmed(before.redirect_uri@).len() == 0
            || before.redirect_uri@ == DEFAULT_SPOTIFY_REDIRECT_URI@,
        tunnel.url is Some && before.redirect_untouched() ==> after.redirect_uri@ == tunnel.url->0@
            + "/api/providers/spotify/oauth/callback"@,
        tunnel.url is None ==> after == before,
        after.redirect_uri@ != before.redirect_uri@ ==> !after.local_setup_saved,
        after.redirect_uri@ == before.redirect_uri@ ==> after.local_setup_saved
            == before.local_setup_saved,
        after.client_id == before.client_id && after.client_secret == before.client_secret,
        after.app_done == before.app_done && after.callback_done == before.callback_done,
        after.resave_needed == before.resave_needed && after.reopened == before.reopened,
        mismatch(before, tunnel) <==> tunnel.url is Some && !before.redirect_untouched()
            && before.redirect_uri@ != tunnel.url->0@ + "/api/providers/spotify/oauth/callback"@,
{
}

/// A text is sent without the white space around it, and not at all where nothing else is
/// there.
pub proof fn blank_texts_are_not_sent(text: Seq<char>)
    ensures
        nonblank(text) is None <==> forall|i: int|
            0 <= i < text.len() ==> crate::text::is_white_space(#[trigger] text[i]),
        nonblank(text) is Some ==> nonblank(text)->0 == trimmed(text),
{
    crate::text::trimming_takes_only_white_space(text);
}

/// A specific error comes before the general word on what was last done.
pub proof fn specific_errors_come_first(setup: SpotifySetup)
    ensures
        setup.error is Some ==> setup.message_text() == Some(setup.error->0@),
        setup.error is None ==> setup.message_text() == action_message(setup.action),
{
}

} // verus!
