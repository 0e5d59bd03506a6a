//! Settings shared between the Settings page and the navigation bar.

use crate::api::AppSettings;
use vstd::prelude::*;

verus! {

/// The optional-page visibility that a freshly rendered document carries, before
/// the browser has fetched the settings.
#[derive(Clone, Copy, Debug, PartialEq, Eq, Structural)]
pub struct NavigationVisibility {
    pub hide_hqp: bool,
    pub hide_lms: bool,
    pub hide_spotify: bool,
    pub hide_knobs: bool,
}

impl Default for NavigationVisibility {
    /// Every optional page is shown.
    fn default() -> (r: Self)
        ensures
            r == (NavigationVisibility {
                hide_hqp: false,
                hide_lms: false,
                hide_spotify: false,
                hide_knobs: false,
            }),
    {
        NavigationVisibility {
            hide_hqp: false,
            hide_lms: false,
            hide_spotify: false,
            hide_knobs: false,
        }
    }
}

impl NavigationVisibility {
    /// The visibility that stored settings call for: a page follows its adapter,
    /// and the controllers page has a switch of its own.
    pub open spec fn spec_of(settings: AppSettings) -> NavigationVisibility {
        NavigationVisibility {
            hide_hqp: !settings.adapters.hqplayer,
            hide_lms: !settings.adapters.lms,
            hide_spotify: !settings.adapters.spotify,
            hide_knobs: settings.hide_knobs_page,
        }
    }

    /// Derives the visibility from stored settings.
    pub fn of(settings: &AppSettings) -> (r: Self)
        ensures
            r == Self::spec_of(*settings),
    {
        NavigationVisibility {
            hide_hqp: !settings.adapters.hqplayer,
            hide_lms: !settings.adapters.lms,
            hide_spotify: !settings.adapters.spotify,
            hide_knobs: settings.hide_knobs_page,
        }
    }
}

/// The settings that every component reads.
#[derive(Clone, Copy, Debug, PartialEq, Eq, Structural)]
pub struct SettingsContext {
    pub hide_knobs: bool,
    /// HQPlayer adapter enabled (page visible when true)
    pub hqp_enabled: bool,
    /// LMS adapter enabled (page visible when true)
    pub lms_enabled: bool,
    /// Spotify adapter enabled (page visible when true)
    pub spotify_enabled: bool,
    /// Whether settings have been loaded from the server
    pub loaded: bool,
}

impl SettingsContext {
    /// What the navigation bar shows.
    pub open spec fn visibility(self) -> NavigationVisibility {
        NavigationVisibility {
            hide_hqp: !self.hqp_enabled,
            hide_lms: !self.lms_enabled,
            hide_spotify: !self.spotify_enabled,
            hide_knobs: self.hide_knobs,
        }
    }

    /// The context at start-up: the embedded visibility where there is one, which
    /// then counts as loaded, and every page shown where there is none.
    pub fn start(initial: Option<NavigationVisibility>) -> (r: (Self, NavigationVisibility))
        ensures
            r.1 == (match initial {
                Some(v) => v,
                None => (NavigationVisibility {
                    hide_hqp: false,
                    hide_lms: false,
                    hide_spotify: false,
                    hide_knobs: false,
                }),
            }),
            r.0.visibility() == r.1,
            r.0.loaded == (initial is Some),
    {
        let visibility = match initial {
            Some(v) => v,
            None => NavigationVisibility::default(),
        };
        let context = SettingsContext {
            hide_knobs: visibility.hide_knobs,
            hqp_enabled: !visibility.hide_hqp,
            lms_enabled: !visibility.hide_lms,
            spotify_enabled: !visibility.hide_spotify,
            loaded: initial.is_some(),
        };
        (context, visibility)
    }

    /// What the navigation bar shows on a page: an optional page is hidden where the
    /// shared settings hide it, and where the page itself knows it to be off.
    pub fn navigation(&self, page: Option<NavigationVisibility>) -> (r: NavigationVisibility)
        ensures
            r == (match page {
                Some(page) => (NavigationVisibility {
                    hide_hqp: self.visibility().hide_hqp || page.hide_hqp,
                    hide_lms: self.visibility().hide_lms || page.hide_lms,
                    hide_spotify: self.visibility().hide_spotify || page.hide_spotify,
                    hide_knobs: self.visibility().hide_knobs || page.hide_knobs,
                }),
                None => self.visibility(),
            }),
    {
        let page = match page {
            Some(page) => page,
            None => NavigationVisibility::default(),
        };
        NavigationVisibility {
            hide_hqp: self.hide_hqp() || page.hide_hqp,
            hide_lms: self.hide_lms() || page.hide_lms,
            hide_spotify: self.hide_spotify() || page.hide_spotify,
            hide_knobs: self.hide_knobs() || page.hide_knobs,
        }
    }

    /// Check if settings have been loaded
    pub fn is_loaded(&self) -> (r: bool)
        ensures
            r == self.loaded,
    {
        self.loaded
    }

    /// Get hide_knobs value
    pub fn hide_knobs(&self) -> (r: bool)
        ensures
            r == self.visibility().hide_knobs,
    {
        self.hide_knobs
    }

    /// Get hide_hqp value (true if adapter disabled)
    pub fn hide_hqp(&self) -> (r: bool)
        ensures
            r == self.visibility().hide_hqp,
    {
        !self.hqp_enabled
    }

    /// Get hide_lms value (true if adapter disabled)
    pub fn hide_lms(&self) -> (r: bool)
        ensures
            r == self.visibility().hide_lms,
    {
        !self.lms_enabled
    }

    /// Whether the Spotify page should be hidden (true if adapter disabled)
    pub fn hide_spotify(&self) -> (r: bool)
        ensures
            r == self.visibility().hide_spotify,
    {
        !self.spotify_enabled
    }

    /// Takes over the adapter states and the controllers-page switch. Whether
    /// settings count as loaded does not change.
    pub fn update(
        &mut self,
        hide_knobs: bool,
        hqp_enabled: bool,
        lms_enabled: bool,
        spotify_enabled: bool,
    )
        ensures
            *final(self) == (SettingsContext {
                hide_knobs,
                hqp_enabled,
                lms_enabled,
                spotify_enabled,
                loaded: old(self).loaded,
            }),
    {
        self.hide_knobs = hide_knobs;
        self.hqp_enabled = hqp_enabled;
        self.lms_enabled = lms_enabled;
        self.spotify_enabled = spotify_enabled;
    }

    /// Mark settings as loaded
    pub fn mark_loaded(&mut self)
        ensures
            *final(self) == (SettingsContext { loaded: true, ..*old(self) }),
    {
        self.loaded = true;
    }

    /// Takes over settings that the server has answered with.
    pub fn adopt(&mut self, settings: &AppSettings)
        ensures
            final(self).visibility() == NavigationVisibility::spec_of(*settings),
            final(self).loaded,
    {
        self.update(
            settings.hide_knobs_page,
            settings.adapters.hqplayer,
            settings.adapters.lms,
            settings.adapters.spotify,
        );
        self.mark_loaded();
    }
}

/// A page is hidden just where its adapter is off; the controllers' page has its own
/// switch, and no adapter touches it.
pub proof fn pages_follow_their_adapters(settings: AppSettings, context: SettingsContext)
    ensures
        NavigationVisibility::spec_of(settings).hide_hqp != settings.adapters.hqplayer,
        NavigationVisibility::spec_of(settings).hide_lms != settings.adapters.lms,
        NavigationVisibility::spec_of(settings).hide_spotify != settings.adapters.spotify,
        NavigationVisibility::spec_of(settings).hide_knobs == settings.hide_knobs_page,
        context.visibility().hide_hqp != context.hqp_enabled,
        context.visibility().hide_lms != context.lms_enabled,
        context.visibility().hide_spotify != context.spotify_enabled,
        context.visibility().hide_knobs == context.hide_knobs,
{
}

} // verus!
