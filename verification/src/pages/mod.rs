//! What each page decides.

pub mod configurator;
pub mod dashboard;
pub mod hqplayer;
pub mod knobs;
pub mod library;
pub mod lms;
pub mod onboarding;
pub mod settings;
pub mod spotify;
pub mod zone;
pub mod zones;
