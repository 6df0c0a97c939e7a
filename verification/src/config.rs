//! Renderer configuration as read from a settings file.
use vstd::prelude::*;

verus! {

/// How frames are handed to the display.
#[derive(Clone, Copy, Debug, PartialEq, Eq, Structural)]
pub enum PresentMode {
    /// No synchronisation with the display; frames may tear.
    Immediate,
    /// Classic vertical sync: frames queue up behind the display refresh.
    Fifo,
    /// Fast vertical sync: the newest frame replaces a waiting one.
    Mailbox,
}

/// Frame latency used when the configuration names none.
pub const DEFAULT_FRAME_LATENCY: u32 = 2;

/// Settings that shape the presentation surface.
#[derive(Clone, Copy, Debug, PartialEq, Eq, Structural)]
pub struct RendererConfig {
    pub present_mode: Option<PresentMode>,
    pub max_frame_latency: Option<u32>,
}

/// The configuration a fresh installation starts with.
pub open spec fn default_config() -> RendererConfig {
    RendererConfig { present_mode: Some(PresentMode::Mailbox), max_frame_latency: Some(2) }
}

impl Default for RendererConfig {
    fn default() -> (r: Self)
        ensures
            r == default_config(),
            r.present_mode == Some(PresentMode::Mailbox),
            r.max_frame_latency == Some(2u32),
    {
        RendererConfig { present_mode: Some(PresentMode::Mailbox), max_frame_latency: Some(2) }
    }
}

impl RendererConfig {
    /// The configuration to run with, given what was parsed from the settings
    /// file: the parsed one where parsing succeeded, the default otherwise.
    pub fn from_parsed(parsed: Option<RendererConfig>) -> (r: RendererConfig)
        ensures
            r == (match parsed {
                Some(c) => c,
                None => default_config(),
            }),
            parsed matches Some(c) ==> r == c,
            parsed is None ==> r.present_mode == Some(PresentMode::Mailbox) && r.max_frame_latency == Some(
                2u32,
            ),
    {
        match parsed {
            Some(c) => c,
            None => RendererConfig::default(),
        }
    }

    /// The maximum number of frames in flight requested from the surface.
    pub fn frame_latency(&self) -> (r: u32)
        ensures
            r == (match self.max_frame_latency {
                Some(n) => n,
                None => DEFAULT_FRAME_LATENCY,
            }),
            self.max_frame_latency matches Some(n) ==> r == n,
            self.max_frame_latency is None ==> r == 2,
    {
        match self.max_frame_latency {
            Some(n) => n,
            None => DEFAULT_FRAME_LATENCY,
        }
    }
}

} // verus!
