//! Colour themes: a cyclic choice of presets and the palette each one stands for.

use vstd::prelude::*;

verus! {

/// A terminal colour, by name.
#[derive(Clone, Copy, PartialEq, Eq, Debug, Structural)]
pub enum Color {
    Reset,
    Black,
    Red,
    Green,
    Yellow,
    Blue,
    Magenta,
    Cyan,
    Gray,
    DarkGray,
    LightRed,
    LightGreen,
    LightYellow,
    LightBlue,
    LightMagenta,
    LightCyan,
    White,
}

/// The colours of one theme, one per painted element.
#[derive(Clone, Copy, PartialEq, Eq, Debug, Structural)]
pub struct Theme {
    pub bg: Color,
    pub border: Color,
    pub text: Color,
    pub highlight_fg: Color,
    pub highlight_bg: Color,
    pub graph_cpu: Color,
    pub graph_mem: Color,
    pub graph_net_rx: Color,
    pub graph_net_tx: Color,
    pub gauge_cpu_high: Color,
    pub gauge_cpu_low: Color,
    pub gauge_mem: Color,
}

/// The themes a user can cycle through.
#[derive(Clone, Copy, PartialEq, Eq, Debug, Structural)]
pub enum ThemePreset {
    Default,
    Cyberpunk,
    Matrix,
}

impl ThemePreset {
    /// The preset that follows `self` in the cycle Default, Cyberpunk, Matrix.
    pub open spec fn successor(self) -> ThemePreset {
        match self {
            ThemePreset::Default => ThemePreset::Cyberpunk,
            ThemePreset::Cyberpunk => ThemePreset::Matrix,
            ThemePreset::Matrix => ThemePreset::Default,
        }
    }

    /// Advances to the next preset, wrapping from the last to the first.
    pub fn next(&self) -> (following: Self)
        ensures
            following == self.successor(),
    {
        match self {
            ThemePreset::Default => ThemePreset::Cyberpunk,
            ThemePreset::Cyberpunk => ThemePreset::Matrix,
            ThemePreset::Matrix => ThemePreset::Default,
        }
    }

    /// The palette that each preset stands for.
    pub open spec fn palette(self) -> Theme {
        match self {
            ThemePreset::Default => Theme {
                bg: Color::Reset,
                border: Color::Cyan,
                text: Color::White,
                highlight_fg: Color::White,
                highlight_bg: Color::Red,
                graph_cpu: Color::Green,
                graph_mem: Color::Magenta,
                graph_net_rx: Color::Yellow,
                graph_net_tx: Color::Blue,
                gauge_cpu_high: Color::Red,
                gauge_cpu_low: Color::Green,
                gauge_mem: Color::Magenta,
            },
            ThemePreset::Cyberpunk => Theme {
                bg: Color::Black,
                border: Color::Magenta,
                text: Color::Cyan,
                highlight_fg: Color::Black,
                highlight_bg: Color::Yellow,
                graph_cpu: Color::LightMagenta,
                graph_mem: Color::LightCyan,
                graph_net_rx: Color::LightGreen,
                graph_net_tx: Color::LightYellow,
                gauge_cpu_high: Color::Red,
                gauge_cpu_low: Color::LightMagenta,
                gauge_mem: Color::LightCyan,
            },
            ThemePreset::Matrix => Theme {
                bg: Color::Black,
                border: Color::Green,
                text: Color::DarkGray,
                highlight_fg: Color::Black,
                highlight_bg: Color::Green,
                graph_cpu: Color::LightGreen,
                graph_mem: Color::Green,
                graph_net_rx: Color::LightGreen,
                graph_net_tx: Color::Green,
                gauge_cpu_high: Color::LightGreen,
                gauge_cpu_low: Color::DarkGray,
                gauge_mem: Color::Green,
            },
        }
    }

    /// The colours to paint with under this preset.
    pub fn get_theme(&self) -> (theme: Theme)
        ensures
            theme == self.palette(),
    {
        match self {
            ThemePreset::Default => Theme {
                bg: Color::Reset,
                border: Color::Cyan,
                text: Color::White,
                highlight_fg: Color::White,
                highlight_bg: Color::Red,
                graph_cpu: Color::Green,
                graph_mem: Color::Magenta,
                graph_net_rx: Color::Yellow,
                graph_net_tx: Color::Blue,
                gauge_cpu_high: Color::Red,
                gauge_cpu_low: Color::Green,
                gauge_mem: Color::Magenta,
            },
            ThemePreset::Cyberpunk => Theme {
                bg: Color::Black,
                border: Color::Magenta,
                text: Color::Cyan,
                highlight_fg: Color::Black,
                highlight_bg: Color::Yellow,
                graph_cpu: Color::LightMagenta,
                graph_mem: Color::LightCyan,
                graph_net_rx: Color::LightGreen,
                graph_net_tx: Color::LightYellow,
                gauge_cpu_high: Color::Red,
                gauge_cpu_low: Color::LightMagenta,
                gauge_mem: Color::LightCyan,
            },
            ThemePreset::Matrix => Theme {
                bg: Color::Black,
                border: Color::Green,
                text: Color::DarkGray,
                highlight_fg: Color::Black,
                highlight_bg: Color::Green,
                graph_cpu: Color::LightGreen,
                graph_mem: Color::Green,
                graph_net_rx: Color::LightGreen,
                graph_net_tx: Color::Green,
                gauge_cpu_high: Color::LightGreen,
                gauge_cpu_low: Color::DarkGray,
                gauge_mem: Color::Green,
            },
        }
    }
}

/// Cycling visits every preset: three steps lead back to the start, and fewer do not.
pub proof fn lemma_theme_cycle(preset: ThemePreset)
    ensures
        preset.successor() != preset,
        preset.successor().successor() != preset,
        preset.successor().successor().successor() == preset,
{
}

} // verus!
