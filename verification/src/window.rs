//! A single window's visual state and the configuration applier.
//!
//! The native toolkit owns the real window; this module models the state the
//! shell reads and writes. The applier maps a structured configuration onto
//! that state: every recognized field present in the payload is assigned,
//! every absent field keeps its value. Width and height settle in one atomic
//! size assignment, so the end state is the same whether one or both are
//! given and no transient intermediate size is specified.

use vstd::prelude::*;

use crate::config::ConfigEntry;
use crate::config::config_of;
use crate::config::ConfigModel;
use crate::config::num_at;

verus! {

/// The mathematical model of one window's state.
#[verifier::ext_equal]
pub ghost struct WindowModel {
    pub title: Seq<char>,
    pub width: u32,
    pub height: u32,
    pub fullscreen: bool,
    pub decorations: bool,
    pub always_on_top: bool,
    pub resizable: bool,
    pub visible: bool,
    pub minimized: bool,
    pub maximized: bool,
    /// The identity marker injected into the window's initial execution
    /// context at construction, so frontend code can discover its own label
    /// before any other script runs.
    pub init_label: Seq<char>,
}

/// The visual and behavioral state of one window, as the shell tracks it.
pub struct WindowState {
    pub title: String,
    pub width: u32,
    pub height: u32,
    pub fullscreen: bool,
    pub decorations: bool,
    pub always_on_top: bool,
    pub resizable: bool,
    pub visible: bool,
    pub minimized: bool,
    pub maximized: bool,
    /// See [`WindowModel::init_label`].
    pub init_label: String,
}

impl View for WindowState {
    type V = WindowModel;

    open spec fn view(&self) -> WindowModel {
        WindowModel {
            title: self.title@,
            width: self.width,
            height: self.height,
            fullscreen: self.fullscreen,
            decorations: self.decorations,
            always_on_top: self.always_on_top,
            resizable: self.resizable,
            visible: self.visible,
            minimized: self.minimized,
            maximized: self.maximized,
            init_label: self.init_label@,
        }
    }
}

/// The state a window reaches when a configuration is applied to it: each
/// field given by the configuration is assigned, each other field keeps its
/// value.
pub open spec fn apply_model(s: WindowModel, c: ConfigModel) -> WindowModel {
    WindowModel {
        title: match c.title {
            Some(t) => t,
            None => s.title,
        },
        width: match c.width {
            Some(w) => w,
            None => s.width,
        },
        height: match c.height {
            Some(h) => h,
            None => s.height,
        },
        fullscreen: match c.fullscreen {
            Some(b) => b,
            None => s.fullscreen,
        },
        decorations: match c.decorations {
            Some(b) => b,
            None => s.decorations,
        },
        always_on_top: match c.always_on_top {
            Some(b) => b,
            None => s.always_on_top,
        },
        ..s
    }
}

/// The width a size assignment settles on: the configured width if one is
/// given, the current width otherwise.
pub open spec fn resolved_width(c: ConfigModel, current: u32) -> u32 {
    match c.width {
        Some(w) => w,
        None => current,
    }
}

/// The height a size assignment settles on, symmetric to [`resolved_width`].
pub open spec fn resolved_height(c: ConfigModel, current: u32) -> u32 {
    match c.height {
        Some(h) => h,
        None => current,
    }
}

impl WindowState {
    /// Applies a structured configuration: assigns every field the
    /// configuration gives and leaves every other field unchanged. Width and
    /// height are settled together, as one atomic size assignment.
    pub fn apply_config(&mut self, config: &crate::config::WindowConfig)
        ensures
            final(self)@ == apply_model(old(self)@, config@),
    {
        if let Some(t) = &config.title {
            self.title = t.clone();
        }
        if config.width.is_some() || config.height.is_some() {
            let w = match config.width {
                Some(w) => w,
                None => self.width,
            };
            let h = match config.height {
                Some(h) => h,
                None => self.height,
            };
            self.width = w;
            self.height = h;
        }
        if let Some(b) = config.fullscreen {
            self.fullscreen = b;
        }
        if let Some(b) = config.decorations {
            self.decorations = b;
        }
        if let Some(b) = config.always_on_top {
            self.always_on_top = b;
        }
        proof {
            assert(final(self)@ =~= apply_model(old(self)@, config@));
        }
    }

    /// The fixed one-time startup sequence the shell runs on the initial
    /// window: a fixed product title, decorations on, resizing on; nothing
    /// else changes.
    pub fn apply_startup_defaults(&mut self)
        ensures
            final(self)@ == (WindowModel {
                title: "NativePHP App"@,
                decorations: true,
                resizable: true,
                ..old(self)@
            }),
    {
        self.title = "NativePHP App".to_owned();
        self.decorations = true;
        self.resizable = true;
        proof {
            assert(final(self)@ =~= (WindowModel {
                title: "NativePHP App"@,
                decorations: true,
                resizable: true,
                ..old(self)@
            }));
        }
    }
}

/// The one atomic size assignment a configuration calls for, given the
/// window's current size: `None` when the configuration names neither
/// dimension (no assignment is made), otherwise the pair the window ends at.
pub fn size_update(config: &crate::config::WindowConfig, current_width: u32, current_height: u32) -> (r:
    Option<(u32, u32)>)
    ensures
        match r {
            Some(wh) => (config@.width is Some || config@.height is Some) && wh.0 == resolved_width(
                config@,
                current_width,
            ) && wh.1 == resolved_height(config@, current_height),
            None => config@.width is None && config@.height is None,
        },
{
    if config.width.is_some() || config.height.is_some() {
        let w = match config.width {
            Some(w) => w,
            None => current_width,
        };
        let h = match config.height {
            Some(h) => h,
            None => current_height,
        };
        Some((w, h))
    } else {
        None
    }
}

/// An empty payload leaves every window property unchanged.
pub proof fn law_empty_config_identity(s: WindowModel, entries: Seq<ConfigEntry>)
    requires
        entries.len() == 0,
    ensures
        apply_model(s, config_of(entries)) == s,
{
    assert(apply_model(s, config_of(entries)) =~= s);
}

/// A payload whose only recognized size field is `width = w` leaves the
/// window at its previous height with the given width.
pub proof fn law_width_only(s: WindowModel, entries: Seq<ConfigEntry>, w: u32)
    requires
        num_at(entries, "width"@) == Some(w),
        num_at(entries, "height"@) is None,
    ensures
        apply_model(s, config_of(entries)).width == w,
        apply_model(s, config_of(entries)).height == s.height,
{
}

/// A payload whose only recognized size field is `height = h` leaves the
/// window at its previous width with the given height.
pub proof fn law_height_only(s: WindowModel, entries: Seq<ConfigEntry>, h: u32)
    requires
        num_at(entries, "height"@) == Some(h),
        num_at(entries, "width"@) is None,
    ensures
        apply_model(s, config_of(entries)).height == h,
        apply_model(s, config_of(entries)).width == s.width,
{
}

/// A payload giving both `width = w` and `height = h` leaves the window at
/// exactly (w, h), whatever else it holds.
pub proof fn law_width_and_height(s: WindowModel, entries: Seq<ConfigEntry>, w: u32, h: u32)
    requires
        num_at(entries, "width"@) == Some(w),
        num_at(entries, "height"@) == Some(h),
    ensures
        apply_model(s, config_of(entries)).width == w,
        apply_model(s, config_of(entries)).height == h,
{
}

/// Applying the same configuration twice leaves the same state as applying
/// it once: every field assignment is a direct assignment, not a delta.
pub proof fn law_apply_idempotent(s: WindowModel, c: ConfigModel)
    ensures
        apply_model(apply_model(s, c), c) == apply_model(s, c),
{
    assert(apply_model(apply_model(s, c), c) =~= apply_model(s, c));
}

} // verus!
