//! The decisions the overlay window makes each frame about the settings
//! window: tray and menu events show or hide it, and the window lets mouse
//! input through exactly while the settings are hidden.

use vstd::prelude::*;
use crate::text::opt_view;

verus! {

/// An item of the tray icon's menu.
#[derive(Clone, Copy, Debug, PartialEq, Eq, Structural)]
pub enum MenuItem {
    Settings,
    Quit,
    Other,
}

/// What the application does after a menu event.
#[derive(Clone, Copy, Debug, PartialEq, Eq, Structural)]
pub enum MenuAction {
    Continue,
    Quit,
}

/// Whether the settings window is shown, whether the window was last told to
/// let mouse input through, and the error and notice being shown.
#[derive(Debug)]
pub struct UiState {
    pub settings_visible: bool,
    /// The settings visibility when the mouse pass-through was last set.
    pub last_settings_visible: Option<bool>,
    pub settings_error: Option<String>,
    pub settings_warning: Option<String>,
}

/// The mathematical value of an [`UiState`].
pub struct UiStateView {
    pub settings_visible: bool,
    pub last_settings_visible: Option<bool>,
    pub settings_error: Option<Seq<char>>,
    pub settings_warning: Option<Seq<char>>,
}

impl View for UiState {
    type V = UiStateView;

    open spec fn view(&self) -> UiStateView {
        UiStateView {
            settings_visible: self.settings_visible,
            last_settings_visible: self.last_settings_visible,
            settings_error: opt_view(self.settings_error),
            settings_warning: opt_view(self.settings_warning),
        }
    }
}

/// The state with the settings window shown or hidden the other way.
pub open spec fn toggled(u: UiStateView) -> UiStateView {
    UiStateView { settings_visible: !u.settings_visible, ..u }
}

/// The mouse pass-through to set this frame: letting input through while the
/// settings are hidden, and only when the visibility changed since it was
/// last set.
pub open spec fn passthrough_command(u: UiStateView) -> Option<bool> {
    if u.last_settings_visible != Some(u.settings_visible) {
        Some(!u.settings_visible)
    } else {
        None
    }
}

impl UiState {
    /// The start state: settings shown, pass-through never set, no messages.
    pub fn new() -> (u: UiState)
        ensures
            u@ == (UiStateView {
                settings_visible: true,
                last_settings_visible: None,
                settings_error: None,
                settings_warning: None,
            }),
    {
        UiState {
            settings_visible: true,
            last_settings_visible: None,
            settings_error: None,
            settings_warning: None,
        }
    }

    /// A click on the tray icon shows or hides the settings.
    pub fn on_tray_click(&mut self)
        ensures
            final(self)@ == toggled(old(self)@),
    {
        self.settings_visible = !self.settings_visible;
    }

    /// A chosen menu item: `Settings` shows or hides the settings, `Quit`
    /// asks the application to quit, any other item changes nothing.
    pub fn on_menu_item(&mut self, item: MenuItem) -> (a: MenuAction)
        ensures
            final(self)@ == (if item == MenuItem::Settings {
                toggled(old(self)@)
            } else {
                old(self)@
            }),
            a == (if item == MenuItem::Quit {
                MenuAction::Quit
            } else {
                MenuAction::Continue
            }),
    {
        match item {
            MenuItem::Settings => {
                self.settings_visible = !self.settings_visible;
                MenuAction::Continue
            },
            MenuItem::Quit => MenuAction::Quit,
            MenuItem::Other => MenuAction::Continue,
        }
    }

    /// The mouse pass-through to set this frame, if any (see
    /// [`passthrough_command`]); remembers the visibility it was set for.
    pub fn sync_mouse_passthrough(&mut self) -> (r: Option<bool>)
        ensures
            r == passthrough_command(old(self)@),
            final(self)@ == (UiStateView {
                last_settings_visible: Some(old(self).settings_visible),
                ..old(self)@
            }),
    {
        let r = if self.last_settings_visible != Some(self.settings_visible) {
            Some(!self.settings_visible)
        } else {
            None
        };
        self.last_settings_visible = Some(self.settings_visible);
        r
    }

    /// Dismisses the error message.
    pub fn dismiss_error(&mut self)
        ensures
            final(self)@ == (UiStateView { settings_error: None, ..old(self)@ }),
    {
        self.settings_error = None;
    }

    /// Dismisses the notice.
    pub fn dismiss_warning(&mut self)
        ensures
            final(self)@ == (UiStateView { settings_warning: None, ..old(self)@ }),
    {
        self.settings_warning = None;
    }
}

/// Showing or hiding the settings twice leaves them as they were.
pub proof fn lemma_toggle_twice(u: UiStateView)
    ensures
        toggled(toggled(u)) == u,
{
}

/// Once the pass-through was set, nothing more is set until the settings are
/// shown or hidden again; then it is set to let input through exactly when
/// they are hidden.
pub proof fn lemma_passthrough_follows_visibility(u: UiStateView)
    ensures
        passthrough_command(
            UiStateView { last_settings_visible: Some(u.settings_visible), ..u },
        ) is None,
        passthrough_command(
            toggled(UiStateView { last_settings_visible: Some(u.settings_visible), ..u }),
        ) == Some(u.settings_visible),
{
}

/// At start the window takes mouse input, since the settings are shown.
pub proof fn lemma_start_takes_input()
    ensures
        passthrough_command(
            UiStateView {
                settings_visible: true,
                last_settings_visible: None,
                settings_error: None,
                settings_warning: None,
            },
        ) == Some(false),
{
}

} // verus!
