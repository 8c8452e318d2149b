//! What the full-screen status window shows, and when it is brought to the
//! front or hidden behind Firefox. The window itself lives outside the
//! library; it only renders these values.
use vstd::prelude::*;
use crate::agent::state::{primary_spec, secondary_spec, KioskState};
use crate::text::{owned, replace_all, replace_seq, str_eq};

verus! {

pub struct UiSnapshot {
    pub state: KioskState,
    pub primary: String,
    pub secondary: String,
    /// Third line: countdown, progress, technical detail.
    pub detail: String,
    pub visible: bool,
    /// Incremented by every `show()`: tells the window to reassert full
    /// screen, always-on-top and focus.
    pub show_epoch: u64,
}

/// Mathematical value of a [`UiSnapshot`].
pub struct UiSpec {
    pub state: KioskState,
    pub primary: Seq<char>,
    pub secondary: Seq<char>,
    pub detail: Seq<char>,
    pub visible: bool,
    pub show_epoch: u64,
}

impl View for UiSnapshot {
    type V = UiSpec;

    open spec fn view(&self) -> UiSpec {
        UiSpec {
            state: self.state,
            primary: self.primary@,
            secondary: self.secondary@,
            detail: self.detail@,
            visible: self.visible,
            show_epoch: self.show_epoch,
        }
    }
}

impl Clone for UiSnapshot {
    fn clone(&self) -> (r: Self)
        ensures
            r@ == self@,
    {
        UiSnapshot {
            state: self.state,
            primary: self.primary.clone(),
            secondary: self.secondary.clone(),
            detail: self.detail.clone(),
            visible: self.visible,
            show_epoch: self.show_epoch,
        }
    }
}

/// The secondary line of `state`: the given text or the state's default,
/// with `{username}` replaced by the kiosk's account.
pub open spec fn secondary_text(state: KioskState, given: Option<Seq<char>>, username: Seq<char>) -> Seq<
    char,
> {
    replace_seq(
        match given {
            Some(s) => s,
            None => secondary_spec(state),
        },
        "{username}"@,
        username,
    )
}

pub open spec fn opt_str_view(o: Option<&str>) -> Option<Seq<char>> {
    match o {
        Some(s) => Some(s@),
        None => None,
    }
}

/// The screen state, with the kiosk's account name.
pub struct UiBridge {
    inner: UiSnapshot,
    username: String,
}

impl UiBridge {
    pub closed spec fn screen(&self) -> UiSpec {
        self.inner@
    }

    pub closed spec fn account(&self) -> Seq<char> {
        self.username@
    }

    /// Starts visible, in the `Starting` state.
    pub fn new(username: &str) -> (r: Self)
        ensures
            r.account() == username@,
            r.screen() == (UiSpec {
                state: KioskState::Starting,
                primary: primary_spec(KioskState::Starting),
                secondary: secondary_spec(KioskState::Starting),
                detail: Seq::empty(),
                visible: true,
                show_epoch: 1,
            }),
    {
        UiBridge {
            inner: UiSnapshot {
                state: KioskState::Starting,
                primary: owned(KioskState::Starting.primary()),
                secondary: owned(KioskState::Starting.secondary()),
                detail: String::new(),
                visible: true,
                show_epoch: 1,
            },
            username: owned(username),
        }
    }

    pub fn username(&self) -> (r: &str)
        ensures
            r@ == self.account(),
    {
        self.username.as_str()
    }

    pub fn snapshot(&self) -> (r: UiSnapshot)
        ensures
            r@ == self.screen(),
    {
        self.inner.clone()
    }

    /// Changes state with the default messages.
    pub fn set(&mut self, state: KioskState) -> (changed: bool)
        ensures
            final(self).account() == old(self).account(),
            final(self).screen() == (UiSpec {
                state,
                primary: primary_spec(state),
                secondary: secondary_text(state, None, old(self).account()),
                detail: Seq::empty(),
                ..old(self).screen()
            }),
            changed == (old(self).screen().state != state || old(self).screen().secondary
                != secondary_text(state, None, old(self).account())),
    {
        self.set_with(state, None)
    }

    /// Changes state, replacing the secondary message. `true` when the state
    /// or the secondary line changed, which is what gets logged.
    pub fn set_with(&mut self, state: KioskState, secondary: Option<&str>) -> (changed: bool)
        ensures
            final(self).account() == old(self).account(),
            final(self).screen() == (UiSpec {
                state,
                primary: primary_spec(state),
                secondary: secondary_text(state, opt_str_view(secondary), old(self).account()),
                detail: Seq::empty(),
                ..old(self).screen()
            }),
            changed == (old(self).screen().state != state || old(self).screen().secondary
                != secondary_text(state, opt_str_view(secondary), old(self).account())),
    {
        let primary = owned(state.primary());
        let base = match secondary {
            Some(s) => s,
            None => state.secondary(),
        };
        proof {
            reveal_strlit("{username}");
        }
        let text = replace_all(base, "{username}", self.username.as_str());
        let changed = self.inner.state != state || !str_eq(
            self.inner.secondary.as_str(),
            text.as_str(),
        );
        self.inner.state = state;
        self.inner.primary = primary;
        self.inner.secondary = text;
        self.inner.detail = String::new();
        changed
    }

    /// Updates the third line: countdown and the like.
    pub fn set_detail(&mut self, detail: &str)
        ensures
            final(self).account() == old(self).account(),
            final(self).screen() == (UiSpec { detail: detail@, ..old(self).screen() }),
    {
        self.inner.detail = owned(detail);
    }

    /// Brings the status screen to the front, even if it was already
    /// visible. `true` when it was hidden.
    pub fn show(&mut self) -> (was_hidden: bool)
        ensures
            final(self).account() == old(self).account(),
            final(self).screen() == (UiSpec {
                visible: true,
                show_epoch: (if old(self).screen().show_epoch == u64::MAX {
                    0
                } else {
                    old(self).screen().show_epoch + 1
                }) as u64,
                ..old(self).screen()
            }),
            was_hidden == !old(self).screen().visible,
    {
        let was = !self.inner.visible;
        self.inner.visible = true;
        self.inner.show_epoch = if self.inner.show_epoch == u64::MAX {
            0
        } else {
            self.inner.show_epoch + 1
        };
        was
    }

    /// Hides the status screen: Firefox becomes visible. `true` when it was
    /// visible.
    pub fn hide_screen(&mut self) -> (was_visible: bool)
        ensures
            final(self).account() == old(self).account(),
            final(self).screen() == (UiSpec { visible: false, ..old(self).screen() }),
            was_visible == old(self).screen().visible,
    {
        let was = self.inner.visible;
        self.inner.visible = false;
        was
    }
}

/// What the window must do after reading a snapshot.
#[derive(Debug, Clone, Copy, PartialEq, Eq, Structural)]
pub enum WindowAction {
    Nothing,
    /// Make the window visible and raise it above everything.
    Raise,
    /// Drop always-on-top, then hide the window.
    Hide,
}

/// What the window last applied.
pub struct Visibility {
    pub last_visible: bool,
    pub last_show_epoch: u64,
}

impl Visibility {
    /// A window that starts visible, before any snapshot.
    pub fn new() -> (r: Self)
        ensures
            r.last_visible && r.last_show_epoch == 0,
    {
        Visibility { last_visible: true, last_show_epoch: 0 }
    }

    /// Applies a snapshot: a new `show()` (another epoch) raises the window
    /// again even if it is already visible; a change of visibility raises or
    /// hides it.
    pub fn apply(&mut self, visible: bool, show_epoch: u64) -> (r: WindowAction)
        ensures
            final(self).last_show_epoch == show_epoch,
            ({
                let re_show = visible && show_epoch != old(self).last_show_epoch;
                if visible == old(self).last_visible && !re_show {
                    r == WindowAction::Nothing && final(self).last_visible == old(
                        self,
                    ).last_visible
                } else {
                    final(self).last_visible == visible && r == if visible {
                        WindowAction::Raise
                    } else {
                        WindowAction::Hide
                    }
                }
            }),
    {
        let re_show = visible && show_epoch != self.last_show_epoch;
        self.last_show_epoch = show_epoch;
        if visible == self.last_visible && !re_show {
            return WindowAction::Nothing;
        }
        self.last_visible = visible;
        if visible {
            WindowAction::Raise
        } else {
            WindowAction::Hide
        }
    }
}

} // verus!
