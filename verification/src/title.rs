//! The title screen: the main menu with its two sliding panels, the
//! controller pictures and three hidden pictures behind repeated clicks.
use vstd::prelude::*;

use crate::joystick::Joytype;
use vstd::string::to_string_from_display_ensures;

verus! {

/// Clicks on the pigs' credit that reveal their picture.
pub const CERDOS_CLICKS: usize = 10;

/// Count at which Almare's picture shows; the counter starts at 86.
pub const ALMARE_SHOWS_AT: usize = 96;

/// Where Almare's counter starts.
pub const ALMARE_START: usize = 86;

/// Clicks on Issy's credit that reveal her picture.
pub const ISSY_CLICKS: usize = 10;

#[derive(Debug, Clone, Copy, PartialEq, Eq, Structural)]
pub enum Showing {
    Main,
    Howto,
    About,
}

impl Showing {
    pub fn is_main(&self) -> (r: bool)
        ensures
            r == (*self == Showing::Main),
    {
        match self {
            Showing::Main => true,
            _ => false,
        }
    }
}

/// The panel animations of the title screen.
#[derive(Debug, Clone, Copy, PartialEq, Eq, Structural)]
pub enum MenuAnimation {
    MoveAboutOut,
    MoveAboutInFromHowto,
    MoveAboutIn,
    MoveHowtoInFromAbout,
    MoveHowtoOut,
    MoveHowtoIn,
}

impl MenuAnimation {
    /// The animation's name in the scene.
    pub fn name(&self) -> (r: &'static str)
        ensures
            r@ == match *self {
                MenuAnimation::MoveAboutOut => "MoveAboutOut"@,
                MenuAnimation::MoveAboutInFromHowto => "MoveAboutInFromHowto"@,
                MenuAnimation::MoveAboutIn => "MoveAboutIn"@,
                MenuAnimation::MoveHowtoInFromAbout => "MoveHowtoInFromAbout"@,
                MenuAnimation::MoveHowtoOut => "MoveHowtoOut"@,
                MenuAnimation::MoveHowtoIn => "MoveHowtoIn"@,
            },
    {
        match self {
            MenuAnimation::MoveAboutOut => "MoveAboutOut",
            MenuAnimation::MoveAboutInFromHowto => "MoveAboutInFromHowto",
            MenuAnimation::MoveAboutIn => "MoveAboutIn",
            MenuAnimation::MoveHowtoInFromAbout => "MoveHowtoInFromAbout",
            MenuAnimation::MoveHowtoOut => "MoveHowtoOut",
            MenuAnimation::MoveHowtoIn => "MoveHowtoIn",
        }
    }
}

/// The button whose potato cursor shows.
#[derive(Debug, Clone, Copy, PartialEq, Eq, Structural)]
pub enum MenuButton {
    NewGame,
    HowToPlay,
    About,
}

/// The controller picture on the how-to panel.
#[derive(Debug, Clone, Copy, PartialEq, Eq, Structural)]
pub enum ControlPicture {
    Nintendo,
    PlayStation,
    Xbox,
}

/// The panel after pressing "About" on `s`: it toggles the about panel.
pub open spec fn after_about(s: Showing) -> Showing {
    match s {
        Showing::About => Showing::Main,
        _ => Showing::About,
    }
}

/// The panel after pressing "How to play" on `s`: it toggles the how-to panel.
pub open spec fn after_howto(s: Showing) -> Showing {
    match s {
        Showing::Howto => Showing::Main,
        _ => Showing::Howto,
    }
}

pub open spec fn about_animation(s: Showing) -> MenuAnimation {
    match s {
        Showing::About => MenuAnimation::MoveAboutOut,
        Showing::Howto => MenuAnimation::MoveAboutInFromHowto,
        Showing::Main => MenuAnimation::MoveAboutIn,
    }
}

pub open spec fn howto_animation(s: Showing) -> MenuAnimation {
    match s {
        Showing::About => MenuAnimation::MoveHowtoInFromAbout,
        Showing::Howto => MenuAnimation::MoveHowtoOut,
        Showing::Main => MenuAnimation::MoveHowtoIn,
    }
}

pub struct Title {
    pub joytype: Joytype,
    pub showing: Showing,
    pub cerdos: usize,
    pub almare: usize,
    pub issy: usize,
}

impl Title {
    /// The title screen for the controller in use.
    pub fn new(joytype: Joytype) -> (r: Title)
        ensures
            r.joytype == joytype,
            r.showing == Showing::Main,
            r.cerdos == 0,
            r.almare == ALMARE_START,
            r.issy == 0,
    {
        Title { showing: Showing::Main, joytype, cerdos: 0, almare: ALMARE_START, issy: 0 }
    }

    /// The label with the saved best score: "Best Score: " and the score
    /// in decimal.
    pub fn best_score_text(score: i32) -> (text: String)
        ensures
            exists|digits: String|
                to_string_from_display_ensures::<i32>(&score, digits) && text@ == "Best Score: "@
                    + #[trigger] digits@,
    {
        let digits = score.to_string();
        let mut text = String::from_str("Best Score: ");
        text.append(digits.as_str());
        assert(to_string_from_display_ensures::<i32>(&score, digits) && text@ == "Best Score: "@
            + digits@);
        text
    }

    /// A joystick was plugged in or out.
    pub fn on_joy_connection_changed(&mut self, joytype: Joytype)
        ensures
            *final(self) == (Title { joytype, ..*old(self) }),
    {
        self.joytype = joytype;
    }

    /// Which potato cursor shows: none with a keyboard, otherwise the one
    /// on the focused button, the about button when neither of the others
    /// has the focus.
    pub fn handle_show_papita(&self, new_game_focused: bool, howto_focused: bool) -> (r: Option<
        MenuButton,
    >)
        ensures
            r == (if self.joytype == Joytype::Keyboard {
                None
            } else if new_game_focused {
                Some(MenuButton::NewGame)
            } else if howto_focused {
                Some(MenuButton::HowToPlay)
            } else {
                Some(MenuButton::About)
            }),
    {
        if self.joytype.is_keyboard() {
            return None;
        }
        if new_game_focused {
            Some(MenuButton::NewGame)
        } else if howto_focused {
            Some(MenuButton::HowToPlay)
        } else {
            Some(MenuButton::About)
        }
    }

    /// The outline width of a menu button's font: one when hovered.
    pub fn handle_hover(&self, hovered: bool) -> (r: i64)
        ensures
            r == (if hovered {
                1int
            } else {
                0int
            }),
    {
        if hovered {
            1
        } else {
            0
        }
    }

    /// The controller picture for the controller in use; an Xbox pad's for
    /// the keyboard too.
    pub fn control_picture(&self) -> (r: ControlPicture)
        ensures
            r == match self.joytype {
                Joytype::Nintendo => ControlPicture::Nintendo,
                Joytype::Psx => ControlPicture::PlayStation,
                _ => ControlPicture::Xbox,
            },
    {
        match self.joytype {
            Joytype::Nintendo => ControlPicture::Nintendo,
            Joytype::Psx => ControlPicture::PlayStation,
            _ => ControlPicture::Xbox,
        }
    }

    /// "New game" only starts a game from the main menu.
    pub fn on_new_game(&self) -> (start: bool)
        ensures
            start == (self.showing == Showing::Main),
    {
        self.showing.is_main()
    }

    /// "About" toggles the about panel, unless a panel is still moving.
    /// Returns the animation to play.
    pub fn on_about(&mut self, animation_playing: bool) -> (r: Option<MenuAnimation>)
        ensures
            animation_playing ==> r is None && *final(self) == *old(self),
            !animation_playing ==> r == Some(about_animation(old(self).showing)) && *final(self)
                == (Title { showing: after_about(old(self).showing), ..*old(self) }),
    {
        if animation_playing {
            return None;
        }
        let animation = match self.showing {
            Showing::About => {
                self.showing = Showing::Main;
                MenuAnimation::MoveAboutOut
            },
            Showing::Howto => {
                self.showing = Showing::About;
                MenuAnimation::MoveAboutInFromHowto
            },
            Showing::Main => {
                self.showing = Showing::About;
                MenuAnimation::MoveAboutIn
            },
        };
        Some(animation)
    }

    /// "How to play" toggles the how-to panel, unless a panel is still
    /// moving. Returns the animation to play.
    pub fn on_howto(&mut self, animation_playing: bool) -> (r: Option<MenuAnimation>)
        ensures
            animation_playing ==> r is None && *final(self) == *old(self),
            !animation_playing ==> r == Some(howto_animation(old(self).showing)) && *final(self)
                == (Title { showing: after_howto(old(self).showing), ..*old(self) }),
    {
        if animation_playing {
            return None;
        }
        let animation = match self.showing {
            Showing::About => {
                self.showing = Showing::Howto;
                MenuAnimation::MoveHowtoInFromAbout
            },
            Showing::Howto => {
                self.showing = Showing::Main;
                MenuAnimation::MoveHowtoOut
            },
            Showing::Main => {
                self.showing = Showing::Howto;
                MenuAnimation::MoveHowtoIn
            },
        };
        Some(animation)
    }

    /// A click on the pigs' credit; returns whether their picture shows
    /// (from the tenth click on).
    pub fn on_cerdos_button_up(&mut self) -> (visible: bool)
        requires
            old(self).cerdos < usize::MAX,
        ensures
            *final(self) == (Title { cerdos: (old(self).cerdos + 1) as usize, ..*old(self) }),
            visible == (final(self).cerdos >= CERDOS_CLICKS),
    {
        self.cerdos = self.cerdos + 1;
        self.cerdos >= CERDOS_CLICKS
    }

    /// A click on Almare's credit; returns whether the picture shows (once
    /// the counter reaches 96).
    pub fn on_almare_button_up(&mut self) -> (visible: bool)
        requires
            old(self).almare < usize::MAX,
        ensures
            *final(self) == (Title { almare: (old(self).almare + 1) as usize, ..*old(self) }),
            visible == (final(self).almare >= ALMARE_SHOWS_AT),
    {
        self.almare = self.almare + 1;
        self.almare >= ALMARE_SHOWS_AT
    }

    /// A click on Issy's credit; returns whether her picture shows (from
    /// the tenth click on).
    pub fn on_issy_button_up(&mut self) -> (visible: bool)
        requires
            old(self).issy < usize::MAX,
        ensures
            *final(self) == (Title { issy: (old(self).issy + 1) as usize, ..*old(self) }),
            visible == (final(self).issy >= ISSY_CLICKS),
    {
        self.issy = self.issy + 1;
        self.issy >= ISSY_CLICKS
    }
}

/// "About" toggles its panel: it opens the about panel from any other
/// screen, and closes it back to the main menu when it is open; so the
/// main menu is never more than two presses away.
pub proof fn lemma_about_toggles(s: Showing)
    ensures
        (after_about(s) == Showing::About) == (s != Showing::About),
        (after_about(s) == Showing::Main) == (s == Showing::About),
        after_about(s) == Showing::Main || after_about(after_about(s)) == Showing::Main,
{
}

/// "How to play" toggles its panel in the same way.
pub proof fn lemma_howto_toggles(s: Showing)
    ensures
        (after_howto(s) == Showing::Howto) == (s != Showing::Howto),
        (after_howto(s) == Showing::Main) == (s == Showing::Howto),
        after_howto(s) == Showing::Main || after_howto(after_howto(s)) == Showing::Main,
{
}

} // verus!
