use vstd::prelude::*;

verus! {

/// Number of players a freshly created team may hire at most.
pub const INITIAL_TEAM_SIZE: usize = 6;

/// Minimum accepted length of a trimmed team or ship name.
pub const MIN_NAME_LENGTH: usize = 3;

/// Maximum accepted length of a trimmed team or ship name.
pub const MAX_NAME_LENGTH: usize = 12;

/// Funds a new team starts with, before hiring costs and the ship's price.
pub const INITIAL_TEAM_BALANCE: u32 = 100000;

/// A key delivered to the wizard: the discrete key codes the screens react to.
#[derive(Clone, Copy, Debug, PartialEq, Eq, Structural)]
pub enum KeyCode {
    Up,
    Down,
    Left,
    Right,
    Enter,
    Backspace,
    Esc,
    Tab,
    Char(char),
}

/// Named key bindings shared by the screens.
pub struct UiKey;

impl UiKey {
    pub fn next_tab() -> (r: KeyCode)
        ensures
            r == KeyCode::Char(']'),
    {
        KeyCode::Char(']')
    }

    pub fn previous_tab() -> (r: KeyCode)
        ensures
            r == KeyCode::Char('['),
    {
        KeyCode::Char('[')
    }

    pub fn data_view() -> (r: KeyCode)
        ensures
            r == KeyCode::Tab,
    {
        KeyCode::Tab
    }

    pub fn go_to_team() -> (r: KeyCode)
        ensures
            r == KeyCode::Backspace,
    {
        KeyCode::Backspace
    }

    pub fn cycle_red() -> (r: KeyCode)
        ensures
            r == KeyCode::Char('r'),
    {
        KeyCode::Char('r')
    }

    pub fn cycle_green() -> (r: KeyCode)
        ensures
            r == KeyCode::Char('g'),
    {
        KeyCode::Char('g')
    }

    pub fn cycle_blue() -> (r: KeyCode)
        ensures
            r == KeyCode::Char('b'),
    {
        KeyCode::Char('b')
    }
}

/// What a key is called on screen.
pub trait PrintableKeyCode {
    fn to_string(&self) -> String;
}

impl PrintableKeyCode for KeyCode {
    fn to_string(&self) -> (r: String)
        ensures
            r@ == self.label_spec(),
    {
        match self {
            KeyCode::Up => String::from_str("Up"),
            KeyCode::Down => String::from_str("Down"),
            KeyCode::Left => String::from_str("Left"),
            KeyCode::Right => String::from_str("Right"),
            KeyCode::Enter => String::from_str("Enter"),
            KeyCode::Backspace => String::from_str("Backspace"),
            KeyCode::Esc => String::from_str("Esc"),
            KeyCode::Tab => String::from_str("Tab"),
            KeyCode::Char(c) => crate::text::chars_to_string(&vec![*c]),
        }
    }
}

impl KeyCode {
    /// The characters of the key's on-screen label.
    pub open spec fn label_spec(self) -> Seq<char> {
        match self {
            KeyCode::Up => "Up"@,
            KeyCode::Down => "Down"@,
            KeyCode::Left => "Left"@,
            KeyCode::Right => "Right"@,
            KeyCode::Enter => "Enter"@,
            KeyCode::Backspace => "Backspace"@,
            KeyCode::Esc => "Esc"@,
            KeyCode::Tab => "Tab"@,
            KeyCode::Char(c) => seq![c],
        }
    }
}

/// Style tag attached to a rendered line or panel border; the host maps each
/// tag to its concrete colors.
#[derive(Clone, Copy, Debug, PartialEq, Eq, Structural)]
pub enum StyleTag {
    Default,
    Unselected,
    Selected,
    Unselectable,
    Error,
    OwnTeam,
    Header,
    Network,
    Disconnected,
    Fancy,
    Highlight,
    Okay,
    Warning,
}

/// Named styles shared by the screens.
pub struct UiStyle;

impl UiStyle {
    pub const DEFAULT: StyleTag = StyleTag::Default;

    pub const UNSELECTED: StyleTag = StyleTag::Unselected;

    pub const SELECTED: StyleTag = StyleTag::Selected;

    pub const UNSELECTABLE: StyleTag = StyleTag::Unselectable;

    pub const ERROR: StyleTag = StyleTag::Error;

    pub const OWN_TEAM: StyleTag = StyleTag::OwnTeam;

    pub const HEADER: StyleTag = StyleTag::Header;

    pub const NETWORK: StyleTag = StyleTag::Network;

    pub const DISCONNECTED: StyleTag = StyleTag::Disconnected;

    pub const FANCY: StyleTag = StyleTag::Fancy;

    pub const HIGHLIGHT: StyleTag = StyleTag::Highlight;

    pub const OK: StyleTag = StyleTag::Okay;

    pub const WARNING: StyleTag = StyleTag::Warning;
}

/// Fixed texts of the confirmation buttons.
pub struct UiText;

impl UiText {
    pub const YES: &'static str = "Ayay";

    pub const NO: &'static str = "Nay!";
}

} // verus!
