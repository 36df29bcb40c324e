//! Translation tables between the host window system and the toolkit:
//! modifier masks, keys, clipboard chords and cursor icons.

use vstd::prelude::*;

verus! {

/// The family of the host operating system.
#[derive(Clone, Copy, Debug, PartialEq, Eq, Hash, Structural)]
pub enum Platform {
    Windows,
    Apple,
    Other,
}

/// Bit of the shift key in a host modifier mask.
pub const MOD_SHIFT: u32 = 0x0001;

/// Bit of the control key in a host modifier mask.
pub const MOD_CONTROL: u32 = 0x0002;

/// Bit of the alt key in a host modifier mask.
pub const MOD_ALT: u32 = 0x0004;

/// Bit of the super key, the meta key of an Apple keyboard, in a host
/// modifier mask.
pub const MOD_SUPER: u32 = 0x0008;

/// The modifier mask that the host reports with a key or a button.
#[derive(Clone, Copy, Debug, PartialEq, Eq, Hash, Structural)]
pub struct Mod {
    pub bits: u32,
}

/// The modifier keys as the toolkit sees them.
#[derive(Clone, Copy, Debug, PartialEq, Eq, Hash, Structural)]
pub struct Modifiers {
    pub alt: bool,
    pub ctrl: bool,
    pub shift: bool,
    /// The meta key of an Apple keyboard.
    pub mac_cmd: bool,
    /// The key of keyboard shortcuts: meta on an Apple host, control elsewhere.
    pub command: bool,
}

impl Modifiers {
    /// No modifier is down.
    pub fn none() -> (modifiers: Modifiers)
        ensures
            modifiers == (Modifiers {
                alt: false,
                ctrl: false,
                shift: false,
                mac_cmd: false,
                command: false,
            }),
    {
        Modifiers { alt: false, ctrl: false, shift: false, mac_cmd: false, command: false }
    }
}

/// Whether the mask `keymod` has all bits of `mask`.
pub open spec fn holds(keymod: Mod, mask: u32) -> bool {
    keymod.bits & mask == mask
}

/// The toolkit's modifiers for a host mask. On an Apple host the command
/// key is the meta key; elsewhere it is the control key.
pub open spec fn translated_modifiers(keymod: Mod, platform: Platform) -> Modifiers {
    Modifiers {
        alt: holds(keymod, MOD_ALT),
        ctrl: holds(keymod, MOD_CONTROL),
        shift: holds(keymod, MOD_SHIFT),
        mac_cmd: platform == Platform::Apple && holds(keymod, MOD_SUPER),
        command: if platform == Platform::Apple {
            holds(keymod, MOD_SUPER)
        } else {
            holds(keymod, MOD_CONTROL)
        },
    }
}

/// Translates a host modifier mask.
pub fn translate_modifiers(keymod: Mod, platform: Platform) -> (modifiers: Modifiers)
    ensures
        modifiers == translated_modifiers(keymod, platform),
{
    let meta = keymod.bits & MOD_SUPER == MOD_SUPER;
    let ctrl = keymod.bits & MOD_CONTROL == MOD_CONTROL;
    let apple = match platform {
        Platform::Apple => true,
        _ => false,
    };
    Modifiers {
        alt: keymod.bits & MOD_ALT == MOD_ALT,
        ctrl,
        shift: keymod.bits & MOD_SHIFT == MOD_SHIFT,
        mac_cmd: apple && meta,
        command: if apple {
            meta
        } else {
            ctrl
        },
    }
}

/// The keys of the host that the translator tells apart.
#[derive(Clone, Copy, Debug, PartialEq, Eq, Hash, Structural)]
pub enum HostKey {
    Left,
    Up,
    Right,
    Down,
    Escape,
    Tab,
    Backspace,
    Space,
    Enter,
    Insert,
    Home,
    Delete,
    End,
    PageDown,
    PageUp,
    A,
    B,
    C,
    D,
    E,
    F,
    G,
    H,
    I,
    J,
    K,
    L,
    M,
    N,
    O,
    P,
    Q,
    R,
    S,
    T,
    U,
    V,
    W,
    X,
    Y,
    Z,
    /// Any other key.
    Other,
}

/// The keys that the toolkit is told about.
#[derive(Clone, Copy, Debug, PartialEq, Eq, Hash, Structural)]
pub enum Key {
    ArrowLeft,
    ArrowUp,
    ArrowRight,
    ArrowDown,
    Escape,
    Tab,
    Backspace,
    Space,
    Enter,
    Insert,
    Home,
    Delete,
    End,
    PageDown,
    PageUp,
    A,
    B,
    C,
    D,
    E,
    F,
    G,
    H,
    I,
    J,
    K,
    L,
    M,
    N,
    O,
    P,
    Q,
    R,
    S,
    T,
    U,
    V,
    W,
    X,
    Y,
    Z,
}

/// Cut: command-X, or shift-Delete on a Windows host.
pub open spec fn cut_chord(modifiers: Modifiers, keycode: HostKey, platform: Platform) -> bool {
    (modifiers.command && keycode == HostKey::X) || (platform == Platform::Windows
        && modifiers.shift && keycode == HostKey::Delete)
}

/// Copy: command-C, or control-Insert on a Windows host.
pub open spec fn copy_chord(modifiers: Modifiers, keycode: HostKey, platform: Platform) -> bool {
    (modifiers.command && keycode == HostKey::C) || (platform == Platform::Windows
        && modifiers.ctrl && keycode == HostKey::Insert)
}

/// Paste: command-V, or shift-Insert on a Windows host.
pub open spec fn paste_chord(modifiers: Modifiers, keycode: HostKey, platform: Platform) -> bool {
    (modifiers.command && keycode == HostKey::V) || (platform == Platform::Windows
        && modifiers.shift && keycode == HostKey::Insert)
}

/// Whether the key with these modifiers is the cut chord.
pub fn is_cut_command(modifiers: Modifiers, keycode: HostKey, platform: Platform) -> (cut: bool)
    ensures
        cut == cut_chord(modifiers, keycode, platform),
{
    (modifiers.command && keycode == HostKey::X) || (platform == Platform::Windows
        && modifiers.shift && keycode == HostKey::Delete)
}

/// Whether the key with these modifiers is the copy chord.
pub fn is_copy_command(modifiers: Modifiers, keycode: HostKey, platform: Platform) -> (copy: bool)
    ensures
        copy == copy_chord(modifiers, keycode, platform),
{
    (modifiers.command && keycode == HostKey::C) || (platform == Platform::Windows
        && modifiers.ctrl && keycode == HostKey::Insert)
}

/// Whether the key with these modifiers is the paste chord.
pub fn is_paste_command(modifiers: Modifiers, keycode: HostKey, platform: Platform) -> (paste: bool)
    ensures
        paste == paste_chord(modifiers, keycode, platform),
{
    (modifiers.command && keycode == HostKey::V) || (platform == Platform::Windows
        && modifiers.shift && keycode == HostKey::Insert)
}

/// The key table: arrows, escape, tab, backspace, space, enter, the
/// navigation block and the letters. Every other key is dropped.
pub open spec fn translated_key(key: HostKey) -> Option<Key> {
    match key {
        HostKey::Left => Some(Key::ArrowLeft),
        HostKey::Up => Some(Key::ArrowUp),
        HostKey::Right => Some(Key::ArrowRight),
        HostKey::Down => Some(Key::ArrowDown),
        HostKey::Escape => Some(Key::Escape),
        HostKey::Tab => Some(Key::Tab),
        HostKey::Backspace => Some(Key::Backspace),
        HostKey::Space => Some(Key::Space),
        HostKey::Enter => Some(Key::Enter),
        HostKey::Insert => Some(Key::Insert),
        HostKey::Home => Some(Key::Home),
        HostKey::Delete => Some(Key::Delete),
        HostKey::End => Some(Key::End),
        HostKey::PageDown => Some(Key::PageDown),
        HostKey::PageUp => Some(Key::PageUp),
        HostKey::A => Some(Key::A),
        HostKey::B => Some(Key::B),
        HostKey::C => Some(Key::C),
        HostKey::D => Some(Key::D),
        HostKey::E => Some(Key::E),
        HostKey::F => Some(Key::F),
        HostKey::G => Some(Key::G),
        HostKey::H => Some(Key::H),
        HostKey::I => Some(Key::I),
        HostKey::J => Some(Key::J),
        HostKey::K => Some(Key::K),
        HostKey::L => Some(Key::L),
        HostKey::M => Some(Key::M),
        HostKey::N => Some(Key::N),
        HostKey::O => Some(Key::O),
        HostKey::P => Some(Key::P),
        HostKey::Q => Some(Key::Q),
        HostKey::R => Some(Key::R),
        HostKey::S => Some(Key::S),
        HostKey::T => Some(Key::T),
        HostKey::U => Some(Key::U),
        HostKey::V => Some(Key::V),
        HostKey::W => Some(Key::W),
        HostKey::X => Some(Key::X),
        HostKey::Y => Some(Key::Y),
        HostKey::Z => Some(Key::Z),
        HostKey::Other => None,
    }
}

/// Translates a host key; `None` for a key that the toolkit is not told
/// about.
pub fn translate_virtual_key_code(key: HostKey) -> (translated: Option<Key>)
    ensures
        translated == translated_key(key),
        translated.is_none() == (key == HostKey::Other),
{
    Some(
        match key {
            HostKey::Left => Key::ArrowLeft,
            HostKey::Up => Key::ArrowUp,
            HostKey::Right => Key::ArrowRight,
            HostKey::Down => Key::ArrowDown,
            HostKey::Escape => Key::Escape,
            HostKey::Tab => Key::Tab,
            HostKey::Backspace => Key::Backspace,
            HostKey::Space => Key::Space,
            HostKey::Enter => Key::Enter,
            HostKey::Insert => Key::Insert,
            HostKey::Home => Key::Home,
            HostKey::Delete => Key::Delete,
            HostKey::End => Key::End,
            HostKey::PageDown => Key::PageDown,
            HostKey::PageUp => Key::PageUp,
            HostKey::A => Key::A,
            HostKey::B => Key::B,
            HostKey::C => Key::C,
            HostKey::D => Key::D,
            HostKey::E => Key::E,
            HostKey::F => Key::F,
            HostKey::G => Key::G,
            HostKey::H => Key::H,
            HostKey::I => Key::I,
            HostKey::J => Key::J,
            HostKey::K => Key::K,
            HostKey::L => Key::L,
            HostKey::M => Key::M,
            HostKey::N => Key::N,
            HostKey::O => Key::O,
            HostKey::P => Key::P,
            HostKey::Q => Key::Q,
            HostKey::R => Key::R,
            HostKey::S => Key::S,
            HostKey::T => Key::T,
            HostKey::U => Key::U,
            HostKey::V => Key::V,
            HostKey::W => Key::W,
            HostKey::X => Key::X,
            HostKey::Y => Key::Y,
            HostKey::Z => Key::Z,
            HostKey::Other => {
                return None;
            },
        },
    )
}

/// The cursor icons that the toolkit can ask for.
#[derive(Clone, Copy, Debug, PartialEq, Eq, Hash, Structural)]
pub enum CursorIcon {
    /// The cursor is left as it is.
    Default,
    /// No cursor is shown.
    Hidden,
    ContextMenu,
    Help,
    PointingHand,
    Progress,
    Wait,
    Cell,
    Crosshair,
    Text,
    VerticalText,
    Alias,
    Copy,
    Move,
    NoDrop,
    NotAllowed,
    Grab,
    Grabbing,
    AllScroll,
    ResizeHorizontal,
    ResizeNeSw,
    ResizeNwSe,
    ResizeVertical,
    ResizeEast,
    ResizeSouthEast,
    ResizeSouth,
    ResizeSouthWest,
    ResizeWest,
    ResizeNorthWest,
    ResizeNorth,
    ResizeNorthEast,
    ResizeColumn,
    ResizeRow,
    ZoomIn,
    ZoomOut,
}

/// The cursor icons of the host.
#[derive(Clone, Copy, Debug, PartialEq, Eq, Hash, Structural)]
pub enum WinCursorIcon {
    /// The platform-dependent default cursor.
    Default,
    /// A simple crosshair.
    Crosshair,
    /// A hand, often used for links.
    Hand,
    Arrow,
    /// Something is to be moved.
    Move,
    /// Text that may be selected or edited.
    Text,
    /// The program is busy.
    Wait,
    /// Help, often rendered as a question mark.
    Help,
    /// Work is being done, but the user may still interact.
    Progress,
    /// Something cannot be done.
    NotAllowed,
    ContextMenu,
    Cell,
    VerticalText,
    Alias,
    Copy,
    NoDrop,
    /// Something can be grabbed.
    Grab,
    /// Something is grabbed.
    Grabbing,
    AllScroll,
    ZoomIn,
    ZoomOut,
    /// An edge is to be moved; `SeResize` is for the south-east corner.
    EResize,
    NResize,
    NeResize,
    NwResize,
    SResize,
    SeResize,
    SwResize,
    WResize,
    EwResize,
    NsResize,
    NeswResize,
    NwseResize,
    ColResize,
    RowResize,
}

impl Default for WinCursorIcon {
    fn default() -> (icon: WinCursorIcon)
        ensures
            icon == WinCursorIcon::Default,
    {
        WinCursorIcon::Default
    }
}

/// The host icon for a toolkit icon; `None` where the cursor is hidden.
pub open spec fn translated_cursor(cursor_icon: CursorIcon) -> Option<WinCursorIcon> {
    match cursor_icon {
        CursorIcon::Hidden => None,
        CursorIcon::Alias => Some(WinCursorIcon::Alias),
        CursorIcon::AllScroll => Some(WinCursorIcon::AllScroll),
        CursorIcon::Cell => Some(WinCursorIcon::Cell),
        CursorIcon::ContextMenu => Some(WinCursorIcon::ContextMenu),
        CursorIcon::Copy => Some(WinCursorIcon::Copy),
        CursorIcon::Crosshair => Some(WinCursorIcon::Crosshair),
        CursorIcon::Default => Some(WinCursorIcon::Default),
        CursorIcon::Grab => Some(WinCursorIcon::Grab),
        CursorIcon::Grabbing => Some(WinCursorIcon::Grabbing),
        CursorIcon::Help => Some(WinCursorIcon::Help),
        CursorIcon::Move => Some(WinCursorIcon::Move),
        CursorIcon::NoDrop => Some(WinCursorIcon::NoDrop),
        CursorIcon::NotAllowed => Some(WinCursorIcon::NotAllowed),
        CursorIcon::PointingHand => Some(WinCursorIcon::Hand),
        CursorIcon::Progress => Some(WinCursorIcon::Progress),
        CursorIcon::ResizeHorizontal => Some(WinCursorIcon::EwResize),
        CursorIcon::ResizeNeSw => Some(WinCursorIcon::NeswResize),
        CursorIcon::ResizeNwSe => Some(WinCursorIcon::NwseResize),
        CursorIcon::ResizeVertical => Some(WinCursorIcon::NsResize),
        CursorIcon::ResizeEast => Some(WinCursorIcon::EResize),
        CursorIcon::ResizeSouthEast => Some(WinCursorIcon::SeResize),
        CursorIcon::ResizeSouth => Some(WinCursorIcon::SResize),
        CursorIcon::ResizeSouthWest => Some(WinCursorIcon::SwResize),
        CursorIcon::ResizeWest => Some(WinCursorIcon::WResize),
        CursorIcon::ResizeNorthWest => Some(WinCursorIcon::NwResize),
        CursorIcon::ResizeNorth => Some(WinCursorIcon::NResize),
        CursorIcon::ResizeNorthEast => Some(WinCursorIcon::NeResize),
        CursorIcon::ResizeColumn => Some(WinCursorIcon::ColResize),
        CursorIcon::ResizeRow => Some(WinCursorIcon::RowResize),
        CursorIcon::Text => Some(WinCursorIcon::Text),
        CursorIcon::VerticalText => Some(WinCursorIcon::VerticalText),
        CursorIcon::Wait => Some(WinCursorIcon::Wait),
        CursorIcon::ZoomIn => Some(WinCursorIcon::ZoomIn),
        CursorIcon::ZoomOut => Some(WinCursorIcon::ZoomOut),
    }
}

/// Translates a toolkit cursor icon; `None` where the cursor is hidden.
pub fn translate_cursor(cursor_icon: CursorIcon) -> (icon: Option<WinCursorIcon>)
    ensures
        icon == translated_cursor(cursor_icon),
        icon.is_none() == (cursor_icon == CursorIcon::Hidden),
{
    match cursor_icon {
        CursorIcon::Hidden => None,
        CursorIcon::Alias => Some(WinCursorIcon::Alias),
        CursorIcon::AllScroll => Some(WinCursorIcon::AllScroll),
        CursorIcon::Cell => Some(WinCursorIcon::Cell),
        CursorIcon::ContextMenu => Some(WinCursorIcon::ContextMenu),
        CursorIcon::Copy => Some(WinCursorIcon::Copy),
        CursorIcon::Crosshair => Some(WinCursorIcon::Crosshair),
        CursorIcon::Default => Some(WinCursorIcon::Default),
        CursorIcon::Grab => Some(WinCursorIcon::Grab),
        CursorIcon::Grabbing => Some(WinCursorIcon::Grabbing),
        CursorIcon::Help => Some(WinCursorIcon::Help),
        CursorIcon::Move => Some(WinCursorIcon::Move),
        CursorIcon::NoDrop => Some(WinCursorIcon::NoDrop),
        CursorIcon::NotAllowed => Some(WinCursorIcon::NotAllowed),
        CursorIcon::PointingHand => Some(WinCursorIcon::Hand),
        CursorIcon::Progress => Some(WinCursorIcon::Progress),
        CursorIcon::ResizeHorizontal => Some(WinCursorIcon::EwResize),
        CursorIcon::ResizeNeSw => Some(WinCursorIcon::NeswResize),
        CursorIcon::ResizeNwSe => Some(WinCursorIcon::NwseResize),
        CursorIcon::ResizeVertical => Some(WinCursorIcon::NsResize),
        CursorIcon::ResizeEast => Some(WinCursorIcon::EResize),
        CursorIcon::ResizeSouthEast => Some(WinCursorIcon::SeResize),
        CursorIcon::ResizeSouth => Some(WinCursorIcon::SResize),
        CursorIcon::ResizeSouthWest => Some(WinCursorIcon::SwResize),
        CursorIcon::ResizeWest => Some(WinCursorIcon::WResize),
        CursorIcon::ResizeNorthWest => Some(WinCursorIcon::NwResize),
        CursorIcon::ResizeNorth => Some(WinCursorIcon::NResize),
        CursorIcon::ResizeNorthEast => Some(WinCursorIcon::NeResize),
        CursorIcon::ResizeColumn => Some(WinCursorIcon::ColResize),
        CursorIcon::ResizeRow => Some(WinCursorIcon::RowResize),
        CursorIcon::Text => Some(WinCursorIcon::Text),
        CursorIcon::VerticalText => Some(WinCursorIcon::VerticalText),
        CursorIcon::Wait => Some(WinCursorIcon::Wait),
        CursorIcon::ZoomIn => Some(WinCursorIcon::ZoomIn),
        CursorIcon::ZoomOut => Some(WinCursorIcon::ZoomOut),
    }
}

/// Resource identifier of the standard arrow.
pub const IDC_ARROW: u16 = 32512;

/// Resource identifier of the text I-beam.
pub const IDC_IBEAM: u16 = 32513;

/// Resource identifier of the hourglass.
pub const IDC_WAIT: u16 = 32514;

/// Resource identifier of the crosshair.
pub const IDC_CROSS: u16 = 32515;

/// Resource identifier of the double arrow pointing north-west and south-east.
pub const IDC_SIZENWSE: u16 = 32642;

/// Resource identifier of the double arrow pointing north-east and south-west.
pub const IDC_SIZENESW: u16 = 32643;

/// Resource identifier of the double arrow pointing west and east.
pub const IDC_SIZEWE: u16 = 32644;

/// Resource identifier of the double arrow pointing north and south.
pub const IDC_SIZENS: u16 = 32645;

/// Resource identifier of the four-pointed arrow.
pub const IDC_SIZEALL: u16 = 32646;

/// Resource identifier of the slashed circle.
pub const IDC_NO: u16 = 32648;

/// Resource identifier of the hand.
pub const IDC_HAND: u16 = 32649;

/// Resource identifier of the arrow with an hourglass.
pub const IDC_APPSTARTING: u16 = 32650;

/// Resource identifier of the arrow with a question mark.
pub const IDC_HELP: u16 = 32651;

impl WinCursorIcon {
    /// The system cursor that shows this icon. The resize icons collapse on
    /// the two-axis, diagonal and all-axis cursors of the system; an icon
    /// without a system cursor shows as the arrow.
    pub open spec fn windows_cursor(self) -> u16 {
        match self {
            WinCursorIcon::Arrow | WinCursorIcon::Default => IDC_ARROW,
            WinCursorIcon::Hand => IDC_HAND,
            WinCursorIcon::Crosshair => IDC_CROSS,
            WinCursorIcon::Text | WinCursorIcon::VerticalText => IDC_IBEAM,
            WinCursorIcon::NotAllowed | WinCursorIcon::NoDrop => IDC_NO,
            WinCursorIcon::Grab
            | WinCursorIcon::Grabbing
            | WinCursorIcon::Move
            | WinCursorIcon::AllScroll => IDC_SIZEALL,
            WinCursorIcon::EResize
            | WinCursorIcon::WResize
            | WinCursorIcon::EwResize
            | WinCursorIcon::ColResize => IDC_SIZEWE,
            WinCursorIcon::NResize
            | WinCursorIcon::SResize
            | WinCursorIcon::NsResize
            | WinCursorIcon::RowResize => IDC_SIZENS,
            WinCursorIcon::NeResize | WinCursorIcon::SwResize | WinCursorIcon::NeswResize => {
                IDC_SIZENESW
            },
            WinCursorIcon::NwResize | WinCursorIcon::SeResize | WinCursorIcon::NwseResize => {
                IDC_SIZENWSE
            },
            WinCursorIcon::Wait => IDC_WAIT,
            WinCursorIcon::Progress => IDC_APPSTARTING,
            WinCursorIcon::Help => IDC_HELP,
            _ => IDC_ARROW,
        }
    }

    /// The resource identifier of the system cursor that shows this icon.
    pub fn to_windows_cursor(self) -> (cursor: u16)
        ensures
            cursor == self.windows_cursor(),
    {
        match self {
            WinCursorIcon::Arrow | WinCursorIcon::Default => IDC_ARROW,
            WinCursorIcon::Hand => IDC_HAND,
            WinCursorIcon::Crosshair => IDC_CROSS,
            WinCursorIcon::Text | WinCursorIcon::VerticalText => IDC_IBEAM,
            WinCursorIcon::NotAllowed | WinCursorIcon::NoDrop => IDC_NO,
            WinCursorIcon::Grab
            | WinCursorIcon::Grabbing
            | WinCursorIcon::Move
            | WinCursorIcon::AllScroll => IDC_SIZEALL,
            WinCursorIcon::EResize
            | WinCursorIcon::WResize
            | WinCursorIcon::EwResize
            | WinCursorIcon::ColResize => IDC_SIZEWE,
            WinCursorIcon::NResize
            | WinCursorIcon::SResize
            | WinCursorIcon::NsResize
            | WinCursorIcon::RowResize => IDC_SIZENS,
            WinCursorIcon::NeResize | WinCursorIcon::SwResize | WinCursorIcon::NeswResize => {
                IDC_SIZENESW
            },
            WinCursorIcon::NwResize | WinCursorIcon::SeResize | WinCursorIcon::NwseResize => {
                IDC_SIZENWSE
            },
            WinCursorIcon::Wait => IDC_WAIT,
            WinCursorIcon::Progress => IDC_APPSTARTING,
            WinCursorIcon::Help => IDC_HELP,
            _ => IDC_ARROW,
        }
    }
}

} // verus!
