//! The input translator: turns the events of the host window into the input
//! record that the toolkit drains at the start of each frame, and the
//! toolkit's platform output into what the host has to do.

use vstd::prelude::*;
use crate::carried::{Double, Single};
use crate::input_translate::{
    copy_chord, cut_chord, is_copy_command, is_cut_command, is_paste_command, paste_chord,
    translate_cursor, translate_modifiers, translate_virtual_key_code, translated_cursor,
    translated_key, translated_modifiers, CursorIcon, HostKey, Key, Mod, Modifiers, Platform,
};

verus! {

/// Logical points that one line of the scroll wheel stands for.
pub const POINTS_PER_SCROLL_LINE: u32 = 50;

/// Logical points of scroll that multiply the zoom by `e`.
pub const ZOOM_POINTS_PER_E: u32 = 200;

/// What happened to a key or a button.
#[derive(Clone, Copy, Debug, PartialEq, Eq, Hash, Structural)]
pub enum Action {
    Release,
    Press,
    Repeat,
}

/// A button of the host's pointing device. The first three are the left,
/// the right and the middle button.
#[derive(Clone, Copy, Debug, PartialEq, Eq, Hash, Structural)]
pub enum MouseButton {
    Button1,
    Button2,
    Button3,
    Button4,
    Button5,
    Button6,
    Button7,
    Button8,
}

/// A pointer button as the toolkit sees it.
#[derive(Clone, Copy, Debug, PartialEq, Eq, Hash, Structural)]
pub enum PointerButton {
    Primary,
    Secondary,
    Middle,
}

/// An event of the host window.
#[derive(Clone, Copy, Debug, PartialEq, Eq, Structural)]
pub enum HostEvent {
    /// The user asked to close the window.
    Close,
    Focus(bool),
    Iconify(bool),
    Maximize(bool),
    /// The framebuffer has a new size in pixels.
    FramebufferSize(i32, i32),
    MouseButton(MouseButton, Action, Mod),
    /// The pointer moved to this position, in pixels.
    CursorPos(Double, Double),
    CursorEnter(bool),
    /// The wheel turned by these offsets, in lines.
    Scroll(Double, Double),
    Key(HostKey, Action, Mod),
    Char(char),
    /// Any other event; the translator ignores it.
    Other,
}

/// A pointer position: where the host saw the pointer, in pixels, and the
/// pixels-per-point in force when it did. The position in logical points is
/// the one divided by the other.
#[derive(Clone, Copy, Debug, PartialEq, Eq, Structural)]
pub struct PointerPos {
    pub x: Double,
    pub y: Double,
    pub pixels_per_point: Single,
}

/// The screen rectangle: a framebuffer size in pixels and the
/// pixels-per-point in force when it was reported. The rectangle in logical
/// points starts at the origin and has the size divided by the scale.
#[derive(Clone, Copy, Debug, PartialEq, Eq, Structural)]
pub struct ScreenRect {
    pub width: i32,
    pub height: i32,
    pub pixels_per_point: Single,
}

/// A turn of the scroll wheel as the host reported it, in lines. In logical
/// points the horizontal delta is `-x` and the vertical delta is `y`, each
/// times [`POINTS_PER_SCROLL_LINE`].
#[derive(Clone, Copy, Debug, PartialEq, Eq, Structural)]
pub struct Wheel {
    pub x: Double,
    pub y: Double,
}

/// An input event for the toolkit.
#[derive(Debug, PartialEq, Eq)]
pub enum Event {
    PointerMoved(PointerPos),
    PointerButton { pos: PointerPos, button: PointerButton, pressed: bool, modifiers: Modifiers },
    /// Scroll by the deltas of the wheel.
    Scroll(Wheel),
    /// Scroll horizontally by the sum of the two deltas of the wheel.
    ScrollHorizontal(Wheel),
    /// Zoom by `e` to the power of the vertical delta of the wheel over
    /// [`ZOOM_POINTS_PER_E`].
    Zoom(Wheel),
    Text(String),
    Key { key: Key, pressed: bool, repeat: bool, modifiers: Modifiers },
    Cut,
    Copy,
    Paste(String),
}

/// What an [`Event`] says.
pub enum EventView {
    PointerMoved(PointerPos),
    PointerButton { pos: PointerPos, button: PointerButton, pressed: bool, modifiers: Modifiers },
    Scroll(Wheel),
    ScrollHorizontal(Wheel),
    Zoom(Wheel),
    Text(Seq<char>),
    Key { key: Key, pressed: bool, repeat: bool, modifiers: Modifiers },
    Cut,
    Copy,
    Paste(Seq<char>),
}

impl View for Event {
    type V = EventView;

    open spec fn view(&self) -> EventView {
        match *self {
            Event::PointerMoved(pos) => EventView::PointerMoved(pos),
            Event::PointerButton { pos, button, pressed, modifiers } => EventView::PointerButton {
                pos,
                button,
                pressed,
                modifiers,
            },
            Event::Scroll(wheel) => EventView::Scroll(wheel),
            Event::ScrollHorizontal(wheel) => EventView::ScrollHorizontal(wheel),
            Event::Zoom(wheel) => EventView::Zoom(wheel),
            Event::Text(text) => EventView::Text(text@),
            Event::Key { key, pressed, repeat, modifiers } => EventView::Key {
                key,
                pressed,
                repeat,
                modifiers,
            },
            Event::Cut => EventView::Cut,
            Event::Copy => EventView::Copy,
            Event::Paste(text) => EventView::Paste(text@),
        }
    }
}

/// The events of a list as the contracts see them.
pub open spec fn event_views(events: Seq<Event>) -> Seq<EventView> {
    Seq::new(events.len(), |i: int| events[i]@)
}

/// The input of one frame.
#[derive(Debug, PartialEq, Eq)]
pub struct RawInput {
    pub screen_rect: Option<ScreenRect>,
    /// Seconds since the start.
    pub time: Option<Double>,
    pub events: Vec<Event>,
}

/// What a [`RawInput`] says.
pub struct RawInputView {
    pub screen_rect: Option<ScreenRect>,
    pub time: Option<Double>,
    pub events: Seq<EventView>,
}

impl View for RawInput {
    type V = RawInputView;

    open spec fn view(&self) -> RawInputView {
        RawInputView {
            screen_rect: self.screen_rect,
            time: self.time,
            events: event_views(self.events@),
        }
    }
}

impl RawInput {
    /// An input record without events.
    pub fn new(screen_rect: Option<ScreenRect>) -> (input: RawInput)
        ensures
            input@ == (RawInputView { screen_rect, time: None, events: Seq::empty() }),
    {
        let input = RawInput { screen_rect, time: None, events: Vec::new() };
        assert(input@.events =~= Seq::<EventView>::empty());
        input
    }

    /// Moves the record out and leaves an empty one.
    pub fn take(&mut self) -> (taken: RawInput)
        ensures
            taken@ == old(self)@,
            final(self)@ == (RawInputView { screen_rect: None, time: None, events: Seq::empty() }),
    {
        let mut events: Vec<Event> = Vec::new();
        std::mem::swap(&mut self.events, &mut events);
        let taken = RawInput { screen_rect: self.screen_rect, time: self.time, events };
        self.screen_rect = None;
        self.time = None;
        assert(self@.events =~= Seq::<EventView>::empty());
        taken
    }
}

/// `text` with every carriage return that a line feed follows taken out.
pub open spec fn crlf_to_lf(text: Seq<char>) -> Seq<char>
    decreases text.len(),
{
    if text.len() == 0 {
        text
    } else if text.len() >= 2 && text[0] == '\r' && text[1] == '\n' {
        seq!['\n'] + crlf_to_lf(text.skip(2))
    } else {
        seq![text[0]] + crlf_to_lf(text.skip(1))
    }
}

/// `text` with every match of `from` replaced by `to`; the matches are found
/// from left to right and do not overlap.
pub open spec fn replaced_all(text: Seq<char>, from: Seq<char>, to: Seq<char>) -> Seq<char>
    decreases text.len(),
{
    if text.len() == 0 || from.len() == 0 {
        text
    } else if from.len() <= text.len() && text.take(from.len() as int) == from {
        to + replaced_all(text.skip(from.len() as int), from, to)
    } else {
        seq![text[0]] + replaced_all(text.skip(1), from, to)
    }
}

/// `str::replace`: a new string in which every match of the pattern, found
/// from left to right without overlap, is replaced. The pattern must not be
/// empty.
#[verifier::external_body]
fn replace(text: &str, from: &str, to: &str) -> (replaced: String)
    requires
        from@.len() > 0,
    ensures
        replaced@ == replaced_all(text@, from@, to@),
{
    text.replace(from, to)
}

/// Replacing each carriage return and line feed by a line feed takes out
/// every carriage return that a line feed follows.
proof fn lemma_crlf_replaced(text: Seq<char>)
    ensures
        replaced_all(text, seq!['\r', '\n'], seq!['\n']) == crlf_to_lf(text),
    decreases text.len(),
{
    if text.len() >= 2 && text[0] == '\r' && text[1] == '\n' {
        assert(text.take(2) =~= seq!['\r', '\n']);
        lemma_crlf_replaced(text.skip(2));
    } else if text.len() > 0 {
        lemma_crlf_replaced(text.skip(1));
    }
}

/// `char::to_string`: the string that holds this one character.
#[verifier::external_body]
fn char_to_string(c: char) -> (text: String)
    ensures
        text@ == seq![c],
{
    c.to_string()
}

/// What a paste hands to the toolkit, given what the clipboard returned.
pub open spec fn pasted(clipboard: Option<Seq<char>>) -> Option<Seq<char>> {
    match clipboard {
        Some(text) => if text.len() > 0 {
            Some(crlf_to_lf(text))
        } else {
            None
        },
        None => None,
    }
}

/// What an optional string holds.
pub open spec fn text_view(text: Option<String>) -> Option<Seq<char>> {
    match text {
        Some(text) => Some(text@),
        None => None,
    }
}

/// The toolkit's button for a button of the host.
pub open spec fn mapped_button(button: MouseButton) -> Option<PointerButton> {
    match button {
        MouseButton::Button1 => Some(PointerButton::Primary),
        MouseButton::Button2 => Some(PointerButton::Secondary),
        MouseButton::Button3 => Some(PointerButton::Middle),
        _ => None,
    }
}

/// Whether the translator knows the event: every event but the press or
/// release of a button beyond the third.
pub open spec fn known_event(event: HostEvent) -> bool {
    event matches HostEvent::MouseButton(button, _, _) ==> mapped_button(button).is_some()
}

/// The event of a turn of the wheel: a zoom while control or command is
/// down, else a horizontal scroll while shift is down, else a scroll.
pub open spec fn scroll_event(modifiers: Modifiers, wheel: Wheel) -> EventView {
    if modifiers.ctrl || modifiers.command {
        EventView::Zoom(wheel)
    } else if modifiers.shift {
        EventView::ScrollHorizontal(wheel)
    } else {
        EventView::Scroll(wheel)
    }
}

/// The clipboard events of a key: on a press, the first of cut, copy and
/// paste whose chord the key completes. A paste is dropped where the
/// clipboard gives nothing.
pub open spec fn chord_events(
    modifiers: Modifiers,
    key: HostKey,
    action: Action,
    platform: Platform,
    clipboard: Option<Seq<char>>,
) -> Seq<EventView> {
    if action != Action::Press {
        Seq::empty()
    } else if cut_chord(modifiers, key, platform) {
        seq![EventView::Cut]
    } else if copy_chord(modifiers, key, platform) {
        seq![EventView::Copy]
    } else if paste_chord(modifiers, key, platform) {
        match pasted(clipboard) {
            Some(text) => seq![EventView::Paste(text)],
            None => Seq::empty(),
        }
    } else {
        Seq::empty()
    }
}

/// The key event of a key: none for a key outside the key table.
pub open spec fn key_events(modifiers: Modifiers, key: HostKey, action: Action) -> Seq<EventView> {
    match translated_key(key) {
        Some(key) => seq![
            EventView::Key {
                key,
                pressed: action == Action::Press,
                repeat: action == Action::Repeat,
                modifiers,
            },
        ],
        None => Seq::empty(),
    }
}

/// What the host has to do about its cursor.
#[derive(Clone, Copy, Debug, PartialEq, Eq, Structural)]
pub enum CursorAction {
    /// Leave the cursor as it is.
    Unchanged,
    /// Hide the cursor.
    Hide,
    /// Show the cursor and, where a resource identifier is given, set the
    /// system cursor with that identifier.
    Show(Option<u16>),
}

/// The cursor action for an icon that the toolkit asks for. The system
/// cursor is set only while the pointer is inside the window.
pub open spec fn cursor_action(in_window: bool, cursor_icon: CursorIcon) -> CursorAction {
    match cursor_icon {
        CursorIcon::Default => CursorAction::Unchanged,
        CursorIcon::Hidden => CursorAction::Hide,
        _ => CursorAction::Show(
            if in_window {
                Some(translated_cursor(cursor_icon).unwrap().windows_cursor())
            } else {
                None
            },
        ),
    }
}

/// What the toolkit asks of the host at the end of a frame.
#[derive(Debug)]
pub struct PlatformOutput {
    pub cursor_icon: CursorIcon,
    /// A URL to open in the browser.
    pub open_url: Option<String>,
    /// Text to put on the clipboard; empty for none.
    pub copied_text: String,
}

/// What the host has to do at the end of a frame.
#[derive(Debug, PartialEq, Eq)]
pub struct PlatformActions {
    pub cursor: CursorAction,
    /// Text to write to the clipboard.
    pub copy_to_clipboard: Option<String>,
    /// A URL to hand to the opener of the operating system.
    pub open_url: Option<String>,
}

/// The state of the input translator.
#[derive(Debug)]
pub struct UserInputState {
    pub raw_input: RawInput,
    pub pixels_per_point: Single,
    pub platform: Platform,
    pub modifiers: Modifiers,
    pub focus: bool,
    pub minimized: bool,
    pub maximized: bool,
    pub cursor_pos: PointerPos,
    pub cursor_in_window: bool,
    pub cursor_current_icon: CursorIcon,
}

/// What a [`UserInputState`] holds.
pub struct InputView {
    pub raw_input: RawInputView,
    pub pixels_per_point: Single,
    pub platform: Platform,
    pub modifiers: Modifiers,
    pub focus: bool,
    pub minimized: bool,
    pub maximized: bool,
    pub cursor_pos: PointerPos,
    pub cursor_in_window: bool,
    pub cursor_current_icon: CursorIcon,
}

impl View for UserInputState {
    type V = InputView;

    open spec fn view(&self) -> InputView {
        InputView {
            raw_input: self.raw_input@,
            pixels_per_point: self.pixels_per_point,
            platform: self.platform,
            modifiers: self.modifiers,
            focus: self.focus,
            minimized: self.minimized,
            maximized: self.maximized,
            cursor_pos: self.cursor_pos,
            cursor_in_window: self.cursor_in_window,
            cursor_current_icon: self.cursor_current_icon,
        }
    }
}

impl InputView {
    /// The state with `events` added to the input record.
    pub open spec fn with_events(self, events: Seq<EventView>) -> InputView {
        InputView {
            raw_input: RawInputView { events: self.raw_input.events + events, ..self.raw_input },
            ..self
        }
    }

    /// The state after a host event. `clipboard` is what reading the
    /// clipboard returns.
    pub open spec fn after_event(
        self,
        event: HostEvent,
        clipboard: Option<Seq<char>>,
    ) -> InputView {
        match event {
            HostEvent::Close => self,
            HostEvent::Focus(focus) => InputView { focus, ..self },
            HostEvent::Iconify(minimized) => InputView { minimized, ..self },
            HostEvent::Maximize(maximized) => InputView { maximized, ..self },
            HostEvent::FramebufferSize(width, height) => InputView {
                raw_input: RawInputView {
                    screen_rect: Some(
                        ScreenRect { width, height, pixels_per_point: self.pixels_per_point },
                    ),
                    ..self.raw_input
                },
                ..self
            },
            HostEvent::MouseButton(button, action, _) => match mapped_button(button) {
                Some(button) => self.with_events(
                    seq![
                        EventView::PointerButton {
                            pos: self.cursor_pos,
                            button,
                            pressed: action == Action::Press,
                            modifiers: self.modifiers,
                        },
                    ],
                ),
                None => self,
            },
            HostEvent::CursorPos(x, y) => {
                let pos = PointerPos { x, y, pixels_per_point: self.pixels_per_point };
                (InputView { cursor_pos: pos, ..self }).with_events(
                    seq![EventView::PointerMoved(pos)],
                )
            },
            HostEvent::CursorEnter(cursor_in_window) => InputView { cursor_in_window, ..self },
            HostEvent::Scroll(x, y) => self.with_events(
                seq![scroll_event(self.modifiers, Wheel { x, y })],
            ),
            HostEvent::Key(key, action, keymod) => {
                let modifiers = translated_modifiers(keymod, self.platform);
                (InputView { modifiers, ..self }).with_events(
                    chord_events(modifiers, key, action, self.platform, clipboard) + key_events(
                        modifiers,
                        key,
                        action,
                    ),
                )
            },
            HostEvent::Char(c) => self.with_events(seq![EventView::Text(seq![c])]),
            HostEvent::Other => self,
        }
    }

    /// Whether the event asks for the clipboard: the press of a key that
    /// completes the paste chord and neither the cut nor the copy chord.
    pub open spec fn reads_clipboard(self, event: HostEvent) -> bool {
        &&& event matches HostEvent::Key(key, action, keymod)
        &&& action == Action::Press
        &&& !cut_chord(translated_modifiers(keymod, self.platform), key, self.platform)
        &&& !copy_chord(translated_modifiers(keymod, self.platform), key, self.platform)
        &&& paste_chord(translated_modifiers(keymod, self.platform), key, self.platform)
    }
}

impl UserInputState {
    /// The state at start-up: focused, minimised, pointer at the origin and
    /// outside the window, no modifier down.
    pub fn new(
        input: RawInput,
        pixels_per_point: Single,
        platform: Platform,
    ) -> (state: UserInputState)
        ensures
            state@ == (InputView {
                raw_input: input@,
                pixels_per_point,
                platform,
                modifiers: Modifiers {
                    alt: false,
                    ctrl: false,
                    shift: false,
                    mac_cmd: false,
                    command: false,
                },
                focus: true,
                minimized: true,
                maximized: false,
                cursor_pos: PointerPos {
                    x: Double { bits: 0 },
                    y: Double { bits: 0 },
                    pixels_per_point,
                },
                cursor_in_window: false,
                cursor_current_icon: CursorIcon::Hidden,
            }),
    {
        UserInputState {
            raw_input: input,
            pixels_per_point,
            platform,
            modifiers: Modifiers::none(),
            focus: true,
            minimized: true,
            maximized: false,
            cursor_pos: PointerPos { x: Double { bits: 0 }, y: Double { bits: 0 }, pixels_per_point },
            cursor_in_window: false,
            cursor_current_icon: CursorIcon::Hidden,
        }
    }

    /// The text to paste, given what reading the clipboard returned: the
    /// content with line ends normalised; nothing where the clipboard could
    /// not be read or is empty.
    pub fn get_clipboard_content(fetched: Option<String>) -> (content: Option<String>)
        ensures
            text_view(content) == pasted(text_view(fetched)),
    {
        match fetched {
            Some(text) => {
                if text.as_str().is_empty() {
                    None
                } else {
                    proof {
                        reveal_strlit("\r\n");
                        reveal_strlit("\n");
                        assert("\r\n"@ =~= seq!['\r', '\n']);
                        assert("\n"@ =~= seq!['\n']);
                        lemma_crlf_replaced(text@);
                    }
                    Some(replace(text.as_str(), "\r\n", "\n"))
                }
            },
            None => None,
        }
    }

    /// Adds an event to the input record.
    fn push(&mut self, event: Event)
        ensures
            final(self)@ == old(self)@.with_events(seq![event@]),
    {
        self.raw_input.events.push(event);
        assert(self@.raw_input.events =~= old(self)@.raw_input.events + seq![event@]);
    }

    /// Whether the translator knows the event, see [`known_event`].
    pub fn knows(event: &HostEvent) -> (known: bool)
        ensures
            known == known_event(*event),
    {
        match event {
            HostEvent::MouseButton(button, _, _) => match button {
                MouseButton::Button1 | MouseButton::Button2 | MouseButton::Button3 => true,
                _ => false,
            },
            _ => true,
        }
    }

    /// Whether handling the event takes the content of the clipboard, see
    /// [`InputView::reads_clipboard`].
    pub fn wants_clipboard(&self, event: &HostEvent) -> (wanted: bool)
        ensures
            wanted == self@.reads_clipboard(*event),
    {
        match event {
            HostEvent::Key(key, action, keymod) => {
                let modifiers = translate_modifiers(*keymod, self.platform);
                match action {
                    Action::Press => !is_cut_command(modifiers, *key, self.platform)
                        && !is_copy_command(modifiers, *key, self.platform) && is_paste_command(
                        modifiers,
                        *key,
                        self.platform,
                    ),
                    _ => false,
                }
            },
            _ => false,
        }
    }

    /// A button of the pointing device went down or up.
    fn on_mouse_button(&mut self, mouse_btn: MouseButton, action: Action, keymod: Mod)
        requires
            mapped_button(mouse_btn).is_some(),
        ensures
            final(self)@ == old(self)@.after_event(
                HostEvent::MouseButton(mouse_btn, action, keymod),
                None,
            ),
    {
        let button = match mouse_btn {
            MouseButton::Button1 => PointerButton::Primary,
            MouseButton::Button2 => PointerButton::Secondary,
            _ => PointerButton::Middle,
        };
        let pressed = match action {
            Action::Press => true,
            _ => false,
        };
        self.push(
            Event::PointerButton { pos: self.cursor_pos, button, pressed, modifiers: self.modifiers },
        );
    }

    /// The wheel turned.
    fn on_scroll(&mut self, x: Double, y: Double)
        ensures
            final(self)@ == old(self)@.after_event(HostEvent::Scroll(x, y), None),
    {
        let wheel = Wheel { x, y };
        if self.modifiers.ctrl || self.modifiers.command {
            self.push(Event::Zoom(wheel));
        } else if self.modifiers.shift {
            self.push(Event::ScrollHorizontal(wheel));
        } else {
            self.push(Event::Scroll(wheel));
        }
    }

    /// A key went down, repeated or went up: the modifiers are taken over,
    /// then the clipboard event of the key is added, then its key event.
    fn on_key(&mut self, keycode: HostKey, action: Action, keymod: Mod, clipboard: Option<String>)
        ensures
            final(self)@ == old(self)@.after_event(
                HostEvent::Key(keycode, action, keymod),
                text_view(clipboard),
            ),
    {
        self.modifiers = translate_modifiers(keymod, self.platform);
        let ghost start = self@;
        let ghost chord = chord_events(
            self.modifiers,
            keycode,
            action,
            self.platform,
            text_view(clipboard),
        );
        let pressed = match action {
            Action::Press => true,
            _ => false,
        };
        let repeat = match action {
            Action::Repeat => true,
            _ => false,
        };
        assert(start.with_events(Seq::empty()) == start);
        if pressed {
            if is_cut_command(self.modifiers, keycode, self.platform) {
                self.push(Event::Cut);
            } else if is_copy_command(self.modifiers, keycode, self.platform) {
                self.push(Event::Copy);
            } else if is_paste_command(self.modifiers, keycode, self.platform) {
                match UserInputState::get_clipboard_content(clipboard) {
                    Some(content) => {
                        self.push(Event::Paste(content));
                    },
                    None => {},
                }
            }
        }
        match translate_virtual_key_code(keycode) {
            Some(key) => {
                self.push(Event::Key { key, pressed, repeat, modifiers: self.modifiers });
            },
            None => {},
        }
        assert(self@.raw_input.events =~= start.raw_input.events + (chord + key_events(
            start.modifiers,
            keycode,
            action,
        )));
    }

    /// Handles one event of the host window. `clipboard` is what reading the
    /// clipboard returned; it is looked at only where
    /// [`UserInputState::wants_clipboard`] holds. Returns whether the window
    /// is to close.
    pub fn handle_event(&mut self, event: HostEvent, clipboard: Option<String>) -> (close: bool)
        requires
            known_event(event),
        ensures
            final(self)@ == old(self)@.after_event(event, text_view(clipboard)),
            close == (event is Close),
    {
        match event {
            HostEvent::Close => {
                return true;
            },
            HostEvent::Focus(is_focus) => {
                self.focus = is_focus;
            },
            HostEvent::Iconify(is_minimized) => {
                self.minimized = is_minimized;
            },
            HostEvent::Maximize(is_maximized) => {
                self.maximized = is_maximized;
            },
            HostEvent::FramebufferSize(width, height) => {
                self.raw_input.screen_rect = Some(
                    ScreenRect { width, height, pixels_per_point: self.pixels_per_point },
                );
            },
            HostEvent::MouseButton(mouse_btn, action, keymod) => {
                self.on_mouse_button(mouse_btn, action, keymod);
            },
            HostEvent::CursorPos(x, y) => {
                self.cursor_pos = PointerPos { x, y, pixels_per_point: self.pixels_per_point };
                self.push(Event::PointerMoved(self.cursor_pos));
            },
            HostEvent::CursorEnter(is_entered) => {
                self.cursor_in_window = is_entered;
            },
            HostEvent::Scroll(x, y) => {
                self.on_scroll(x, y);
            },
            HostEvent::Key(keycode, action, keymod) => {
                self.on_key(keycode, action, keymod, clipboard);
            },
            HostEvent::Char(c) => {
                self.push(Event::Text(char_to_string(c)));
            },
            HostEvent::Other => {},
        }
        false
    }

    /// Records the icon that the toolkit asks for and says what the host has
    /// to do about its cursor, see [`cursor_action`].
    pub fn set_cursor_icon(
        &mut self,
        in_window: bool,
        cursor_icon: CursorIcon,
    ) -> (action: CursorAction)
        ensures
            final(self)@ == (InputView { cursor_current_icon: cursor_icon, ..old(self)@ }),
            action == cursor_action(in_window, cursor_icon),
    {
        self.cursor_current_icon = cursor_icon;
        match cursor_icon {
            CursorIcon::Default => CursorAction::Unchanged,
            CursorIcon::Hidden => CursorAction::Hide,
            _ => match translate_cursor(cursor_icon) {
                Some(cursor) => CursorAction::Show(
                    if in_window {
                        Some(cursor.to_windows_cursor())
                    } else {
                        None
                    },
                ),
                None => CursorAction::Hide,
            },
        }
    }

    /// Applies the platform output of a frame: takes over the toolkit's
    /// pixels-per-point for the next frame, records the cursor icon, and says
    /// what the host has to do: set the cursor, write the copied text to the
    /// clipboard unless it is empty, and open the URL if there is one.
    pub fn handle_platform_output(
        &mut self,
        pixels_per_point: Single,
        platform_output: PlatformOutput,
    ) -> (actions: PlatformActions)
        ensures
            final(self)@ == (InputView {
                pixels_per_point,
                cursor_current_icon: platform_output.cursor_icon,
                ..old(self)@
            }),
            actions.cursor == cursor_action(old(self)@.cursor_in_window, platform_output.cursor_icon),
            text_view(actions.copy_to_clipboard) == if platform_output.copied_text@.len() > 0 {
                Some(platform_output.copied_text@)
            } else {
                None
            },
            text_view(actions.open_url) == text_view(platform_output.open_url),
    {
        let PlatformOutput { cursor_icon, open_url, copied_text } = platform_output;
        self.pixels_per_point = pixels_per_point;
        let cursor = self.set_cursor_icon(self.cursor_in_window, cursor_icon);
        let copy_to_clipboard = if copied_text.as_str().is_empty() {
            None
        } else {
            Some(copied_text)
        };
        PlatformActions { cursor, copy_to_clipboard, open_url }
    }

    /// Opens a frame: records the time, hands the input record out for the
    /// toolkit and starts an empty one.
    pub fn begin_frame(&mut self, elapsed_time: Double) -> (input: RawInput)
        ensures
            input@ == (RawInputView { time: Some(elapsed_time), ..old(self)@.raw_input }),
            final(self)@ == (InputView {
                raw_input: RawInputView { screen_rect: None, time: None, events: Seq::empty() },
                ..old(self)@
            }),
    {
        self.raw_input.time = Some(elapsed_time);
        self.raw_input.take()
    }
}

} // verus!
