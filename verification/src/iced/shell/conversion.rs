//! Conversion of baseview events into the events of the iced toolkit.
//!
//! Positions (`P`), scroll amounts (`D`) and window information (`I`) are
//! carried through unchanged; turning them into the toolkit's floating point
//! types happens outside the library.

use vstd::prelude::*;

use crate::event::{
    Event, KeyboardEvent, Modifiers, MouseButton, MouseEvent, WindowEvent, MOD_ALT, MOD_CONTROL,
    MOD_META, MOD_SHIFT,
};
use crate::iced::shell::keys::{
    baseview_to_iced_key, baseview_to_iced_keycode, iced_code_of, iced_key_of, IcedCode, IcedKey,
    Physical,
};
use crate::keyboard::{KeyState, Location};
use crate::mouse_cursor::MouseCursor;

verus! {

/// The modifier keys the toolkit tracks.
#[derive(Debug, Copy, Clone, PartialEq, Eq, Structural)]
pub struct IcedModifiers {
    pub shift: bool,
    pub control: bool,
    pub alt: bool,
    pub logo: bool,
}

impl IcedModifiers {
    pub open spec fn none() -> IcedModifiers {
        IcedModifiers { shift: false, control: false, alt: false, logo: false }
    }

    /// No modifier key held.
    pub fn empty() -> (m: IcedModifiers)
        ensures
            m == IcedModifiers::none(),
    {
        IcedModifiers { shift: false, control: false, alt: false, logo: false }
    }
}

/// A mouse button, as the toolkit names it.
#[derive(Debug, Copy, Clone, PartialEq, Eq, Structural)]
pub enum IcedMouseButton {
    Left,
    Right,
    Middle,
    Back,
    Forward,
    Other(u16),
}

/// A key location, as the toolkit names it.
#[derive(Debug, Copy, Clone, PartialEq, Eq, Structural)]
pub enum IcedLocation {
    Standard,
    Left,
    Right,
    Numpad,
}

#[derive(Debug, Clone, PartialEq)]
pub enum IcedMouseEvent<P, D> {
    CursorEntered,
    CursorLeft,
    CursorMoved { position: P },
    ButtonPressed(IcedMouseButton),
    ButtonReleased(IcedMouseButton),
    WheelScrolled { delta: D },
}

#[derive(Debug, Clone, PartialEq, Eq)]
pub enum IcedKeyEvent {
    KeyPressed {
        key: IcedKey,
        modified_key: IcedKey,
        physical_key: Physical,
        location: IcedLocation,
        modifiers: IcedModifiers,
        text: Option<String>,
        repeat: bool,
    },
    KeyReleased {
        key: IcedKey,
        modified_key: IcedKey,
        physical_key: Physical,
        location: IcedLocation,
        modifiers: IcedModifiers,
    },
    ModifiersChanged(IcedModifiers),
}

/// The window events the conversion produces; `I` carries the window's new
/// size information.
#[derive(Debug, Clone)]
pub enum IcedWindowEvent<I> {
    Resized(I),
    Focused,
    Unfocused,
}

#[derive(Debug, Clone)]
pub enum IcedEvent<P, D, I> {
    Keyboard(IcedKeyEvent),
    Mouse(IcedMouseEvent<P, D>),
    Window(IcedWindowEvent<I>),
}

/// A mouse interaction the toolkit asks the window to show.
#[derive(Debug, Copy, Clone, PartialEq, Eq, Structural)]
pub enum Interaction {
    /// No interaction (named `None` in the toolkit).
    NoInteraction,
    Hidden,
    Idle,
    ContextMenu,
    Help,
    Pointer,
    Progress,
    Wait,
    Cell,
    Crosshair,
    Text,
    Alias,
    Copy,
    Move,
    NoDrop,
    NotAllowed,
    Grab,
    Grabbing,
    ResizingHorizontally,
    ResizingVertically,
    ResizingDiagonallyUp,
    ResizingDiagonallyDown,
    ResizingColumn,
    ResizingRow,
    AllScroll,
    ZoomIn,
    ZoomOut,
}

/// The toolkit's modifiers for the keyboard's modifier flags: alt, control,
/// shift, and meta as the logo key.
pub open spec fn modifiers_of(m: Modifiers) -> IcedModifiers {
    IcedModifiers {
        shift: m.has(MOD_SHIFT),
        control: m.has(MOD_CONTROL),
        alt: m.has(MOD_ALT),
        logo: m.has(MOD_META),
    }
}

/// The event announcing new modifiers, when they differ from the current ones.
pub open spec fn modifier_events<P, D, I>(current: IcedModifiers, m: Modifiers) -> Seq<
    IcedEvent<P, D, I>,
> {
    if modifiers_of(m) != current {
        seq![IcedEvent::Keyboard(IcedKeyEvent::ModifiersChanged(modifiers_of(m)))]
    } else {
        seq![]
    }
}

pub open spec fn iced_button_of(button: MouseButton) -> IcedMouseButton {
    match button {
        MouseButton::Left => IcedMouseButton::Left,
        MouseButton::Middle => IcedMouseButton::Middle,
        MouseButton::Right => IcedMouseButton::Right,
        MouseButton::Back => IcedMouseButton::Other(6),
        MouseButton::Forward => IcedMouseButton::Other(7),
        MouseButton::Other(id) => IcedMouseButton::Other(id as u16),
    }
}

pub open spec fn iced_location_of(location: Location) -> IcedLocation {
    match location {
        Location::Standard => IcedLocation::Standard,
        Location::Left => IcedLocation::Left,
        Location::Right => IcedLocation::Right,
        Location::Numpad => IcedLocation::Numpad,
    }
}

/// The physical key for a code: the toolkit's code when it has one.
pub open spec fn physical_of(code: crate::keyboard::Code) -> Physical {
    match iced_code_of(code) {
        Some(c) => Physical::Code(c),
        None => Physical::Unidentified,
    }
}

/// The text a pressed key produces: its characters, if it has any.
pub open spec fn text_of(key: IcedKey) -> Option<String> {
    match key {
        IcedKey::Character(s) => Some(s),
        _ => None,
    }
}

/// The key event for a keyboard event, with the given modifiers.
pub open spec fn key_event_of(event: KeyboardEvent, modifiers: IcedModifiers) -> IcedKeyEvent {
    let key = iced_key_of(event.key);
    if event.state == KeyState::Down {
        IcedKeyEvent::KeyPressed {
            key: key,
            modified_key: key,
            physical_key: physical_of(event.code),
            location: iced_location_of(event.location),
            modifiers: modifiers,
            text: text_of(key),
            repeat: event.repeat,
        }
    } else {
        IcedKeyEvent::KeyReleased {
            key: key,
            modified_key: key,
            physical_key: physical_of(event.code),
            location: iced_location_of(event.location),
            modifiers: modifiers,
        }
    }
}

/// The toolkit events for a mouse event that carries modifiers: the
/// modifier change first, if any, then the event itself.
pub open spec fn with_modifiers<P, D, I>(
    current: IcedModifiers,
    m: Modifiers,
    event: IcedMouseEvent<P, D>,
) -> (Seq<IcedEvent<P, D, I>>, IcedModifiers) {
    (modifier_events(current, m).push(IcedEvent::Mouse(event)), modifiers_of(m))
}

/// The toolkit events for a baseview event, and the modifiers current
/// afterwards. Drag events and the announcement that the window will close
/// produce nothing; focus changes forget the modifiers; with
/// `ignore_non_modifier_keys`, a keyboard event only updates the modifiers.
pub open spec fn converted_events<P, D, I>(
    event: Event<P, D, I>,
    current: IcedModifiers,
    ignore_non_modifier_keys: bool,
) -> (Seq<IcedEvent<P, D, I>>, IcedModifiers) {
    match event {
        Event::Mouse(mouse_event) => match mouse_event {
            MouseEvent::CursorMoved { position, modifiers } => with_modifiers(
                current,
                modifiers,
                IcedMouseEvent::CursorMoved { position },
            ),
            MouseEvent::ButtonPressed { button, modifiers } => with_modifiers(
                current,
                modifiers,
                IcedMouseEvent::ButtonPressed(iced_button_of(button)),
            ),
            MouseEvent::ButtonReleased { button, modifiers } => with_modifiers(
                current,
                modifiers,
                IcedMouseEvent::ButtonReleased(iced_button_of(button)),
            ),
            MouseEvent::WheelScrolled { delta, modifiers } => with_modifiers(
                current,
                modifiers,
                IcedMouseEvent::WheelScrolled { delta },
            ),
            MouseEvent::CursorLeft => (seq![IcedEvent::Mouse(IcedMouseEvent::CursorLeft)], current),
            MouseEvent::CursorEntered => (
                seq![IcedEvent::Mouse(IcedMouseEvent::CursorEntered)],
                current,
            ),
            _ => (seq![], current),
        },
        Event::Keyboard(key_event) => {
            let mods = modifiers_of(key_event.modifiers);
            let changes = modifier_events(current, key_event.modifiers);
            if ignore_non_modifier_keys {
                (changes, mods)
            } else {
                (changes.push(IcedEvent::Keyboard(key_event_of(key_event, mods))), mods)
            }
        },
        Event::Window(window_event) => match window_event {
            WindowEvent::Resized(info) => (
                seq![IcedEvent::Window(IcedWindowEvent::Resized(info))],
                current,
            ),
            WindowEvent::Unfocused => (
                seq![IcedEvent::Window(IcedWindowEvent::Unfocused)],
                IcedModifiers::none(),
            ),
            WindowEvent::Focused => (
                seq![IcedEvent::Window(IcedWindowEvent::Focused)],
                IcedModifiers::none(),
            ),
            WindowEvent::WillClose => (seq![], current),
        },
    }
}

/// Tags each event with the window it belongs to.
pub open spec fn tagged<W, E>(window_id: W, events: Seq<E>) -> Seq<(W, E)> {
    events.map_values(|e: E| (window_id, e))
}

fn modifiers_from(m: Modifiers) -> (r: IcedModifiers)
    ensures
        r == modifiers_of(m),
{
    IcedModifiers {
        shift: m.contains(MOD_SHIFT),
        control: m.contains(MOD_CONTROL),
        alt: m.contains(MOD_ALT),
        logo: m.contains(MOD_META),
    }
}

/// Tracks the modifiers of an event: when they changed, records them and
/// returns the event that announces them.
pub fn update_modifiers<P, D, I>(
    iced_modifiers: &mut IcedModifiers,
    baseview_modifiers: Modifiers,
) -> (event: Option<IcedEvent<P, D, I>>)
    ensures
        *final(iced_modifiers) == modifiers_of(baseview_modifiers),
        event matches Some(e) ==> modifier_events::<P, D, I>(*old(iced_modifiers), baseview_modifiers)
            == seq![e],
        event is None ==> modifier_events::<P, D, I>(*old(iced_modifiers), baseview_modifiers)
            == Seq::<IcedEvent<P, D, I>>::empty(),
{
    let new = modifiers_from(baseview_modifiers);
    if *iced_modifiers != new {
        *iced_modifiers = new;
        Some(IcedEvent::Keyboard(IcedKeyEvent::ModifiersChanged(*iced_modifiers)))
    } else {
        None
    }
}

pub fn baseview_mouse_button_to_iced(id: MouseButton) -> (button: IcedMouseButton)
    ensures
        button == iced_button_of(id),
{
    match id {
        MouseButton::Left => IcedMouseButton::Left,
        MouseButton::Middle => IcedMouseButton::Middle,
        MouseButton::Right => IcedMouseButton::Right,
        MouseButton::Back => IcedMouseButton::Other(6),
        MouseButton::Forward => IcedMouseButton::Other(7),
        MouseButton::Other(other_id) => IcedMouseButton::Other(other_id as u16),
    }
}

pub fn baseview_key_location_to_iced(location: Location) -> (iced: IcedLocation)
    ensures
        iced == iced_location_of(location),
{
    match location {
        Location::Standard => IcedLocation::Standard,
        Location::Left => IcedLocation::Left,
        Location::Right => IcedLocation::Right,
        Location::Numpad => IcedLocation::Numpad,
    }
}

fn copy_key(key: &IcedKey) -> (copy: IcedKey)
    ensures
        copy == *key,
{
    match key {
        IcedKey::Named(n) => IcedKey::Named(*n),
        IcedKey::Character(s) => IcedKey::Character(s.clone()),
        IcedKey::Unidentified => IcedKey::Unidentified,
    }
}

fn push_all<W: Copy, E>(iced_events: &mut Vec<(W, E)>, window_id: W, events: Vec<E>)
    ensures
        final(iced_events)@ == old(iced_events)@ + tagged(window_id, events@),
{
    let ghost start = iced_events@;
    let ghost all = events@;
    let mut events = events;
    while events.len() > 0
        invariant
            events@.len() <= all.len(),
            events@ =~= all.subrange(all.len() - events@.len(), all.len() as int),
            iced_events@ =~= start + tagged(
                window_id,
                all.subrange(0, all.len() - events@.len()),
            ),
        decreases events.len(),
    {
        let ghost done = all.len() - events@.len();
        let e = events.remove(0);
        proof {
            assert(all[done] == e);
            assert(all.subrange(0, done + 1) =~= all.subrange(0, done).push(e));
        }
        iced_events.push((window_id, e));
    }
    assert(all.subrange(0, all.len() as int) =~= all);
}

pub fn baseview_to_iced_events<W: Copy, P, D, I>(
    event: Event<P, D, I>,
    iced_events: &mut Vec<(W, IcedEvent<P, D, I>)>,
    iced_modifiers: &mut IcedModifiers,
    ignore_non_modifier_keys: bool,
    window_id: W,
)
    ensures
        final(iced_events)@ == old(iced_events)@ + tagged(
            window_id,
            converted_events(event, *old(iced_modifiers), ignore_non_modifier_keys).0,
        ),
        *final(iced_modifiers) == converted_events(
            event,
            *old(iced_modifiers),
            ignore_non_modifier_keys,
        ).1,
{
    let ghost spec_out = converted_events(event, *iced_modifiers, ignore_non_modifier_keys);
    let mut out: Vec<IcedEvent<P, D, I>> = Vec::new();
    match event {
        Event::Mouse(mouse_event) => match mouse_event {
            MouseEvent::CursorMoved { position, modifiers } => {
                if let Some(e) = update_modifiers(iced_modifiers, modifiers) {
                    out.push(e);
                }
                out.push(IcedEvent::Mouse(IcedMouseEvent::CursorMoved { position }));
            },
            MouseEvent::ButtonPressed { button, modifiers } => {
                if let Some(e) = update_modifiers(iced_modifiers, modifiers) {
                    out.push(e);
                }
                out.push(
                    IcedEvent::Mouse(
                        IcedMouseEvent::ButtonPressed(baseview_mouse_button_to_iced(button)),
                    ),
                );
            },
            MouseEvent::ButtonReleased { button, modifiers } => {
                if let Some(e) = update_modifiers(iced_modifiers, modifiers) {
                    out.push(e);
                }
                out.push(
                    IcedEvent::Mouse(
                        IcedMouseEvent::ButtonReleased(baseview_mouse_button_to_iced(button)),
                    ),
                );
            },
            MouseEvent::WheelScrolled { delta, modifiers } => {
                if let Some(e) = update_modifiers(iced_modifiers, modifiers) {
                    out.push(e);
                }
                out.push(IcedEvent::Mouse(IcedMouseEvent::WheelScrolled { delta }));
            },
            MouseEvent::CursorLeft => {
                out.push(IcedEvent::Mouse(IcedMouseEvent::CursorLeft));
            },
            MouseEvent::CursorEntered => {
                out.push(IcedEvent::Mouse(IcedMouseEvent::CursorEntered));
            },
            _ => {},
        },
        Event::Keyboard(event) => {
            if let Some(e) = update_modifiers(iced_modifiers, event.modifiers) {
                out.push(e);
            }
            if !ignore_non_modifier_keys {
                let is_down = match event.state {
                    KeyState::Down => true,
                    KeyState::Up => false,
                };
                let key = baseview_to_iced_key(&event.key);
                let location = baseview_key_location_to_iced(event.location);
                let physical_key = match baseview_to_iced_keycode(event.code) {
                    Some(code) => Physical::Code(code),
                    None => Physical::Unidentified,
                };
                if is_down {
                    let text = match &key {
                        IcedKey::Character(s) => Some(s.clone()),
                        _ => None,
                    };
                    let modified_key = copy_key(&key);
                    out.push(
                        IcedEvent::Keyboard(
                            IcedKeyEvent::KeyPressed {
                                key,
                                modified_key,
                                physical_key,
                                modifiers: *iced_modifiers,
                                location,
                                text,
                                repeat: event.repeat,
                            },
                        ),
                    );
                } else {
                    let modified_key = copy_key(&key);
                    out.push(
                        IcedEvent::Keyboard(
                            IcedKeyEvent::KeyReleased {
                                key,
                                location,
                                modifiers: *iced_modifiers,
                                modified_key,
                                physical_key,
                            },
                        ),
                    );
                }
            }
        },
        Event::Window(window_event) => match window_event {
            WindowEvent::Resized(window_info) => {
                out.push(IcedEvent::Window(IcedWindowEvent::Resized(window_info)));
            },
            WindowEvent::Unfocused => {
                *iced_modifiers = IcedModifiers::empty();
                out.push(IcedEvent::Window(IcedWindowEvent::Unfocused));
            },
            WindowEvent::Focused => {
                *iced_modifiers = IcedModifiers::empty();
                out.push(IcedEvent::Window(IcedWindowEvent::Focused));
            },
            _ => {},
        },
    }
    assert(out@ =~= spec_out.0);
    push_all(iced_events, window_id, out);
}

/// The cursor shown for a mouse interaction.
pub open spec fn cursor_of(interaction: Interaction) -> MouseCursor {
    match interaction {
        Interaction::NoInteraction => MouseCursor::Default,
        Interaction::Idle => MouseCursor::Default,
        Interaction::Pointer => MouseCursor::Hand,
        Interaction::Grab => MouseCursor::HandGrabbing,
        Interaction::Text => MouseCursor::Text,
        Interaction::Crosshair => MouseCursor::Crosshair,
        Interaction::Progress => MouseCursor::Working,
        Interaction::Grabbing => MouseCursor::HandGrabbing,
        Interaction::ResizingHorizontally => MouseCursor::ColResize,
        Interaction::ResizingVertically => MouseCursor::RowResize,
        Interaction::ResizingDiagonallyUp => MouseCursor::NeswResize,
        Interaction::ResizingDiagonallyDown => MouseCursor::NwseResize,
        Interaction::NotAllowed => MouseCursor::NotAllowed,
        Interaction::ZoomIn => MouseCursor::ZoomIn,
        Interaction::ZoomOut => MouseCursor::ZoomOut,
        Interaction::Cell => MouseCursor::Cell,
        Interaction::Move => MouseCursor::Move,
        Interaction::Copy => MouseCursor::Copy,
        Interaction::Help => MouseCursor::Help,
        Interaction::Wait => MouseCursor::Working,
        Interaction::Hidden => MouseCursor::Hidden,
        Interaction::ContextMenu => MouseCursor::Default,
        Interaction::Alias => MouseCursor::Alias,
        Interaction::NoDrop => MouseCursor::NotAllowed,
        Interaction::ResizingColumn => MouseCursor::ColResize,
        Interaction::ResizingRow => MouseCursor::RowResize,
        Interaction::AllScroll => MouseCursor::AllScroll,
    }
}

pub fn convert_mouse_interaction(interaction: Interaction) -> (cursor: MouseCursor)
    ensures
        cursor == cursor_of(interaction),
{
    match interaction {
        Interaction::NoInteraction => MouseCursor::Default,
        Interaction::Idle => MouseCursor::Default,
        Interaction::Pointer => MouseCursor::Hand,
        Interaction::Grab => MouseCursor::HandGrabbing,
        Interaction::Text => MouseCursor::Text,
        Interaction::Crosshair => MouseCursor::Crosshair,
        Interaction::Progress => MouseCursor::Working,
        Interaction::Grabbing => MouseCursor::HandGrabbing,
        Interaction::ResizingHorizontally => MouseCursor::ColResize,
        Interaction::ResizingVertically => MouseCursor::RowResize,
        Interaction::ResizingDiagonallyUp => MouseCursor::NeswResize,
        Interaction::ResizingDiagonallyDown => MouseCursor::NwseResize,
        Interaction::NotAllowed => MouseCursor::NotAllowed,
        Interaction::ZoomIn => MouseCursor::ZoomIn,
        Interaction::ZoomOut => MouseCursor::ZoomOut,
        Interaction::Cell => MouseCursor::Cell,
        Interaction::Move => MouseCursor::Move,
        Interaction::Copy => MouseCursor::Copy,
        Interaction::Help => MouseCursor::Help,
        Interaction::Wait => MouseCursor::Working,
        Interaction::Hidden => MouseCursor::Hidden,
        Interaction::ContextMenu => MouseCursor::Default,
        Interaction::Alias => MouseCursor::Alias,
        Interaction::NoDrop => MouseCursor::NotAllowed,
        Interaction::ResizingColumn => MouseCursor::ColResize,
        Interaction::ResizingRow => MouseCursor::RowResize,
        Interaction::AllScroll => MouseCursor::AllScroll,
    }
}

/// Whether the event announces new modifiers.
pub open spec fn is_modifier_change<P, D, I>(event: IcedEvent<P, D, I>) -> bool {
    event matches IcedEvent::Keyboard(IcedKeyEvent::ModifiersChanged(_))
}

/// Modifier tracking settles: after any event that carries modifier flags,
/// the tracked modifiers are those flags, so the same flags again announce no
/// change; a change is announced exactly when the flags differ from the
/// tracked modifiers.
pub proof fn lemma_modifiers_settle<P, D, I>(m: Modifiers, current: IcedModifiers)
    ensures
        modifier_events::<P, D, I>(modifiers_of(m), m).len() == 0,
        modifier_events::<P, D, I>(current, m).len() == (if modifiers_of(m) == current {
            0int
        } else {
            1int
        }),
{
}

/// A keyboard event reports its key after any modifier change, unless
/// non-modifier keys are ignored, in which case it only announces modifier
/// changes. A pressed key that types characters carries them as its text.
pub proof fn lemma_keyboard_conversion<P, D, I>(
    event: KeyboardEvent,
    current: IcedModifiers,
    ignore_non_modifier_keys: bool,
)
    ensures
        ({
            let out = converted_events::<P, D, I>(
                Event::Keyboard(event),
                current,
                ignore_non_modifier_keys,
            ).0;
            &&& ignore_non_modifier_keys ==> forall|i: int|
                0 <= i < out.len() ==> is_modifier_change(#[trigger] out[i])
            &&& !ignore_non_modifier_keys ==> out.len() >= 1 && out.last() == IcedEvent::<
                P,
                D,
                I,
            >::Keyboard(key_event_of(event, modifiers_of(event.modifiers)))
        }),
        event.state == KeyState::Down ==> (event.key matches crate::event::Key::Character(s)
            ==> (key_event_of(event, current) matches IcedKeyEvent::KeyPressed { text, .. }
            && text == Some(s))),
        event.state == KeyState::Up ==> key_event_of(event, current) is KeyReleased,
{
}

/// A key pressed while non-modifier keys are passed on is reported, last,
/// as a press of the converted key that keeps everything the keyboard event
/// said of it: whether it repeats, where on the keyboard it is, which
/// physical key it is and the modifiers it was pressed with. A key let go
/// is reported as a release with the same key, place and modifiers.
pub proof fn lemma_key_event_fields<P, D, I>(event: KeyboardEvent, current: IcedModifiers)
    ensures
        ({
            let out = converted_events::<P, D, I>(Event::Keyboard(event), current, false).0;
            &&& out.len() >= 1
            &&& event.state == KeyState::Down ==> (out.last() matches IcedEvent::Keyboard(
                IcedKeyEvent::KeyPressed { key, location, physical_key, modifiers, repeat, .. },
            ) ==> key == iced_key_of(event.key) && location == iced_location_of(event.location)
                && physical_key == physical_of(event.code) && modifiers == modifiers_of(
                event.modifiers,
            ) && repeat == event.repeat)
            &&& event.state == KeyState::Down ==> out.last() is Keyboard && out.last()->Keyboard_0 is KeyPressed
            &&& event.state == KeyState::Up ==> (out.last() matches IcedEvent::Keyboard(
                IcedKeyEvent::KeyReleased { key, location, physical_key, modifiers, .. },
            ) ==> key == iced_key_of(event.key) && location == iced_location_of(event.location)
                && physical_key == physical_of(event.code) && modifiers == modifiers_of(
                event.modifiers,
            ))
            &&& event.state == KeyState::Up ==> out.last() is Keyboard && out.last()->Keyboard_0 is KeyReleased
        }),
{
}

/// Whether the cursor bears the interaction's own name.
pub open spec fn same_name(interaction: Interaction, c: MouseCursor) -> bool {
    match interaction {
        Interaction::Hidden => c == MouseCursor::Hidden,
        Interaction::Help => c == MouseCursor::Help,
        Interaction::Cell => c == MouseCursor::Cell,
        Interaction::Crosshair => c == MouseCursor::Crosshair,
        Interaction::Text => c == MouseCursor::Text,
        Interaction::Alias => c == MouseCursor::Alias,
        Interaction::Copy => c == MouseCursor::Copy,
        Interaction::Move => c == MouseCursor::Move,
        Interaction::NotAllowed => c == MouseCursor::NotAllowed,
        Interaction::AllScroll => c == MouseCursor::AllScroll,
        Interaction::ZoomIn => c == MouseCursor::ZoomIn,
        Interaction::ZoomOut => c == MouseCursor::ZoomOut,
        _ => false,
    }
}

/// The interactions the window cannot tell apart: those without a cursor
/// of their own show the default one, grabbing shows as grabbed, waiting as
/// working, a forbidden drop as not allowed, and the resizes of a column or
/// row as the horizontal or vertical resize.
pub open spec fn shown_alike(interaction: Interaction) -> Interaction {
    match interaction {
        Interaction::Idle => Interaction::NoInteraction,
        Interaction::ContextMenu => Interaction::NoInteraction,
        Interaction::Grabbing => Interaction::Grab,
        Interaction::Wait => Interaction::Progress,
        Interaction::NoDrop => Interaction::NotAllowed,
        Interaction::ResizingColumn => Interaction::ResizingHorizontally,
        Interaction::ResizingRow => Interaction::ResizingVertically,
        _ => interaction,
    }
}

/// Each interaction that has a cursor of its own name is shown with it;
/// only no interaction, idling and a context menu show the default cursor;
/// and two interactions show the same cursor exactly when the window cannot
/// tell them apart.
pub proof fn lemma_cursors_kept_apart(a: Interaction, b: Interaction, c: MouseCursor)
    ensures
        same_name(a, c) ==> cursor_of(a) == c,
        cursor_of(a) == MouseCursor::Default <==> (a == Interaction::NoInteraction || a
            == Interaction::Idle || a == Interaction::ContextMenu),
        cursor_of(a) == cursor_of(b) <==> shown_alike(a) == shown_alike(b),
{
    match a {
        Interaction::NoInteraction => {},
        Interaction::Hidden => {},
        Interaction::Idle => {},
        Interaction::ContextMenu => {},
        Interaction::Help => {},
        Interaction::Pointer => {},
        Interaction::Progress => {},
        Interaction::Wait => {},
        Interaction::Cell => {},
        Interaction::Crosshair => {},
        Interaction::Text => {},
        Interaction::Alias => {},
        Interaction::Copy => {},
        Interaction::Move => {},
        Interaction::NoDrop => {},
        Interaction::NotAllowed => {},
        Interaction::Grab => {},
        Interaction::Grabbing => {},
        Interaction::ResizingHorizontally => {},
        Interaction::ResizingVertically => {},
        Interaction::ResizingDiagonallyUp => {},
        Interaction::ResizingDiagonallyDown => {},
        Interaction::ResizingColumn => {},
        Interaction::ResizingRow => {},
        Interaction::AllScroll => {},
        Interaction::ZoomIn => {},
        Interaction::ZoomOut => {},
    }
}

} // verus!
