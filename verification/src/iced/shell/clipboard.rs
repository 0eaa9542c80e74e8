//! Access the clipboard.

use vstd::prelude::*;

verus! {

/// `window_clipboard::Clipboard`, a connection to the system clipboard,
/// carried through opaquely: nothing is claimed of it.
#[verifier::external_type_specification]
#[verifier::external_body]
pub struct ExSystemClipboard(window_clipboard::Clipboard);

/// Which clipboard to use.
#[derive(Debug, Copy, Clone, PartialEq, Eq, Structural)]
pub enum Kind {
    /// The standard clipboard.
    Standard,
    /// The primary clipboard. Normally only present in X11 and Wayland.
    Primary,
}

/// The text a read hands back: the contents of a `String`, or nothing.
pub open spec fn text_of(text: Option<String>) -> Option<Seq<char>> {
    match text {
        Some(t) => Some(t@),
        None => None,
    }
}

/// The text a read of a selection that a platform may lack hands back:
/// `None` when the platform has no such selection.
pub open spec fn selection_text_of(text: Option<Option<String>>) -> Option<Option<Seq<char>>> {
    match text {
        Some(t) => Some(text_of(t)),
        None => None,
    }
}

/// Holds of each answer that `window_clipboard::Clipboard::read` gives: the
/// text of the standard selection, or `None` when the read failed. Which
/// text that is the system decides, and it may change between two reads,
/// so this tells that an answer came from a read of the standard selection,
/// not which answer it is.
pub uninterp spec fn standard_read_answer(answer: Option<Seq<char>>) -> bool;

/// Holds of each answer that `window_clipboard::Clipboard::read_primary`
/// gives: `None` when the platform has no primary selection, otherwise the
/// text of the primary selection or `None` when the read failed. As with
/// the standard selection, this tells where an answer came from, not which
/// it is.
pub uninterp spec fn primary_read_answer(answer: Option<Option<Seq<char>>>) -> bool;

/// Holds of each answer that `window_clipboard::Clipboard::write` gives
/// when handed `contents`: whether the system accepted them for the
/// standard selection. The system decides, so this tells what was written
/// where, not whether it was accepted.
pub uninterp spec fn standard_write_answer(contents: Seq<char>, accepted: bool) -> bool;

/// Holds of each answer that `window_clipboard::Clipboard::write_primary`
/// gives when handed `contents`: `None` when the platform has no primary
/// selection, otherwise whether the system accepted them for it.
pub uninterp spec fn primary_write_answer(contents: Seq<char>, accepted: Option<bool>) -> bool;

/// Reads the standard selection with `window_clipboard::Clipboard::read`;
/// a failed read gives `None`.
#[verifier::external_body]
fn system_read(clipboard: &window_clipboard::Clipboard) -> (text: Option<String>)
    ensures
        standard_read_answer(text_of(text)),
{
    clipboard.read().ok()
}

/// Reads the primary selection with `window_clipboard::Clipboard::read_primary`:
/// `None` when the platform has none, otherwise the text or `None` when the
/// read failed.
#[verifier::external_body]
fn system_read_primary(clipboard: &window_clipboard::Clipboard) -> (text: Option<Option<String>>)
    ensures
        primary_read_answer(selection_text_of(text)),
{
    match clipboard.read_primary() {
        Some(result) => Some(result.ok()),
        None => None,
    }
}

/// Writes `contents` to the standard selection with
/// `window_clipboard::Clipboard::write`; gives the text of the error when
/// the system did not accept them.
#[verifier::external_body]
fn system_write(clipboard: &mut window_clipboard::Clipboard, contents: String) -> (error: Option<
    String,
>)
    ensures
        standard_write_answer(contents@, error is None),
{
    match clipboard.write(contents) {
        Ok(()) => None,
        Err(error) => Some(error.to_string()),
    }
}

/// Whether a write to a selection that a platform may lack was accepted:
/// `None` when the platform has no such selection.
pub open spec fn accepted_of(answer: Option<Option<String>>) -> Option<bool> {
    match answer {
        Some(error) => Some(error is None),
        None => None,
    }
}

/// Writes `contents` to the primary selection with
/// `window_clipboard::Clipboard::write_primary`: `None` when the platform
/// has none, otherwise the text of the error when the system did not
/// accept them.
#[verifier::external_body]
fn system_write_primary(clipboard: &mut window_clipboard::Clipboard, contents: String) -> (answer:
    Option<Option<String>>)
    ensures
        primary_write_answer(contents@, accepted_of(answer)),
{
    match clipboard.write_primary(contents) {
        Some(Ok(())) => Some(None),
        Some(Err(error)) => Some(Some(error.to_string())),
        None => None,
    }
}

/// What a read of the primary selection gives the program: a platform
/// without one gives nothing, as a failed read does.
pub open spec fn primary_text(answer: Option<Option<Seq<char>>>) -> Option<Seq<char>> {
    match answer {
        Some(text) => text,
        None => None,
    }
}

/// Whether a write to the primary selection counts as done: a platform
/// without one counts as done, as nothing went wrong.
pub open spec fn primary_written(answer: Option<bool>) -> bool {
    match answer {
        Some(accepted) => accepted,
        None => true,
    }
}

enum State {
    Connected { clipboard: window_clipboard::Clipboard },
    Unavailable,
}

/// A buffer for short-term storage and transfer within and between
/// applications: the system clipboard as the window sees it, or none.
pub struct WindowClipboard {
    state: State,
}

impl WindowClipboard {
    pub closed spec fn is_connected(&self) -> bool {
        self.state is Connected
    }

    /// A clipboard for the system clipboard, when the window could connect
    /// to it (the connection is made outside the library, as it needs the
    /// window's display handle).
    pub fn connected(clipboard: Option<window_clipboard::Clipboard>) -> (c: WindowClipboard)
        ensures
            c.is_connected() == (clipboard is Some),
    {
        let state = match clipboard {
            Some(clipboard) => State::Connected { clipboard },
            None => State::Unavailable,
        };
        WindowClipboard { state }
    }

    /// Whether the clipboard is connected to the system clipboard.
    pub fn is_available(&self) -> (available: bool)
        ensures
            available == self.is_connected(),
    {
        match &self.state {
            State::Connected { .. } => true,
            State::Unavailable => false,
        }
    }

    /// Creates a new [`WindowClipboard`] that isn't associated with a window.
    /// This clipboard will never contain a copied value.
    pub fn unconnected() -> (c: WindowClipboard)
        ensures
            !c.is_connected(),
    {
        WindowClipboard { state: State::Unavailable }
    }

    /// Reads the current content of the [`WindowClipboard`] as text: the
    /// standard selection through `Clipboard::read`, the primary one through
    /// `Clipboard::read_primary`. An unconnected clipboard holds nothing.
    pub fn read(&self, kind: Kind) -> (contents: Option<String>)
        ensures
            !self.is_connected() ==> contents is None,
            self.is_connected() && kind == Kind::Standard ==> standard_read_answer(
                text_of(contents),
            ),
            self.is_connected() && kind == Kind::Primary ==> exists|answer: Option<Option<Seq<char>>>|
                #[trigger] primary_read_answer(answer) && text_of(contents) == primary_text(answer),
    {
        match &self.state {
            State::Connected { clipboard } => match kind {
                Kind::Standard => system_read(clipboard),
                Kind::Primary => {
                    let answer = system_read_primary(clipboard);
                    let text = match answer {
                        Some(text) => text,
                        None => None,
                    };
                    proof {
                        assert(primary_read_answer(selection_text_of(answer)));
                        assert(text_of(text) == primary_text(selection_text_of(answer)));
                    }
                    text
                },
            },
            State::Unavailable => None,
        }
    }

    /// Writes the given text contents to the [`WindowClipboard`]: to the
    /// standard selection through `Clipboard::write`, to the primary one
    /// through `Clipboard::write_primary`. Gives the text of the error when
    /// the system did not take them; a platform without a primary selection
    /// counts as taking them. Writing to an unconnected clipboard does
    /// nothing, and nothing goes wrong.
    pub fn write(&mut self, kind: Kind, contents: String) -> (error: Option<String>)
        ensures
            final(self).is_connected() == old(self).is_connected(),
            !old(self).is_connected() ==> error is None,
            old(self).is_connected() && kind == Kind::Standard ==> standard_write_answer(
                contents@,
                error is None,
            ),
            old(self).is_connected() && kind == Kind::Primary ==> exists|answer: Option<bool>|
                #[trigger] primary_write_answer(contents@, answer) && (error is None)
                    == primary_written(answer),
    {
        match &mut self.state {
            State::Connected { clipboard } => match kind {
                Kind::Standard => system_write(clipboard, contents),
                Kind::Primary => {
                    let ghost text = contents@;
                    let answer = system_write_primary(clipboard, contents);
                    let error = match answer {
                        Some(error) => error,
                        None => None,
                    };
                    proof {
                        assert(primary_write_answer(text, accepted_of(answer)));
                    }
                    error
                },
            },
            State::Unavailable => None,
        }
    }
}

} // verus!
