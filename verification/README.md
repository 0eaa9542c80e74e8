# baseview

Windows for audio plugins, and a shell that runs iced programs inside them.

The crate is split in two:

- `src/` is the verified library. It holds the decisions: which events an X
  event becomes and when the X11 event loop stops or draws a frame
  (`x11::event_loop`), how baseview events become iced events and how keys,
  codes, buttons and cursors are renamed on the way (`iced::shell::conversion`,
  `iced::shell::keys`, `keyboard`), when the shell updates the user interface
  and redraws (`iced::shell::frame`), which window actions the backend
  supports (`iced::shell::action`), when the window handler stops passing
  events on (`iced::shell::window`), the window state that follows events
  (`iced::shell::window::state`), the clipboard as the window sees it, and
  the settings an application is built with (`iced::application`). Each
  function states what it returns in its contract, and the laws that span
  several calls are proof functions next to them.
- `app/` holds what talks to the platform and the toolkit: the platform
  window, floating point geometry, the X connection and polling, Xlib error
  trapping, the iced runtime loop, and the conversions between the
  library's plain values and the types of `keyboard-types`, `iced_core` and
  `x11rb`.

Times handed to the library are nanoseconds on a monotonic clock; logical
positions, scroll amounts and window information travel through the
library's event types as type parameters.
