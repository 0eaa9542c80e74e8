//! What the shell does with the window and system actions of a program.
//!
//! The baseview backend drives a single window: it closes, resizes and
//! focuses it, answers questions about it, and reports the actions it does
//! not support.

use vstd::prelude::*;

verus! {

/// The kinds of window actions a program can ask for.
#[derive(Debug, Copy, Clone, PartialEq, Eq, Structural)]
pub enum WindowActionKind {
    Open,
    Close,
    GetOldest,
    GetLatest,
    Drag,
    DragResize,
    Resize,
    GetSize,
    GetMaximized,
    Maximize,
    GetMinimized,
    Minimize,
    GetPosition,
    GetScaleFactor,
    Move,
    SetMode,
    GetMode,
    ToggleMaximize,
    ToggleDecorations,
    RequestUserAttention,
    GainFocus,
    SetLevel,
    ShowSystemMenu,
    GetRawId,
    SetIcon,
    Run,
    Screenshot,
    EnableMousePassthrough,
    DisableMousePassthrough,
    SetMinSize,
    SetMaxSize,
    SetResizable,
    SetResizeIncrements,
    GetMonitorSize,
    SetAllowAutomaticTabbing,
    RedrawAll,
    RelayoutAll,
}

/// What the shell does for a window action.
#[derive(Debug, Copy, Clone, PartialEq, Eq, Structural)]
pub enum WindowActionPlan {
    /// Report that the backend does not support the action.
    Unsupported,
    /// Queue the command that closes the window.
    QueueClose,
    /// Queue the command that resizes the window to the requested size.
    QueueResize,
    /// Queue the command that focuses the window.
    QueueFocus,
    /// Answer with the id of the one window.
    ReplyWindowId,
    /// Answer with the window's logical size.
    ReplyLogicalSize,
    /// Answer with the window's scale factor.
    ReplyScaleFactor,
    /// Run the given function with the window.
    RunWithWindow,
    /// Redraw the window.
    Redraw,
    /// Lay the user interface out again and redraw the window.
    RelayoutAndRedraw,
}

pub open spec fn window_action_plan_of(kind: WindowActionKind) -> WindowActionPlan {
    match kind {
        WindowActionKind::Close => WindowActionPlan::QueueClose,
        WindowActionKind::GetOldest => WindowActionPlan::ReplyWindowId,
        WindowActionKind::GetLatest => WindowActionPlan::ReplyWindowId,
        WindowActionKind::Resize => WindowActionPlan::QueueResize,
        WindowActionKind::GetSize => WindowActionPlan::ReplyLogicalSize,
        WindowActionKind::GetScaleFactor => WindowActionPlan::ReplyScaleFactor,
        WindowActionKind::GainFocus => WindowActionPlan::QueueFocus,
        WindowActionKind::Run => WindowActionPlan::RunWithWindow,
        WindowActionKind::RedrawAll => WindowActionPlan::Redraw,
        WindowActionKind::RelayoutAll => WindowActionPlan::RelayoutAndRedraw,
        _ => WindowActionPlan::Unsupported,
    }
}

pub fn window_action_plan(kind: WindowActionKind) -> (plan: WindowActionPlan)
    ensures
        plan == window_action_plan_of(kind),
{
    match kind {
        WindowActionKind::Open => WindowActionPlan::Unsupported,
        WindowActionKind::Close => WindowActionPlan::QueueClose,
        WindowActionKind::GetOldest => WindowActionPlan::ReplyWindowId,
        WindowActionKind::GetLatest => WindowActionPlan::ReplyWindowId,
        WindowActionKind::Drag => WindowActionPlan::Unsupported,
        WindowActionKind::DragResize => WindowActionPlan::Unsupported,
        WindowActionKind::Resize => WindowActionPlan::QueueResize,
        WindowActionKind::SetMinSize => WindowActionPlan::Unsupported,
        WindowActionKind::SetMaxSize => WindowActionPlan::Unsupported,
        WindowActionKind::SetResizeIncrements => WindowActionPlan::Unsupported,
        WindowActionKind::SetResizable => WindowActionPlan::Unsupported,
        WindowActionKind::GetSize => WindowActionPlan::ReplyLogicalSize,
        WindowActionKind::GetMaximized => WindowActionPlan::Unsupported,
        WindowActionKind::Maximize => WindowActionPlan::Unsupported,
        WindowActionKind::GetMinimized => WindowActionPlan::Unsupported,
        WindowActionKind::Minimize => WindowActionPlan::Unsupported,
        WindowActionKind::GetPosition => WindowActionPlan::Unsupported,
        WindowActionKind::GetScaleFactor => WindowActionPlan::ReplyScaleFactor,
        WindowActionKind::Move => WindowActionPlan::Unsupported,
        WindowActionKind::SetMode => WindowActionPlan::Unsupported,
        WindowActionKind::SetIcon => WindowActionPlan::Unsupported,
        WindowActionKind::GetMode => WindowActionPlan::Unsupported,
        WindowActionKind::ToggleMaximize => WindowActionPlan::Unsupported,
        WindowActionKind::ToggleDecorations => WindowActionPlan::Unsupported,
        WindowActionKind::RequestUserAttention => WindowActionPlan::Unsupported,
        WindowActionKind::GainFocus => WindowActionPlan::QueueFocus,
        WindowActionKind::SetLevel => WindowActionPlan::Unsupported,
        WindowActionKind::ShowSystemMenu => WindowActionPlan::Unsupported,
        WindowActionKind::GetRawId => WindowActionPlan::Unsupported,
        WindowActionKind::Run => WindowActionPlan::RunWithWindow,
        WindowActionKind::Screenshot => WindowActionPlan::Unsupported,
        WindowActionKind::EnableMousePassthrough => WindowActionPlan::Unsupported,
        WindowActionKind::DisableMousePassthrough => WindowActionPlan::Unsupported,
        WindowActionKind::GetMonitorSize => WindowActionPlan::Unsupported,
        WindowActionKind::SetAllowAutomaticTabbing => WindowActionPlan::Unsupported,
        WindowActionKind::RedrawAll => WindowActionPlan::Redraw,
        WindowActionKind::RelayoutAll => WindowActionPlan::RelayoutAndRedraw,
    }
}

/// A light or dark tone of themes.
#[derive(Debug, Copy, Clone, PartialEq, Eq, Structural)]
pub enum ThemeMode {
    /// No specific tone (named `None` in the toolkit).
    NoMode,
    Light,
    Dark,
}

/// The system reports its theme mode: a change is recorded and returned so
/// that subscribers can be told; the same mode again changes nothing.
pub fn notify_theme(system_theme: &mut ThemeMode, mode: ThemeMode) -> (changed: bool)
    ensures
        changed == (mode != *old(system_theme)),
        *final(system_theme) == mode,
{
    if mode != *system_theme {
        *system_theme = mode;
        true
    } else {
        false
    }
}

} // verus!
