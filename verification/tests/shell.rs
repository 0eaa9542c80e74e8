use std::borrow::Cow;

use baseview::iced::shell::action::{notify_theme, window_action_plan, ThemeMode, WindowActionKind, WindowActionPlan};
use baseview::iced::shell::clipboard::{Kind, WindowClipboard};
use baseview::iced::shell::conversion::{IcedModifiers, Interaction};
use baseview::iced::shell::frame::{
    cursor_update, drawable, redraw_step, PresentOutcome, PresentPlan, RedrawRequest, RedrawState, RedrawStep,
};
use baseview::iced::shell::window::state::{synchronized_theme_mode, State};
use baseview::iced::shell::window::{event_status, processed_status, requests_exit, EventRoute, HandlerState, WindowCommand};
use baseview::iced::application::Settings;
use baseview::iced::{Application, PollSubNotifier};
use baseview::{Event, EventStatus, Modifiers, MouseCursor, MouseEvent, PhySize, WindowEvent};

type Ev = Event<(f64, f64), (f32, f32), u32>;
type SizedEv = Event<(f64, f64), (f32, f32), PhySize>;

#[test]
fn redraw_first_frame_draws() {
    let mut r = RedrawState::new(false);
    assert!(r.is_requested());
    assert!(r.begin_frame(false, false));
    assert!(r.updates_ui(false, false));
    assert!(r.wants_draw(0, 0));
    r.after_draw(Some(RedrawRequest::Wait));
    assert!(!r.is_requested());
}

#[test]
fn idle_frame_is_skipped() {
    let mut r = RedrawState::new(false);
    r.after_draw(None);
    assert!(!r.begin_frame(false, false));
    assert!(r.begin_frame(true, false));
    assert!(!r.updates_ui(false, false));
    assert!(r.updates_ui(true, false));
    assert!(r.begin_frame(false, true));
}

#[test]
fn processed_event_runs_one_frame() {
    let mut r = RedrawState::new(false);
    r.after_draw(None);
    assert!(!r.after_conversion(true, true));
    assert!(r.begin_frame(false, false));
    assert!(!r.begin_frame(false, false));
}

#[test]
fn unconverted_event_reports_ignored() {
    let mut r = RedrawState::new(false);
    assert!(r.after_conversion(false, true));
    assert!(!r.after_conversion(false, false));
}

#[test]
fn always_redraw_draws_every_frame() {
    let mut r = RedrawState::new(true);
    r.after_draw(None);
    assert!(r.begin_frame(false, false));
    assert!(r.is_requested());
    // Requests of the user interface are not recorded.
    r.after_draw(None);
    r.on_ui_updated(RedrawRequest::At(10));
    r.check_deadline(100);
    assert!(!r.is_requested());
}

#[test]
fn deadline_triggers_redraw() {
    let mut r = RedrawState::new(false);
    r.after_draw(Some(RedrawRequest::At(1_000)));
    assert!(!r.is_requested());
    r.check_deadline(999);
    assert!(!r.is_requested());
    r.check_deadline(1_000);
    assert!(r.is_requested());
    r.after_draw(None);
    r.check_deadline(5_000);
    assert!(!r.is_requested());
}

#[test]
fn ui_requests_are_recorded() {
    let mut r = RedrawState::new(false);
    r.after_draw(None);
    r.on_ui_updated(RedrawRequest::Wait);
    assert!(!r.is_requested());
    r.on_ui_updated(RedrawRequest::NextFrame);
    assert!(r.is_requested());
    r.after_draw(Some(RedrawRequest::NextFrame));
    assert!(r.is_requested());
}

#[test]
fn resized_surface_is_drawn() {
    let mut r = RedrawState::new(false);
    r.after_draw(None);
    assert!(!r.wants_draw(3, 3));
    assert!(r.wants_draw(3, 4));
    r.after_draw(None);
    r.request_redraw();
    assert!(r.is_requested());
}

#[test]
fn focus_change_redraws() {
    let mut r = RedrawState::new(false);
    r.after_draw(None);
    r.on_baseview_event(false);
    assert!(!r.is_requested());
    r.on_baseview_event(true);
    assert!(r.is_requested());
}

#[test]
fn present_outcomes() {
    let mut r = RedrawState::new(false);
    r.after_draw(None);
    assert_eq!(r.after_present(PresentOutcome::Presented), PresentPlan::Done);
    assert!(!r.is_requested());
    assert_eq!(r.after_present(PresentOutcome::OutOfMemory), PresentPlan::Fatal);
    assert!(!r.is_requested());
    assert_eq!(r.after_present(PresentOutcome::Outdated), PresentPlan::ReconfigureSurface);
    assert!(r.is_requested());
    r.after_draw(None);
    assert_eq!(r.after_present(PresentOutcome::Lost), PresentPlan::RecreateSurface);
    r.after_draw(None);
    assert_eq!(r.after_present(PresentOutcome::Timeout), PresentPlan::ReportAndRedraw);
    assert!(r.is_requested());
    assert_eq!(r.after_present(PresentOutcome::Other), PresentPlan::ReportAndRedraw);
}

#[test]
fn redraw_loop_steps() {
    assert_eq!(redraw_step(3, 3, false, 0), RedrawStep::Done);
    assert_eq!(redraw_step(3, 4, false, 0), RedrawStep::Again);
    assert_eq!(redraw_step(3, 3, true, 1), RedrawStep::Again);
    assert_eq!(redraw_step(3, 3, true, 2), RedrawStep::GiveUp);
    assert_eq!(redraw_step(3, 3, false, 2), RedrawStep::Done);
}

#[test]
fn drawable_sizes() {
    assert!(drawable(1, 1));
    assert!(!drawable(0, 10));
    assert!(!drawable(10, 0));
}

#[test]
fn cursor_updates_on_change_only() {
    assert_eq!(cursor_update(Interaction::Idle, Interaction::Idle), None);
    assert_eq!(cursor_update(Interaction::Idle, Interaction::Text), Some(MouseCursor::Text));
    assert_eq!(cursor_update(Interaction::NoInteraction, Interaction::Idle), Some(MouseCursor::Default));
}

#[test]
fn window_action_policy() {
    assert_eq!(window_action_plan(WindowActionKind::Close), WindowActionPlan::QueueClose);
    assert_eq!(window_action_plan(WindowActionKind::Resize), WindowActionPlan::QueueResize);
    assert_eq!(window_action_plan(WindowActionKind::GainFocus), WindowActionPlan::QueueFocus);
    assert_eq!(window_action_plan(WindowActionKind::GetOldest), WindowActionPlan::ReplyWindowId);
    assert_eq!(window_action_plan(WindowActionKind::GetLatest), WindowActionPlan::ReplyWindowId);
    assert_eq!(window_action_plan(WindowActionKind::GetSize), WindowActionPlan::ReplyLogicalSize);
    assert_eq!(window_action_plan(WindowActionKind::GetScaleFactor), WindowActionPlan::ReplyScaleFactor);
    assert_eq!(window_action_plan(WindowActionKind::Run), WindowActionPlan::RunWithWindow);
    assert_eq!(window_action_plan(WindowActionKind::RedrawAll), WindowActionPlan::Redraw);
    assert_eq!(window_action_plan(WindowActionKind::RelayoutAll), WindowActionPlan::RelayoutAndRedraw);
    assert_eq!(window_action_plan(WindowActionKind::Open), WindowActionPlan::Unsupported);
    assert_eq!(window_action_plan(WindowActionKind::Maximize), WindowActionPlan::Unsupported);
    assert_eq!(window_action_plan(WindowActionKind::Screenshot), WindowActionPlan::Unsupported);
    assert_eq!(window_action_plan(WindowActionKind::SetAllowAutomaticTabbing), WindowActionPlan::Unsupported);
}

#[test]
fn theme_changes_are_reported_once() {
    let mut t = ThemeMode::NoMode;
    assert!(notify_theme(&mut t, ThemeMode::Dark));
    assert_eq!(t, ThemeMode::Dark);
    assert!(!notify_theme(&mut t, ThemeMode::Dark));
    assert!(notify_theme(&mut t, ThemeMode::Light));
    assert_eq!(t, ThemeMode::Light);
}

#[test]
fn exit_requests() {
    let close: Ev = Event::Window(WindowEvent::WillClose);
    let focus: Ev = Event::Window(WindowEvent::Focused);
    let left: Ev = Event::Mouse(MouseEvent::CursorLeft);
    assert!(requests_exit(&close));
    assert!(!requests_exit(&focus));
    assert!(!requests_exit(&left));
}

#[test]
fn handler_closes_once() {
    let mut h = HandlerState::new();
    assert!(h.runs_frame());
    assert_eq!(h.on_event(false), EventRoute::Forward);
    assert_eq!(h.on_event(true), EventRoute::Close);
    assert!(h.is_closed());
    assert!(!h.runs_frame());
    assert_eq!(h.on_event(false), EventRoute::Ignore);
    assert_eq!(h.on_event(true), EventRoute::Ignore);
}

#[test]
fn window_commands_hold_their_values() {
    let c: WindowCommand<(f32, f32)> = WindowCommand::SetCursorIcon(MouseCursor::Hand);
    assert!(matches!(c, WindowCommand::SetCursorIcon(MouseCursor::Hand)));
    let c: WindowCommand<(f32, f32)> = WindowCommand::ResizeWindow((10.0, 20.0));
    assert!(matches!(c, WindowCommand::ResizeWindow((w, h)) if w == 10.0 && h == 20.0));
}

#[test]
fn window_state_follows_events() {
    let mut s: State<(f64, f64)> = State::new(PhySize::new(800, 600));
    assert_eq!(s.surface_version(), 0);
    assert_eq!(s.cursor(), None);
    assert_eq!(s.physical_size(), PhySize::new(800, 600));
    assert_eq!(s.modifiers(), IcedModifiers::empty());
    let moved: SizedEv = Event::Mouse(MouseEvent::CursorMoved { position: (4.0, 5.0), modifiers: Modifiers { bits: 0 } });
    s.update(&moved);
    assert_eq!(s.cursor(), Some((4.0, 5.0)));
    assert_eq!(s.physical_size(), PhySize::new(800, 600));
    let resized: SizedEv = Event::Window(WindowEvent::Resized(PhySize::new(1024, 768)));
    s.update(&resized);
    assert_eq!(s.physical_size(), PhySize::new(1024, 768));
    let resized: SizedEv = Event::Window(WindowEvent::Resized(PhySize::new(640, 480)));
    s.update(&resized);
    assert_eq!(s.surface_version(), 2);
    assert_eq!(s.physical_size(), PhySize::new(640, 480));
    assert_eq!(s.cursor(), Some((4.0, 5.0)));
    let left: SizedEv = Event::Mouse(MouseEvent::CursorLeft);
    s.update(&left);
    assert_eq!(s.cursor(), None);
    assert_eq!(s.surface_version(), 2);
}

#[test]
fn window_state_keeps_modifiers_across_events() {
    let mut s: State<(f64, f64)> = State::new(PhySize::new(10, 10));
    let held = IcedModifiers { shift: true, control: false, alt: true, logo: false };
    s.set_modifiers(held);
    assert_eq!(s.modifiers(), held);
    let resized: SizedEv = Event::Window(WindowEvent::Resized(PhySize::new(20, 30)));
    s.update(&resized);
    assert_eq!(s.modifiers(), held);
    assert_eq!(s.physical_size(), PhySize::new(20, 30));
    assert_eq!(s.surface_version(), 1);
}

#[test]
fn unconnected_clipboard_holds_nothing() {
    let mut c = WindowClipboard::unconnected();
    assert_eq!(c.read(Kind::Standard), None);
    assert_eq!(c.write(Kind::Standard, "hello".to_string()), None);
    assert_eq!(c.read(Kind::Standard), None);
    assert_eq!(c.read(Kind::Primary), None);
    let c = WindowClipboard::connected(None);
    assert_eq!(c.read(Kind::Primary), None);
}

#[test]
fn poll_notifier_flag() {
    let n = PollSubNotifier::new();
    assert!(n.notify_flag_set());
    assert!(!n.notify_flag_set());
    let shared = n.clone();
    shared.notify();
    assert!(n.notify_flag_set());
    assert!(PollSubNotifier::default().notify_flag_set());
}

#[test]
fn application_defaults() {
    let app: Application<u8, &str> = Application::new(5);
    let (raw, settings, presets) = app.into_parts();
    assert_eq!(raw, 5);
    assert_eq!(settings.id, None);
    assert!(settings.fonts.is_empty());
    assert!(settings.antialiasing);
    assert!(settings.vsync);
    assert_eq!(settings.default_font, iced_core::Font::default());
    assert_eq!(settings.default_text_size, iced_core::Pixels(16.0));
    assert!(presets.is_empty());
}

#[test]
fn application_builders() {
    let app: Application<u8, &str> = Application::new(1)
        .antialiasing(false)
        .default_font(iced_core::Font::MONOSPACE)
        .font(Cow::Borrowed(&[1u8, 2, 3][..]))
        .font(Cow::Owned(vec![4u8]))
        .presets(vec!["light", "dark"]);
    let (raw, settings, presets) = app.into_parts();
    assert_eq!(raw, 1);
    assert!(!settings.antialiasing);
    assert!(settings.vsync);
    assert_eq!(settings.default_font, iced_core::Font::MONOSPACE);
    assert_eq!(settings.fonts.len(), 2);
    assert_eq!(&settings.fonts[0][..], &[1u8, 2, 3][..]);
    assert_eq!(&settings.fonts[1][..], &[4u8][..]);
    assert_eq!(presets, vec!["light", "dark"]);
}

#[test]
fn application_settings_replace() {
    let mut s = Settings::default();
    s.id = Some("plugin".to_string());
    s.vsync = false;
    let app: Application<u8, &str> = Application::new(2).antialiasing(false).settings(s);
    let app = Application::from_parts(9, app.into_parts().1, vec!["p"]);
    let (raw, settings, presets) = app.into_parts();
    assert_eq!(raw, 9);
    assert_eq!(settings.id, Some("plugin".to_string()));
    assert!(!settings.vsync);
    assert!(settings.antialiasing);
    assert_eq!(presets, vec!["p"]);
}

#[test]
fn theme_mode_synchronization() {
    assert_eq!(synchronized_theme_mode(ThemeMode::Dark, ThemeMode::Dark, ThemeMode::Light), ThemeMode::Dark);
    assert_eq!(synchronized_theme_mode(ThemeMode::Dark, ThemeMode::Light, ThemeMode::Dark), ThemeMode::Light);
    assert_eq!(synchronized_theme_mode(ThemeMode::Dark, ThemeMode::NoMode, ThemeMode::Light), ThemeMode::Light);
    assert_eq!(synchronized_theme_mode(ThemeMode::NoMode, ThemeMode::NoMode, ThemeMode::Light), ThemeMode::NoMode);
}

#[test]
fn handler_answers_every_event_ignored() {
    let recorded = processed_status();
    assert_eq!(recorded, EventStatus::Ignored);
    let mut h = HandlerState::new();
    let forward = h.on_event(false);
    assert_eq!(event_status(forward, recorded), EventStatus::Ignored);
    let close = h.on_event(true);
    assert_eq!(close, EventRoute::Close);
    assert_eq!(event_status(close, EventStatus::Captured), EventStatus::Ignored);
    let after = h.on_event(false);
    assert_eq!(event_status(after, EventStatus::Captured), EventStatus::Ignored);
    assert_eq!(event_status(EventRoute::Forward, EventStatus::Captured), EventStatus::Captured);
}

#[test]
fn redraw_frame_updates_at_most_three_times_then_draws() {
    // Every update keeps producing messages: the loop gives up after the third.
    let outcomes = [(0usize, 1usize, false), (1, 2, false), (2, 3, true), (3, 4, true)];
    let mut updates = 0;
    let mut count = 0u32;
    for (before, after, changed) in outcomes {
        updates += 1;
        match redraw_step(before, after, changed, count) {
            RedrawStep::Again => count += 1,
            step => {
                assert_eq!(step, RedrawStep::GiveUp);
                break;
            }
        }
    }
    assert_eq!(updates, 3);
    // An update that changes nothing ends the loop at once.
    assert_eq!(redraw_step(5, 5, false, 0), RedrawStep::Done);
}
