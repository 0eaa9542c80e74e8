//! Building an application: a program together with the toolkit settings
//! and the presets it starts with.
//!
//! The program itself (its boot, update and view functions) and running it
//! belong to the toolkit; this module keeps the settings the builder
//! methods change.

use vstd::prelude::*;

use std::borrow::Cow;

verus! {

/// `iced_core::Font`, carried through opaquely: nothing is claimed of it.
#[verifier::external_type_specification]
#[verifier::external_body]
pub struct ExFont(iced_core::Font);

/// `iced_core::Pixels`, carried through opaquely: nothing is claimed of it.
#[verifier::external_type_specification]
#[verifier::external_body]
pub struct ExPixels(iced_core::Pixels);

/// The toolkit settings of an application. Fonts are the bytes of the font
/// files to load, borrowed or owned.
pub struct Settings {
    pub id: Option<String>,
    pub fonts: Vec<Cow<'static, [u8]>>,
    pub default_font: iced_core::Font,
    pub default_text_size: iced_core::Pixels,
    pub antialiasing: bool,
    pub vsync: bool,
}

/// The toolkit's default settings, as `iced_core::Settings::default` gives
/// them: no id, no fonts to load, antialiasing and vsync on. What the
/// default font and text size are is not stated.
#[verifier::external_body]
fn toolkit_default_settings() -> (s: Settings)
    ensures
        s.id is None,
        s.fonts@.len() == 0,
        s.antialiasing,
        s.vsync,
{
    let d = iced_core::Settings::default();
    Settings {
        id: d.id,
        fonts: d.fonts,
        default_font: d.default_font,
        default_text_size: d.default_text_size,
        antialiasing: d.antialiasing,
        vsync: d.vsync,
    }
}

impl Default for Settings {
    fn default() -> (s: Settings)
        ensures
            s.id is None,
            s.fonts@.len() == 0,
            s.antialiasing,
            s.vsync,
    {
        toolkit_default_settings()
    }
}

/// A program `P` with its settings and presets `R`.
pub struct Application<P, R> {
    raw: P,
    iced_settings: Settings,
    presets: Vec<R>,
}

impl<P, R> Application<P, R> {
    pub closed spec fn program(&self) -> P {
        self.raw
    }

    pub closed spec fn settings_of(&self) -> Settings {
        self.iced_settings
    }

    pub closed spec fn presets_of(&self) -> Seq<R> {
        self.presets@
    }

    /// A program with the default settings and no presets.
    pub fn new(raw: P) -> (app: Self)
        ensures
            app.program() == raw,
            app.settings_of().id is None,
            app.settings_of().fonts@.len() == 0,
            app.settings_of().antialiasing,
            app.settings_of().vsync,
            app.presets_of().len() == 0,
    {
        Application { raw, iced_settings: Settings::default(), presets: Vec::new() }
    }

    /// An application from its parts.
    pub fn from_parts(raw: P, iced_settings: Settings, presets: Vec<R>) -> (app: Self)
        ensures
            app.program() == raw,
            app.settings_of() == iced_settings,
            app.presets_of() == presets@,
    {
        Application { raw, iced_settings, presets }
    }

    /// The program, settings and presets of the application.
    pub fn into_parts(self) -> (parts: (P, Settings, Vec<R>))
        ensures
            parts.0 == self.program(),
            parts.1 == self.settings_of(),
            parts.2@ == self.presets_of(),
    {
        (self.raw, self.iced_settings, self.presets)
    }

    /// Replaces the settings.
    pub fn settings(self, settings: Settings) -> (app: Self)
        ensures
            app.settings_of() == settings,
            app.program() == self.program(),
            app.presets_of() == self.presets_of(),
    {
        Self { iced_settings: settings, ..self }
    }

    /// Turns antialiasing on or off.
    pub fn antialiasing(self, antialiasing: bool) -> (app: Self)
        ensures
            app.settings_of().antialiasing == antialiasing,
            app.settings_of().id == self.settings_of().id,
            app.settings_of().fonts == self.settings_of().fonts,
            app.settings_of().default_font == self.settings_of().default_font,
            app.settings_of().default_text_size == self.settings_of().default_text_size,
            app.settings_of().vsync == self.settings_of().vsync,
            app.program() == self.program(),
            app.presets_of() == self.presets_of(),
    {
        Self { iced_settings: Settings { antialiasing, ..self.iced_settings }, ..self }
    }

    /// Sets the default font.
    pub fn default_font(self, default_font: iced_core::Font) -> (app: Self)
        ensures
            app.settings_of().default_font == default_font,
            app.settings_of().id == self.settings_of().id,
            app.settings_of().fonts == self.settings_of().fonts,
            app.settings_of().default_text_size == self.settings_of().default_text_size,
            app.settings_of().antialiasing == self.settings_of().antialiasing,
            app.settings_of().vsync == self.settings_of().vsync,
            app.program() == self.program(),
            app.presets_of() == self.presets_of(),
    {
        Self { iced_settings: Settings { default_font, ..self.iced_settings }, ..self }
    }

    /// Adds a font to load, after the ones added before.
    pub fn font(self, font: Cow<'static, [u8]>) -> (app: Self)
        ensures
            app.settings_of().fonts@ == self.settings_of().fonts@.push(font),
            app.settings_of().id == self.settings_of().id,
            app.settings_of().default_font == self.settings_of().default_font,
            app.settings_of().default_text_size == self.settings_of().default_text_size,
            app.settings_of().antialiasing == self.settings_of().antialiasing,
            app.settings_of().vsync == self.settings_of().vsync,
            app.program() == self.program(),
            app.presets_of() == self.presets_of(),
    {
        let mut app = self;
        app.iced_settings.fonts.push(font);
        app
    }

    /// Replaces the presets.
    pub fn presets(self, presets: Vec<R>) -> (app: Self)
        ensures
            app.presets_of() == presets@,
            app.settings_of() == self.settings_of(),
            app.program() == self.program(),
    {
        Self { presets, ..self }
    }
}

} // verus!
