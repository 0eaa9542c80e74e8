//! Keys and physical key codes as the GUI toolkit names them, and their
//! conversion from the keyboard's keys and codes.

use vstd::prelude::*;

use crate::event::Key;
use crate::keyboard::{Code, NamedKey};

verus! {

/// A key with a name, as the GUI toolkit names it.
#[derive(Debug, Copy, Clone, PartialEq, Eq, Structural)]
pub enum IcedNamed {
    Alt,
    AltGraph,
    CapsLock,
    Control,
    Fn,
    FnLock,
    NumLock,
    ScrollLock,
    Shift,
    Symbol,
    SymbolLock,
    Meta,
    Hyper,
    Super,
    Enter,
    Tab,
    Space,
    ArrowDown,
    ArrowLeft,
    ArrowRight,
    ArrowUp,
    End,
    Home,
    PageDown,
    PageUp,
    Backspace,
    Clear,
    Copy,
    CrSel,
    Cut,
    Delete,
    EraseEof,
    ExSel,
    Insert,
    Paste,
    Redo,
    Undo,
    Accept,
    Again,
    Attn,
    Cancel,
    ContextMenu,
    Escape,
    Execute,
    Find,
    Help,
    Pause,
    Play,
    Props,
    Select,
    ZoomIn,
    ZoomOut,
    BrightnessDown,
    BrightnessUp,
    Eject,
    LogOff,
    Power,
    PowerOff,
    PrintScreen,
    Hibernate,
    Standby,
    WakeUp,
    AllCandidates,
    Alphanumeric,
    CodeInput,
    Compose,
    Convert,
    FinalMode,
    GroupFirst,
    GroupLast,
    GroupNext,
    GroupPrevious,
    ModeChange,
    NextCandidate,
    NonConvert,
    PreviousCandidate,
    Process,
    SingleCandidate,
    HangulMode,
    HanjaMode,
    JunjaMode,
    Eisu,
    Hankaku,
    Hiragana,
    HiraganaKatakana,
    KanaMode,
    KanjiMode,
    Katakana,
    Romaji,
    Zenkaku,
    ZenkakuHankaku,
    Soft1,
    Soft2,
    Soft3,
    Soft4,
    ChannelDown,
    ChannelUp,
    Close,
    MailForward,
    MailReply,
    MailSend,
    MediaClose,
    MediaFastForward,
    MediaPause,
    MediaPlay,
    MediaPlayPause,
    MediaRecord,
    MediaRewind,
    MediaStop,
    MediaTrackNext,
    MediaTrackPrevious,
    New,
    Open,
    Print,
    Save,
    SpellCheck,
    Key11,
    Key12,
    AudioBalanceLeft,
    AudioBalanceRight,
    AudioBassBoostDown,
    AudioBassBoostToggle,
    AudioBassBoostUp,
    AudioFaderFront,
    AudioFaderRear,
    AudioSurroundModeNext,
    AudioTrebleDown,
    AudioTrebleUp,
    AudioVolumeDown,
    AudioVolumeUp,
    AudioVolumeMute,
    MicrophoneToggle,
    MicrophoneVolumeDown,
    MicrophoneVolumeUp,
    MicrophoneVolumeMute,
    SpeechCorrectionList,
    SpeechInputToggle,
    LaunchApplication1,
    LaunchApplication2,
    LaunchCalendar,
    LaunchContacts,
    LaunchMail,
    LaunchMediaPlayer,
    LaunchMusicPlayer,
    LaunchPhone,
    LaunchScreenSaver,
    LaunchSpreadsheet,
    LaunchWebBrowser,
    LaunchWebCam,
    LaunchWordProcessor,
    BrowserBack,
    BrowserFavorites,
    BrowserForward,
    BrowserHome,
    BrowserRefresh,
    BrowserSearch,
    BrowserStop,
    AppSwitch,
    Call,
    Camera,
    CameraFocus,
    EndCall,
    GoBack,
    GoHome,
    HeadsetHook,
    LastNumberRedial,
    Notification,
    MannerMode,
    VoiceDial,
    TV,
    TV3DMode,
    TVAntennaCable,
    TVAudioDescription,
    TVAudioDescriptionMixDown,
    TVAudioDescriptionMixUp,
    TVContentsMenu,
    TVDataService,
    TVInput,
    TVInputComponent1,
    TVInputComponent2,
    TVInputComposite1,
    TVInputComposite2,
    TVInputHDMI1,
    TVInputHDMI2,
    TVInputHDMI3,
    TVInputHDMI4,
    TVInputVGA1,
    TVMediaContext,
    TVNetwork,
    TVNumberEntry,
    TVPower,
    TVRadioService,
    TVSatellite,
    TVSatelliteBS,
    TVSatelliteCS,
    TVSatelliteToggle,
    TVTerrestrialAnalog,
    TVTerrestrialDigital,
    TVTimer,
    AVRInput,
    AVRPower,
    ColorF0Red,
    ColorF1Green,
    ColorF2Yellow,
    ColorF3Blue,
    ColorF4Grey,
    ColorF5Brown,
    ClosedCaptionToggle,
    Dimmer,
    DisplaySwap,
    DVR,
    Exit,
    FavoriteClear0,
    FavoriteClear1,
    FavoriteClear2,
    FavoriteClear3,
    FavoriteRecall0,
    FavoriteRecall1,
    FavoriteRecall2,
    FavoriteRecall3,
    FavoriteStore0,
    FavoriteStore1,
    FavoriteStore2,
    FavoriteStore3,
    Guide,
    GuideNextDay,
    GuidePreviousDay,
    Info,
    InstantReplay,
    Link,
    ListProgram,
    LiveContent,
    Lock,
    MediaApps,
    MediaAudioTrack,
    MediaLast,
    MediaSkipBackward,
    MediaSkipForward,
    MediaStepBackward,
    MediaStepForward,
    MediaTopMenu,
    NavigateIn,
    NavigateNext,
    NavigateOut,
    NavigatePrevious,
    NextFavoriteChannel,
    NextUserProfile,
    OnDemand,
    Pairing,
    PinPDown,
    PinPMove,
    PinPToggle,
    PinPUp,
    PlaySpeedDown,
    PlaySpeedReset,
    PlaySpeedUp,
    RandomToggle,
    RcLowBattery,
    RecordSpeedNext,
    RfBypass,
    ScanChannelsToggle,
    ScreenModeNext,
    Settings,
    SplitScreenToggle,
    STBInput,
    STBPower,
    Subtitle,
    Teletext,
    VideoModeNext,
    Wink,
    ZoomToggle,
    F1,
    F2,
    F3,
    F4,
    F5,
    F6,
    F7,
    F8,
    F9,
    F10,
    F11,
    F12,
    F13,
    F14,
    F15,
    F16,
    F17,
    F18,
    F19,
    F20,
    F21,
    F22,
    F23,
    F24,
    F25,
    F26,
    F27,
    F28,
    F29,
    F30,
    F31,
    F32,
    F33,
    F34,
    F35,
}

/// A physical key code, as the GUI toolkit names it.
#[derive(Debug, Copy, Clone, PartialEq, Eq, Structural)]
pub enum IcedCode {
    Backquote,
    Backslash,
    BracketLeft,
    BracketRight,
    Comma,
    Digit0,
    Digit1,
    Digit2,
    Digit3,
    Digit4,
    Digit5,
    Digit6,
    Digit7,
    Digit8,
    Digit9,
    Equal,
    IntlBackslash,
    IntlRo,
    IntlYen,
    KeyA,
    KeyB,
    KeyC,
    KeyD,
    KeyE,
    KeyF,
    KeyG,
    KeyH,
    KeyI,
    KeyJ,
    KeyK,
    KeyL,
    KeyM,
    KeyN,
    KeyO,
    KeyP,
    KeyQ,
    KeyR,
    KeyS,
    KeyT,
    KeyU,
    KeyV,
    KeyW,
    KeyX,
    KeyY,
    KeyZ,
    Minus,
    Period,
    Quote,
    Semicolon,
    Slash,
    AltLeft,
    AltRight,
    Backspace,
    CapsLock,
    ContextMenu,
    ControlLeft,
    ControlRight,
    Enter,
    SuperLeft,
    SuperRight,
    ShiftLeft,
    ShiftRight,
    Space,
    Tab,
    Convert,
    KanaMode,
    Lang1,
    Lang2,
    Lang3,
    Lang4,
    Lang5,
    NonConvert,
    Delete,
    End,
    Help,
    Home,
    Insert,
    PageDown,
    PageUp,
    ArrowDown,
    ArrowLeft,
    ArrowRight,
    ArrowUp,
    NumLock,
    Numpad0,
    Numpad1,
    Numpad2,
    Numpad3,
    Numpad4,
    Numpad5,
    Numpad6,
    Numpad7,
    Numpad8,
    Numpad9,
    NumpadAdd,
    NumpadBackspace,
    NumpadClear,
    NumpadClearEntry,
    NumpadComma,
    NumpadDecimal,
    NumpadDivide,
    NumpadEnter,
    NumpadEqual,
    NumpadHash,
    NumpadMemoryAdd,
    NumpadMemoryClear,
    NumpadMemoryRecall,
    NumpadMemoryStore,
    NumpadMemorySubtract,
    NumpadMultiply,
    NumpadParenLeft,
    NumpadParenRight,
    NumpadStar,
    NumpadSubtract,
    Escape,
    Fn,
    FnLock,
    PrintScreen,
    ScrollLock,
    Pause,
    BrowserBack,
    BrowserFavorites,
    BrowserForward,
    BrowserHome,
    BrowserRefresh,
    BrowserSearch,
    BrowserStop,
    Eject,
    LaunchApp1,
    LaunchApp2,
    LaunchMail,
    MediaPlayPause,
    MediaSelect,
    MediaStop,
    MediaTrackNext,
    MediaTrackPrevious,
    Power,
    Sleep,
    AudioVolumeDown,
    AudioVolumeMute,
    AudioVolumeUp,
    WakeUp,
    Meta,
    Hyper,
    Turbo,
    Abort,
    Resume,
    Suspend,
    Again,
    Copy,
    Cut,
    Find,
    Open,
    Paste,
    Props,
    Select,
    Undo,
    Hiragana,
    Katakana,
    F1,
    F2,
    F3,
    F4,
    F5,
    F6,
    F7,
    F8,
    F9,
    F10,
    F11,
    F12,
    F13,
    F14,
    F15,
    F16,
    F17,
    F18,
    F19,
    F20,
    F21,
    F22,
    F23,
    F24,
    F25,
    F26,
    F27,
    F28,
    F29,
    F30,
    F31,
    F32,
    F33,
    F34,
    F35,
}

/// A logical key, as the GUI toolkit sees it.
#[derive(Debug, Clone, PartialEq, Eq)]
pub enum IcedKey {
    Named(IcedNamed),
    Character(String),
    Unidentified,
}

/// A physical key, as the GUI toolkit sees it: a known code or an
/// unidentified native code.
#[derive(Debug, Copy, Clone, PartialEq, Eq, Structural)]
pub enum Physical {
    Code(IcedCode),
    Unidentified,
}

/// The toolkit's name of a named key; `None` for the keys it has no name for.
pub open spec fn iced_named_of(named: NamedKey) -> Option<IcedNamed> {
    match named {
        NamedKey::Alt => Some(IcedNamed::Alt),
        NamedKey::AltGraph => Some(IcedNamed::AltGraph),
        NamedKey::CapsLock => Some(IcedNamed::CapsLock),
        NamedKey::Control => Some(IcedNamed::Control),
        NamedKey::Fn => Some(IcedNamed::Fn),
        NamedKey::FnLock => Some(IcedNamed::FnLock),
        NamedKey::Meta => Some(IcedNamed::Meta),
        NamedKey::NumLock => Some(IcedNamed::NumLock),
        NamedKey::ScrollLock => Some(IcedNamed::ScrollLock),
        NamedKey::Shift => Some(IcedNamed::Shift),
        NamedKey::Symbol => Some(IcedNamed::Symbol),
        NamedKey::SymbolLock => Some(IcedNamed::SymbolLock),
        NamedKey::Hyper => Some(IcedNamed::Meta),
        NamedKey::Super => Some(IcedNamed::Meta),
        NamedKey::Enter => Some(IcedNamed::Enter),
        NamedKey::Tab => Some(IcedNamed::Tab),
        NamedKey::ArrowDown => Some(IcedNamed::ArrowDown),
        NamedKey::ArrowLeft => Some(IcedNamed::ArrowLeft),
        NamedKey::ArrowRight => Some(IcedNamed::ArrowRight),
        NamedKey::ArrowUp => Some(IcedNamed::ArrowUp),
        NamedKey::End => Some(IcedNamed::End),
        NamedKey::Home => Some(IcedNamed::Home),
        NamedKey::PageDown => Some(IcedNamed::PageDown),
        NamedKey::PageUp => Some(IcedNamed::PageUp),
        NamedKey::Backspace => Some(IcedNamed::Backspace),
        NamedKey::Clear => Some(IcedNamed::Clear),
        NamedKey::Copy => Some(IcedNamed::Copy),
        NamedKey::CrSel => Some(IcedNamed::CrSel),
        NamedKey::Cut => Some(IcedNamed::Cut),
        NamedKey::Delete => Some(IcedNamed::Delete),
        NamedKey::EraseEof => Some(IcedNamed::EraseEof),
        NamedKey::ExSel => Some(IcedNamed::ExSel),
        NamedKey::Insert => Some(IcedNamed::Insert),
        NamedKey::Paste => Some(IcedNamed::Paste),
        NamedKey::Redo => Some(IcedNamed::Redo),
        NamedKey::Undo => Some(IcedNamed::Undo),
        NamedKey::Accept => Some(IcedNamed::Accept),
        NamedKey::Again => Some(IcedNamed::Again),
        NamedKey::Attn => Some(IcedNamed::Attn),
        NamedKey::Cancel => Some(IcedNamed::Cancel),
        NamedKey::ContextMenu => Some(IcedNamed::ContextMenu),
        NamedKey::Escape => Some(IcedNamed::Escape),
        NamedKey::Execute => Some(IcedNamed::Execute),
        NamedKey::Find => Some(IcedNamed::Find),
        NamedKey::Help => Some(IcedNamed::Help),
        NamedKey::Pause => Some(IcedNamed::Pause),
        NamedKey::Play => Some(IcedNamed::Play),
        NamedKey::Props => Some(IcedNamed::Props),
        NamedKey::Select => Some(IcedNamed::Select),
        NamedKey::ZoomIn => Some(IcedNamed::ZoomIn),
        NamedKey::ZoomOut => Some(IcedNamed::ZoomOut),
        NamedKey::BrightnessDown => Some(IcedNamed::BrightnessDown),
        NamedKey::BrightnessUp => Some(IcedNamed::BrightnessUp),
        NamedKey::Eject => Some(IcedNamed::Eject),
        NamedKey::LogOff => Some(IcedNamed::LogOff),
        NamedKey::Power => Some(IcedNamed::Power),
        NamedKey::PowerOff => Some(IcedNamed::PowerOff),
        NamedKey::PrintScreen => Some(IcedNamed::PrintScreen),
        NamedKey::Hibernate => Some(IcedNamed::Hibernate),
        NamedKey::Standby => Some(IcedNamed::Standby),
        NamedKey::WakeUp => Some(IcedNamed::WakeUp),
        NamedKey::AllCandidates => Some(IcedNamed::AllCandidates),
        NamedKey::Alphanumeric => Some(IcedNamed::Alphanumeric),
        NamedKey::CodeInput => Some(IcedNamed::CodeInput),
        NamedKey::Compose => Some(IcedNamed::Compose),
        NamedKey::Convert => Some(IcedNamed::Convert),
        NamedKey::FinalMode => Some(IcedNamed::FinalMode),
        NamedKey::GroupFirst => Some(IcedNamed::GroupFirst),
        NamedKey::GroupLast => Some(IcedNamed::GroupLast),
        NamedKey::GroupNext => Some(IcedNamed::GroupNext),
        NamedKey::GroupPrevious => Some(IcedNamed::GroupPrevious),
        NamedKey::ModeChange => Some(IcedNamed::ModeChange),
        NamedKey::NextCandidate => Some(IcedNamed::NextCandidate),
        NamedKey::NonConvert => Some(IcedNamed::NonConvert),
        NamedKey::PreviousCandidate => Some(IcedNamed::PreviousCandidate),
        NamedKey::Process => Some(IcedNamed::Process),
        NamedKey::SingleCandidate => Some(IcedNamed::SingleCandidate),
        NamedKey::HangulMode => Some(IcedNamed::HangulMode),
        NamedKey::HanjaMode => Some(IcedNamed::HanjaMode),
        NamedKey::JunjaMode => Some(IcedNamed::JunjaMode),
        NamedKey::Eisu => Some(IcedNamed::Eisu),
        NamedKey::Hankaku => Some(IcedNamed::Hankaku),
        NamedKey::Hiragana => Some(IcedNamed::Hiragana),
        NamedKey::HiraganaKatakana => Some(IcedNamed::HiraganaKatakana),
        NamedKey::KanaMode => Some(IcedNamed::KanaMode),
        NamedKey::KanjiMode => Some(IcedNamed::KanjiMode),
        NamedKey::Katakana => Some(IcedNamed::Katakana),
        NamedKey::Romaji => Some(IcedNamed::Romaji),
        NamedKey::Zenkaku => Some(IcedNamed::Zenkaku),
        NamedKey::ZenkakuHankaku => Some(IcedNamed::ZenkakuHankaku),
        NamedKey::F1 => Some(IcedNamed::F1),
        NamedKey::F2 => Some(IcedNamed::F2),
        NamedKey::F3 => Some(IcedNamed::F3),
        NamedKey::F4 => Some(IcedNamed::F4),
        NamedKey::F5 => Some(IcedNamed::F5),
        NamedKey::F6 => Some(IcedNamed::F6),
        NamedKey::F7 => Some(IcedNamed::F7),
        NamedKey::F8 => Some(IcedNamed::F8),
        NamedKey::F9 => Some(IcedNamed::F9),
        NamedKey::F10 => Some(IcedNamed::F10),
        NamedKey::F11 => Some(IcedNamed::F11),
        NamedKey::F12 => Some(IcedNamed::F12),
        NamedKey::Soft1 => Some(IcedNamed::Soft1),
        NamedKey::Soft2 => Some(IcedNamed::Soft2),
        NamedKey::Soft3 => Some(IcedNamed::Soft3),
        NamedKey::Soft4 => Some(IcedNamed::Soft4),
        NamedKey::ChannelDown => Some(IcedNamed::ChannelDown),
        NamedKey::ChannelUp => Some(IcedNamed::ChannelUp),
        NamedKey::Close => Some(IcedNamed::Close),
        NamedKey::MailForward => Some(IcedNamed::MailForward),
        NamedKey::MailReply => Some(IcedNamed::MailReply),
        NamedKey::MailSend => Some(IcedNamed::MailSend),
        NamedKey::MediaClose => Some(IcedNamed::MediaClose),
        NamedKey::MediaFastForward => Some(IcedNamed::MediaFastForward),
        NamedKey::MediaPause => Some(IcedNamed::MediaPause),
        NamedKey::MediaPlay => Some(IcedNamed::MediaPlay),
        NamedKey::MediaPlayPause => Some(IcedNamed::MediaPlayPause),
        NamedKey::MediaRecord => Some(IcedNamed::MediaRecord),
        NamedKey::MediaRewind => Some(IcedNamed::MediaRewind),
        NamedKey::MediaStop => Some(IcedNamed::MediaStop),
        NamedKey::MediaTrackNext => Some(IcedNamed::MediaTrackNext),
        NamedKey::MediaTrackPrevious => Some(IcedNamed::MediaTrackPrevious),
        NamedKey::New => Some(IcedNamed::New),
        NamedKey::Open => Some(IcedNamed::Open),
        NamedKey::Print => Some(IcedNamed::Print),
        NamedKey::Save => Some(IcedNamed::Save),
        NamedKey::SpellCheck => Some(IcedNamed::SpellCheck),
        NamedKey::Key11 => Some(IcedNamed::Key11),
        NamedKey::Key12 => Some(IcedNamed::Key12),
        NamedKey::AudioBalanceLeft => Some(IcedNamed::AudioBalanceLeft),
        NamedKey::AudioBalanceRight => Some(IcedNamed::AudioBalanceRight),
        NamedKey::AudioBassBoostDown => Some(IcedNamed::AudioBassBoostDown),
        NamedKey::AudioBassBoostToggle => Some(IcedNamed::AudioBassBoostToggle),
        NamedKey::AudioBassBoostUp => Some(IcedNamed::AudioBassBoostUp),
        NamedKey::AudioFaderFront => Some(IcedNamed::AudioFaderFront),
        NamedKey::AudioFaderRear => Some(IcedNamed::AudioFaderRear),
        NamedKey::AudioSurroundModeNext => Some(IcedNamed::AudioSurroundModeNext),
        NamedKey::AudioTrebleDown => Some(IcedNamed::AudioTrebleDown),
        NamedKey::AudioTrebleUp => Some(IcedNamed::AudioTrebleUp),
        NamedKey::AudioVolumeDown => Some(IcedNamed::AudioVolumeDown),
        NamedKey::AudioVolumeUp => Some(IcedNamed::AudioVolumeUp),
        NamedKey::AudioVolumeMute => Some(IcedNamed::AudioVolumeMute),
        NamedKey::MicrophoneToggle => Some(IcedNamed::MicrophoneToggle),
        NamedKey::MicrophoneVolumeDown => Some(IcedNamed::MicrophoneVolumeDown),
        NamedKey::MicrophoneVolumeUp => Some(IcedNamed::MicrophoneVolumeUp),
        NamedKey::MicrophoneVolumeMute => Some(IcedNamed::MicrophoneVolumeMute),
        NamedKey::SpeechCorrectionList => Some(IcedNamed::SpeechCorrectionList),
        NamedKey::SpeechInputToggle => Some(IcedNamed::SpeechInputToggle),
        NamedKey::LaunchApplication1 => Some(IcedNamed::LaunchApplication1),
        NamedKey::LaunchApplication2 => Some(IcedNamed::LaunchApplication2),
        NamedKey::LaunchCalendar => Some(IcedNamed::LaunchCalendar),
        NamedKey::LaunchContacts => Some(IcedNamed::LaunchContacts),
        NamedKey::LaunchMail => Some(IcedNamed::LaunchMail),
        NamedKey::LaunchMediaPlayer => Some(IcedNamed::LaunchMediaPlayer),
        NamedKey::LaunchMusicPlayer => Some(IcedNamed::LaunchMusicPlayer),
        NamedKey::LaunchPhone => Some(IcedNamed::LaunchPhone),
        NamedKey::LaunchScreenSaver => Some(IcedNamed::LaunchScreenSaver),
        NamedKey::LaunchSpreadsheet => Some(IcedNamed::LaunchSpreadsheet),
        NamedKey::LaunchWebBrowser => Some(IcedNamed::LaunchWebBrowser),
        NamedKey::LaunchWebCam => Some(IcedNamed::LaunchWebCam),
        NamedKey::LaunchWordProcessor => Some(IcedNamed::LaunchWordProcessor),
        NamedKey::BrowserBack => Some(IcedNamed::BrowserBack),
        NamedKey::BrowserFavorites => Some(IcedNamed::BrowserFavorites),
        NamedKey::BrowserForward => Some(IcedNamed::BrowserForward),
        NamedKey::BrowserHome => Some(IcedNamed::BrowserHome),
        NamedKey::BrowserRefresh => Some(IcedNamed::BrowserRefresh),
        NamedKey::BrowserSearch => Some(IcedNamed::BrowserSearch),
        NamedKey::BrowserStop => Some(IcedNamed::BrowserStop),
        NamedKey::AppSwitch => Some(IcedNamed::AppSwitch),
        NamedKey::Call => Some(IcedNamed::Call),
        NamedKey::Camera => Some(IcedNamed::Camera),
        NamedKey::CameraFocus => Some(IcedNamed::CameraFocus),
        NamedKey::EndCall => Some(IcedNamed::EndCall),
        NamedKey::GoBack => Some(IcedNamed::GoBack),
        NamedKey::GoHome => Some(IcedNamed::GoHome),
        NamedKey::HeadsetHook => Some(IcedNamed::HeadsetHook),
        NamedKey::LastNumberRedial => Some(IcedNamed::LastNumberRedial),
        NamedKey::Notification => Some(IcedNamed::Notification),
        NamedKey::MannerMode => Some(IcedNamed::MannerMode),
        NamedKey::VoiceDial => Some(IcedNamed::VoiceDial),
        NamedKey::TV => Some(IcedNamed::TV),
        NamedKey::TV3DMode => Some(IcedNamed::TV3DMode),
        NamedKey::TVAntennaCable => Some(IcedNamed::TVAntennaCable),
        NamedKey::TVAudioDescription => Some(IcedNamed::TVAudioDescription),
        NamedKey::TVAudioDescriptionMixDown => Some(IcedNamed::TVAudioDescriptionMixDown),
        NamedKey::TVAudioDescriptionMixUp => Some(IcedNamed::TVAudioDescriptionMixUp),
        NamedKey::TVContentsMenu => Some(IcedNamed::TVContentsMenu),
        NamedKey::TVDataService => Some(IcedNamed::TVDataService),
        NamedKey::TVInput => Some(IcedNamed::TVInput),
        NamedKey::TVInputComponent1 => Some(IcedNamed::TVInputComponent1),
        NamedKey::TVInputComponent2 => Some(IcedNamed::TVInputComponent2),
        NamedKey::TVInputComposite1 => Some(IcedNamed::TVInputComposite1),
        NamedKey::TVInputComposite2 => Some(IcedNamed::TVInputComposite2),
        NamedKey::TVInputHDMI1 => Some(IcedNamed::TVInputHDMI1),
        NamedKey::TVInputHDMI2 => Some(IcedNamed::TVInputHDMI2),
        NamedKey::TVInputHDMI3 => Some(IcedNamed::TVInputHDMI3),
        NamedKey::TVInputHDMI4 => Some(IcedNamed::TVInputHDMI4),
        NamedKey::TVInputVGA1 => Some(IcedNamed::TVInputVGA1),
        NamedKey::TVMediaContext => Some(IcedNamed::TVMediaContext),
        NamedKey::TVNetwork => Some(IcedNamed::TVNetwork),
        NamedKey::TVNumberEntry => Some(IcedNamed::TVNumberEntry),
        NamedKey::TVPower => Some(IcedNamed::TVPower),
        NamedKey::TVRadioService => Some(IcedNamed::TVRadioService),
        NamedKey::TVSatellite => Some(IcedNamed::TVSatellite),
        NamedKey::TVSatelliteBS => Some(IcedNamed::TVSatelliteBS),
        NamedKey::TVSatelliteCS => Some(IcedNamed::TVSatelliteCS),
        NamedKey::TVSatelliteToggle => Some(IcedNamed::TVSatelliteToggle),
        NamedKey::TVTerrestrialAnalog => Some(IcedNamed::TVTerrestrialAnalog),
        NamedKey::TVTerrestrialDigital => Some(IcedNamed::TVTerrestrialDigital),
        NamedKey::TVTimer => Some(IcedNamed::TVTimer),
        NamedKey::AVRInput => Some(IcedNamed::AVRInput),
        NamedKey::AVRPower => Some(IcedNamed::AVRPower),
        NamedKey::ColorF0Red => Some(IcedNamed::ColorF0Red),
        NamedKey::ColorF1Green => Some(IcedNamed::ColorF1Green),
        NamedKey::ColorF2Yellow => Some(IcedNamed::ColorF2Yellow),
        NamedKey::ColorF3Blue => Some(IcedNamed::ColorF3Blue),
        NamedKey::ColorF4Grey => Some(IcedNamed::ColorF4Grey),
        NamedKey::ColorF5Brown => Some(IcedNamed::ColorF5Brown),
        NamedKey::ClosedCaptionToggle => Some(IcedNamed::ClosedCaptionToggle),
        NamedKey::Dimmer => Some(IcedNamed::Dimmer),
        NamedKey::DisplaySwap => Some(IcedNamed::DisplaySwap),
        NamedKey::DVR => Some(IcedNamed::DVR),
        NamedKey::Exit => Some(IcedNamed::Exit),
        NamedKey::FavoriteClear0 => Some(IcedNamed::FavoriteClear0),
        NamedKey::FavoriteClear1 => Some(IcedNamed::FavoriteClear1),
        NamedKey::FavoriteClear2 => Some(IcedNamed::FavoriteClear2),
        NamedKey::FavoriteClear3 => Some(IcedNamed::FavoriteClear3),
        NamedKey::FavoriteRecall0 => Some(IcedNamed::FavoriteRecall0),
        NamedKey::FavoriteRecall1 => Some(IcedNamed::FavoriteRecall1),
        NamedKey::FavoriteRecall2 => Some(IcedNamed::FavoriteRecall2),
        NamedKey::FavoriteRecall3 => Some(IcedNamed::FavoriteRecall3),
        NamedKey::FavoriteStore0 => Some(IcedNamed::FavoriteStore0),
        NamedKey::FavoriteStore1 => Some(IcedNamed::FavoriteStore1),
        NamedKey::FavoriteStore2 => Some(IcedNamed::FavoriteStore2),
        NamedKey::FavoriteStore3 => Some(IcedNamed::FavoriteStore3),
        NamedKey::Guide => Some(IcedNamed::Guide),
        NamedKey::GuideNextDay => Some(IcedNamed::GuideNextDay),
        NamedKey::GuidePreviousDay => Some(IcedNamed::GuidePreviousDay),
        NamedKey::Info => Some(IcedNamed::Info),
        NamedKey::InstantReplay => Some(IcedNamed::InstantReplay),
        NamedKey::Link => Some(IcedNamed::Link),
        NamedKey::ListProgram => Some(IcedNamed::ListProgram),
        NamedKey::LiveContent => Some(IcedNamed::LiveContent),
        NamedKey::Lock => Some(IcedNamed::Lock),
        NamedKey::MediaApps => Some(IcedNamed::MediaApps),
        NamedKey::MediaAudioTrack => Some(IcedNamed::MediaAudioTrack),
        NamedKey::MediaLast => Some(IcedNamed::MediaLast),
        NamedKey::MediaSkipBackward => Some(IcedNamed::MediaSkipBackward),
        NamedKey::MediaSkipForward => Some(IcedNamed::MediaSkipForward),
        NamedKey::MediaStepBackward => Some(IcedNamed::MediaStepBackward),
        NamedKey::MediaStepForward => Some(IcedNamed::MediaStepForward),
        NamedKey::MediaTopMenu => Some(IcedNamed::MediaTopMenu),
        NamedKey::NavigateIn => Some(IcedNamed::NavigateIn),
        NamedKey::NavigateNext => Some(IcedNamed::NavigateNext),
        NamedKey::NavigateOut => Some(IcedNamed::NavigateOut),
        NamedKey::NavigatePrevious => Some(IcedNamed::NavigatePrevious),
        NamedKey::NextFavoriteChannel => Some(IcedNamed::NextFavoriteChannel),
        NamedKey::NextUserProfile => Some(IcedNamed::NextUserProfile),
        NamedKey::OnDemand => Some(IcedNamed::OnDemand),
        NamedKey::Pairing => Some(IcedNamed::Pairing),
        NamedKey::PinPMove => Some(IcedNamed::PinPMove),
        NamedKey::PinPToggle => Some(IcedNamed::PinPToggle),
        NamedKey::PinPUp => Some(IcedNamed::PinPUp),
        NamedKey::PlaySpeedDown => Some(IcedNamed::PlaySpeedDown),
        NamedKey::PlaySpeedReset => Some(IcedNamed::PlaySpeedReset),
        NamedKey::PlaySpeedUp => Some(IcedNamed::PlaySpeedUp),
        NamedKey::RandomToggle => Some(IcedNamed::RandomToggle),
        NamedKey::RcLowBattery => Some(IcedNamed::RcLowBattery),
        NamedKey::RecordSpeedNext => Some(IcedNamed::RecordSpeedNext),
        NamedKey::RfBypass => Some(IcedNamed::RfBypass),
        NamedKey::ScanChannelsToggle => Some(IcedNamed::ScanChannelsToggle),
        NamedKey::ScreenModeNext => Some(IcedNamed::ScreenModeNext),
        NamedKey::Settings => Some(IcedNamed::Settings),
        NamedKey::SplitScreenToggle => Some(IcedNamed::SplitScreenToggle),
        NamedKey::STBInput => Some(IcedNamed::STBInput),
        NamedKey::STBPower => Some(IcedNamed::STBPower),
        NamedKey::Subtitle => Some(IcedNamed::Subtitle),
        NamedKey::Teletext => Some(IcedNamed::Teletext),
        NamedKey::VideoModeNext => Some(IcedNamed::VideoModeNext),
        NamedKey::Wink => Some(IcedNamed::Wink),
        NamedKey::ZoomToggle => Some(IcedNamed::ZoomToggle),
        NamedKey::F13 => Some(IcedNamed::F13),
        NamedKey::F14 => Some(IcedNamed::F14),
        NamedKey::F15 => Some(IcedNamed::F15),
        NamedKey::F16 => Some(IcedNamed::F16),
        NamedKey::F17 => Some(IcedNamed::F17),
        NamedKey::F18 => Some(IcedNamed::F18),
        NamedKey::F19 => Some(IcedNamed::F19),
        NamedKey::F20 => Some(IcedNamed::F20),
        NamedKey::F21 => Some(IcedNamed::F21),
        NamedKey::F22 => Some(IcedNamed::F22),
        NamedKey::F23 => Some(IcedNamed::F23),
        NamedKey::F24 => Some(IcedNamed::F24),
        _ => None,
    }
}

/// The toolkit's key for a key: characters are kept, named keys are
/// renamed, and keys without a name there are unidentified.
pub open spec fn iced_key_of(key: Key) -> IcedKey {
    match key {
        Key::Character(s) => IcedKey::Character(s),
        Key::Named(named) => match iced_named_of(named) {
            Some(n) => IcedKey::Named(n),
            None => IcedKey::Unidentified,
        },
    }
}

/// The toolkit's code for a physical key code; `None` for the codes it is
/// not told about. The digit row is reported as the numeric keypad's digits
/// and both meta keys as the one meta code.
pub open spec fn iced_code_of(code: Code) -> Option<IcedCode> {
    match code {
        Code::Digit1 => Some(IcedCode::Numpad1),
        Code::Digit2 => Some(IcedCode::Numpad2),
        Code::Digit3 => Some(IcedCode::Numpad3),
        Code::Digit4 => Some(IcedCode::Numpad4),
        Code::Digit5 => Some(IcedCode::Numpad5),
        Code::Digit6 => Some(IcedCode::Numpad6),
        Code::Digit7 => Some(IcedCode::Numpad7),
        Code::Digit8 => Some(IcedCode::Numpad8),
        Code::Digit9 => Some(IcedCode::Numpad9),
        Code::Digit0 => Some(IcedCode::Numpad0),
        Code::KeyA => Some(IcedCode::KeyA),
        Code::KeyB => Some(IcedCode::KeyB),
        Code::KeyC => Some(IcedCode::KeyC),
        Code::KeyD => Some(IcedCode::KeyD),
        Code::KeyE => Some(IcedCode::KeyE),
        Code::KeyF => Some(IcedCode::KeyF),
        Code::KeyG => Some(IcedCode::KeyG),
        Code::KeyH => Some(IcedCode::KeyH),
        Code::KeyI => Some(IcedCode::KeyI),
        Code::KeyJ => Some(IcedCode::KeyJ),
        Code::KeyK => Some(IcedCode::KeyK),
        Code::KeyL => Some(IcedCode::KeyL),
        Code::KeyM => Some(IcedCode::KeyM),
        Code::KeyN => Some(IcedCode::KeyN),
        Code::KeyO => Some(IcedCode::KeyO),
        Code::KeyP => Some(IcedCode::KeyP),
        Code::KeyQ => Some(IcedCode::KeyQ),
        Code::KeyR => Some(IcedCode::KeyR),
        Code::KeyS => Some(IcedCode::KeyS),
        Code::KeyT => Some(IcedCode::KeyT),
        Code::KeyU => Some(IcedCode::KeyU),
        Code::KeyV => Some(IcedCode::KeyV),
        Code::KeyW => Some(IcedCode::KeyW),
        Code::KeyX => Some(IcedCode::KeyX),
        Code::KeyY => Some(IcedCode::KeyY),
        Code::KeyZ => Some(IcedCode::KeyZ),
        Code::Escape => Some(IcedCode::Escape),
        Code::F1 => Some(IcedCode::F1),
        Code::F2 => Some(IcedCode::F2),
        Code::F3 => Some(IcedCode::F3),
        Code::F4 => Some(IcedCode::F4),
        Code::F5 => Some(IcedCode::F5),
        Code::F6 => Some(IcedCode::F6),
        Code::F7 => Some(IcedCode::F7),
        Code::F8 => Some(IcedCode::F8),
        Code::F9 => Some(IcedCode::F9),
        Code::F10 => Some(IcedCode::F10),
        Code::F11 => Some(IcedCode::F11),
        Code::F12 => Some(IcedCode::F12),
        Code::PrintScreen => Some(IcedCode::PrintScreen),
        Code::ScrollLock => Some(IcedCode::ScrollLock),
        Code::Pause => Some(IcedCode::Pause),
        Code::Insert => Some(IcedCode::Insert),
        Code::Home => Some(IcedCode::Home),
        Code::Delete => Some(IcedCode::Delete),
        Code::End => Some(IcedCode::End),
        Code::PageDown => Some(IcedCode::PageDown),
        Code::PageUp => Some(IcedCode::PageUp),
        Code::ArrowLeft => Some(IcedCode::ArrowLeft),
        Code::ArrowUp => Some(IcedCode::ArrowUp),
        Code::ArrowRight => Some(IcedCode::ArrowRight),
        Code::ArrowDown => Some(IcedCode::ArrowDown),
        Code::Backspace => Some(IcedCode::Backspace),
        Code::Enter => Some(IcedCode::Enter),
        Code::Space => Some(IcedCode::Space),
        Code::NumLock => Some(IcedCode::NumLock),
        Code::Numpad0 => Some(IcedCode::Numpad0),
        Code::Numpad1 => Some(IcedCode::Numpad1),
        Code::Numpad2 => Some(IcedCode::Numpad2),
        Code::Numpad3 => Some(IcedCode::Numpad3),
        Code::Numpad4 => Some(IcedCode::Numpad4),
        Code::Numpad5 => Some(IcedCode::Numpad5),
        Code::Numpad6 => Some(IcedCode::Numpad6),
        Code::Numpad7 => Some(IcedCode::Numpad7),
        Code::Numpad8 => Some(IcedCode::Numpad8),
        Code::Numpad9 => Some(IcedCode::Numpad9),
        Code::NumpadAdd => Some(IcedCode::NumpadAdd),
        Code::NumpadDivide => Some(IcedCode::NumpadDivide),
        Code::NumpadDecimal => Some(IcedCode::NumpadDecimal),
        Code::NumpadComma => Some(IcedCode::NumpadComma),
        Code::NumpadEnter => Some(IcedCode::NumpadEnter),
        Code::NumpadEqual => Some(IcedCode::NumpadEqual),
        Code::NumpadMultiply => Some(IcedCode::NumpadMultiply),
        Code::NumpadSubtract => Some(IcedCode::NumpadSubtract),
        Code::Convert => Some(IcedCode::Convert),
        Code::KanaMode => Some(IcedCode::KanaMode),
        Code::NonConvert => Some(IcedCode::NonConvert),
        Code::IntlYen => Some(IcedCode::IntlYen),
        Code::AltLeft => Some(IcedCode::AltLeft),
        Code::AltRight => Some(IcedCode::AltRight),
        Code::BracketLeft => Some(IcedCode::BracketLeft),
        Code::BracketRight => Some(IcedCode::BracketRight),
        Code::ControlLeft => Some(IcedCode::ControlLeft),
        Code::ControlRight => Some(IcedCode::ControlRight),
        Code::ShiftLeft => Some(IcedCode::ShiftLeft),
        Code::ShiftRight => Some(IcedCode::ShiftRight),
        Code::MetaLeft => Some(IcedCode::Meta),
        Code::MetaRight => Some(IcedCode::Meta),
        Code::Minus => Some(IcedCode::Minus),
        Code::Period => Some(IcedCode::Period),
        Code::Equal => Some(IcedCode::Equal),
        Code::Quote => Some(IcedCode::Quote),
        Code::Comma => Some(IcedCode::Comma),
        Code::Semicolon => Some(IcedCode::Semicolon),
        Code::Backslash => Some(IcedCode::Backslash),
        Code::Slash => Some(IcedCode::Slash),
        Code::Tab => Some(IcedCode::Tab),
        Code::Copy => Some(IcedCode::Copy),
        Code::Paste => Some(IcedCode::Paste),
        Code::Cut => Some(IcedCode::Cut),
        Code::MediaSelect => Some(IcedCode::MediaSelect),
        Code::MediaStop => Some(IcedCode::MediaStop),
        Code::MediaPlayPause => Some(IcedCode::MediaPlayPause),
        Code::AudioVolumeMute => Some(IcedCode::AudioVolumeMute),
        Code::AudioVolumeDown => Some(IcedCode::AudioVolumeDown),
        Code::AudioVolumeUp => Some(IcedCode::AudioVolumeUp),
        Code::MediaTrackNext => Some(IcedCode::MediaTrackNext),
        Code::MediaTrackPrevious => Some(IcedCode::MediaTrackPrevious),
        _ => None,
    }
}

pub fn baseview_to_iced_key(key: &Key) -> (iced: IcedKey)
    ensures
        iced == iced_key_of(*key),
{
    match key {
        Key::Character(s) => IcedKey::Character(s.clone()),
        Key::Named(named) => match named {
            NamedKey::Alt => IcedKey::Named(IcedNamed::Alt),
            NamedKey::AltGraph => IcedKey::Named(IcedNamed::AltGraph),
            NamedKey::CapsLock => IcedKey::Named(IcedNamed::CapsLock),
            NamedKey::Control => IcedKey::Named(IcedNamed::Control),
            NamedKey::Fn => IcedKey::Named(IcedNamed::Fn),
            NamedKey::FnLock => IcedKey::Named(IcedNamed::FnLock),
            NamedKey::Meta => IcedKey::Named(IcedNamed::Meta),
            NamedKey::NumLock => IcedKey::Named(IcedNamed::NumLock),
            NamedKey::ScrollLock => IcedKey::Named(IcedNamed::ScrollLock),
            NamedKey::Shift => IcedKey::Named(IcedNamed::Shift),
            NamedKey::Symbol => IcedKey::Named(IcedNamed::Symbol),
            NamedKey::SymbolLock => IcedKey::Named(IcedNamed::SymbolLock),
            NamedKey::Hyper => IcedKey::Named(IcedNamed::Meta),
            NamedKey::Super => IcedKey::Named(IcedNamed::Meta),
            NamedKey::Enter => IcedKey::Named(IcedNamed::Enter),
            NamedKey::Tab => IcedKey::Named(IcedNamed::Tab),
            NamedKey::ArrowDown => IcedKey::Named(IcedNamed::ArrowDown),
            NamedKey::ArrowLeft => IcedKey::Named(IcedNamed::ArrowLeft),
            NamedKey::ArrowRight => IcedKey::Named(IcedNamed::ArrowRight),
            NamedKey::ArrowUp => IcedKey::Named(IcedNamed::ArrowUp),
            NamedKey::End => IcedKey::Named(IcedNamed::End),
            NamedKey::Home => IcedKey::Named(IcedNamed::Home),
            NamedKey::PageDown => IcedKey::Named(IcedNamed::PageDown),
            NamedKey::PageUp => IcedKey::Named(IcedNamed::PageUp),
            NamedKey::Backspace => IcedKey::Named(IcedNamed::Backspace),
            NamedKey::Clear => IcedKey::Named(IcedNamed::Clear),
            NamedKey::Copy => IcedKey::Named(IcedNamed::Copy),
            NamedKey::CrSel => IcedKey::Named(IcedNamed::CrSel),
            NamedKey::Cut => IcedKey::Named(IcedNamed::Cut),
            NamedKey::Delete => IcedKey::Named(IcedNamed::Delete),
            NamedKey::EraseEof => IcedKey::Named(IcedNamed::EraseEof),
            NamedKey::ExSel => IcedKey::Named(IcedNamed::ExSel),
            NamedKey::Insert => IcedKey::Named(IcedNamed::Insert),
            NamedKey::Paste => IcedKey::Named(IcedNamed::Paste),
            NamedKey::Redo => IcedKey::Named(IcedNamed::Redo),
            NamedKey::Undo => IcedKey::Named(IcedNamed::Undo),
            NamedKey::Accept => IcedKey::Named(IcedNamed::Accept),
            NamedKey::Again => IcedKey::Named(IcedNamed::Again),
            NamedKey::Attn => IcedKey::Named(IcedNamed::Attn),
            NamedKey::Cancel => IcedKey::Named(IcedNamed::Cancel),
            NamedKey::ContextMenu => IcedKey::Named(IcedNamed::ContextMenu),
            NamedKey::Escape => IcedKey::Named(IcedNamed::Escape),
            NamedKey::Execute => IcedKey::Named(IcedNamed::Execute),
            NamedKey::Find => IcedKey::Named(IcedNamed::Find),
            NamedKey::Help => IcedKey::Named(IcedNamed::Help),
            NamedKey::Pause => IcedKey::Named(IcedNamed::Pause),
            NamedKey::Play => IcedKey::Named(IcedNamed::Play),
            NamedKey::Props => IcedKey::Named(IcedNamed::Props),
            NamedKey::Select => IcedKey::Named(IcedNamed::Select),
            NamedKey::ZoomIn => IcedKey::Named(IcedNamed::ZoomIn),
            NamedKey::ZoomOut => IcedKey::Named(IcedNamed::ZoomOut),
            NamedKey::BrightnessDown => IcedKey::Named(IcedNamed::BrightnessDown),
            NamedKey::BrightnessUp => IcedKey::Named(IcedNamed::BrightnessUp),
            NamedKey::Eject => IcedKey::Named(IcedNamed::Eject),
            NamedKey::LogOff => IcedKey::Named(IcedNamed::LogOff),
            NamedKey::Power => IcedKey::Named(IcedNamed::Power),
            NamedKey::PowerOff => IcedKey::Named(IcedNamed::PowerOff),
            NamedKey::PrintScreen => IcedKey::Named(IcedNamed::PrintScreen),
            NamedKey::Hibernate => IcedKey::Named(IcedNamed::Hibernate),
            NamedKey::Standby => IcedKey::Named(IcedNamed::Standby),
            NamedKey::WakeUp => IcedKey::Named(IcedNamed::WakeUp),
            NamedKey::AllCandidates => IcedKey::Named(IcedNamed::AllCandidates),
            NamedKey::Alphanumeric => IcedKey::Named(IcedNamed::Alphanumeric),
            NamedKey::CodeInput => IcedKey::Named(IcedNamed::CodeInput),
            NamedKey::Compose => IcedKey::Named(IcedNamed::Compose),
            NamedKey::Convert => IcedKey::Named(IcedNamed::Convert),
            NamedKey::FinalMode => IcedKey::Named(IcedNamed::FinalMode),
            NamedKey::GroupFirst => IcedKey::Named(IcedNamed::GroupFirst),
            NamedKey::GroupLast => IcedKey::Named(IcedNamed::GroupLast),
            NamedKey::GroupNext => IcedKey::Named(IcedNamed::GroupNext),
            NamedKey::GroupPrevious => IcedKey::Named(IcedNamed::GroupPrevious),
            NamedKey::ModeChange => IcedKey::Named(IcedNamed::ModeChange),
            NamedKey::NextCandidate => IcedKey::Named(IcedNamed::NextCandidate),
            NamedKey::NonConvert => IcedKey::Named(IcedNamed::NonConvert),
            NamedKey::PreviousCandidate => IcedKey::Named(IcedNamed::PreviousCandidate),
            NamedKey::Process => IcedKey::Named(IcedNamed::Process),
            NamedKey::SingleCandidate => IcedKey::Named(IcedNamed::SingleCandidate),
            NamedKey::HangulMode => IcedKey::Named(IcedNamed::HangulMode),
            NamedKey::HanjaMode => IcedKey::Named(IcedNamed::HanjaMode),
            NamedKey::JunjaMode => IcedKey::Named(IcedNamed::JunjaMode),
            NamedKey::Eisu => IcedKey::Named(IcedNamed::Eisu),
            NamedKey::Hankaku => IcedKey::Named(IcedNamed::Hankaku),
            NamedKey::Hiragana => IcedKey::Named(IcedNamed::Hiragana),
            NamedKey::HiraganaKatakana => IcedKey::Named(IcedNamed::HiraganaKatakana),
            NamedKey::KanaMode => IcedKey::Named(IcedNamed::KanaMode),
            NamedKey::KanjiMode => IcedKey::Named(IcedNamed::KanjiMode),
            NamedKey::Katakana => IcedKey::Named(IcedNamed::Katakana),
            NamedKey::Romaji => IcedKey::Named(IcedNamed::Romaji),
            NamedKey::Zenkaku => IcedKey::Named(IcedNamed::Zenkaku),
            NamedKey::ZenkakuHankaku => IcedKey::Named(IcedNamed::ZenkakuHankaku),
            NamedKey::F1 => IcedKey::Named(IcedNamed::F1),
            NamedKey::F2 => IcedKey::Named(IcedNamed::F2),
            NamedKey::F3 => IcedKey::Named(IcedNamed::F3),
            NamedKey::F4 => IcedKey::Named(IcedNamed::F4),
            NamedKey::F5 => IcedKey::Named(IcedNamed::F5),
            NamedKey::F6 => IcedKey::Named(IcedNamed::F6),
            NamedKey::F7 => IcedKey::Named(IcedNamed::F7),
            NamedKey::F8 => IcedKey::Named(IcedNamed::F8),
            NamedKey::F9 => IcedKey::Named(IcedNamed::F9),
            NamedKey::F10 => IcedKey::Named(IcedNamed::F10),
            NamedKey::F11 => IcedKey::Named(IcedNamed::F11),
            NamedKey::F12 => IcedKey::Named(IcedNamed::F12),
            NamedKey::Soft1 => IcedKey::Named(IcedNamed::Soft1),
            NamedKey::Soft2 => IcedKey::Named(IcedNamed::Soft2),
            NamedKey::Soft3 => IcedKey::Named(IcedNamed::Soft3),
            NamedKey::Soft4 => IcedKey::Named(IcedNamed::Soft4),
            NamedKey::ChannelDown => IcedKey::Named(IcedNamed::ChannelDown),
            NamedKey::ChannelUp => IcedKey::Named(IcedNamed::ChannelUp),
            NamedKey::Close => IcedKey::Named(IcedNamed::Close),
            NamedKey::MailForward => IcedKey::Named(IcedNamed::MailForward),
            NamedKey::MailReply => IcedKey::Named(IcedNamed::MailReply),
            NamedKey::MailSend => IcedKey::Named(IcedNamed::MailSend),
            NamedKey::MediaClose => IcedKey::Named(IcedNamed::MediaClose),
            NamedKey::MediaFastForward => IcedKey::Named(IcedNamed::MediaFastForward),
            NamedKey::MediaPause => IcedKey::Named(IcedNamed::MediaPause),
            NamedKey::MediaPlay => IcedKey::Named(IcedNamed::MediaPlay),
            NamedKey::MediaPlayPause => IcedKey::Named(IcedNamed::MediaPlayPause),
            NamedKey::MediaRecord => IcedKey::Named(IcedNamed::MediaRecord),
            NamedKey::MediaRewind => IcedKey::Named(IcedNamed::MediaRewind),
            NamedKey::MediaStop => IcedKey::Named(IcedNamed::MediaStop),
            NamedKey::MediaTrackNext => IcedKey::Named(IcedNamed::MediaTrackNext),
            NamedKey::MediaTrackPrevious => IcedKey::Named(IcedNamed::MediaTrackPrevious),
            NamedKey::New => IcedKey::Named(IcedNamed::New),
            NamedKey::Open => IcedKey::Named(IcedNamed::Open),
            NamedKey::Print => IcedKey::Named(IcedNamed::Print),
            NamedKey::Save => IcedKey::Named(IcedNamed::Save),
            NamedKey::SpellCheck => IcedKey::Named(IcedNamed::SpellCheck),
            NamedKey::Key11 => IcedKey::Named(IcedNamed::Key11),
            NamedKey::Key12 => IcedKey::Named(IcedNamed::Key12),
            NamedKey::AudioBalanceLeft => IcedKey::Named(IcedNamed::AudioBalanceLeft),
            NamedKey::AudioBalanceRight => IcedKey::Named(IcedNamed::AudioBalanceRight),
            NamedKey::AudioBassBoostDown => IcedKey::Named(IcedNamed::AudioBassBoostDown),
            NamedKey::AudioBassBoostToggle => IcedKey::Named(IcedNamed::AudioBassBoostToggle),
            NamedKey::AudioBassBoostUp => IcedKey::Named(IcedNamed::AudioBassBoostUp),
            NamedKey::AudioFaderFront => IcedKey::Named(IcedNamed::AudioFaderFront),
            NamedKey::AudioFaderRear => IcedKey::Named(IcedNamed::AudioFaderRear),
            NamedKey::AudioSurroundModeNext => IcedKey::Named(IcedNamed::AudioSurroundModeNext),
            NamedKey::AudioTrebleDown => IcedKey::Named(IcedNamed::AudioTrebleDown),
            NamedKey::AudioTrebleUp => IcedKey::Named(IcedNamed::AudioTrebleUp),
            NamedKey::AudioVolumeDown => IcedKey::Named(IcedNamed::AudioVolumeDown),
            NamedKey::AudioVolumeUp => IcedKey::Named(IcedNamed::AudioVolumeUp),
            NamedKey::AudioVolumeMute => IcedKey::Named(IcedNamed::AudioVolumeMute),
            NamedKey::MicrophoneToggle => IcedKey::Named(IcedNamed::MicrophoneToggle),
            NamedKey::MicrophoneVolumeDown => IcedKey::Named(IcedNamed::MicrophoneVolumeDown),
            NamedKey::MicrophoneVolumeUp => IcedKey::Named(IcedNamed::MicrophoneVolumeUp),
            NamedKey::MicrophoneVolumeMute => IcedKey::Named(IcedNamed::MicrophoneVolumeMute),
            NamedKey::SpeechCorrectionList => IcedKey::Named(IcedNamed::SpeechCorrectionList),
            NamedKey::SpeechInputToggle => IcedKey::Named(IcedNamed::SpeechInputToggle),
            NamedKey::LaunchApplication1 => IcedKey::Named(IcedNamed::LaunchApplication1),
            NamedKey::LaunchApplication2 => IcedKey::Named(IcedNamed::LaunchApplication2),
            NamedKey::LaunchCalendar => IcedKey::Named(IcedNamed::LaunchCalendar),
            NamedKey::LaunchContacts => IcedKey::Named(IcedNamed::LaunchContacts),
            NamedKey::LaunchMail => IcedKey::Named(IcedNamed::LaunchMail),
            NamedKey::LaunchMediaPlayer => IcedKey::Named(IcedNamed::LaunchMediaPlayer),
            NamedKey::LaunchMusicPlayer => IcedKey::Named(IcedNamed::LaunchMusicPlayer),
            NamedKey::LaunchPhone => IcedKey::Named(IcedNamed::LaunchPhone),
            NamedKey::LaunchScreenSaver => IcedKey::Named(IcedNamed::LaunchScreenSaver),
            NamedKey::LaunchSpreadsheet => IcedKey::Named(IcedNamed::LaunchSpreadsheet),
            NamedKey::LaunchWebBrowser => IcedKey::Named(IcedNamed::LaunchWebBrowser),
            NamedKey::LaunchWebCam => IcedKey::Named(IcedNamed::LaunchWebCam),
            NamedKey::LaunchWordProcessor => IcedKey::Named(IcedNamed::LaunchWordProcessor),
            NamedKey::BrowserBack => IcedKey::Named(IcedNamed::BrowserBack),
            NamedKey::BrowserFavorites => IcedKey::Named(IcedNamed::BrowserFavorites),
            NamedKey::BrowserForward => IcedKey::Named(IcedNamed::BrowserForward),
            NamedKey::BrowserHome => IcedKey::Named(IcedNamed::BrowserHome),
            NamedKey::BrowserRefresh => IcedKey::Named(IcedNamed::BrowserRefresh),
            NamedKey::BrowserSearch => IcedKey::Named(IcedNamed::BrowserSearch),
            NamedKey::BrowserStop => IcedKey::Named(IcedNamed::BrowserStop),
            NamedKey::AppSwitch => IcedKey::Named(IcedNamed::AppSwitch),
            NamedKey::Call => IcedKey::Named(IcedNamed::Call),
            NamedKey::Camera => IcedKey::Named(IcedNamed::Camera),
            NamedKey::CameraFocus => IcedKey::Named(IcedNamed::CameraFocus),
            NamedKey::EndCall => IcedKey::Named(IcedNamed::EndCall),
            NamedKey::GoBack => IcedKey::Named(IcedNamed::GoBack),
            NamedKey::GoHome => IcedKey::Named(IcedNamed::GoHome),
            NamedKey::HeadsetHook => IcedKey::Named(IcedNamed::HeadsetHook),
            NamedKey::LastNumberRedial => IcedKey::Named(IcedNamed::LastNumberRedial),
            NamedKey::Notification => IcedKey::Named(IcedNamed::Notification),
            NamedKey::MannerMode => IcedKey::Named(IcedNamed::MannerMode),
            NamedKey::VoiceDial => IcedKey::Named(IcedNamed::VoiceDial),
            NamedKey::TV => IcedKey::Named(IcedNamed::TV),
            NamedKey::TV3DMode => IcedKey::Named(IcedNamed::TV3DMode),
            NamedKey::TVAntennaCable => IcedKey::Named(IcedNamed::TVAntennaCable),
            NamedKey::TVAudioDescription => IcedKey::Named(IcedNamed::TVAudioDescription),
            NamedKey::TVAudioDescriptionMixDown => IcedKey::Named(IcedNamed::TVAudioDescriptionMixDown),
            NamedKey::TVAudioDescriptionMixUp => IcedKey::Named(IcedNamed::TVAudioDescriptionMixUp),
            NamedKey::TVContentsMenu => IcedKey::Named(IcedNamed::TVContentsMenu),
            NamedKey::TVDataService => IcedKey::Named(IcedNamed::TVDataService),
            NamedKey::TVInput => IcedKey::Named(IcedNamed::TVInput),
            NamedKey::TVInputComponent1 => IcedKey::Named(IcedNamed::TVInputComponent1),
            NamedKey::TVInputComponent2 => IcedKey::Named(IcedNamed::TVInputComponent2),
            NamedKey::TVInputComposite1 => IcedKey::Named(IcedNamed::TVInputComposite1),
            NamedKey::TVInputComposite2 => IcedKey::Named(IcedNamed::TVInputComposite2),
            NamedKey::TVInputHDMI1 => IcedKey::Named(IcedNamed::TVInputHDMI1),
            NamedKey::TVInputHDMI2 => IcedKey::Named(IcedNamed::TVInputHDMI2),
            NamedKey::TVInputHDMI3 => IcedKey::Named(IcedNamed::TVInputHDMI3),
            NamedKey::TVInputHDMI4 => IcedKey::Named(IcedNamed::TVInputHDMI4),
            NamedKey::TVInputVGA1 => IcedKey::Named(IcedNamed::TVInputVGA1),
            NamedKey::TVMediaContext => IcedKey::Named(IcedNamed::TVMediaContext),
            NamedKey::TVNetwork => IcedKey::Named(IcedNamed::TVNetwork),
            NamedKey::TVNumberEntry => IcedKey::Named(IcedNamed::TVNumberEntry),
            NamedKey::TVPower => IcedKey::Named(IcedNamed::TVPower),
            NamedKey::TVRadioService => IcedKey::Named(IcedNamed::TVRadioService),
            NamedKey::TVSatellite => IcedKey::Named(IcedNamed::TVSatellite),
            NamedKey::TVSatelliteBS => IcedKey::Named(IcedNamed::TVSatelliteBS),
            NamedKey::TVSatelliteCS => IcedKey::Named(IcedNamed::TVSatelliteCS),
            NamedKey::TVSatelliteToggle => IcedKey::Named(IcedNamed::TVSatelliteToggle),
            NamedKey::TVTerrestrialAnalog => IcedKey::Named(IcedNamed::TVTerrestrialAnalog),
            NamedKey::TVTerrestrialDigital => IcedKey::Named(IcedNamed::TVTerrestrialDigital),
            NamedKey::TVTimer => IcedKey::Named(IcedNamed::TVTimer),
            NamedKey::AVRInput => IcedKey::Named(IcedNamed::AVRInput),
            NamedKey::AVRPower => IcedKey::Named(IcedNamed::AVRPower),
            NamedKey::ColorF0Red => IcedKey::Named(IcedNamed::ColorF0Red),
            NamedKey::ColorF1Green => IcedKey::Named(IcedNamed::ColorF1Green),
            NamedKey::ColorF2Yellow => IcedKey::Named(IcedNamed::ColorF2Yellow),
            NamedKey::ColorF3Blue => IcedKey::Named(IcedNamed::ColorF3Blue),
            NamedKey::ColorF4Grey => IcedKey::Named(IcedNamed::ColorF4Grey),
            NamedKey::ColorF5Brown => IcedKey::Named(IcedNamed::ColorF5Brown),
            NamedKey::ClosedCaptionToggle => IcedKey::Named(IcedNamed::ClosedCaptionToggle),
            NamedKey::Dimmer => IcedKey::Named(IcedNamed::Dimmer),
            NamedKey::DisplaySwap => IcedKey::Named(IcedNamed::DisplaySwap),
            NamedKey::DVR => IcedKey::Named(IcedNamed::DVR),
            NamedKey::Exit => IcedKey::Named(IcedNamed::Exit),
            NamedKey::FavoriteClear0 => IcedKey::Named(IcedNamed::FavoriteClear0),
            NamedKey::FavoriteClear1 => IcedKey::Named(IcedNamed::FavoriteClear1),
            NamedKey::FavoriteClear2 => IcedKey::Named(IcedNamed::FavoriteClear2),
            NamedKey::FavoriteClear3 => IcedKey::Named(IcedNamed::FavoriteClear3),
            NamedKey::FavoriteRecall0 => IcedKey::Named(IcedNamed::FavoriteRecall0),
            NamedKey::FavoriteRecall1 => IcedKey::Named(IcedNamed::FavoriteRecall1),
            NamedKey::FavoriteRecall2 => IcedKey::Named(IcedNamed::FavoriteRecall2),
            NamedKey::FavoriteRecall3 => IcedKey::Named(IcedNamed::FavoriteRecall3),
            NamedKey::FavoriteStore0 => IcedKey::Named(IcedNamed::FavoriteStore0),
            NamedKey::FavoriteStore1 => IcedKey::Named(IcedNamed::FavoriteStore1),
            NamedKey::FavoriteStore2 => IcedKey::Named(IcedNamed::FavoriteStore2),
            NamedKey::FavoriteStore3 => IcedKey::Named(IcedNamed::FavoriteStore3),
            NamedKey::Guide => IcedKey::Named(IcedNamed::Guide),
            NamedKey::GuideNextDay => IcedKey::Named(IcedNamed::GuideNextDay),
            NamedKey::GuidePreviousDay => IcedKey::Named(IcedNamed::GuidePreviousDay),
            NamedKey::Info => IcedKey::Named(IcedNamed::Info),
            NamedKey::InstantReplay => IcedKey::Named(IcedNamed::InstantReplay),
            NamedKey::Link => IcedKey::Named(IcedNamed::Link),
            NamedKey::ListProgram => IcedKey::Named(IcedNamed::ListProgram),
            NamedKey::LiveContent => IcedKey::Named(IcedNamed::LiveContent),
            NamedKey::Lock => IcedKey::Named(IcedNamed::Lock),
            NamedKey::MediaApps => IcedKey::Named(IcedNamed::MediaApps),
            NamedKey::MediaAudioTrack => IcedKey::Named(IcedNamed::MediaAudioTrack),
            NamedKey::MediaLast => IcedKey::Named(IcedNamed::MediaLast),
            NamedKey::MediaSkipBackward => IcedKey::Named(IcedNamed::MediaSkipBackward),
            NamedKey::MediaSkipForward => IcedKey::Named(IcedNamed::MediaSkipForward),
            NamedKey::MediaStepBackward => IcedKey::Named(IcedNamed::MediaStepBackward),
            NamedKey::MediaStepForward => IcedKey::Named(IcedNamed::MediaStepForward),
            NamedKey::MediaTopMenu => IcedKey::Named(IcedNamed::MediaTopMenu),
            NamedKey::NavigateIn => IcedKey::Named(IcedNamed::NavigateIn),
            NamedKey::NavigateNext => IcedKey::Named(IcedNamed::NavigateNext),
            NamedKey::NavigateOut => IcedKey::Named(IcedNamed::NavigateOut),
            NamedKey::NavigatePrevious => IcedKey::Named(IcedNamed::NavigatePrevious),
            NamedKey::NextFavoriteChannel => IcedKey::Named(IcedNamed::NextFavoriteChannel),
            NamedKey::NextUserProfile => IcedKey::Named(IcedNamed::NextUserProfile),
            NamedKey::OnDemand => IcedKey::Named(IcedNamed::OnDemand),
            NamedKey::Pairing => IcedKey::Named(IcedNamed::Pairing),
            NamedKey::PinPMove => IcedKey::Named(IcedNamed::PinPMove),
            NamedKey::PinPToggle => IcedKey::Named(IcedNamed::PinPToggle),
            NamedKey::PinPUp => IcedKey::Named(IcedNamed::PinPUp),
            NamedKey::PlaySpeedDown => IcedKey::Named(IcedNamed::PlaySpeedDown),
            NamedKey::PlaySpeedReset => IcedKey::Named(IcedNamed::PlaySpeedReset),
            NamedKey::PlaySpeedUp => IcedKey::Named(IcedNamed::PlaySpeedUp),
            NamedKey::RandomToggle => IcedKey::Named(IcedNamed::RandomToggle),
            NamedKey::RcLowBattery => IcedKey::Named(IcedNamed::RcLowBattery),
            NamedKey::RecordSpeedNext => IcedKey::Named(IcedNamed::RecordSpeedNext),
            NamedKey::RfBypass => IcedKey::Named(IcedNamed::RfBypass),
            NamedKey::ScanChannelsToggle => IcedKey::Named(IcedNamed::ScanChannelsToggle),
            NamedKey::ScreenModeNext => IcedKey::Named(IcedNamed::ScreenModeNext),
            NamedKey::Settings => IcedKey::Named(IcedNamed::Settings),
            NamedKey::SplitScreenToggle => IcedKey::Named(IcedNamed::SplitScreenToggle),
            NamedKey::STBInput => IcedKey::Named(IcedNamed::STBInput),
            NamedKey::STBPower => IcedKey::Named(IcedNamed::STBPower),
            NamedKey::Subtitle => IcedKey::Named(IcedNamed::Subtitle),
            NamedKey::Teletext => IcedKey::Named(IcedNamed::Teletext),
            NamedKey::VideoModeNext => IcedKey::Named(IcedNamed::VideoModeNext),
            NamedKey::Wink => IcedKey::Named(IcedNamed::Wink),
            NamedKey::ZoomToggle => IcedKey::Named(IcedNamed::ZoomToggle),
            NamedKey::F13 => IcedKey::Named(IcedNamed::F13),
            NamedKey::F14 => IcedKey::Named(IcedNamed::F14),
            NamedKey::F15 => IcedKey::Named(IcedNamed::F15),
            NamedKey::F16 => IcedKey::Named(IcedNamed::F16),
            NamedKey::F17 => IcedKey::Named(IcedNamed::F17),
            NamedKey::F18 => IcedKey::Named(IcedNamed::F18),
            NamedKey::F19 => IcedKey::Named(IcedNamed::F19),
            NamedKey::F20 => IcedKey::Named(IcedNamed::F20),
            NamedKey::F21 => IcedKey::Named(IcedNamed::F21),
            NamedKey::F22 => IcedKey::Named(IcedNamed::F22),
            NamedKey::F23 => IcedKey::Named(IcedNamed::F23),
            NamedKey::F24 => IcedKey::Named(IcedNamed::F24),
            _ => IcedKey::Unidentified,
        },
    }
}

pub fn baseview_to_iced_keycode(code: Code) -> (iced: Option<IcedCode>)
    ensures
        iced == iced_code_of(code),
{
    match code {
        Code::Digit1 => Some(IcedCode::Numpad1),
        Code::Digit2 => Some(IcedCode::Numpad2),
        Code::Digit3 => Some(IcedCode::Numpad3),
        Code::Digit4 => Some(IcedCode::Numpad4),
        Code::Digit5 => Some(IcedCode::Numpad5),
        Code::Digit6 => Some(IcedCode::Numpad6),
        Code::Digit7 => Some(IcedCode::Numpad7),
        Code::Digit8 => Some(IcedCode::Numpad8),
        Code::Digit9 => Some(IcedCode::Numpad9),
        Code::Digit0 => Some(IcedCode::Numpad0),
        Code::KeyA => Some(IcedCode::KeyA),
        Code::KeyB => Some(IcedCode::KeyB),
        Code::KeyC => Some(IcedCode::KeyC),
        Code::KeyD => Some(IcedCode::KeyD),
        Code::KeyE => Some(IcedCode::KeyE),
        Code::KeyF => Some(IcedCode::KeyF),
        Code::KeyG => Some(IcedCode::KeyG),
        Code::KeyH => Some(IcedCode::KeyH),
        Code::KeyI => Some(IcedCode::KeyI),
        Code::KeyJ => Some(IcedCode::KeyJ),
        Code::KeyK => Some(IcedCode::KeyK),
        Code::KeyL => Some(IcedCode::KeyL),
        Code::KeyM => Some(IcedCode::KeyM),
        Code::KeyN => Some(IcedCode::KeyN),
        Code::KeyO => Some(IcedCode::KeyO),
        Code::KeyP => Some(IcedCode::KeyP),
        Code::KeyQ => Some(IcedCode::KeyQ),
        Code::KeyR => Some(IcedCode::KeyR),
        Code::KeyS => Some(IcedCode::KeyS),
        Code::KeyT => Some(IcedCode::KeyT),
        Code::KeyU => Some(IcedCode::KeyU),
        Code::KeyV => Some(IcedCode::KeyV),
        Code::KeyW => Some(IcedCode::KeyW),
        Code::KeyX => Some(IcedCode::KeyX),
        Code::KeyY => Some(IcedCode::KeyY),
        Code::KeyZ => Some(IcedCode::KeyZ),
        Code::Escape => Some(IcedCode::Escape),
        Code::F1 => Some(IcedCode::F1),
        Code::F2 => Some(IcedCode::F2),
        Code::F3 => Some(IcedCode::F3),
        Code::F4 => Some(IcedCode::F4),
        Code::F5 => Some(IcedCode::F5),
        Code::F6 => Some(IcedCode::F6),
        Code::F7 => Some(IcedCode::F7),
        Code::F8 => Some(IcedCode::F8),
        Code::F9 => Some(IcedCode::F9),
        Code::F10 => Some(IcedCode::F10),
        Code::F11 => Some(IcedCode::F11),
        Code::F12 => Some(IcedCode::F12),
        Code::PrintScreen => Some(IcedCode::PrintScreen),
        Code::ScrollLock => Some(IcedCode::ScrollLock),
        Code::Pause => Some(IcedCode::Pause),
        Code::Insert => Some(IcedCode::Insert),
        Code::Home => Some(IcedCode::Home),
        Code::Delete => Some(IcedCode::Delete),
        Code::End => Some(IcedCode::End),
        Code::PageDown => Some(IcedCode::PageDown),
        Code::PageUp => Some(IcedCode::PageUp),
        Code::ArrowLeft => Some(IcedCode::ArrowLeft),
        Code::ArrowUp => Some(IcedCode::ArrowUp),
        Code::ArrowRight => Some(IcedCode::ArrowRight),
        Code::ArrowDown => Some(IcedCode::ArrowDown),
        Code::Backspace => Some(IcedCode::Backspace),
        Code::Enter => Some(IcedCode::Enter),
        Code::Space => Some(IcedCode::Space),
        Code::NumLock => Some(IcedCode::NumLock),
        Code::Numpad0 => Some(IcedCode::Numpad0),
        Code::Numpad1 => Some(IcedCode::Numpad1),
        Code::Numpad2 => Some(IcedCode::Numpad2),
        Code::Numpad3 => Some(IcedCode::Numpad3),
        Code::Numpad4 => Some(IcedCode::Numpad4),
        Code::Numpad5 => Some(IcedCode::Numpad5),
        Code::Numpad6 => Some(IcedCode::Numpad6),
        Code::Numpad7 => Some(IcedCode::Numpad7),
        Code::Numpad8 => Some(IcedCode::Numpad8),
        Code::Numpad9 => Some(IcedCode::Numpad9),
        Code::NumpadAdd => Some(IcedCode::NumpadAdd),
        Code::NumpadDivide => Some(IcedCode::NumpadDivide),
        Code::NumpadDecimal => Some(IcedCode::NumpadDecimal),
        Code::NumpadComma => Some(IcedCode::NumpadComma),
        Code::NumpadEnter => Some(IcedCode::NumpadEnter),
        Code::NumpadEqual => Some(IcedCode::NumpadEqual),
        Code::NumpadMultiply => Some(IcedCode::NumpadMultiply),
        Code::NumpadSubtract => Some(IcedCode::NumpadSubtract),
        Code::Convert => Some(IcedCode::Convert),
        Code::KanaMode => Some(IcedCode::KanaMode),
        Code::NonConvert => Some(IcedCode::NonConvert),
        Code::IntlYen => Some(IcedCode::IntlYen),
        Code::AltLeft => Some(IcedCode::AltLeft),
        Code::AltRight => Some(IcedCode::AltRight),
        Code::BracketLeft => Some(IcedCode::BracketLeft),
        Code::BracketRight => Some(IcedCode::BracketRight),
        Code::ControlLeft => Some(IcedCode::ControlLeft),
        Code::ControlRight => Some(IcedCode::ControlRight),
        Code::ShiftLeft => Some(IcedCode::ShiftLeft),
        Code::ShiftRight => Some(IcedCode::ShiftRight),
        Code::MetaLeft => Some(IcedCode::Meta),
        Code::MetaRight => Some(IcedCode::Meta),
        Code::Minus => Some(IcedCode::Minus),
        Code::Period => Some(IcedCode::Period),
        Code::Equal => Some(IcedCode::Equal),
        Code::Quote => Some(IcedCode::Quote),
        Code::Comma => Some(IcedCode::Comma),
        Code::Semicolon => Some(IcedCode::Semicolon),
        Code::Backslash => Some(IcedCode::Backslash),
        Code::Slash => Some(IcedCode::Slash),
        Code::Tab => Some(IcedCode::Tab),
        Code::Copy => Some(IcedCode::Copy),
        Code::Paste => Some(IcedCode::Paste),
        Code::Cut => Some(IcedCode::Cut),
        Code::MediaSelect => Some(IcedCode::MediaSelect),
        Code::MediaStop => Some(IcedCode::MediaStop),
        Code::MediaPlayPause => Some(IcedCode::MediaPlayPause),
        Code::AudioVolumeMute => Some(IcedCode::AudioVolumeMute),
        Code::AudioVolumeDown => Some(IcedCode::AudioVolumeDown),
        Code::AudioVolumeUp => Some(IcedCode::AudioVolumeUp),
        Code::MediaTrackNext => Some(IcedCode::MediaTrackNext),
        Code::MediaTrackPrevious => Some(IcedCode::MediaTrackPrevious),
        _ => None,
    }
}


/// The keyboard's named key that the toolkit's named key stands for: the
/// key of the same name, for each key the conversion reports by name.
/// (`Meta` stands for the meta key; the toolkit's `Hyper`, `Super` and
/// `Space`, and its `PinPDown` and `F25` to `F35`, stand for none.)
pub open spec fn named_key_for(named: IcedNamed) -> Option<NamedKey> {
    match named {
        IcedNamed::Alt => Some(NamedKey::Alt),
        IcedNamed::AltGraph => Some(NamedKey::AltGraph),
        IcedNamed::CapsLock => Some(NamedKey::CapsLock),
        IcedNamed::Control => Some(NamedKey::Control),
        IcedNamed::Fn => Some(NamedKey::Fn),
        IcedNamed::FnLock => Some(NamedKey::FnLock),
        IcedNamed::NumLock => Some(NamedKey::NumLock),
        IcedNamed::ScrollLock => Some(NamedKey::ScrollLock),
        IcedNamed::Shift => Some(NamedKey::Shift),
        IcedNamed::Symbol => Some(NamedKey::Symbol),
        IcedNamed::SymbolLock => Some(NamedKey::SymbolLock),
        IcedNamed::Meta => Some(NamedKey::Meta),
        IcedNamed::Enter => Some(NamedKey::Enter),
        IcedNamed::Tab => Some(NamedKey::Tab),
        IcedNamed::ArrowDown => Some(NamedKey::ArrowDown),
        IcedNamed::ArrowLeft => Some(NamedKey::ArrowLeft),
        IcedNamed::ArrowRight => Some(NamedKey::ArrowRight),
        IcedNamed::ArrowUp => Some(NamedKey::ArrowUp),
        IcedNamed::End => Some(NamedKey::End),
        IcedNamed::Home => Some(NamedKey::Home),
        IcedNamed::PageDown => Some(NamedKey::PageDown),
        IcedNamed::PageUp => Some(NamedKey::PageUp),
        IcedNamed::Backspace => Some(NamedKey::Backspace),
        IcedNamed::Clear => Some(NamedKey::Clear),
        IcedNamed::Copy => Some(NamedKey::Copy),
        IcedNamed::CrSel => Some(NamedKey::CrSel),
        IcedNamed::Cut => Some(NamedKey::Cut),
        IcedNamed::Delete => Some(NamedKey::Delete),
        IcedNamed::EraseEof => Some(NamedKey::EraseEof),
        IcedNamed::ExSel => Some(NamedKey::ExSel),
        IcedNamed::Insert => Some(NamedKey::Insert),
        IcedNamed::Paste => Some(NamedKey::Paste),
        IcedNamed::Redo => Some(NamedKey::Redo),
        IcedNamed::Undo => Some(NamedKey::Undo),
        IcedNamed::Accept => Some(NamedKey::Accept),
        IcedNamed::Again => Some(NamedKey::Again),
        IcedNamed::Attn => Some(NamedKey::Attn),
        IcedNamed::Cancel => Some(NamedKey::Cancel),
        IcedNamed::ContextMenu => Some(NamedKey::ContextMenu),
        IcedNamed::Escape => Some(NamedKey::Escape),
        IcedNamed::Execute => Some(NamedKey::Execute),
        IcedNamed::Find => Some(NamedKey::Find),
        IcedNamed::Help => Some(NamedKey::Help),
        IcedNamed::Pause => Some(NamedKey::Pause),
        IcedNamed::Play => Some(NamedKey::Play),
        IcedNamed::Props => Some(NamedKey::Props),
        IcedNamed::Select => Some(NamedKey::Select),
        IcedNamed::ZoomIn => Some(NamedKey::ZoomIn),
        IcedNamed::ZoomOut => Some(NamedKey::ZoomOut),
        IcedNamed::BrightnessDown => Some(NamedKey::BrightnessDown),
        IcedNamed::BrightnessUp => Some(NamedKey::BrightnessUp),
        IcedNamed::Eject => Some(NamedKey::Eject),
        IcedNamed::LogOff => Some(NamedKey::LogOff),
        IcedNamed::Power => Some(NamedKey::Power),
        IcedNamed::PowerOff => Some(NamedKey::PowerOff),
        IcedNamed::PrintScreen => Some(NamedKey::PrintScreen),
        IcedNamed::Hibernate => Some(NamedKey::Hibernate),
        IcedNamed::Standby => Some(NamedKey::Standby),
        IcedNamed::WakeUp => Some(NamedKey::WakeUp),
        IcedNamed::AllCandidates => Some(NamedKey::AllCandidates),
        IcedNamed::Alphanumeric => Some(NamedKey::Alphanumeric),
        IcedNamed::CodeInput => Some(NamedKey::CodeInput),
        IcedNamed::Compose => Some(NamedKey::Compose),
        IcedNamed::Convert => Some(NamedKey::Convert),
        IcedNamed::FinalMode => Some(NamedKey::FinalMode),
        IcedNamed::GroupFirst => Some(NamedKey::GroupFirst),
        IcedNamed::GroupLast => Some(NamedKey::GroupLast),
        IcedNamed::GroupNext => Some(NamedKey::GroupNext),
        IcedNamed::GroupPrevious => Some(NamedKey::GroupPrevious),
        IcedNamed::ModeChange => Some(NamedKey::ModeChange),
        IcedNamed::NextCandidate => Some(NamedKey::NextCandidate),
        IcedNamed::NonConvert => Some(NamedKey::NonConvert),
        IcedNamed::PreviousCandidate => Some(NamedKey::PreviousCandidate),
        IcedNamed::Process => Some(NamedKey::Process),
        IcedNamed::SingleCandidate => Some(NamedKey::SingleCandidate),
        IcedNamed::HangulMode => Some(NamedKey::HangulMode),
        IcedNamed::HanjaMode => Some(NamedKey::HanjaMode),
        IcedNamed::JunjaMode => Some(NamedKey::JunjaMode),
        IcedNamed::Eisu => Some(NamedKey::Eisu),
        IcedNamed::Hankaku => Some(NamedKey::Hankaku),
        IcedNamed::Hiragana => Some(NamedKey::Hiragana),
        IcedNamed::HiraganaKatakana => Some(NamedKey::HiraganaKatakana),
        IcedNamed::KanaMode => Some(NamedKey::KanaMode),
        IcedNamed::KanjiMode => Some(NamedKey::KanjiMode),
        IcedNamed::Katakana => Some(NamedKey::Katakana),
        IcedNamed::Romaji => Some(NamedKey::Romaji),
        IcedNamed::Zenkaku => Some(NamedKey::Zenkaku),
        IcedNamed::ZenkakuHankaku => Some(NamedKey::ZenkakuHankaku),
        IcedNamed::Soft1 => Some(NamedKey::Soft1),
        IcedNamed::Soft2 => Some(NamedKey::Soft2),
        IcedNamed::Soft3 => Some(NamedKey::Soft3),
        IcedNamed::Soft4 => Some(NamedKey::Soft4),
        IcedNamed::ChannelDown => Some(NamedKey::ChannelDown),
        IcedNamed::ChannelUp => Some(NamedKey::ChannelUp),
        IcedNamed::Close => Some(NamedKey::Close),
        IcedNamed::MailForward => Some(NamedKey::MailForward),
        IcedNamed::MailReply => Some(NamedKey::MailReply),
        IcedNamed::MailSend => Some(NamedKey::MailSend),
        IcedNamed::MediaClose => Some(NamedKey::MediaClose),
        IcedNamed::MediaFastForward => Some(NamedKey::MediaFastForward),
        IcedNamed::MediaPause => Some(NamedKey::MediaPause),
        IcedNamed::MediaPlay => Some(NamedKey::MediaPlay),
        IcedNamed::MediaPlayPause => Some(NamedKey::MediaPlayPause),
        IcedNamed::MediaRecord => Some(NamedKey::MediaRecord),
        IcedNamed::MediaRewind => Some(NamedKey::MediaRewind),
        IcedNamed::MediaStop => Some(NamedKey::MediaStop),
        IcedNamed::MediaTrackNext => Some(NamedKey::MediaTrackNext),
        IcedNamed::MediaTrackPrevious => Some(NamedKey::MediaTrackPrevious),
        IcedNamed::New => Some(NamedKey::New),
        IcedNamed::Open => Some(NamedKey::Open),
        IcedNamed::Print => Some(NamedKey::Print),
        IcedNamed::Save => Some(NamedKey::Save),
        IcedNamed::SpellCheck => Some(NamedKey::SpellCheck),
        IcedNamed::Key11 => Some(NamedKey::Key11),
        IcedNamed::Key12 => Some(NamedKey::Key12),
        IcedNamed::AudioBalanceLeft => Some(NamedKey::AudioBalanceLeft),
        IcedNamed::AudioBalanceRight => Some(NamedKey::AudioBalanceRight),
        IcedNamed::AudioBassBoostDown => Some(NamedKey::AudioBassBoostDown),
        IcedNamed::AudioBassBoostToggle => Some(NamedKey::AudioBassBoostToggle),
        IcedNamed::AudioBassBoostUp => Some(NamedKey::AudioBassBoostUp),
        IcedNamed::AudioFaderFront => Some(NamedKey::AudioFaderFront),
        IcedNamed::AudioFaderRear => Some(NamedKey::AudioFaderRear),
        IcedNamed::AudioSurroundModeNext => Some(NamedKey::AudioSurroundModeNext),
        IcedNamed::AudioTrebleDown => Some(NamedKey::AudioTrebleDown),
        IcedNamed::AudioTrebleUp => Some(NamedKey::AudioTrebleUp),
        IcedNamed::AudioVolumeDown => Some(NamedKey::AudioVolumeDown),
        IcedNamed::AudioVolumeUp => Some(NamedKey::AudioVolumeUp),
        IcedNamed::AudioVolumeMute => Some(NamedKey::AudioVolumeMute),
        IcedNamed::MicrophoneToggle => Some(NamedKey::MicrophoneToggle),
        IcedNamed::MicrophoneVolumeDown => Some(NamedKey::MicrophoneVolumeDown),
        IcedNamed::MicrophoneVolumeUp => Some(NamedKey::MicrophoneVolumeUp),
        IcedNamed::MicrophoneVolumeMute => Some(NamedKey::MicrophoneVolumeMute),
        IcedNamed::SpeechCorrectionList => Some(NamedKey::SpeechCorrectionList),
        IcedNamed::SpeechInputToggle => Some(NamedKey::SpeechInputToggle),
        IcedNamed::LaunchApplication1 => Some(NamedKey::LaunchApplication1),
        IcedNamed::LaunchApplication2 => Some(NamedKey::LaunchApplication2),
        IcedNamed::LaunchCalendar => Some(NamedKey::LaunchCalendar),
        IcedNamed::LaunchContacts => Some(NamedKey::LaunchContacts),
        IcedNamed::LaunchMail => Some(NamedKey::LaunchMail),
        IcedNamed::LaunchMediaPlayer => Some(NamedKey::LaunchMediaPlayer),
        IcedNamed::LaunchMusicPlayer => Some(NamedKey::LaunchMusicPlayer),
        IcedNamed::LaunchPhone => Some(NamedKey::LaunchPhone),
        IcedNamed::LaunchScreenSaver => Some(NamedKey::LaunchScreenSaver),
        IcedNamed::LaunchSpreadsheet => Some(NamedKey::LaunchSpreadsheet),
        IcedNamed::LaunchWebBrowser => Some(NamedKey::LaunchWebBrowser),
        IcedNamed::LaunchWebCam => Some(NamedKey::LaunchWebCam),
        IcedNamed::LaunchWordProcessor => Some(NamedKey::LaunchWordProcessor),
        IcedNamed::BrowserBack => Some(NamedKey::BrowserBack),
        IcedNamed::BrowserFavorites => Some(NamedKey::BrowserFavorites),
        IcedNamed::BrowserForward => Some(NamedKey::BrowserForward),
        IcedNamed::BrowserHome => Some(NamedKey::BrowserHome),
        IcedNamed::BrowserRefresh => Some(NamedKey::BrowserRefresh),
        IcedNamed::BrowserSearch => Some(NamedKey::BrowserSearch),
        IcedNamed::BrowserStop => Some(NamedKey::BrowserStop),
        IcedNamed::AppSwitch => Some(NamedKey::AppSwitch),
        IcedNamed::Call => Some(NamedKey::Call),
        IcedNamed::Camera => Some(NamedKey::Camera),
        IcedNamed::CameraFocus => Some(NamedKey::CameraFocus),
        IcedNamed::EndCall => Some(NamedKey::EndCall),
        IcedNamed::GoBack => Some(NamedKey::GoBack),
        IcedNamed::GoHome => Some(NamedKey::GoHome),
        IcedNamed::HeadsetHook => Some(NamedKey::HeadsetHook),
        IcedNamed::LastNumberRedial => Some(NamedKey::LastNumberRedial),
        IcedNamed::Notification => Some(NamedKey::Notification),
        IcedNamed::MannerMode => Some(NamedKey::MannerMode),
        IcedNamed::VoiceDial => Some(NamedKey::VoiceDial),
        IcedNamed::TV => Some(NamedKey::TV),
        IcedNamed::TV3DMode => Some(NamedKey::TV3DMode),
        IcedNamed::TVAntennaCable => Some(NamedKey::TVAntennaCable),
        IcedNamed::TVAudioDescription => Some(NamedKey::TVAudioDescription),
        IcedNamed::TVAudioDescriptionMixDown => Some(NamedKey::TVAudioDescriptionMixDown),
        IcedNamed::TVAudioDescriptionMixUp => Some(NamedKey::TVAudioDescriptionMixUp),
        IcedNamed::TVContentsMenu => Some(NamedKey::TVContentsMenu),
        IcedNamed::TVDataService => Some(NamedKey::TVDataService),
        IcedNamed::TVInput => Some(NamedKey::TVInput),
        IcedNamed::TVInputComponent1 => Some(NamedKey::TVInputComponent1),
        IcedNamed::TVInputComponent2 => Some(NamedKey::TVInputComponent2),
        IcedNamed::TVInputComposite1 => Some(NamedKey::TVInputComposite1),
        IcedNamed::TVInputComposite2 => Some(NamedKey::TVInputComposite2),
        IcedNamed::TVInputHDMI1 => Some(NamedKey::TVInputHDMI1),
        IcedNamed::TVInputHDMI2 => Some(NamedKey::TVInputHDMI2),
        IcedNamed::TVInputHDMI3 => Some(NamedKey::TVInputHDMI3),
        IcedNamed::TVInputHDMI4 => Some(NamedKey::TVInputHDMI4),
        IcedNamed::TVInputVGA1 => Some(NamedKey::TVInputVGA1),
        IcedNamed::TVMediaContext => Some(NamedKey::TVMediaContext),
        IcedNamed::TVNetwork => Some(NamedKey::TVNetwork),
        IcedNamed::TVNumberEntry => Some(NamedKey::TVNumberEntry),
        IcedNamed::TVPower => Some(NamedKey::TVPower),
        IcedNamed::TVRadioService => Some(NamedKey::TVRadioService),
        IcedNamed::TVSatellite => Some(NamedKey::TVSatellite),
        IcedNamed::TVSatelliteBS => Some(NamedKey::TVSatelliteBS),
        IcedNamed::TVSatelliteCS => Some(NamedKey::TVSatelliteCS),
        IcedNamed::TVSatelliteToggle => Some(NamedKey::TVSatelliteToggle),
        IcedNamed::TVTerrestrialAnalog => Some(NamedKey::TVTerrestrialAnalog),
        IcedNamed::TVTerrestrialDigital => Some(NamedKey::TVTerrestrialDigital),
        IcedNamed::TVTimer => Some(NamedKey::TVTimer),
        IcedNamed::AVRInput => Some(NamedKey::AVRInput),
        IcedNamed::AVRPower => Some(NamedKey::AVRPower),
        IcedNamed::ColorF0Red => Some(NamedKey::ColorF0Red),
        IcedNamed::ColorF1Green => Some(NamedKey::ColorF1Green),
        IcedNamed::ColorF2Yellow => Some(NamedKey::ColorF2Yellow),
        IcedNamed::ColorF3Blue => Some(NamedKey::ColorF3Blue),
        IcedNamed::ColorF4Grey => Some(NamedKey::ColorF4Grey),
        IcedNamed::ColorF5Brown => Some(NamedKey::ColorF5Brown),
        IcedNamed::ClosedCaptionToggle => Some(NamedKey::ClosedCaptionToggle),
        IcedNamed::Dimmer => Some(NamedKey::Dimmer),
        IcedNamed::DisplaySwap => Some(NamedKey::DisplaySwap),
        IcedNamed::DVR => Some(NamedKey::DVR),
        IcedNamed::Exit => Some(NamedKey::Exit),
        IcedNamed::FavoriteClear0 => Some(NamedKey::FavoriteClear0),
        IcedNamed::FavoriteClear1 => Some(NamedKey::FavoriteClear1),
        IcedNamed::FavoriteClear2 => Some(NamedKey::FavoriteClear2),
        IcedNamed::FavoriteClear3 => Some(NamedKey::FavoriteClear3),
        IcedNamed::FavoriteRecall0 => Some(NamedKey::FavoriteRecall0),
        IcedNamed::FavoriteRecall1 => Some(NamedKey::FavoriteRecall1),
        IcedNamed::FavoriteRecall2 => Some(NamedKey::FavoriteRecall2),
        IcedNamed::FavoriteRecall3 => Some(NamedKey::FavoriteRecall3),
        IcedNamed::FavoriteStore0 => Some(NamedKey::FavoriteStore0),
        IcedNamed::FavoriteStore1 => Some(NamedKey::FavoriteStore1),
        IcedNamed::FavoriteStore2 => Some(NamedKey::FavoriteStore2),
        IcedNamed::FavoriteStore3 => Some(NamedKey::FavoriteStore3),
        IcedNamed::Guide => Some(NamedKey::Guide),
        IcedNamed::GuideNextDay => Some(NamedKey::GuideNextDay),
        IcedNamed::GuidePreviousDay => Some(NamedKey::GuidePreviousDay),
        IcedNamed::Info => Some(NamedKey::Info),
        IcedNamed::InstantReplay => Some(NamedKey::InstantReplay),
        IcedNamed::Link => Some(NamedKey::Link),
        IcedNamed::ListProgram => Some(NamedKey::ListProgram),
        IcedNamed::LiveContent => Some(NamedKey::LiveContent),
        IcedNamed::Lock => Some(NamedKey::Lock),
        IcedNamed::MediaApps => Some(NamedKey::MediaApps),
        IcedNamed::MediaAudioTrack => Some(NamedKey::MediaAudioTrack),
        IcedNamed::MediaLast => Some(NamedKey::MediaLast),
        IcedNamed::MediaSkipBackward => Some(NamedKey::MediaSkipBackward),
        IcedNamed::MediaSkipForward => Some(NamedKey::MediaSkipForward),
        IcedNamed::MediaStepBackward => Some(NamedKey::MediaStepBackward),
        IcedNamed::MediaStepForward => Some(NamedKey::MediaStepForward),
        IcedNamed::MediaTopMenu => Some(NamedKey::MediaTopMenu),
        IcedNamed::NavigateIn => Some(NamedKey::NavigateIn),
        IcedNamed::NavigateNext => Some(NamedKey::NavigateNext),
        IcedNamed::NavigateOut => Some(NamedKey::NavigateOut),
        IcedNamed::NavigatePrevious => Some(NamedKey::NavigatePrevious),
        IcedNamed::NextFavoriteChannel => Some(NamedKey::NextFavoriteChannel),
        IcedNamed::NextUserProfile => Some(NamedKey::NextUserProfile),
        IcedNamed::OnDemand => Some(NamedKey::OnDemand),
        IcedNamed::Pairing => Some(NamedKey::Pairing),
        IcedNamed::PinPMove => Some(NamedKey::PinPMove),
        IcedNamed::PinPToggle => Some(NamedKey::PinPToggle),
        IcedNamed::PinPUp => Some(NamedKey::PinPUp),
        IcedNamed::PlaySpeedDown => Some(NamedKey::PlaySpeedDown),
        IcedNamed::PlaySpeedReset => Some(NamedKey::PlaySpeedReset),
        IcedNamed::PlaySpeedUp => Some(NamedKey::PlaySpeedUp),
        IcedNamed::RandomToggle => Some(NamedKey::RandomToggle),
        IcedNamed::RcLowBattery => Some(NamedKey::RcLowBattery),
        IcedNamed::RecordSpeedNext => Some(NamedKey::RecordSpeedNext),
        IcedNamed::RfBypass => Some(NamedKey::RfBypass),
        IcedNamed::ScanChannelsToggle => Some(NamedKey::ScanChannelsToggle),
        IcedNamed::ScreenModeNext => Some(NamedKey::ScreenModeNext),
        IcedNamed::Settings => Some(NamedKey::Settings),
        IcedNamed::SplitScreenToggle => Some(NamedKey::SplitScreenToggle),
        IcedNamed::STBInput => Some(NamedKey::STBInput),
        IcedNamed::STBPower => Some(NamedKey::STBPower),
        IcedNamed::Subtitle => Some(NamedKey::Subtitle),
        IcedNamed::Teletext => Some(NamedKey::Teletext),
        IcedNamed::VideoModeNext => Some(NamedKey::VideoModeNext),
        IcedNamed::Wink => Some(NamedKey::Wink),
        IcedNamed::ZoomToggle => Some(NamedKey::ZoomToggle),
        IcedNamed::F1 => Some(NamedKey::F1),
        IcedNamed::F2 => Some(NamedKey::F2),
        IcedNamed::F3 => Some(NamedKey::F3),
        IcedNamed::F4 => Some(NamedKey::F4),
        IcedNamed::F5 => Some(NamedKey::F5),
        IcedNamed::F6 => Some(NamedKey::F6),
        IcedNamed::F7 => Some(NamedKey::F7),
        IcedNamed::F8 => Some(NamedKey::F8),
        IcedNamed::F9 => Some(NamedKey::F9),
        IcedNamed::F10 => Some(NamedKey::F10),
        IcedNamed::F11 => Some(NamedKey::F11),
        IcedNamed::F12 => Some(NamedKey::F12),
        IcedNamed::F13 => Some(NamedKey::F13),
        IcedNamed::F14 => Some(NamedKey::F14),
        IcedNamed::F15 => Some(NamedKey::F15),
        IcedNamed::F16 => Some(NamedKey::F16),
        IcedNamed::F17 => Some(NamedKey::F17),
        IcedNamed::F18 => Some(NamedKey::F18),
        IcedNamed::F19 => Some(NamedKey::F19),
        IcedNamed::F20 => Some(NamedKey::F20),
        IcedNamed::F21 => Some(NamedKey::F21),
        IcedNamed::F22 => Some(NamedKey::F22),
        IcedNamed::F23 => Some(NamedKey::F23),
        IcedNamed::F24 => Some(NamedKey::F24),
        _ => None,
    }
}

/// The name of the key survives the conversion and comes back.
spec fn named_key_inverted(k: NamedKey) -> bool {
    iced_named_of(k) matches Some(n) ==> (if k == NamedKey::Hyper || k == NamedKey::Super {
        n == IcedNamed::Meta
    } else {
        named_key_for(n) == Some(k)
    })
}

/// The key a toolkit key stands for is reported as it.
spec fn named_key_reported(n: IcedNamed) -> bool {
    named_key_for(n) matches Some(k) ==> iced_named_of(k) == Some(n)
}

spec fn named_inverted_group_0(k: NamedKey) -> bool {
    ||| k == NamedKey::Unidentified
    ||| k == NamedKey::Alt
    ||| k == NamedKey::AltGraph
    ||| k == NamedKey::CapsLock
    ||| k == NamedKey::Control
    ||| k == NamedKey::Fn
    ||| k == NamedKey::FnLock
    ||| k == NamedKey::Meta
    ||| k == NamedKey::NumLock
    ||| k == NamedKey::ScrollLock
    ||| k == NamedKey::Shift
    ||| k == NamedKey::Symbol
    ||| k == NamedKey::SymbolLock
    ||| k == NamedKey::Hyper
    ||| k == NamedKey::Super
    ||| k == NamedKey::Enter
    ||| k == NamedKey::Tab
    ||| k == NamedKey::ArrowDown
    ||| k == NamedKey::ArrowLeft
    ||| k == NamedKey::ArrowRight
    ||| k == NamedKey::ArrowUp
    ||| k == NamedKey::End
    ||| k == NamedKey::Home
    ||| k == NamedKey::PageDown
    ||| k == NamedKey::PageUp
    ||| k == NamedKey::Backspace
    ||| k == NamedKey::Clear
    ||| k == NamedKey::Copy
    ||| k == NamedKey::CrSel
    ||| k == NamedKey::Cut
    ||| k == NamedKey::Delete
    ||| k == NamedKey::EraseEof
    ||| k == NamedKey::ExSel
    ||| k == NamedKey::Insert
    ||| k == NamedKey::Paste
    ||| k == NamedKey::Redo
    ||| k == NamedKey::Undo
    ||| k == NamedKey::Accept
    ||| k == NamedKey::Again
    ||| k == NamedKey::Attn
}

#[verifier::rlimit(100)]
proof fn lemma_named_inverted_group_0(k: NamedKey)
    requires
        named_inverted_group_0(k),
    ensures
        named_key_inverted(k),
{
    match k {
        NamedKey::Unidentified => {},
        NamedKey::Alt => {},
        NamedKey::AltGraph => {},
        NamedKey::CapsLock => {},
        NamedKey::Control => {},
        NamedKey::Fn => {},
        NamedKey::FnLock => {},
        NamedKey::Meta => {},
        NamedKey::NumLock => {},
        NamedKey::ScrollLock => {},
        NamedKey::Shift => {},
        NamedKey::Symbol => {},
        NamedKey::SymbolLock => {},
        NamedKey::Hyper => {},
        NamedKey::Super => {},
        NamedKey::Enter => {},
        NamedKey::Tab => {},
        NamedKey::ArrowDown => {},
        NamedKey::ArrowLeft => {},
        NamedKey::ArrowRight => {},
        NamedKey::ArrowUp => {},
        NamedKey::End => {},
        NamedKey::Home => {},
        NamedKey::PageDown => {},
        NamedKey::PageUp => {},
        NamedKey::Backspace => {},
        NamedKey::Clear => {},
        NamedKey::Copy => {},
        NamedKey::CrSel => {},
        NamedKey::Cut => {},
        NamedKey::Delete => {},
        NamedKey::EraseEof => {},
        NamedKey::ExSel => {},
        NamedKey::Insert => {},
        NamedKey::Paste => {},
        NamedKey::Redo => {},
        NamedKey::Undo => {},
        NamedKey::Accept => {},
        NamedKey::Again => {},
        NamedKey::Attn => {},
        _ => {},
    }
}

spec fn named_inverted_group_1(k: NamedKey) -> bool {
    ||| k == NamedKey::Cancel
    ||| k == NamedKey::ContextMenu
    ||| k == NamedKey::Escape
    ||| k == NamedKey::Execute
    ||| k == NamedKey::Find
    ||| k == NamedKey::Help
    ||| k == NamedKey::Pause
    ||| k == NamedKey::Play
    ||| k == NamedKey::Props
    ||| k == NamedKey::Select
    ||| k == NamedKey::ZoomIn
    ||| k == NamedKey::ZoomOut
    ||| k == NamedKey::BrightnessDown
    ||| k == NamedKey::BrightnessUp
    ||| k == NamedKey::Eject
    ||| k == NamedKey::LogOff
    ||| k == NamedKey::Power
    ||| k == NamedKey::PowerOff
    ||| k == NamedKey::PrintScreen
    ||| k == NamedKey::Hibernate
    ||| k == NamedKey::Standby
    ||| k == NamedKey::WakeUp
    ||| k == NamedKey::AllCandidates
    ||| k == NamedKey::Alphanumeric
    ||| k == NamedKey::CodeInput
    ||| k == NamedKey::Compose
    ||| k == NamedKey::Convert
    ||| k == NamedKey::Dead
    ||| k == NamedKey::FinalMode
    ||| k == NamedKey::GroupFirst
    ||| k == NamedKey::GroupLast
    ||| k == NamedKey::GroupNext
    ||| k == NamedKey::GroupPrevious
    ||| k == NamedKey::ModeChange
    ||| k == NamedKey::NextCandidate
    ||| k == NamedKey::NonConvert
    ||| k == NamedKey::PreviousCandidate
    ||| k == NamedKey::Process
    ||| k == NamedKey::SingleCandidate
    ||| k == NamedKey::HangulMode
}

#[verifier::rlimit(100)]
proof fn lemma_named_inverted_group_1(k: NamedKey)
    requires
        named_inverted_group_1(k),
    ensures
        named_key_inverted(k),
{
    match k {
        NamedKey::Cancel => {},
        NamedKey::ContextMenu => {},
        NamedKey::Escape => {},
        NamedKey::Execute => {},
        NamedKey::Find => {},
        NamedKey::Help => {},
        NamedKey::Pause => {},
        NamedKey::Play => {},
        NamedKey::Props => {},
        NamedKey::Select => {},
        NamedKey::ZoomIn => {},
        NamedKey::ZoomOut => {},
        NamedKey::BrightnessDown => {},
        NamedKey::BrightnessUp => {},
        NamedKey::Eject => {},
        NamedKey::LogOff => {},
        NamedKey::Power => {},
        NamedKey::PowerOff => {},
        NamedKey::PrintScreen => {},
        NamedKey::Hibernate => {},
        NamedKey::Standby => {},
        NamedKey::WakeUp => {},
        NamedKey::AllCandidates => {},
        NamedKey::Alphanumeric => {},
        NamedKey::CodeInput => {},
        NamedKey::Compose => {},
        NamedKey::Convert => {},
        NamedKey::Dead => {},
        NamedKey::FinalMode => {},
        NamedKey::GroupFirst => {},
        NamedKey::GroupLast => {},
        NamedKey::GroupNext => {},
        NamedKey::GroupPrevious => {},
        NamedKey::ModeChange => {},
        NamedKey::NextCandidate => {},
        NamedKey::NonConvert => {},
        NamedKey::PreviousCandidate => {},
        NamedKey::Process => {},
        NamedKey::SingleCandidate => {},
        NamedKey::HangulMode => {},
        _ => {},
    }
}

spec fn named_inverted_group_2(k: NamedKey) -> bool {
    ||| k == NamedKey::HanjaMode
    ||| k == NamedKey::JunjaMode
    ||| k == NamedKey::Eisu
    ||| k == NamedKey::Hankaku
    ||| k == NamedKey::Hiragana
    ||| k == NamedKey::HiraganaKatakana
    ||| k == NamedKey::KanaMode
    ||| k == NamedKey::KanjiMode
    ||| k == NamedKey::Katakana
    ||| k == NamedKey::Romaji
    ||| k == NamedKey::Zenkaku
    ||| k == NamedKey::ZenkakuHankaku
    ||| k == NamedKey::Soft1
    ||| k == NamedKey::Soft2
    ||| k == NamedKey::Soft3
    ||| k == NamedKey::Soft4
    ||| k == NamedKey::ChannelDown
    ||| k == NamedKey::ChannelUp
    ||| k == NamedKey::Close
    ||| k == NamedKey::MailForward
    ||| k == NamedKey::MailReply
    ||| k == NamedKey::MailSend
    ||| k == NamedKey::MediaClose
    ||| k == NamedKey::MediaFastForward
    ||| k == NamedKey::MediaPause
    ||| k == NamedKey::MediaPlay
    ||| k == NamedKey::MediaPlayPause
    ||| k == NamedKey::MediaRecord
    ||| k == NamedKey::MediaRewind
    ||| k == NamedKey::MediaStop
    ||| k == NamedKey::MediaTrackNext
    ||| k == NamedKey::MediaTrackPrevious
    ||| k == NamedKey::New
    ||| k == NamedKey::Open
    ||| k == NamedKey::Print
    ||| k == NamedKey::Save
    ||| k == NamedKey::SpellCheck
    ||| k == NamedKey::Key11
    ||| k == NamedKey::Key12
    ||| k == NamedKey::AudioBalanceLeft
}

#[verifier::rlimit(100)]
proof fn lemma_named_inverted_group_2(k: NamedKey)
    requires
        named_inverted_group_2(k),
    ensures
        named_key_inverted(k),
{
    match k {
        NamedKey::HanjaMode => {},
        NamedKey::JunjaMode => {},
        NamedKey::Eisu => {},
        NamedKey::Hankaku => {},
        NamedKey::Hiragana => {},
        NamedKey::HiraganaKatakana => {},
        NamedKey::KanaMode => {},
        NamedKey::KanjiMode => {},
        NamedKey::Katakana => {},
        NamedKey::Romaji => {},
        NamedKey::Zenkaku => {},
        NamedKey::ZenkakuHankaku => {},
        NamedKey::Soft1 => {},
        NamedKey::Soft2 => {},
        NamedKey::Soft3 => {},
        NamedKey::Soft4 => {},
        NamedKey::ChannelDown => {},
        NamedKey::ChannelUp => {},
        NamedKey::Close => {},
        NamedKey::MailForward => {},
        NamedKey::MailReply => {},
        NamedKey::MailSend => {},
        NamedKey::MediaClose => {},
        NamedKey::MediaFastForward => {},
        NamedKey::MediaPause => {},
        NamedKey::MediaPlay => {},
        NamedKey::MediaPlayPause => {},
        NamedKey::MediaRecord => {},
        NamedKey::MediaRewind => {},
        NamedKey::MediaStop => {},
        NamedKey::MediaTrackNext => {},
        NamedKey::MediaTrackPrevious => {},
        NamedKey::New => {},
        NamedKey::Open => {},
        NamedKey::Print => {},
        NamedKey::Save => {},
        NamedKey::SpellCheck => {},
        NamedKey::Key11 => {},
        NamedKey::Key12 => {},
        NamedKey::AudioBalanceLeft => {},
        _ => {},
    }
}

spec fn named_inverted_group_3(k: NamedKey) -> bool {
    ||| k == NamedKey::AudioBalanceRight
    ||| k == NamedKey::AudioBassBoostDown
    ||| k == NamedKey::AudioBassBoostToggle
    ||| k == NamedKey::AudioBassBoostUp
    ||| k == NamedKey::AudioFaderFront
    ||| k == NamedKey::AudioFaderRear
    ||| k == NamedKey::AudioSurroundModeNext
    ||| k == NamedKey::AudioTrebleDown
    ||| k == NamedKey::AudioTrebleUp
    ||| k == NamedKey::AudioVolumeDown
    ||| k == NamedKey::AudioVolumeUp
    ||| k == NamedKey::AudioVolumeMute
    ||| k == NamedKey::MicrophoneToggle
    ||| k == NamedKey::MicrophoneVolumeDown
    ||| k == NamedKey::MicrophoneVolumeUp
    ||| k == NamedKey::MicrophoneVolumeMute
    ||| k == NamedKey::SpeechCorrectionList
    ||| k == NamedKey::SpeechInputToggle
    ||| k == NamedKey::LaunchApplication1
    ||| k == NamedKey::LaunchApplication2
    ||| k == NamedKey::LaunchCalendar
    ||| k == NamedKey::LaunchContacts
    ||| k == NamedKey::LaunchMail
    ||| k == NamedKey::LaunchMediaPlayer
    ||| k == NamedKey::LaunchMusicPlayer
    ||| k == NamedKey::LaunchPhone
    ||| k == NamedKey::LaunchScreenSaver
    ||| k == NamedKey::LaunchSpreadsheet
    ||| k == NamedKey::LaunchWebBrowser
    ||| k == NamedKey::LaunchWebCam
    ||| k == NamedKey::LaunchWordProcessor
    ||| k == NamedKey::BrowserBack
    ||| k == NamedKey::BrowserFavorites
    ||| k == NamedKey::BrowserForward
    ||| k == NamedKey::BrowserHome
    ||| k == NamedKey::BrowserRefresh
    ||| k == NamedKey::BrowserSearch
    ||| k == NamedKey::BrowserStop
    ||| k == NamedKey::AppSwitch
    ||| k == NamedKey::Call
}

#[verifier::rlimit(100)]
proof fn lemma_named_inverted_group_3(k: NamedKey)
    requires
        named_inverted_group_3(k),
    ensures
        named_key_inverted(k),
{
    match k {
        NamedKey::AudioBalanceRight => {},
        NamedKey::AudioBassBoostDown => {},
        NamedKey::AudioBassBoostToggle => {},
        NamedKey::AudioBassBoostUp => {},
        NamedKey::AudioFaderFront => {},
        NamedKey::AudioFaderRear => {},
        NamedKey::AudioSurroundModeNext => {},
        NamedKey::AudioTrebleDown => {},
        NamedKey::AudioTrebleUp => {},
        NamedKey::AudioVolumeDown => {},
        NamedKey::AudioVolumeUp => {},
        NamedKey::AudioVolumeMute => {},
        NamedKey::MicrophoneToggle => {},
        NamedKey::MicrophoneVolumeDown => {},
        NamedKey::MicrophoneVolumeUp => {},
        NamedKey::MicrophoneVolumeMute => {},
        NamedKey::SpeechCorrectionList => {},
        NamedKey::SpeechInputToggle => {},
        NamedKey::LaunchApplication1 => {},
        NamedKey::LaunchApplication2 => {},
        NamedKey::LaunchCalendar => {},
        NamedKey::LaunchContacts => {},
        NamedKey::LaunchMail => {},
        NamedKey::LaunchMediaPlayer => {},
        NamedKey::LaunchMusicPlayer => {},
        NamedKey::LaunchPhone => {},
        NamedKey::LaunchScreenSaver => {},
        NamedKey::LaunchSpreadsheet => {},
        NamedKey::LaunchWebBrowser => {},
        NamedKey::LaunchWebCam => {},
        NamedKey::LaunchWordProcessor => {},
        NamedKey::BrowserBack => {},
        NamedKey::BrowserFavorites => {},
        NamedKey::BrowserForward => {},
        NamedKey::BrowserHome => {},
        NamedKey::BrowserRefresh => {},
        NamedKey::BrowserSearch => {},
        NamedKey::BrowserStop => {},
        NamedKey::AppSwitch => {},
        NamedKey::Call => {},
        _ => {},
    }
}

spec fn named_inverted_group_4(k: NamedKey) -> bool {
    ||| k == NamedKey::Camera
    ||| k == NamedKey::CameraFocus
    ||| k == NamedKey::EndCall
    ||| k == NamedKey::GoBack
    ||| k == NamedKey::GoHome
    ||| k == NamedKey::HeadsetHook
    ||| k == NamedKey::LastNumberRedial
    ||| k == NamedKey::Notification
    ||| k == NamedKey::MannerMode
    ||| k == NamedKey::VoiceDial
    ||| k == NamedKey::TV
    ||| k == NamedKey::TV3DMode
    ||| k == NamedKey::TVAntennaCable
    ||| k == NamedKey::TVAudioDescription
    ||| k == NamedKey::TVAudioDescriptionMixDown
    ||| k == NamedKey::TVAudioDescriptionMixUp
    ||| k == NamedKey::TVContentsMenu
    ||| k == NamedKey::TVDataService
    ||| k == NamedKey::TVInput
    ||| k == NamedKey::TVInputComponent1
    ||| k == NamedKey::TVInputComponent2
    ||| k == NamedKey::TVInputComposite1
    ||| k == NamedKey::TVInputComposite2
    ||| k == NamedKey::TVInputHDMI1
    ||| k == NamedKey::TVInputHDMI2
    ||| k == NamedKey::TVInputHDMI3
    ||| k == NamedKey::TVInputHDMI4
    ||| k == NamedKey::TVInputVGA1
    ||| k == NamedKey::TVMediaContext
    ||| k == NamedKey::TVNetwork
    ||| k == NamedKey::TVNumberEntry
    ||| k == NamedKey::TVPower
    ||| k == NamedKey::TVRadioService
    ||| k == NamedKey::TVSatellite
    ||| k == NamedKey::TVSatelliteBS
    ||| k == NamedKey::TVSatelliteCS
    ||| k == NamedKey::TVSatelliteToggle
    ||| k == NamedKey::TVTerrestrialAnalog
    ||| k == NamedKey::TVTerrestrialDigital
    ||| k == NamedKey::TVTimer
}

#[verifier::rlimit(100)]
proof fn lemma_named_inverted_group_4(k: NamedKey)
    requires
        named_inverted_group_4(k),
    ensures
        named_key_inverted(k),
{
    match k {
        NamedKey::Camera => {},
        NamedKey::CameraFocus => {},
        NamedKey::EndCall => {},
        NamedKey::GoBack => {},
        NamedKey::GoHome => {},
        NamedKey::HeadsetHook => {},
        NamedKey::LastNumberRedial => {},
        NamedKey::Notification => {},
        NamedKey::MannerMode => {},
        NamedKey::VoiceDial => {},
        NamedKey::TV => {},
        NamedKey::TV3DMode => {},
        NamedKey::TVAntennaCable => {},
        NamedKey::TVAudioDescription => {},
        NamedKey::TVAudioDescriptionMixDown => {},
        NamedKey::TVAudioDescriptionMixUp => {},
        NamedKey::TVContentsMenu => {},
        NamedKey::TVDataService => {},
        NamedKey::TVInput => {},
        NamedKey::TVInputComponent1 => {},
        NamedKey::TVInputComponent2 => {},
        NamedKey::TVInputComposite1 => {},
        NamedKey::TVInputComposite2 => {},
        NamedKey::TVInputHDMI1 => {},
        NamedKey::TVInputHDMI2 => {},
        NamedKey::TVInputHDMI3 => {},
        NamedKey::TVInputHDMI4 => {},
        NamedKey::TVInputVGA1 => {},
        NamedKey::TVMediaContext => {},
        NamedKey::TVNetwork => {},
        NamedKey::TVNumberEntry => {},
        NamedKey::TVPower => {},
        NamedKey::TVRadioService => {},
        NamedKey::TVSatellite => {},
        NamedKey::TVSatelliteBS => {},
        NamedKey::TVSatelliteCS => {},
        NamedKey::TVSatelliteToggle => {},
        NamedKey::TVTerrestrialAnalog => {},
        NamedKey::TVTerrestrialDigital => {},
        NamedKey::TVTimer => {},
        _ => {},
    }
}

spec fn named_inverted_group_5(k: NamedKey) -> bool {
    ||| k == NamedKey::AVRInput
    ||| k == NamedKey::AVRPower
    ||| k == NamedKey::ColorF0Red
    ||| k == NamedKey::ColorF1Green
    ||| k == NamedKey::ColorF2Yellow
    ||| k == NamedKey::ColorF3Blue
    ||| k == NamedKey::ColorF4Grey
    ||| k == NamedKey::ColorF5Brown
    ||| k == NamedKey::ClosedCaptionToggle
    ||| k == NamedKey::Dimmer
    ||| k == NamedKey::DisplaySwap
    ||| k == NamedKey::DVR
    ||| k == NamedKey::Exit
    ||| k == NamedKey::FavoriteClear0
    ||| k == NamedKey::FavoriteClear1
    ||| k == NamedKey::FavoriteClear2
    ||| k == NamedKey::FavoriteClear3
    ||| k == NamedKey::FavoriteRecall0
    ||| k == NamedKey::FavoriteRecall1
    ||| k == NamedKey::FavoriteRecall2
    ||| k == NamedKey::FavoriteRecall3
    ||| k == NamedKey::FavoriteStore0
    ||| k == NamedKey::FavoriteStore1
    ||| k == NamedKey::FavoriteStore2
    ||| k == NamedKey::FavoriteStore3
    ||| k == NamedKey::Guide
    ||| k == NamedKey::GuideNextDay
    ||| k == NamedKey::GuidePreviousDay
    ||| k == NamedKey::Info
    ||| k == NamedKey::InstantReplay
    ||| k == NamedKey::Link
    ||| k == NamedKey::ListProgram
    ||| k == NamedKey::LiveContent
    ||| k == NamedKey::Lock
    ||| k == NamedKey::MediaApps
    ||| k == NamedKey::MediaAudioTrack
    ||| k == NamedKey::MediaLast
    ||| k == NamedKey::MediaSkipBackward
    ||| k == NamedKey::MediaSkipForward
    ||| k == NamedKey::MediaStepBackward
}

#[verifier::rlimit(100)]
proof fn lemma_named_inverted_group_5(k: NamedKey)
    requires
        named_inverted_group_5(k),
    ensures
        named_key_inverted(k),
{
    match k {
        NamedKey::AVRInput => {},
        NamedKey::AVRPower => {},
        NamedKey::ColorF0Red => {},
        NamedKey::ColorF1Green => {},
        NamedKey::ColorF2Yellow => {},
        NamedKey::ColorF3Blue => {},
        NamedKey::ColorF4Grey => {},
        NamedKey::ColorF5Brown => {},
        NamedKey::ClosedCaptionToggle => {},
        NamedKey::Dimmer => {},
        NamedKey::DisplaySwap => {},
        NamedKey::DVR => {},
        NamedKey::Exit => {},
        NamedKey::FavoriteClear0 => {},
        NamedKey::FavoriteClear1 => {},
        NamedKey::FavoriteClear2 => {},
        NamedKey::FavoriteClear3 => {},
        NamedKey::FavoriteRecall0 => {},
        NamedKey::FavoriteRecall1 => {},
        NamedKey::FavoriteRecall2 => {},
        NamedKey::FavoriteRecall3 => {},
        NamedKey::FavoriteStore0 => {},
        NamedKey::FavoriteStore1 => {},
        NamedKey::FavoriteStore2 => {},
        NamedKey::FavoriteStore3 => {},
        NamedKey::Guide => {},
        NamedKey::GuideNextDay => {},
        NamedKey::GuidePreviousDay => {},
        NamedKey::Info => {},
        NamedKey::InstantReplay => {},
        NamedKey::Link => {},
        NamedKey::ListProgram => {},
        NamedKey::LiveContent => {},
        NamedKey::Lock => {},
        NamedKey::MediaApps => {},
        NamedKey::MediaAudioTrack => {},
        NamedKey::MediaLast => {},
        NamedKey::MediaSkipBackward => {},
        NamedKey::MediaSkipForward => {},
        NamedKey::MediaStepBackward => {},
        _ => {},
    }
}

spec fn named_inverted_group_6(k: NamedKey) -> bool {
    ||| k == NamedKey::MediaStepForward
    ||| k == NamedKey::MediaTopMenu
    ||| k == NamedKey::NavigateIn
    ||| k == NamedKey::NavigateNext
    ||| k == NamedKey::NavigateOut
    ||| k == NamedKey::NavigatePrevious
    ||| k == NamedKey::NextFavoriteChannel
    ||| k == NamedKey::NextUserProfile
    ||| k == NamedKey::OnDemand
    ||| k == NamedKey::Pairing
    ||| k == NamedKey::PinPDown
    ||| k == NamedKey::PinPMove
    ||| k == NamedKey::PinPToggle
    ||| k == NamedKey::PinPUp
    ||| k == NamedKey::PlaySpeedDown
    ||| k == NamedKey::PlaySpeedReset
    ||| k == NamedKey::PlaySpeedUp
    ||| k == NamedKey::RandomToggle
    ||| k == NamedKey::RcLowBattery
    ||| k == NamedKey::RecordSpeedNext
    ||| k == NamedKey::RfBypass
    ||| k == NamedKey::ScanChannelsToggle
    ||| k == NamedKey::ScreenModeNext
    ||| k == NamedKey::Settings
    ||| k == NamedKey::SplitScreenToggle
    ||| k == NamedKey::STBInput
    ||| k == NamedKey::STBPower
    ||| k == NamedKey::Subtitle
    ||| k == NamedKey::Teletext
    ||| k == NamedKey::VideoModeNext
    ||| k == NamedKey::Wink
    ||| k == NamedKey::ZoomToggle
    ||| k == NamedKey::F1
    ||| k == NamedKey::F2
    ||| k == NamedKey::F3
    ||| k == NamedKey::F4
    ||| k == NamedKey::F5
    ||| k == NamedKey::F6
    ||| k == NamedKey::F7
    ||| k == NamedKey::F8
}

#[verifier::rlimit(100)]
proof fn lemma_named_inverted_group_6(k: NamedKey)
    requires
        named_inverted_group_6(k),
    ensures
        named_key_inverted(k),
{
    match k {
        NamedKey::MediaStepForward => {},
        NamedKey::MediaTopMenu => {},
        NamedKey::NavigateIn => {},
        NamedKey::NavigateNext => {},
        NamedKey::NavigateOut => {},
        NamedKey::NavigatePrevious => {},
        NamedKey::NextFavoriteChannel => {},
        NamedKey::NextUserProfile => {},
        NamedKey::OnDemand => {},
        NamedKey::Pairing => {},
        NamedKey::PinPDown => {},
        NamedKey::PinPMove => {},
        NamedKey::PinPToggle => {},
        NamedKey::PinPUp => {},
        NamedKey::PlaySpeedDown => {},
        NamedKey::PlaySpeedReset => {},
        NamedKey::PlaySpeedUp => {},
        NamedKey::RandomToggle => {},
        NamedKey::RcLowBattery => {},
        NamedKey::RecordSpeedNext => {},
        NamedKey::RfBypass => {},
        NamedKey::ScanChannelsToggle => {},
        NamedKey::ScreenModeNext => {},
        NamedKey::Settings => {},
        NamedKey::SplitScreenToggle => {},
        NamedKey::STBInput => {},
        NamedKey::STBPower => {},
        NamedKey::Subtitle => {},
        NamedKey::Teletext => {},
        NamedKey::VideoModeNext => {},
        NamedKey::Wink => {},
        NamedKey::ZoomToggle => {},
        NamedKey::F1 => {},
        NamedKey::F2 => {},
        NamedKey::F3 => {},
        NamedKey::F4 => {},
        NamedKey::F5 => {},
        NamedKey::F6 => {},
        NamedKey::F7 => {},
        NamedKey::F8 => {},
        _ => {},
    }
}

spec fn named_inverted_group_7(k: NamedKey) -> bool {
    ||| k == NamedKey::F9
    ||| k == NamedKey::F10
    ||| k == NamedKey::F11
    ||| k == NamedKey::F12
    ||| k == NamedKey::F13
    ||| k == NamedKey::F14
    ||| k == NamedKey::F15
    ||| k == NamedKey::F16
    ||| k == NamedKey::F17
    ||| k == NamedKey::F18
    ||| k == NamedKey::F19
    ||| k == NamedKey::F20
    ||| k == NamedKey::F21
    ||| k == NamedKey::F22
    ||| k == NamedKey::F23
    ||| k == NamedKey::F24
    ||| k == NamedKey::F25
    ||| k == NamedKey::F26
    ||| k == NamedKey::F27
    ||| k == NamedKey::F28
    ||| k == NamedKey::F29
    ||| k == NamedKey::F30
    ||| k == NamedKey::F31
    ||| k == NamedKey::F32
    ||| k == NamedKey::F33
    ||| k == NamedKey::F34
    ||| k == NamedKey::F35
}

#[verifier::rlimit(100)]
proof fn lemma_named_inverted_group_7(k: NamedKey)
    requires
        named_inverted_group_7(k),
    ensures
        named_key_inverted(k),
{
    match k {
        NamedKey::F9 => {},
        NamedKey::F10 => {},
        NamedKey::F11 => {},
        NamedKey::F12 => {},
        NamedKey::F13 => {},
        NamedKey::F14 => {},
        NamedKey::F15 => {},
        NamedKey::F16 => {},
        NamedKey::F17 => {},
        NamedKey::F18 => {},
        NamedKey::F19 => {},
        NamedKey::F20 => {},
        NamedKey::F21 => {},
        NamedKey::F22 => {},
        NamedKey::F23 => {},
        NamedKey::F24 => {},
        NamedKey::F25 => {},
        NamedKey::F26 => {},
        NamedKey::F27 => {},
        NamedKey::F28 => {},
        NamedKey::F29 => {},
        NamedKey::F30 => {},
        NamedKey::F31 => {},
        NamedKey::F32 => {},
        NamedKey::F33 => {},
        NamedKey::F34 => {},
        NamedKey::F35 => {},
        _ => {},
    }
}

spec fn named_reported_group_0(n: IcedNamed) -> bool {
    ||| n == IcedNamed::Alt
    ||| n == IcedNamed::AltGraph
    ||| n == IcedNamed::CapsLock
    ||| n == IcedNamed::Control
    ||| n == IcedNamed::Fn
    ||| n == IcedNamed::FnLock
    ||| n == IcedNamed::NumLock
    ||| n == IcedNamed::ScrollLock
    ||| n == IcedNamed::Shift
    ||| n == IcedNamed::Symbol
    ||| n == IcedNamed::SymbolLock
    ||| n == IcedNamed::Meta
    ||| n == IcedNamed::Hyper
    ||| n == IcedNamed::Super
    ||| n == IcedNamed::Enter
    ||| n == IcedNamed::Tab
    ||| n == IcedNamed::Space
    ||| n == IcedNamed::ArrowDown
    ||| n == IcedNamed::ArrowLeft
    ||| n == IcedNamed::ArrowRight
    ||| n == IcedNamed::ArrowUp
    ||| n == IcedNamed::End
    ||| n == IcedNamed::Home
    ||| n == IcedNamed::PageDown
    ||| n == IcedNamed::PageUp
    ||| n == IcedNamed::Backspace
    ||| n == IcedNamed::Clear
    ||| n == IcedNamed::Copy
    ||| n == IcedNamed::CrSel
    ||| n == IcedNamed::Cut
    ||| n == IcedNamed::Delete
    ||| n == IcedNamed::EraseEof
    ||| n == IcedNamed::ExSel
    ||| n == IcedNamed::Insert
    ||| n == IcedNamed::Paste
    ||| n == IcedNamed::Redo
    ||| n == IcedNamed::Undo
    ||| n == IcedNamed::Accept
    ||| n == IcedNamed::Again
    ||| n == IcedNamed::Attn
}

#[verifier::rlimit(100)]
proof fn lemma_named_reported_group_0(n: IcedNamed)
    requires
        named_reported_group_0(n),
    ensures
        named_key_reported(n),
{
    match n {
        IcedNamed::Alt => {},
        IcedNamed::AltGraph => {},
        IcedNamed::CapsLock => {},
        IcedNamed::Control => {},
        IcedNamed::Fn => {},
        IcedNamed::FnLock => {},
        IcedNamed::NumLock => {},
        IcedNamed::ScrollLock => {},
        IcedNamed::Shift => {},
        IcedNamed::Symbol => {},
        IcedNamed::SymbolLock => {},
        IcedNamed::Meta => {},
        IcedNamed::Hyper => {},
        IcedNamed::Super => {},
        IcedNamed::Enter => {},
        IcedNamed::Tab => {},
        IcedNamed::Space => {},
        IcedNamed::ArrowDown => {},
        IcedNamed::ArrowLeft => {},
        IcedNamed::ArrowRight => {},
        IcedNamed::ArrowUp => {},
        IcedNamed::End => {},
        IcedNamed::Home => {},
        IcedNamed::PageDown => {},
        IcedNamed::PageUp => {},
        IcedNamed::Backspace => {},
        IcedNamed::Clear => {},
        IcedNamed::Copy => {},
        IcedNamed::CrSel => {},
        IcedNamed::Cut => {},
        IcedNamed::Delete => {},
        IcedNamed::EraseEof => {},
        IcedNamed::ExSel => {},
        IcedNamed::Insert => {},
        IcedNamed::Paste => {},
        IcedNamed::Redo => {},
        IcedNamed::Undo => {},
        IcedNamed::Accept => {},
        IcedNamed::Again => {},
        IcedNamed::Attn => {},
        _ => {},
    }
}

spec fn named_reported_group_1(n: IcedNamed) -> bool {
    ||| n == IcedNamed::Cancel
    ||| n == IcedNamed::ContextMenu
    ||| n == IcedNamed::Escape
    ||| n == IcedNamed::Execute
    ||| n == IcedNamed::Find
    ||| n == IcedNamed::Help
    ||| n == IcedNamed::Pause
    ||| n == IcedNamed::Play
    ||| n == IcedNamed::Props
    ||| n == IcedNamed::Select
    ||| n == IcedNamed::ZoomIn
    ||| n == IcedNamed::ZoomOut
    ||| n == IcedNamed::BrightnessDown
    ||| n == IcedNamed::BrightnessUp
    ||| n == IcedNamed::Eject
    ||| n == IcedNamed::LogOff
    ||| n == IcedNamed::Power
    ||| n == IcedNamed::PowerOff
    ||| n == IcedNamed::PrintScreen
    ||| n == IcedNamed::Hibernate
    ||| n == IcedNamed::Standby
    ||| n == IcedNamed::WakeUp
    ||| n == IcedNamed::AllCandidates
    ||| n == IcedNamed::Alphanumeric
    ||| n == IcedNamed::CodeInput
    ||| n == IcedNamed::Compose
    ||| n == IcedNamed::Convert
    ||| n == IcedNamed::FinalMode
    ||| n == IcedNamed::GroupFirst
    ||| n == IcedNamed::GroupLast
    ||| n == IcedNamed::GroupNext
    ||| n == IcedNamed::GroupPrevious
    ||| n == IcedNamed::ModeChange
    ||| n == IcedNamed::NextCandidate
    ||| n == IcedNamed::NonConvert
    ||| n == IcedNamed::PreviousCandidate
    ||| n == IcedNamed::Process
    ||| n == IcedNamed::SingleCandidate
    ||| n == IcedNamed::HangulMode
    ||| n == IcedNamed::HanjaMode
}

#[verifier::rlimit(100)]
proof fn lemma_named_reported_group_1(n: IcedNamed)
    requires
        named_reported_group_1(n),
    ensures
        named_key_reported(n),
{
    match n {
        IcedNamed::Cancel => {},
        IcedNamed::ContextMenu => {},
        IcedNamed::Escape => {},
        IcedNamed::Execute => {},
        IcedNamed::Find => {},
        IcedNamed::Help => {},
        IcedNamed::Pause => {},
        IcedNamed::Play => {},
        IcedNamed::Props => {},
        IcedNamed::Select => {},
        IcedNamed::ZoomIn => {},
        IcedNamed::ZoomOut => {},
        IcedNamed::BrightnessDown => {},
        IcedNamed::BrightnessUp => {},
        IcedNamed::Eject => {},
        IcedNamed::LogOff => {},
        IcedNamed::Power => {},
        IcedNamed::PowerOff => {},
        IcedNamed::PrintScreen => {},
        IcedNamed::Hibernate => {},
        IcedNamed::Standby => {},
        IcedNamed::WakeUp => {},
        IcedNamed::AllCandidates => {},
        IcedNamed::Alphanumeric => {},
        IcedNamed::CodeInput => {},
        IcedNamed::Compose => {},
        IcedNamed::Convert => {},
        IcedNamed::FinalMode => {},
        IcedNamed::GroupFirst => {},
        IcedNamed::GroupLast => {},
        IcedNamed::GroupNext => {},
        IcedNamed::GroupPrevious => {},
        IcedNamed::ModeChange => {},
        IcedNamed::NextCandidate => {},
        IcedNamed::NonConvert => {},
        IcedNamed::PreviousCandidate => {},
        IcedNamed::Process => {},
        IcedNamed::SingleCandidate => {},
        IcedNamed::HangulMode => {},
        IcedNamed::HanjaMode => {},
        _ => {},
    }
}

spec fn named_reported_group_2(n: IcedNamed) -> bool {
    ||| n == IcedNamed::JunjaMode
    ||| n == IcedNamed::Eisu
    ||| n == IcedNamed::Hankaku
    ||| n == IcedNamed::Hiragana
    ||| n == IcedNamed::HiraganaKatakana
    ||| n == IcedNamed::KanaMode
    ||| n == IcedNamed::KanjiMode
    ||| n == IcedNamed::Katakana
    ||| n == IcedNamed::Romaji
    ||| n == IcedNamed::Zenkaku
    ||| n == IcedNamed::ZenkakuHankaku
    ||| n == IcedNamed::Soft1
    ||| n == IcedNamed::Soft2
    ||| n == IcedNamed::Soft3
    ||| n == IcedNamed::Soft4
    ||| n == IcedNamed::ChannelDown
    ||| n == IcedNamed::ChannelUp
    ||| n == IcedNamed::Close
    ||| n == IcedNamed::MailForward
    ||| n == IcedNamed::MailReply
    ||| n == IcedNamed::MailSend
    ||| n == IcedNamed::MediaClose
    ||| n == IcedNamed::MediaFastForward
    ||| n == IcedNamed::MediaPause
    ||| n == IcedNamed::MediaPlay
    ||| n == IcedNamed::MediaPlayPause
    ||| n == IcedNamed::MediaRecord
    ||| n == IcedNamed::MediaRewind
    ||| n == IcedNamed::MediaStop
    ||| n == IcedNamed::MediaTrackNext
    ||| n == IcedNamed::MediaTrackPrevious
    ||| n == IcedNamed::New
    ||| n == IcedNamed::Open
    ||| n == IcedNamed::Print
    ||| n == IcedNamed::Save
    ||| n == IcedNamed::SpellCheck
    ||| n == IcedNamed::Key11
    ||| n == IcedNamed::Key12
    ||| n == IcedNamed::AudioBalanceLeft
    ||| n == IcedNamed::AudioBalanceRight
}

#[verifier::rlimit(100)]
proof fn lemma_named_reported_group_2(n: IcedNamed)
    requires
        named_reported_group_2(n),
    ensures
        named_key_reported(n),
{
    match n {
        IcedNamed::JunjaMode => {},
        IcedNamed::Eisu => {},
        IcedNamed::Hankaku => {},
        IcedNamed::Hiragana => {},
        IcedNamed::HiraganaKatakana => {},
        IcedNamed::KanaMode => {},
        IcedNamed::KanjiMode => {},
        IcedNamed::Katakana => {},
        IcedNamed::Romaji => {},
        IcedNamed::Zenkaku => {},
        IcedNamed::ZenkakuHankaku => {},
        IcedNamed::Soft1 => {},
        IcedNamed::Soft2 => {},
        IcedNamed::Soft3 => {},
        IcedNamed::Soft4 => {},
        IcedNamed::ChannelDown => {},
        IcedNamed::ChannelUp => {},
        IcedNamed::Close => {},
        IcedNamed::MailForward => {},
        IcedNamed::MailReply => {},
        IcedNamed::MailSend => {},
        IcedNamed::MediaClose => {},
        IcedNamed::MediaFastForward => {},
        IcedNamed::MediaPause => {},
        IcedNamed::MediaPlay => {},
        IcedNamed::MediaPlayPause => {},
        IcedNamed::MediaRecord => {},
        IcedNamed::MediaRewind => {},
        IcedNamed::MediaStop => {},
        IcedNamed::MediaTrackNext => {},
        IcedNamed::MediaTrackPrevious => {},
        IcedNamed::New => {},
        IcedNamed::Open => {},
        IcedNamed::Print => {},
        IcedNamed::Save => {},
        IcedNamed::SpellCheck => {},
        IcedNamed::Key11 => {},
        IcedNamed::Key12 => {},
        IcedNamed::AudioBalanceLeft => {},
        IcedNamed::AudioBalanceRight => {},
        _ => {},
    }
}

spec fn named_reported_group_3(n: IcedNamed) -> bool {
    ||| n == IcedNamed::AudioBassBoostDown
    ||| n == IcedNamed::AudioBassBoostToggle
    ||| n == IcedNamed::AudioBassBoostUp
    ||| n == IcedNamed::AudioFaderFront
    ||| n == IcedNamed::AudioFaderRear
    ||| n == IcedNamed::AudioSurroundModeNext
    ||| n == IcedNamed::AudioTrebleDown
    ||| n == IcedNamed::AudioTrebleUp
    ||| n == IcedNamed::AudioVolumeDown
    ||| n == IcedNamed::AudioVolumeUp
    ||| n == IcedNamed::AudioVolumeMute
    ||| n == IcedNamed::MicrophoneToggle
    ||| n == IcedNamed::MicrophoneVolumeDown
    ||| n == IcedNamed::MicrophoneVolumeUp
    ||| n == IcedNamed::MicrophoneVolumeMute
    ||| n == IcedNamed::SpeechCorrectionList
    ||| n == IcedNamed::SpeechInputToggle
    ||| n == IcedNamed::LaunchApplication1
    ||| n == IcedNamed::LaunchApplication2
    ||| n == IcedNamed::LaunchCalendar
    ||| n == IcedNamed::LaunchContacts
    ||| n == IcedNamed::LaunchMail
    ||| n == IcedNamed::LaunchMediaPlayer
    ||| n == IcedNamed::LaunchMusicPlayer
    ||| n == IcedNamed::LaunchPhone
    ||| n == IcedNamed::LaunchScreenSaver
    ||| n == IcedNamed::LaunchSpreadsheet
    ||| n == IcedNamed::LaunchWebBrowser
    ||| n == IcedNamed::LaunchWebCam
    ||| n == IcedNamed::LaunchWordProcessor
    ||| n == IcedNamed::BrowserBack
    ||| n == IcedNamed::BrowserFavorites
    ||| n == IcedNamed::BrowserForward
    ||| n == IcedNamed::BrowserHome
    ||| n == IcedNamed::BrowserRefresh
    ||| n == IcedNamed::BrowserSearch
    ||| n == IcedNamed::BrowserStop
    ||| n == IcedNamed::AppSwitch
    ||| n == IcedNamed::Call
    ||| n == IcedNamed::Camera
}

#[verifier::rlimit(100)]
proof fn lemma_named_reported_group_3(n: IcedNamed)
    requires
        named_reported_group_3(n),
    ensures
        named_key_reported(n),
{
    match n {
        IcedNamed::AudioBassBoostDown => {},
        IcedNamed::AudioBassBoostToggle => {},
        IcedNamed::AudioBassBoostUp => {},
        IcedNamed::AudioFaderFront => {},
        IcedNamed::AudioFaderRear => {},
        IcedNamed::AudioSurroundModeNext => {},
        IcedNamed::AudioTrebleDown => {},
        IcedNamed::AudioTrebleUp => {},
        IcedNamed::AudioVolumeDown => {},
        IcedNamed::AudioVolumeUp => {},
        IcedNamed::AudioVolumeMute => {},
        IcedNamed::MicrophoneToggle => {},
        IcedNamed::MicrophoneVolumeDown => {},
        IcedNamed::MicrophoneVolumeUp => {},
        IcedNamed::MicrophoneVolumeMute => {},
        IcedNamed::SpeechCorrectionList => {},
        IcedNamed::SpeechInputToggle => {},
        IcedNamed::LaunchApplication1 => {},
        IcedNamed::LaunchApplication2 => {},
        IcedNamed::LaunchCalendar => {},
        IcedNamed::LaunchContacts => {},
        IcedNamed::LaunchMail => {},
        IcedNamed::LaunchMediaPlayer => {},
        IcedNamed::LaunchMusicPlayer => {},
        IcedNamed::LaunchPhone => {},
        IcedNamed::LaunchScreenSaver => {},
        IcedNamed::LaunchSpreadsheet => {},
        IcedNamed::LaunchWebBrowser => {},
        IcedNamed::LaunchWebCam => {},
        IcedNamed::LaunchWordProcessor => {},
        IcedNamed::BrowserBack => {},
        IcedNamed::BrowserFavorites => {},
        IcedNamed::BrowserForward => {},
        IcedNamed::BrowserHome => {},
        IcedNamed::BrowserRefresh => {},
        IcedNamed::BrowserSearch => {},
        IcedNamed::BrowserStop => {},
        IcedNamed::AppSwitch => {},
        IcedNamed::Call => {},
        IcedNamed::Camera => {},
        _ => {},
    }
}

spec fn named_reported_group_4(n: IcedNamed) -> bool {
    ||| n == IcedNamed::CameraFocus
    ||| n == IcedNamed::EndCall
    ||| n == IcedNamed::GoBack
    ||| n == IcedNamed::GoHome
    ||| n == IcedNamed::HeadsetHook
    ||| n == IcedNamed::LastNumberRedial
    ||| n == IcedNamed::Notification
    ||| n == IcedNamed::MannerMode
    ||| n == IcedNamed::VoiceDial
    ||| n == IcedNamed::TV
    ||| n == IcedNamed::TV3DMode
    ||| n == IcedNamed::TVAntennaCable
    ||| n == IcedNamed::TVAudioDescription
    ||| n == IcedNamed::TVAudioDescriptionMixDown
    ||| n == IcedNamed::TVAudioDescriptionMixUp
    ||| n == IcedNamed::TVContentsMenu
    ||| n == IcedNamed::TVDataService
    ||| n == IcedNamed::TVInput
    ||| n == IcedNamed::TVInputComponent1
    ||| n == IcedNamed::TVInputComponent2
    ||| n == IcedNamed::TVInputComposite1
    ||| n == IcedNamed::TVInputComposite2
    ||| n == IcedNamed::TVInputHDMI1
    ||| n == IcedNamed::TVInputHDMI2
    ||| n == IcedNamed::TVInputHDMI3
    ||| n == IcedNamed::TVInputHDMI4
    ||| n == IcedNamed::TVInputVGA1
    ||| n == IcedNamed::TVMediaContext
    ||| n == IcedNamed::TVNetwork
    ||| n == IcedNamed::TVNumberEntry
    ||| n == IcedNamed::TVPower
    ||| n == IcedNamed::TVRadioService
    ||| n == IcedNamed::TVSatellite
    ||| n == IcedNamed::TVSatelliteBS
    ||| n == IcedNamed::TVSatelliteCS
    ||| n == IcedNamed::TVSatelliteToggle
    ||| n == IcedNamed::TVTerrestrialAnalog
    ||| n == IcedNamed::TVTerrestrialDigital
    ||| n == IcedNamed::TVTimer
    ||| n == IcedNamed::AVRInput
}

#[verifier::rlimit(100)]
proof fn lemma_named_reported_group_4(n: IcedNamed)
    requires
        named_reported_group_4(n),
    ensures
        named_key_reported(n),
{
    match n {
        IcedNamed::CameraFocus => {},
        IcedNamed::EndCall => {},
        IcedNamed::GoBack => {},
        IcedNamed::GoHome => {},
        IcedNamed::HeadsetHook => {},
        IcedNamed::LastNumberRedial => {},
        IcedNamed::Notification => {},
        IcedNamed::MannerMode => {},
        IcedNamed::VoiceDial => {},
        IcedNamed::TV => {},
        IcedNamed::TV3DMode => {},
        IcedNamed::TVAntennaCable => {},
        IcedNamed::TVAudioDescription => {},
        IcedNamed::TVAudioDescriptionMixDown => {},
        IcedNamed::TVAudioDescriptionMixUp => {},
        IcedNamed::TVContentsMenu => {},
        IcedNamed::TVDataService => {},
        IcedNamed::TVInput => {},
        IcedNamed::TVInputComponent1 => {},
        IcedNamed::TVInputComponent2 => {},
        IcedNamed::TVInputComposite1 => {},
        IcedNamed::TVInputComposite2 => {},
        IcedNamed::TVInputHDMI1 => {},
        IcedNamed::TVInputHDMI2 => {},
        IcedNamed::TVInputHDMI3 => {},
        IcedNamed::TVInputHDMI4 => {},
        IcedNamed::TVInputVGA1 => {},
        IcedNamed::TVMediaContext => {},
        IcedNamed::TVNetwork => {},
        IcedNamed::TVNumberEntry => {},
        IcedNamed::TVPower => {},
        IcedNamed::TVRadioService => {},
        IcedNamed::TVSatellite => {},
        IcedNamed::TVSatelliteBS => {},
        IcedNamed::TVSatelliteCS => {},
        IcedNamed::TVSatelliteToggle => {},
        IcedNamed::TVTerrestrialAnalog => {},
        IcedNamed::TVTerrestrialDigital => {},
        IcedNamed::TVTimer => {},
        IcedNamed::AVRInput => {},
        _ => {},
    }
}

spec fn named_reported_group_5(n: IcedNamed) -> bool {
    ||| n == IcedNamed::AVRPower
    ||| n == IcedNamed::ColorF0Red
    ||| n == IcedNamed::ColorF1Green
    ||| n == IcedNamed::ColorF2Yellow
    ||| n == IcedNamed::ColorF3Blue
    ||| n == IcedNamed::ColorF4Grey
    ||| n == IcedNamed::ColorF5Brown
    ||| n == IcedNamed::ClosedCaptionToggle
    ||| n == IcedNamed::Dimmer
    ||| n == IcedNamed::DisplaySwap
    ||| n == IcedNamed::DVR
    ||| n == IcedNamed::Exit
    ||| n == IcedNamed::FavoriteClear0
    ||| n == IcedNamed::FavoriteClear1
    ||| n == IcedNamed::FavoriteClear2
    ||| n == IcedNamed::FavoriteClear3
    ||| n == IcedNamed::FavoriteRecall0
    ||| n == IcedNamed::FavoriteRecall1
    ||| n == IcedNamed::FavoriteRecall2
    ||| n == IcedNamed::FavoriteRecall3
    ||| n == IcedNamed::FavoriteStore0
    ||| n == IcedNamed::FavoriteStore1
    ||| n == IcedNamed::FavoriteStore2
    ||| n == IcedNamed::FavoriteStore3
    ||| n == IcedNamed::Guide
    ||| n == IcedNamed::GuideNextDay
    ||| n == IcedNamed::GuidePreviousDay
    ||| n == IcedNamed::Info
    ||| n == IcedNamed::InstantReplay
    ||| n == IcedNamed::Link
    ||| n == IcedNamed::ListProgram
    ||| n == IcedNamed::LiveContent
    ||| n == IcedNamed::Lock
    ||| n == IcedNamed::MediaApps
    ||| n == IcedNamed::MediaAudioTrack
    ||| n == IcedNamed::MediaLast
    ||| n == IcedNamed::MediaSkipBackward
    ||| n == IcedNamed::MediaSkipForward
    ||| n == IcedNamed::MediaStepBackward
    ||| n == IcedNamed::MediaStepForward
}

#[verifier::rlimit(100)]
proof fn lemma_named_reported_group_5(n: IcedNamed)
    requires
        named_reported_group_5(n),
    ensures
        named_key_reported(n),
{
    match n {
        IcedNamed::AVRPower => {},
        IcedNamed::ColorF0Red => {},
        IcedNamed::ColorF1Green => {},
        IcedNamed::ColorF2Yellow => {},
        IcedNamed::ColorF3Blue => {},
        IcedNamed::ColorF4Grey => {},
        IcedNamed::ColorF5Brown => {},
        IcedNamed::ClosedCaptionToggle => {},
        IcedNamed::Dimmer => {},
        IcedNamed::DisplaySwap => {},
        IcedNamed::DVR => {},
        IcedNamed::Exit => {},
        IcedNamed::FavoriteClear0 => {},
        IcedNamed::FavoriteClear1 => {},
        IcedNamed::FavoriteClear2 => {},
        IcedNamed::FavoriteClear3 => {},
        IcedNamed::FavoriteRecall0 => {},
        IcedNamed::FavoriteRecall1 => {},
        IcedNamed::FavoriteRecall2 => {},
        IcedNamed::FavoriteRecall3 => {},
        IcedNamed::FavoriteStore0 => {},
        IcedNamed::FavoriteStore1 => {},
        IcedNamed::FavoriteStore2 => {},
        IcedNamed::FavoriteStore3 => {},
        IcedNamed::Guide => {},
        IcedNamed::GuideNextDay => {},
        IcedNamed::GuidePreviousDay => {},
        IcedNamed::Info => {},
        IcedNamed::InstantReplay => {},
        IcedNamed::Link => {},
        IcedNamed::ListProgram => {},
        IcedNamed::LiveContent => {},
        IcedNamed::Lock => {},
        IcedNamed::MediaApps => {},
        IcedNamed::MediaAudioTrack => {},
        IcedNamed::MediaLast => {},
        IcedNamed::MediaSkipBackward => {},
        IcedNamed::MediaSkipForward => {},
        IcedNamed::MediaStepBackward => {},
        IcedNamed::MediaStepForward => {},
        _ => {},
    }
}

spec fn named_reported_group_6(n: IcedNamed) -> bool {
    ||| n == IcedNamed::MediaTopMenu
    ||| n == IcedNamed::NavigateIn
    ||| n == IcedNamed::NavigateNext
    ||| n == IcedNamed::NavigateOut
    ||| n == IcedNamed::NavigatePrevious
    ||| n == IcedNamed::NextFavoriteChannel
    ||| n == IcedNamed::NextUserProfile
    ||| n == IcedNamed::OnDemand
    ||| n == IcedNamed::Pairing
    ||| n == IcedNamed::PinPDown
    ||| n == IcedNamed::PinPMove
    ||| n == IcedNamed::PinPToggle
    ||| n == IcedNamed::PinPUp
    ||| n == IcedNamed::PlaySpeedDown
    ||| n == IcedNamed::PlaySpeedReset
    ||| n == IcedNamed::PlaySpeedUp
    ||| n == IcedNamed::RandomToggle
    ||| n == IcedNamed::RcLowBattery
    ||| n == IcedNamed::RecordSpeedNext
    ||| n == IcedNamed::RfBypass
    ||| n == IcedNamed::ScanChannelsToggle
    ||| n == IcedNamed::ScreenModeNext
    ||| n == IcedNamed::Settings
    ||| n == IcedNamed::SplitScreenToggle
    ||| n == IcedNamed::STBInput
    ||| n == IcedNamed::STBPower
    ||| n == IcedNamed::Subtitle
    ||| n == IcedNamed::Teletext
    ||| n == IcedNamed::VideoModeNext
    ||| n == IcedNamed::Wink
    ||| n == IcedNamed::ZoomToggle
    ||| n == IcedNamed::F1
    ||| n == IcedNamed::F2
    ||| n == IcedNamed::F3
    ||| n == IcedNamed::F4
    ||| n == IcedNamed::F5
    ||| n == IcedNamed::F6
    ||| n == IcedNamed::F7
    ||| n == IcedNamed::F8
    ||| n == IcedNamed::F9
}

#[verifier::rlimit(100)]
proof fn lemma_named_reported_group_6(n: IcedNamed)
    requires
        named_reported_group_6(n),
    ensures
        named_key_reported(n),
{
    match n {
        IcedNamed::MediaTopMenu => {},
        IcedNamed::NavigateIn => {},
        IcedNamed::NavigateNext => {},
        IcedNamed::NavigateOut => {},
        IcedNamed::NavigatePrevious => {},
        IcedNamed::NextFavoriteChannel => {},
        IcedNamed::NextUserProfile => {},
        IcedNamed::OnDemand => {},
        IcedNamed::Pairing => {},
        IcedNamed::PinPDown => {},
        IcedNamed::PinPMove => {},
        IcedNamed::PinPToggle => {},
        IcedNamed::PinPUp => {},
        IcedNamed::PlaySpeedDown => {},
        IcedNamed::PlaySpeedReset => {},
        IcedNamed::PlaySpeedUp => {},
        IcedNamed::RandomToggle => {},
        IcedNamed::RcLowBattery => {},
        IcedNamed::RecordSpeedNext => {},
        IcedNamed::RfBypass => {},
        IcedNamed::ScanChannelsToggle => {},
        IcedNamed::ScreenModeNext => {},
        IcedNamed::Settings => {},
        IcedNamed::SplitScreenToggle => {},
        IcedNamed::STBInput => {},
        IcedNamed::STBPower => {},
        IcedNamed::Subtitle => {},
        IcedNamed::Teletext => {},
        IcedNamed::VideoModeNext => {},
        IcedNamed::Wink => {},
        IcedNamed::ZoomToggle => {},
        IcedNamed::F1 => {},
        IcedNamed::F2 => {},
        IcedNamed::F3 => {},
        IcedNamed::F4 => {},
        IcedNamed::F5 => {},
        IcedNamed::F6 => {},
        IcedNamed::F7 => {},
        IcedNamed::F8 => {},
        IcedNamed::F9 => {},
        _ => {},
    }
}

spec fn named_reported_group_7(n: IcedNamed) -> bool {
    ||| n == IcedNamed::F10
    ||| n == IcedNamed::F11
    ||| n == IcedNamed::F12
    ||| n == IcedNamed::F13
    ||| n == IcedNamed::F14
    ||| n == IcedNamed::F15
    ||| n == IcedNamed::F16
    ||| n == IcedNamed::F17
    ||| n == IcedNamed::F18
    ||| n == IcedNamed::F19
    ||| n == IcedNamed::F20
    ||| n == IcedNamed::F21
    ||| n == IcedNamed::F22
    ||| n == IcedNamed::F23
    ||| n == IcedNamed::F24
    ||| n == IcedNamed::F25
    ||| n == IcedNamed::F26
    ||| n == IcedNamed::F27
    ||| n == IcedNamed::F28
    ||| n == IcedNamed::F29
    ||| n == IcedNamed::F30
    ||| n == IcedNamed::F31
    ||| n == IcedNamed::F32
    ||| n == IcedNamed::F33
    ||| n == IcedNamed::F34
    ||| n == IcedNamed::F35
}

#[verifier::rlimit(100)]
proof fn lemma_named_reported_group_7(n: IcedNamed)
    requires
        named_reported_group_7(n),
    ensures
        named_key_reported(n),
{
    match n {
        IcedNamed::F10 => {},
        IcedNamed::F11 => {},
        IcedNamed::F12 => {},
        IcedNamed::F13 => {},
        IcedNamed::F14 => {},
        IcedNamed::F15 => {},
        IcedNamed::F16 => {},
        IcedNamed::F17 => {},
        IcedNamed::F18 => {},
        IcedNamed::F19 => {},
        IcedNamed::F20 => {},
        IcedNamed::F21 => {},
        IcedNamed::F22 => {},
        IcedNamed::F23 => {},
        IcedNamed::F24 => {},
        IcedNamed::F25 => {},
        IcedNamed::F26 => {},
        IcedNamed::F27 => {},
        IcedNamed::F28 => {},
        IcedNamed::F29 => {},
        IcedNamed::F30 => {},
        IcedNamed::F31 => {},
        IcedNamed::F32 => {},
        IcedNamed::F33 => {},
        IcedNamed::F34 => {},
        IcedNamed::F35 => {},
        _ => {},
    }
}

proof fn lemma_named_key_for_inverts(k: NamedKey)
    ensures
        named_key_inverted(k),
{
    match k {
        NamedKey::Unidentified => lemma_named_inverted_group_0(k),
        NamedKey::Alt => lemma_named_inverted_group_0(k),
        NamedKey::AltGraph => lemma_named_inverted_group_0(k),
        NamedKey::CapsLock => lemma_named_inverted_group_0(k),
        NamedKey::Control => lemma_named_inverted_group_0(k),
        NamedKey::Fn => lemma_named_inverted_group_0(k),
        NamedKey::FnLock => lemma_named_inverted_group_0(k),
        NamedKey::Meta => lemma_named_inverted_group_0(k),
        NamedKey::NumLock => lemma_named_inverted_group_0(k),
        NamedKey::ScrollLock => lemma_named_inverted_group_0(k),
        NamedKey::Shift => lemma_named_inverted_group_0(k),
        NamedKey::Symbol => lemma_named_inverted_group_0(k),
        NamedKey::SymbolLock => lemma_named_inverted_group_0(k),
        NamedKey::Hyper => lemma_named_inverted_group_0(k),
        NamedKey::Super => lemma_named_inverted_group_0(k),
        NamedKey::Enter => lemma_named_inverted_group_0(k),
        NamedKey::Tab => lemma_named_inverted_group_0(k),
        NamedKey::ArrowDown => lemma_named_inverted_group_0(k),
        NamedKey::ArrowLeft => lemma_named_inverted_group_0(k),
        NamedKey::ArrowRight => lemma_named_inverted_group_0(k),
        NamedKey::ArrowUp => lemma_named_inverted_group_0(k),
        NamedKey::End => lemma_named_inverted_group_0(k),
        NamedKey::Home => lemma_named_inverted_group_0(k),
        NamedKey::PageDown => lemma_named_inverted_group_0(k),
        NamedKey::PageUp => lemma_named_inverted_group_0(k),
        NamedKey::Backspace => lemma_named_inverted_group_0(k),
        NamedKey::Clear => lemma_named_inverted_group_0(k),
        NamedKey::Copy => lemma_named_inverted_group_0(k),
        NamedKey::CrSel => lemma_named_inverted_group_0(k),
        NamedKey::Cut => lemma_named_inverted_group_0(k),
        NamedKey::Delete => lemma_named_inverted_group_0(k),
        NamedKey::EraseEof => lemma_named_inverted_group_0(k),
        NamedKey::ExSel => lemma_named_inverted_group_0(k),
        NamedKey::Insert => lemma_named_inverted_group_0(k),
        NamedKey::Paste => lemma_named_inverted_group_0(k),
        NamedKey::Redo => lemma_named_inverted_group_0(k),
        NamedKey::Undo => lemma_named_inverted_group_0(k),
        NamedKey::Accept => lemma_named_inverted_group_0(k),
        NamedKey::Again => lemma_named_inverted_group_0(k),
        NamedKey::Attn => lemma_named_inverted_group_0(k),
        NamedKey::Cancel => lemma_named_inverted_group_1(k),
        NamedKey::ContextMenu => lemma_named_inverted_group_1(k),
        NamedKey::Escape => lemma_named_inverted_group_1(k),
        NamedKey::Execute => lemma_named_inverted_group_1(k),
        NamedKey::Find => lemma_named_inverted_group_1(k),
        NamedKey::Help => lemma_named_inverted_group_1(k),
        NamedKey::Pause => lemma_named_inverted_group_1(k),
        NamedKey::Play => lemma_named_inverted_group_1(k),
        NamedKey::Props => lemma_named_inverted_group_1(k),
        NamedKey::Select => lemma_named_inverted_group_1(k),
        NamedKey::ZoomIn => lemma_named_inverted_group_1(k),
        NamedKey::ZoomOut => lemma_named_inverted_group_1(k),
        NamedKey::BrightnessDown => lemma_named_inverted_group_1(k),
        NamedKey::BrightnessUp => lemma_named_inverted_group_1(k),
        NamedKey::Eject => lemma_named_inverted_group_1(k),
        NamedKey::LogOff => lemma_named_inverted_group_1(k),
        NamedKey::Power => lemma_named_inverted_group_1(k),
        NamedKey::PowerOff => lemma_named_inverted_group_1(k),
        NamedKey::PrintScreen => lemma_named_inverted_group_1(k),
        NamedKey::Hibernate => lemma_named_inverted_group_1(k),
        NamedKey::Standby => lemma_named_inverted_group_1(k),
        NamedKey::WakeUp => lemma_named_inverted_group_1(k),
        NamedKey::AllCandidates => lemma_named_inverted_group_1(k),
        NamedKey::Alphanumeric => lemma_named_inverted_group_1(k),
        NamedKey::CodeInput => lemma_named_inverted_group_1(k),
        NamedKey::Compose => lemma_named_inverted_group_1(k),
        NamedKey::Convert => lemma_named_inverted_group_1(k),
        NamedKey::Dead => lemma_named_inverted_group_1(k),
        NamedKey::FinalMode => lemma_named_inverted_group_1(k),
        NamedKey::GroupFirst => lemma_named_inverted_group_1(k),
        NamedKey::GroupLast => lemma_named_inverted_group_1(k),
        NamedKey::GroupNext => lemma_named_inverted_group_1(k),
        NamedKey::GroupPrevious => lemma_named_inverted_group_1(k),
        NamedKey::ModeChange => lemma_named_inverted_group_1(k),
        NamedKey::NextCandidate => lemma_named_inverted_group_1(k),
        NamedKey::NonConvert => lemma_named_inverted_group_1(k),
        NamedKey::PreviousCandidate => lemma_named_inverted_group_1(k),
        NamedKey::Process => lemma_named_inverted_group_1(k),
        NamedKey::SingleCandidate => lemma_named_inverted_group_1(k),
        NamedKey::HangulMode => lemma_named_inverted_group_1(k),
        NamedKey::HanjaMode => lemma_named_inverted_group_2(k),
        NamedKey::JunjaMode => lemma_named_inverted_group_2(k),
        NamedKey::Eisu => lemma_named_inverted_group_2(k),
        NamedKey::Hankaku => lemma_named_inverted_group_2(k),
        NamedKey::Hiragana => lemma_named_inverted_group_2(k),
        NamedKey::HiraganaKatakana => lemma_named_inverted_group_2(k),
        NamedKey::KanaMode => lemma_named_inverted_group_2(k),
        NamedKey::KanjiMode => lemma_named_inverted_group_2(k),
        NamedKey::Katakana => lemma_named_inverted_group_2(k),
        NamedKey::Romaji => lemma_named_inverted_group_2(k),
        NamedKey::Zenkaku => lemma_named_inverted_group_2(k),
        NamedKey::ZenkakuHankaku => lemma_named_inverted_group_2(k),
        NamedKey::Soft1 => lemma_named_inverted_group_2(k),
        NamedKey::Soft2 => lemma_named_inverted_group_2(k),
        NamedKey::Soft3 => lemma_named_inverted_group_2(k),
        NamedKey::Soft4 => lemma_named_inverted_group_2(k),
        NamedKey::ChannelDown => lemma_named_inverted_group_2(k),
        NamedKey::ChannelUp => lemma_named_inverted_group_2(k),
        NamedKey::Close => lemma_named_inverted_group_2(k),
        NamedKey::MailForward => lemma_named_inverted_group_2(k),
        NamedKey::MailReply => lemma_named_inverted_group_2(k),
        NamedKey::MailSend => lemma_named_inverted_group_2(k),
        NamedKey::MediaClose => lemma_named_inverted_group_2(k),
        NamedKey::MediaFastForward => lemma_named_inverted_group_2(k),
        NamedKey::MediaPause => lemma_named_inverted_group_2(k),
        NamedKey::MediaPlay => lemma_named_inverted_group_2(k),
        NamedKey::MediaPlayPause => lemma_named_inverted_group_2(k),
        NamedKey::MediaRecord => lemma_named_inverted_group_2(k),
        NamedKey::MediaRewind => lemma_named_inverted_group_2(k),
        NamedKey::MediaStop => lemma_named_inverted_group_2(k),
        NamedKey::MediaTrackNext => lemma_named_inverted_group_2(k),
        NamedKey::MediaTrackPrevious => lemma_named_inverted_group_2(k),
        NamedKey::New => lemma_named_inverted_group_2(k),
        NamedKey::Open => lemma_named_inverted_group_2(k),
        NamedKey::Print => lemma_named_inverted_group_2(k),
        NamedKey::Save => lemma_named_inverted_group_2(k),
        NamedKey::SpellCheck => lemma_named_inverted_group_2(k),
        NamedKey::Key11 => lemma_named_inverted_group_2(k),
        NamedKey::Key12 => lemma_named_inverted_group_2(k),
        NamedKey::AudioBalanceLeft => lemma_named_inverted_group_2(k),
        NamedKey::AudioBalanceRight => lemma_named_inverted_group_3(k),
        NamedKey::AudioBassBoostDown => lemma_named_inverted_group_3(k),
        NamedKey::AudioBassBoostToggle => lemma_named_inverted_group_3(k),
        NamedKey::AudioBassBoostUp => lemma_named_inverted_group_3(k),
        NamedKey::AudioFaderFront => lemma_named_inverted_group_3(k),
        NamedKey::AudioFaderRear => lemma_named_inverted_group_3(k),
        NamedKey::AudioSurroundModeNext => lemma_named_inverted_group_3(k),
        NamedKey::AudioTrebleDown => lemma_named_inverted_group_3(k),
        NamedKey::AudioTrebleUp => lemma_named_inverted_group_3(k),
        NamedKey::AudioVolumeDown => lemma_named_inverted_group_3(k),
        NamedKey::AudioVolumeUp => lemma_named_inverted_group_3(k),
        NamedKey::AudioVolumeMute => lemma_named_inverted_group_3(k),
        NamedKey::MicrophoneToggle => lemma_named_inverted_group_3(k),
        NamedKey::MicrophoneVolumeDown => lemma_named_inverted_group_3(k),
        NamedKey::MicrophoneVolumeUp => lemma_named_inverted_group_3(k),
        NamedKey::MicrophoneVolumeMute => lemma_named_inverted_group_3(k),
        NamedKey::SpeechCorrectionList => lemma_named_inverted_group_3(k),
        NamedKey::SpeechInputToggle => lemma_named_inverted_group_3(k),
        NamedKey::LaunchApplication1 => lemma_named_inverted_group_3(k),
        NamedKey::LaunchApplication2 => lemma_named_inverted_group_3(k),
        NamedKey::LaunchCalendar => lemma_named_inverted_group_3(k),
        NamedKey::LaunchContacts => lemma_named_inverted_group_3(k),
        NamedKey::LaunchMail => lemma_named_inverted_group_3(k),
        NamedKey::LaunchMediaPlayer => lemma_named_inverted_group_3(k),
        NamedKey::LaunchMusicPlayer => lemma_named_inverted_group_3(k),
        NamedKey::LaunchPhone => lemma_named_inverted_group_3(k),
        NamedKey::LaunchScreenSaver => lemma_named_inverted_group_3(k),
        NamedKey::LaunchSpreadsheet => lemma_named_inverted_group_3(k),
        NamedKey::LaunchWebBrowser => lemma_named_inverted_group_3(k),
        NamedKey::LaunchWebCam => lemma_named_inverted_group_3(k),
        NamedKey::LaunchWordProcessor => lemma_named_inverted_group_3(k),
        NamedKey::BrowserBack => lemma_named_inverted_group_3(k),
        NamedKey::BrowserFavorites => lemma_named_inverted_group_3(k),
        NamedKey::BrowserForward => lemma_named_inverted_group_3(k),
        NamedKey::BrowserHome => lemma_named_inverted_group_3(k),
        NamedKey::BrowserRefresh => lemma_named_inverted_group_3(k),
        NamedKey::BrowserSearch => lemma_named_inverted_group_3(k),
        NamedKey::BrowserStop => lemma_named_inverted_group_3(k),
        NamedKey::AppSwitch => lemma_named_inverted_group_3(k),
        NamedKey::Call => lemma_named_inverted_group_3(k),
        NamedKey::Camera => lemma_named_inverted_group_4(k),
        NamedKey::CameraFocus => lemma_named_inverted_group_4(k),
        NamedKey::EndCall => lemma_named_inverted_group_4(k),
        NamedKey::GoBack => lemma_named_inverted_group_4(k),
        NamedKey::GoHome => lemma_named_inverted_group_4(k),
        NamedKey::HeadsetHook => lemma_named_inverted_group_4(k),
        NamedKey::LastNumberRedial => lemma_named_inverted_group_4(k),
        NamedKey::Notification => lemma_named_inverted_group_4(k),
        NamedKey::MannerMode => lemma_named_inverted_group_4(k),
        NamedKey::VoiceDial => lemma_named_inverted_group_4(k),
        NamedKey::TV => lemma_named_inverted_group_4(k),
        NamedKey::TV3DMode => lemma_named_inverted_group_4(k),
        NamedKey::TVAntennaCable => lemma_named_inverted_group_4(k),
        NamedKey::TVAudioDescription => lemma_named_inverted_group_4(k),
        NamedKey::TVAudioDescriptionMixDown => lemma_named_inverted_group_4(k),
        NamedKey::TVAudioDescriptionMixUp => lemma_named_inverted_group_4(k),
        NamedKey::TVContentsMenu => lemma_named_inverted_group_4(k),
        NamedKey::TVDataService => lemma_named_inverted_group_4(k),
        NamedKey::TVInput => lemma_named_inverted_group_4(k),
        NamedKey::TVInputComponent1 => lemma_named_inverted_group_4(k),
        NamedKey::TVInputComponent2 => lemma_named_inverted_group_4(k),
        NamedKey::TVInputComposite1 => lemma_named_inverted_group_4(k),
        NamedKey::TVInputComposite2 => lemma_named_inverted_group_4(k),
        NamedKey::TVInputHDMI1 => lemma_named_inverted_group_4(k),
        NamedKey::TVInputHDMI2 => lemma_named_inverted_group_4(k),
        NamedKey::TVInputHDMI3 => lemma_named_inverted_group_4(k),
        NamedKey::TVInputHDMI4 => lemma_named_inverted_group_4(k),
        NamedKey::TVInputVGA1 => lemma_named_inverted_group_4(k),
        NamedKey::TVMediaContext => lemma_named_inverted_group_4(k),
        NamedKey::TVNetwork => lemma_named_inverted_group_4(k),
        NamedKey::TVNumberEntry => lemma_named_inverted_group_4(k),
        NamedKey::TVPower => lemma_named_inverted_group_4(k),
        NamedKey::TVRadioService => lemma_named_inverted_group_4(k),
        NamedKey::TVSatellite => lemma_named_inverted_group_4(k),
        NamedKey::TVSatelliteBS => lemma_named_inverted_group_4(k),
        NamedKey::TVSatelliteCS => lemma_named_inverted_group_4(k),
        NamedKey::TVSatelliteToggle => lemma_named_inverted_group_4(k),
        NamedKey::TVTerrestrialAnalog => lemma_named_inverted_group_4(k),
        NamedKey::TVTerrestrialDigital => lemma_named_inverted_group_4(k),
        NamedKey::TVTimer => lemma_named_inverted_group_4(k),
        NamedKey::AVRInput => lemma_named_inverted_group_5(k),
        NamedKey::AVRPower => lemma_named_inverted_group_5(k),
        NamedKey::ColorF0Red => lemma_named_inverted_group_5(k),
        NamedKey::ColorF1Green => lemma_named_inverted_group_5(k),
        NamedKey::ColorF2Yellow => lemma_named_inverted_group_5(k),
        NamedKey::ColorF3Blue => lemma_named_inverted_group_5(k),
        NamedKey::ColorF4Grey => lemma_named_inverted_group_5(k),
        NamedKey::ColorF5Brown => lemma_named_inverted_group_5(k),
        NamedKey::ClosedCaptionToggle => lemma_named_inverted_group_5(k),
        NamedKey::Dimmer => lemma_named_inverted_group_5(k),
        NamedKey::DisplaySwap => lemma_named_inverted_group_5(k),
        NamedKey::DVR => lemma_named_inverted_group_5(k),
        NamedKey::Exit => lemma_named_inverted_group_5(k),
        NamedKey::FavoriteClear0 => lemma_named_inverted_group_5(k),
        NamedKey::FavoriteClear1 => lemma_named_inverted_group_5(k),
        NamedKey::FavoriteClear2 => lemma_named_inverted_group_5(k),
        NamedKey::FavoriteClear3 => lemma_named_inverted_group_5(k),
        NamedKey::FavoriteRecall0 => lemma_named_inverted_group_5(k),
        NamedKey::FavoriteRecall1 => lemma_named_inverted_group_5(k),
        NamedKey::FavoriteRecall2 => lemma_named_inverted_group_5(k),
        NamedKey::FavoriteRecall3 => lemma_named_inverted_group_5(k),
        NamedKey::FavoriteStore0 => lemma_named_inverted_group_5(k),
        NamedKey::FavoriteStore1 => lemma_named_inverted_group_5(k),
        NamedKey::FavoriteStore2 => lemma_named_inverted_group_5(k),
        NamedKey::FavoriteStore3 => lemma_named_inverted_group_5(k),
        NamedKey::Guide => lemma_named_inverted_group_5(k),
        NamedKey::GuideNextDay => lemma_named_inverted_group_5(k),
        NamedKey::GuidePreviousDay => lemma_named_inverted_group_5(k),
        NamedKey::Info => lemma_named_inverted_group_5(k),
        NamedKey::InstantReplay => lemma_named_inverted_group_5(k),
        NamedKey::Link => lemma_named_inverted_group_5(k),
        NamedKey::ListProgram => lemma_named_inverted_group_5(k),
        NamedKey::LiveContent => lemma_named_inverted_group_5(k),
        NamedKey::Lock => lemma_named_inverted_group_5(k),
        NamedKey::MediaApps => lemma_named_inverted_group_5(k),
        NamedKey::MediaAudioTrack => lemma_named_inverted_group_5(k),
        NamedKey::MediaLast => lemma_named_inverted_group_5(k),
        NamedKey::MediaSkipBackward => lemma_named_inverted_group_5(k),
        NamedKey::MediaSkipForward => lemma_named_inverted_group_5(k),
        NamedKey::MediaStepBackward => lemma_named_inverted_group_5(k),
        NamedKey::MediaStepForward => lemma_named_inverted_group_6(k),
        NamedKey::MediaTopMenu => lemma_named_inverted_group_6(k),
        NamedKey::NavigateIn => lemma_named_inverted_group_6(k),
        NamedKey::NavigateNext => lemma_named_inverted_group_6(k),
        NamedKey::NavigateOut => lemma_named_inverted_group_6(k),
        NamedKey::NavigatePrevious => lemma_named_inverted_group_6(k),
        NamedKey::NextFavoriteChannel => lemma_named_inverted_group_6(k),
        NamedKey::NextUserProfile => lemma_named_inverted_group_6(k),
        NamedKey::OnDemand => lemma_named_inverted_group_6(k),
        NamedKey::Pairing => lemma_named_inverted_group_6(k),
        NamedKey::PinPDown => lemma_named_inverted_group_6(k),
        NamedKey::PinPMove => lemma_named_inverted_group_6(k),
        NamedKey::PinPToggle => lemma_named_inverted_group_6(k),
        NamedKey::PinPUp => lemma_named_inverted_group_6(k),
        NamedKey::PlaySpeedDown => lemma_named_inverted_group_6(k),
        NamedKey::PlaySpeedReset => lemma_named_inverted_group_6(k),
        NamedKey::PlaySpeedUp => lemma_named_inverted_group_6(k),
        NamedKey::RandomToggle => lemma_named_inverted_group_6(k),
        NamedKey::RcLowBattery => lemma_named_inverted_group_6(k),
        NamedKey::RecordSpeedNext => lemma_named_inverted_group_6(k),
        NamedKey::RfBypass => lemma_named_inverted_group_6(k),
        NamedKey::ScanChannelsToggle => lemma_named_inverted_group_6(k),
        NamedKey::ScreenModeNext => lemma_named_inverted_group_6(k),
        NamedKey::Settings => lemma_named_inverted_group_6(k),
        NamedKey::SplitScreenToggle => lemma_named_inverted_group_6(k),
        NamedKey::STBInput => lemma_named_inverted_group_6(k),
        NamedKey::STBPower => lemma_named_inverted_group_6(k),
        NamedKey::Subtitle => lemma_named_inverted_group_6(k),
        NamedKey::Teletext => lemma_named_inverted_group_6(k),
        NamedKey::VideoModeNext => lemma_named_inverted_group_6(k),
        NamedKey::Wink => lemma_named_inverted_group_6(k),
        NamedKey::ZoomToggle => lemma_named_inverted_group_6(k),
        NamedKey::F1 => lemma_named_inverted_group_6(k),
        NamedKey::F2 => lemma_named_inverted_group_6(k),
        NamedKey::F3 => lemma_named_inverted_group_6(k),
        NamedKey::F4 => lemma_named_inverted_group_6(k),
        NamedKey::F5 => lemma_named_inverted_group_6(k),
        NamedKey::F6 => lemma_named_inverted_group_6(k),
        NamedKey::F7 => lemma_named_inverted_group_6(k),
        NamedKey::F8 => lemma_named_inverted_group_6(k),
        NamedKey::F9 => lemma_named_inverted_group_7(k),
        NamedKey::F10 => lemma_named_inverted_group_7(k),
        NamedKey::F11 => lemma_named_inverted_group_7(k),
        NamedKey::F12 => lemma_named_inverted_group_7(k),
        NamedKey::F13 => lemma_named_inverted_group_7(k),
        NamedKey::F14 => lemma_named_inverted_group_7(k),
        NamedKey::F15 => lemma_named_inverted_group_7(k),
        NamedKey::F16 => lemma_named_inverted_group_7(k),
        NamedKey::F17 => lemma_named_inverted_group_7(k),
        NamedKey::F18 => lemma_named_inverted_group_7(k),
        NamedKey::F19 => lemma_named_inverted_group_7(k),
        NamedKey::F20 => lemma_named_inverted_group_7(k),
        NamedKey::F21 => lemma_named_inverted_group_7(k),
        NamedKey::F22 => lemma_named_inverted_group_7(k),
        NamedKey::F23 => lemma_named_inverted_group_7(k),
        NamedKey::F24 => lemma_named_inverted_group_7(k),
        NamedKey::F25 => lemma_named_inverted_group_7(k),
        NamedKey::F26 => lemma_named_inverted_group_7(k),
        NamedKey::F27 => lemma_named_inverted_group_7(k),
        NamedKey::F28 => lemma_named_inverted_group_7(k),
        NamedKey::F29 => lemma_named_inverted_group_7(k),
        NamedKey::F30 => lemma_named_inverted_group_7(k),
        NamedKey::F31 => lemma_named_inverted_group_7(k),
        NamedKey::F32 => lemma_named_inverted_group_7(k),
        NamedKey::F33 => lemma_named_inverted_group_7(k),
        NamedKey::F34 => lemma_named_inverted_group_7(k),
        NamedKey::F35 => lemma_named_inverted_group_7(k),
    }
}

proof fn lemma_named_key_for_reported(n: IcedNamed)
    ensures
        named_key_reported(n),
{
    match n {
        IcedNamed::Alt => lemma_named_reported_group_0(n),
        IcedNamed::AltGraph => lemma_named_reported_group_0(n),
        IcedNamed::CapsLock => lemma_named_reported_group_0(n),
        IcedNamed::Control => lemma_named_reported_group_0(n),
        IcedNamed::Fn => lemma_named_reported_group_0(n),
        IcedNamed::FnLock => lemma_named_reported_group_0(n),
        IcedNamed::NumLock => lemma_named_reported_group_0(n),
        IcedNamed::ScrollLock => lemma_named_reported_group_0(n),
        IcedNamed::Shift => lemma_named_reported_group_0(n),
        IcedNamed::Symbol => lemma_named_reported_group_0(n),
        IcedNamed::SymbolLock => lemma_named_reported_group_0(n),
        IcedNamed::Meta => lemma_named_reported_group_0(n),
        IcedNamed::Hyper => lemma_named_reported_group_0(n),
        IcedNamed::Super => lemma_named_reported_group_0(n),
        IcedNamed::Enter => lemma_named_reported_group_0(n),
        IcedNamed::Tab => lemma_named_reported_group_0(n),
        IcedNamed::Space => lemma_named_reported_group_0(n),
        IcedNamed::ArrowDown => lemma_named_reported_group_0(n),
        IcedNamed::ArrowLeft => lemma_named_reported_group_0(n),
        IcedNamed::ArrowRight => lemma_named_reported_group_0(n),
        IcedNamed::ArrowUp => lemma_named_reported_group_0(n),
        IcedNamed::End => lemma_named_reported_group_0(n),
        IcedNamed::Home => lemma_named_reported_group_0(n),
        IcedNamed::PageDown => lemma_named_reported_group_0(n),
        IcedNamed::PageUp => lemma_named_reported_group_0(n),
        IcedNamed::Backspace => lemma_named_reported_group_0(n),
        IcedNamed::Clear => lemma_named_reported_group_0(n),
        IcedNamed::Copy => lemma_named_reported_group_0(n),
        IcedNamed::CrSel => lemma_named_reported_group_0(n),
        IcedNamed::Cut => lemma_named_reported_group_0(n),
        IcedNamed::Delete => lemma_named_reported_group_0(n),
        IcedNamed::EraseEof => lemma_named_reported_group_0(n),
        IcedNamed::ExSel => lemma_named_reported_group_0(n),
        IcedNamed::Insert => lemma_named_reported_group_0(n),
        IcedNamed::Paste => lemma_named_reported_group_0(n),
        IcedNamed::Redo => lemma_named_reported_group_0(n),
        IcedNamed::Undo => lemma_named_reported_group_0(n),
        IcedNamed::Accept => lemma_named_reported_group_0(n),
        IcedNamed::Again => lemma_named_reported_group_0(n),
        IcedNamed::Attn => lemma_named_reported_group_0(n),
        IcedNamed::Cancel => lemma_named_reported_group_1(n),
        IcedNamed::ContextMenu => lemma_named_reported_group_1(n),
        IcedNamed::Escape => lemma_named_reported_group_1(n),
        IcedNamed::Execute => lemma_named_reported_group_1(n),
        IcedNamed::Find => lemma_named_reported_group_1(n),
        IcedNamed::Help => lemma_named_reported_group_1(n),
        IcedNamed::Pause => lemma_named_reported_group_1(n),
        IcedNamed::Play => lemma_named_reported_group_1(n),
        IcedNamed::Props => lemma_named_reported_group_1(n),
        IcedNamed::Select => lemma_named_reported_group_1(n),
        IcedNamed::ZoomIn => lemma_named_reported_group_1(n),
        IcedNamed::ZoomOut => lemma_named_reported_group_1(n),
        IcedNamed::BrightnessDown => lemma_named_reported_group_1(n),
        IcedNamed::BrightnessUp => lemma_named_reported_group_1(n),
        IcedNamed::Eject => lemma_named_reported_group_1(n),
        IcedNamed::LogOff => lemma_named_reported_group_1(n),
        IcedNamed::Power => lemma_named_reported_group_1(n),
        IcedNamed::PowerOff => lemma_named_reported_group_1(n),
        IcedNamed::PrintScreen => lemma_named_reported_group_1(n),
        IcedNamed::Hibernate => lemma_named_reported_group_1(n),
        IcedNamed::Standby => lemma_named_reported_group_1(n),
        IcedNamed::WakeUp => lemma_named_reported_group_1(n),
        IcedNamed::AllCandidates => lemma_named_reported_group_1(n),
        IcedNamed::Alphanumeric => lemma_named_reported_group_1(n),
        IcedNamed::CodeInput => lemma_named_reported_group_1(n),
        IcedNamed::Compose => lemma_named_reported_group_1(n),
        IcedNamed::Convert => lemma_named_reported_group_1(n),
        IcedNamed::FinalMode => lemma_named_reported_group_1(n),
        IcedNamed::GroupFirst => lemma_named_reported_group_1(n),
        IcedNamed::GroupLast => lemma_named_reported_group_1(n),
        IcedNamed::GroupNext => lemma_named_reported_group_1(n),
        IcedNamed::GroupPrevious => lemma_named_reported_group_1(n),
        IcedNamed::ModeChange => lemma_named_reported_group_1(n),
        IcedNamed::NextCandidate => lemma_named_reported_group_1(n),
        IcedNamed::NonConvert => lemma_named_reported_group_1(n),
        IcedNamed::PreviousCandidate => lemma_named_reported_group_1(n),
        IcedNamed::Process => lemma_named_reported_group_1(n),
        IcedNamed::SingleCandidate => lemma_named_reported_group_1(n),
        IcedNamed::HangulMode => lemma_named_reported_group_1(n),
        IcedNamed::HanjaMode => lemma_named_reported_group_1(n),
        IcedNamed::JunjaMode => lemma_named_reported_group_2(n),
        IcedNamed::Eisu => lemma_named_reported_group_2(n),
        IcedNamed::Hankaku => lemma_named_reported_group_2(n),
        IcedNamed::Hiragana => lemma_named_reported_group_2(n),
        IcedNamed::HiraganaKatakana => lemma_named_reported_group_2(n),
        IcedNamed::KanaMode => lemma_named_reported_group_2(n),
        IcedNamed::KanjiMode => lemma_named_reported_group_2(n),
        IcedNamed::Katakana => lemma_named_reported_group_2(n),
        IcedNamed::Romaji => lemma_named_reported_group_2(n),
        IcedNamed::Zenkaku => lemma_named_reported_group_2(n),
        IcedNamed::ZenkakuHankaku => lemma_named_reported_group_2(n),
        IcedNamed::Soft1 => lemma_named_reported_group_2(n),
        IcedNamed::Soft2 => lemma_named_reported_group_2(n),
        IcedNamed::Soft3 => lemma_named_reported_group_2(n),
        IcedNamed::Soft4 => lemma_named_reported_group_2(n),
        IcedNamed::ChannelDown => lemma_named_reported_group_2(n),
        IcedNamed::ChannelUp => lemma_named_reported_group_2(n),
        IcedNamed::Close => lemma_named_reported_group_2(n),
        IcedNamed::MailForward => lemma_named_reported_group_2(n),
        IcedNamed::MailReply => lemma_named_reported_group_2(n),
        IcedNamed::MailSend => lemma_named_reported_group_2(n),
        IcedNamed::MediaClose => lemma_named_reported_group_2(n),
        IcedNamed::MediaFastForward => lemma_named_reported_group_2(n),
        IcedNamed::MediaPause => lemma_named_reported_group_2(n),
        IcedNamed::MediaPlay => lemma_named_reported_group_2(n),
        IcedNamed::MediaPlayPause => lemma_named_reported_group_2(n),
        IcedNamed::MediaRecord => lemma_named_reported_group_2(n),
        IcedNamed::MediaRewind => lemma_named_reported_group_2(n),
        IcedNamed::MediaStop => lemma_named_reported_group_2(n),
        IcedNamed::MediaTrackNext => lemma_named_reported_group_2(n),
        IcedNamed::MediaTrackPrevious => lemma_named_reported_group_2(n),
        IcedNamed::New => lemma_named_reported_group_2(n),
        IcedNamed::Open => lemma_named_reported_group_2(n),
        IcedNamed::Print => lemma_named_reported_group_2(n),
        IcedNamed::Save => lemma_named_reported_group_2(n),
        IcedNamed::SpellCheck => lemma_named_reported_group_2(n),
        IcedNamed::Key11 => lemma_named_reported_group_2(n),
        IcedNamed::Key12 => lemma_named_reported_group_2(n),
        IcedNamed::AudioBalanceLeft => lemma_named_reported_group_2(n),
        IcedNamed::AudioBalanceRight => lemma_named_reported_group_2(n),
        IcedNamed::AudioBassBoostDown => lemma_named_reported_group_3(n),
        IcedNamed::AudioBassBoostToggle => lemma_named_reported_group_3(n),
        IcedNamed::AudioBassBoostUp => lemma_named_reported_group_3(n),
        IcedNamed::AudioFaderFront => lemma_named_reported_group_3(n),
        IcedNamed::AudioFaderRear => lemma_named_reported_group_3(n),
        IcedNamed::AudioSurroundModeNext => lemma_named_reported_group_3(n),
        IcedNamed::AudioTrebleDown => lemma_named_reported_group_3(n),
        IcedNamed::AudioTrebleUp => lemma_named_reported_group_3(n),
        IcedNamed::AudioVolumeDown => lemma_named_reported_group_3(n),
        IcedNamed::AudioVolumeUp => lemma_named_reported_group_3(n),
        IcedNamed::AudioVolumeMute => lemma_named_reported_group_3(n),
        IcedNamed::MicrophoneToggle => lemma_named_reported_group_3(n),
        IcedNamed::MicrophoneVolumeDown => lemma_named_reported_group_3(n),
        IcedNamed::MicrophoneVolumeUp => lemma_named_reported_group_3(n),
        IcedNamed::MicrophoneVolumeMute => lemma_named_reported_group_3(n),
        IcedNamed::SpeechCorrectionList => lemma_named_reported_group_3(n),
        IcedNamed::SpeechInputToggle => lemma_named_reported_group_3(n),
        IcedNamed::LaunchApplication1 => lemma_named_reported_group_3(n),
        IcedNamed::LaunchApplication2 => lemma_named_reported_group_3(n),
        IcedNamed::LaunchCalendar => lemma_named_reported_group_3(n),
        IcedNamed::LaunchContacts => lemma_named_reported_group_3(n),
        IcedNamed::LaunchMail => lemma_named_reported_group_3(n),
        IcedNamed::LaunchMediaPlayer => lemma_named_reported_group_3(n),
        IcedNamed::LaunchMusicPlayer => lemma_named_reported_group_3(n),
        IcedNamed::LaunchPhone => lemma_named_reported_group_3(n),
        IcedNamed::LaunchScreenSaver => lemma_named_reported_group_3(n),
        IcedNamed::LaunchSpreadsheet => lemma_named_reported_group_3(n),
        IcedNamed::LaunchWebBrowser => lemma_named_reported_group_3(n),
        IcedNamed::LaunchWebCam => lemma_named_reported_group_3(n),
        IcedNamed::LaunchWordProcessor => lemma_named_reported_group_3(n),
        IcedNamed::BrowserBack => lemma_named_reported_group_3(n),
        IcedNamed::BrowserFavorites => lemma_named_reported_group_3(n),
        IcedNamed::BrowserForward => lemma_named_reported_group_3(n),
        IcedNamed::BrowserHome => lemma_named_reported_group_3(n),
        IcedNamed::BrowserRefresh => lemma_named_reported_group_3(n),
        IcedNamed::BrowserSearch => lemma_named_reported_group_3(n),
        IcedNamed::BrowserStop => lemma_named_reported_group_3(n),
        IcedNamed::AppSwitch => lemma_named_reported_group_3(n),
        IcedNamed::Call => lemma_named_reported_group_3(n),
        IcedNamed::Camera => lemma_named_reported_group_3(n),
        IcedNamed::CameraFocus => lemma_named_reported_group_4(n),
        IcedNamed::EndCall => lemma_named_reported_group_4(n),
        IcedNamed::GoBack => lemma_named_reported_group_4(n),
        IcedNamed::GoHome => lemma_named_reported_group_4(n),
        IcedNamed::HeadsetHook => lemma_named_reported_group_4(n),
        IcedNamed::LastNumberRedial => lemma_named_reported_group_4(n),
        IcedNamed::Notification => lemma_named_reported_group_4(n),
        IcedNamed::MannerMode => lemma_named_reported_group_4(n),
        IcedNamed::VoiceDial => lemma_named_reported_group_4(n),
        IcedNamed::TV => lemma_named_reported_group_4(n),
        IcedNamed::TV3DMode => lemma_named_reported_group_4(n),
        IcedNamed::TVAntennaCable => lemma_named_reported_group_4(n),
        IcedNamed::TVAudioDescription => lemma_named_reported_group_4(n),
        IcedNamed::TVAudioDescriptionMixDown => lemma_named_reported_group_4(n),
        IcedNamed::TVAudioDescriptionMixUp => lemma_named_reported_group_4(n),
        IcedNamed::TVContentsMenu => lemma_named_reported_group_4(n),
        IcedNamed::TVDataService => lemma_named_reported_group_4(n),
        IcedNamed::TVInput => lemma_named_reported_group_4(n),
        IcedNamed::TVInputComponent1 => lemma_named_reported_group_4(n),
        IcedNamed::TVInputComponent2 => lemma_named_reported_group_4(n),
        IcedNamed::TVInputComposite1 => lemma_named_reported_group_4(n),
        IcedNamed::TVInputComposite2 => lemma_named_reported_group_4(n),
        IcedNamed::TVInputHDMI1 => lemma_named_reported_group_4(n),
        IcedNamed::TVInputHDMI2 => lemma_named_reported_group_4(n),
        IcedNamed::TVInputHDMI3 => lemma_named_reported_group_4(n),
        IcedNamed::TVInputHDMI4 => lemma_named_reported_group_4(n),
        IcedNamed::TVInputVGA1 => lemma_named_reported_group_4(n),
        IcedNamed::TVMediaContext => lemma_named_reported_group_4(n),
        IcedNamed::TVNetwork => lemma_named_reported_group_4(n),
        IcedNamed::TVNumberEntry => lemma_named_reported_group_4(n),
        IcedNamed::TVPower => lemma_named_reported_group_4(n),
        IcedNamed::TVRadioService => lemma_named_reported_group_4(n),
        IcedNamed::TVSatellite => lemma_named_reported_group_4(n),
        IcedNamed::TVSatelliteBS => lemma_named_reported_group_4(n),
        IcedNamed::TVSatelliteCS => lemma_named_reported_group_4(n),
        IcedNamed::TVSatelliteToggle => lemma_named_reported_group_4(n),
        IcedNamed::TVTerrestrialAnalog => lemma_named_reported_group_4(n),
        IcedNamed::TVTerrestrialDigital => lemma_named_reported_group_4(n),
        IcedNamed::TVTimer => lemma_named_reported_group_4(n),
        IcedNamed::AVRInput => lemma_named_reported_group_4(n),
        IcedNamed::AVRPower => lemma_named_reported_group_5(n),
        IcedNamed::ColorF0Red => lemma_named_reported_group_5(n),
        IcedNamed::ColorF1Green => lemma_named_reported_group_5(n),
        IcedNamed::ColorF2Yellow => lemma_named_reported_group_5(n),
        IcedNamed::ColorF3Blue => lemma_named_reported_group_5(n),
        IcedNamed::ColorF4Grey => lemma_named_reported_group_5(n),
        IcedNamed::ColorF5Brown => lemma_named_reported_group_5(n),
        IcedNamed::ClosedCaptionToggle => lemma_named_reported_group_5(n),
        IcedNamed::Dimmer => lemma_named_reported_group_5(n),
        IcedNamed::DisplaySwap => lemma_named_reported_group_5(n),
        IcedNamed::DVR => lemma_named_reported_group_5(n),
        IcedNamed::Exit => lemma_named_reported_group_5(n),
        IcedNamed::FavoriteClear0 => lemma_named_reported_group_5(n),
        IcedNamed::FavoriteClear1 => lemma_named_reported_group_5(n),
        IcedNamed::FavoriteClear2 => lemma_named_reported_group_5(n),
        IcedNamed::FavoriteClear3 => lemma_named_reported_group_5(n),
        IcedNamed::FavoriteRecall0 => lemma_named_reported_group_5(n),
        IcedNamed::FavoriteRecall1 => lemma_named_reported_group_5(n),
        IcedNamed::FavoriteRecall2 => lemma_named_reported_group_5(n),
        IcedNamed::FavoriteRecall3 => lemma_named_reported_group_5(n),
        IcedNamed::FavoriteStore0 => lemma_named_reported_group_5(n),
        IcedNamed::FavoriteStore1 => lemma_named_reported_group_5(n),
        IcedNamed::FavoriteStore2 => lemma_named_reported_group_5(n),
        IcedNamed::FavoriteStore3 => lemma_named_reported_group_5(n),
        IcedNamed::Guide => lemma_named_reported_group_5(n),
        IcedNamed::GuideNextDay => lemma_named_reported_group_5(n),
        IcedNamed::GuidePreviousDay => lemma_named_reported_group_5(n),
        IcedNamed::Info => lemma_named_reported_group_5(n),
        IcedNamed::InstantReplay => lemma_named_reported_group_5(n),
        IcedNamed::Link => lemma_named_reported_group_5(n),
        IcedNamed::ListProgram => lemma_named_reported_group_5(n),
        IcedNamed::LiveContent => lemma_named_reported_group_5(n),
        IcedNamed::Lock => lemma_named_reported_group_5(n),
        IcedNamed::MediaApps => lemma_named_reported_group_5(n),
        IcedNamed::MediaAudioTrack => lemma_named_reported_group_5(n),
        IcedNamed::MediaLast => lemma_named_reported_group_5(n),
        IcedNamed::MediaSkipBackward => lemma_named_reported_group_5(n),
        IcedNamed::MediaSkipForward => lemma_named_reported_group_5(n),
        IcedNamed::MediaStepBackward => lemma_named_reported_group_5(n),
        IcedNamed::MediaStepForward => lemma_named_reported_group_5(n),
        IcedNamed::MediaTopMenu => lemma_named_reported_group_6(n),
        IcedNamed::NavigateIn => lemma_named_reported_group_6(n),
        IcedNamed::NavigateNext => lemma_named_reported_group_6(n),
        IcedNamed::NavigateOut => lemma_named_reported_group_6(n),
        IcedNamed::NavigatePrevious => lemma_named_reported_group_6(n),
        IcedNamed::NextFavoriteChannel => lemma_named_reported_group_6(n),
        IcedNamed::NextUserProfile => lemma_named_reported_group_6(n),
        IcedNamed::OnDemand => lemma_named_reported_group_6(n),
        IcedNamed::Pairing => lemma_named_reported_group_6(n),
        IcedNamed::PinPDown => lemma_named_reported_group_6(n),
        IcedNamed::PinPMove => lemma_named_reported_group_6(n),
        IcedNamed::PinPToggle => lemma_named_reported_group_6(n),
        IcedNamed::PinPUp => lemma_named_reported_group_6(n),
        IcedNamed::PlaySpeedDown => lemma_named_reported_group_6(n),
        IcedNamed::PlaySpeedReset => lemma_named_reported_group_6(n),
        IcedNamed::PlaySpeedUp => lemma_named_reported_group_6(n),
        IcedNamed::RandomToggle => lemma_named_reported_group_6(n),
        IcedNamed::RcLowBattery => lemma_named_reported_group_6(n),
        IcedNamed::RecordSpeedNext => lemma_named_reported_group_6(n),
        IcedNamed::RfBypass => lemma_named_reported_group_6(n),
        IcedNamed::ScanChannelsToggle => lemma_named_reported_group_6(n),
        IcedNamed::ScreenModeNext => lemma_named_reported_group_6(n),
        IcedNamed::Settings => lemma_named_reported_group_6(n),
        IcedNamed::SplitScreenToggle => lemma_named_reported_group_6(n),
        IcedNamed::STBInput => lemma_named_reported_group_6(n),
        IcedNamed::STBPower => lemma_named_reported_group_6(n),
        IcedNamed::Subtitle => lemma_named_reported_group_6(n),
        IcedNamed::Teletext => lemma_named_reported_group_6(n),
        IcedNamed::VideoModeNext => lemma_named_reported_group_6(n),
        IcedNamed::Wink => lemma_named_reported_group_6(n),
        IcedNamed::ZoomToggle => lemma_named_reported_group_6(n),
        IcedNamed::F1 => lemma_named_reported_group_6(n),
        IcedNamed::F2 => lemma_named_reported_group_6(n),
        IcedNamed::F3 => lemma_named_reported_group_6(n),
        IcedNamed::F4 => lemma_named_reported_group_6(n),
        IcedNamed::F5 => lemma_named_reported_group_6(n),
        IcedNamed::F6 => lemma_named_reported_group_6(n),
        IcedNamed::F7 => lemma_named_reported_group_6(n),
        IcedNamed::F8 => lemma_named_reported_group_6(n),
        IcedNamed::F9 => lemma_named_reported_group_6(n),
        IcedNamed::F10 => lemma_named_reported_group_7(n),
        IcedNamed::F11 => lemma_named_reported_group_7(n),
        IcedNamed::F12 => lemma_named_reported_group_7(n),
        IcedNamed::F13 => lemma_named_reported_group_7(n),
        IcedNamed::F14 => lemma_named_reported_group_7(n),
        IcedNamed::F15 => lemma_named_reported_group_7(n),
        IcedNamed::F16 => lemma_named_reported_group_7(n),
        IcedNamed::F17 => lemma_named_reported_group_7(n),
        IcedNamed::F18 => lemma_named_reported_group_7(n),
        IcedNamed::F19 => lemma_named_reported_group_7(n),
        IcedNamed::F20 => lemma_named_reported_group_7(n),
        IcedNamed::F21 => lemma_named_reported_group_7(n),
        IcedNamed::F22 => lemma_named_reported_group_7(n),
        IcedNamed::F23 => lemma_named_reported_group_7(n),
        IcedNamed::F24 => lemma_named_reported_group_7(n),
        IcedNamed::F25 => lemma_named_reported_group_7(n),
        IcedNamed::F26 => lemma_named_reported_group_7(n),
        IcedNamed::F27 => lemma_named_reported_group_7(n),
        IcedNamed::F28 => lemma_named_reported_group_7(n),
        IcedNamed::F29 => lemma_named_reported_group_7(n),
        IcedNamed::F30 => lemma_named_reported_group_7(n),
        IcedNamed::F31 => lemma_named_reported_group_7(n),
        IcedNamed::F32 => lemma_named_reported_group_7(n),
        IcedNamed::F33 => lemma_named_reported_group_7(n),
        IcedNamed::F34 => lemma_named_reported_group_7(n),
        IcedNamed::F35 => lemma_named_reported_group_7(n),
    }
}

/// Named keys keep their names: each key the toolkit stands for by name is
/// reported as that toolkit key, a key reported by name comes back from it
/// (the hyper and super keys are reported as the meta key), and so two
/// different named keys are never reported as the same toolkit key unless
/// both are among meta, hyper and super.
pub proof fn lemma_named_keys_kept_apart(a: NamedKey, b: NamedKey, n: IcedNamed)
    ensures
        named_key_for(n) matches Some(k) ==> iced_key_of(Key::Named(k)) == IcedKey::Named(n),
        iced_key_of(Key::Named(a)) == IcedKey::Named(n) ==> (if a == NamedKey::Hyper || a
            == NamedKey::Super {
            n == IcedNamed::Meta
        } else {
            named_key_for(n) == Some(a)
        }),
        a != b && iced_key_of(Key::Named(a)) is Named && iced_key_of(Key::Named(a))
            == iced_key_of(Key::Named(b)) ==> is_meta_like(a) && is_meta_like(b),
{
    lemma_named_key_for_inverts(a);
    lemma_named_key_for_inverts(b);
    lemma_named_key_for_reported(n);
}

/// The meta key and the keys reported as it.
pub open spec fn is_meta_like(k: NamedKey) -> bool {
    k == NamedKey::Meta || k == NamedKey::Hyper || k == NamedKey::Super
}

/// The code a toolkit code comes from (`Unidentified` for codes no code maps
/// to): the inverse of [`iced_code_of`] up to [`code_class`].
pub open spec fn code_from_iced(code: IcedCode) -> Code {
    match code {
        IcedCode::KeyA => Code::KeyA,
        IcedCode::KeyB => Code::KeyB,
        IcedCode::KeyC => Code::KeyC,
        IcedCode::KeyD => Code::KeyD,
        IcedCode::KeyE => Code::KeyE,
        IcedCode::KeyF => Code::KeyF,
        IcedCode::KeyG => Code::KeyG,
        IcedCode::KeyH => Code::KeyH,
        IcedCode::KeyI => Code::KeyI,
        IcedCode::KeyJ => Code::KeyJ,
        IcedCode::KeyK => Code::KeyK,
        IcedCode::KeyL => Code::KeyL,
        IcedCode::KeyM => Code::KeyM,
        IcedCode::KeyN => Code::KeyN,
        IcedCode::KeyO => Code::KeyO,
        IcedCode::KeyP => Code::KeyP,
        IcedCode::KeyQ => Code::KeyQ,
        IcedCode::KeyR => Code::KeyR,
        IcedCode::KeyS => Code::KeyS,
        IcedCode::KeyT => Code::KeyT,
        IcedCode::KeyU => Code::KeyU,
        IcedCode::KeyV => Code::KeyV,
        IcedCode::KeyW => Code::KeyW,
        IcedCode::KeyX => Code::KeyX,
        IcedCode::KeyY => Code::KeyY,
        IcedCode::KeyZ => Code::KeyZ,
        IcedCode::Escape => Code::Escape,
        IcedCode::F1 => Code::F1,
        IcedCode::F2 => Code::F2,
        IcedCode::F3 => Code::F3,
        IcedCode::F4 => Code::F4,
        IcedCode::F5 => Code::F5,
        IcedCode::F6 => Code::F6,
        IcedCode::F7 => Code::F7,
        IcedCode::F8 => Code::F8,
        IcedCode::F9 => Code::F9,
        IcedCode::F10 => Code::F10,
        IcedCode::F11 => Code::F11,
        IcedCode::F12 => Code::F12,
        IcedCode::PrintScreen => Code::PrintScreen,
        IcedCode::ScrollLock => Code::ScrollLock,
        IcedCode::Pause => Code::Pause,
        IcedCode::Insert => Code::Insert,
        IcedCode::Home => Code::Home,
        IcedCode::Delete => Code::Delete,
        IcedCode::End => Code::End,
        IcedCode::PageDown => Code::PageDown,
        IcedCode::PageUp => Code::PageUp,
        IcedCode::ArrowLeft => Code::ArrowLeft,
        IcedCode::ArrowUp => Code::ArrowUp,
        IcedCode::ArrowRight => Code::ArrowRight,
        IcedCode::ArrowDown => Code::ArrowDown,
        IcedCode::Backspace => Code::Backspace,
        IcedCode::Enter => Code::Enter,
        IcedCode::Space => Code::Space,
        IcedCode::NumLock => Code::NumLock,
        IcedCode::Numpad0 => Code::Numpad0,
        IcedCode::Numpad1 => Code::Numpad1,
        IcedCode::Numpad2 => Code::Numpad2,
        IcedCode::Numpad3 => Code::Numpad3,
        IcedCode::Numpad4 => Code::Numpad4,
        IcedCode::Numpad5 => Code::Numpad5,
        IcedCode::Numpad6 => Code::Numpad6,
        IcedCode::Numpad7 => Code::Numpad7,
        IcedCode::Numpad8 => Code::Numpad8,
        IcedCode::Numpad9 => Code::Numpad9,
        IcedCode::NumpadAdd => Code::NumpadAdd,
        IcedCode::NumpadDivide => Code::NumpadDivide,
        IcedCode::NumpadDecimal => Code::NumpadDecimal,
        IcedCode::NumpadComma => Code::NumpadComma,
        IcedCode::NumpadEnter => Code::NumpadEnter,
        IcedCode::NumpadEqual => Code::NumpadEqual,
        IcedCode::NumpadMultiply => Code::NumpadMultiply,
        IcedCode::NumpadSubtract => Code::NumpadSubtract,
        IcedCode::Convert => Code::Convert,
        IcedCode::KanaMode => Code::KanaMode,
        IcedCode::NonConvert => Code::NonConvert,
        IcedCode::IntlYen => Code::IntlYen,
        IcedCode::AltLeft => Code::AltLeft,
        IcedCode::AltRight => Code::AltRight,
        IcedCode::BracketLeft => Code::BracketLeft,
        IcedCode::BracketRight => Code::BracketRight,
        IcedCode::ControlLeft => Code::ControlLeft,
        IcedCode::ControlRight => Code::ControlRight,
        IcedCode::ShiftLeft => Code::ShiftLeft,
        IcedCode::ShiftRight => Code::ShiftRight,
        IcedCode::Meta => Code::MetaLeft,
        IcedCode::Minus => Code::Minus,
        IcedCode::Period => Code::Period,
        IcedCode::Equal => Code::Equal,
        IcedCode::Quote => Code::Quote,
        IcedCode::Comma => Code::Comma,
        IcedCode::Semicolon => Code::Semicolon,
        IcedCode::Backslash => Code::Backslash,
        IcedCode::Slash => Code::Slash,
        IcedCode::Tab => Code::Tab,
        IcedCode::Copy => Code::Copy,
        IcedCode::Paste => Code::Paste,
        IcedCode::Cut => Code::Cut,
        IcedCode::MediaSelect => Code::MediaSelect,
        IcedCode::MediaStop => Code::MediaStop,
        IcedCode::MediaPlayPause => Code::MediaPlayPause,
        IcedCode::AudioVolumeMute => Code::AudioVolumeMute,
        IcedCode::AudioVolumeDown => Code::AudioVolumeDown,
        IcedCode::AudioVolumeUp => Code::AudioVolumeUp,
        IcedCode::MediaTrackNext => Code::MediaTrackNext,
        IcedCode::MediaTrackPrevious => Code::MediaTrackPrevious,
        _ => Code::Unidentified,
    }
}

/// A code whose key the toolkit has a code for is reported with that code.
spec fn code_reported(a: Code, c: IcedCode) -> bool {
    code_from_iced(c) != Code::Unidentified && code_class(a) == code_from_iced(c) ==> iced_code_of(a)
        == Some(c)
}

spec fn code_reported_group_0(c: IcedCode) -> bool {
    ||| c == IcedCode::Backquote
    ||| c == IcedCode::Backslash
    ||| c == IcedCode::BracketLeft
    ||| c == IcedCode::BracketRight
    ||| c == IcedCode::Comma
    ||| c == IcedCode::Digit0
    ||| c == IcedCode::Digit1
    ||| c == IcedCode::Digit2
    ||| c == IcedCode::Digit3
    ||| c == IcedCode::Digit4
    ||| c == IcedCode::Digit5
    ||| c == IcedCode::Digit6
    ||| c == IcedCode::Digit7
    ||| c == IcedCode::Digit8
    ||| c == IcedCode::Digit9
    ||| c == IcedCode::Equal
    ||| c == IcedCode::IntlBackslash
    ||| c == IcedCode::IntlRo
    ||| c == IcedCode::IntlYen
    ||| c == IcedCode::KeyA
    ||| c == IcedCode::KeyB
    ||| c == IcedCode::KeyC
    ||| c == IcedCode::KeyD
    ||| c == IcedCode::KeyE
    ||| c == IcedCode::KeyF
    ||| c == IcedCode::KeyG
    ||| c == IcedCode::KeyH
    ||| c == IcedCode::KeyI
    ||| c == IcedCode::KeyJ
    ||| c == IcedCode::KeyK
    ||| c == IcedCode::KeyL
    ||| c == IcedCode::KeyM
    ||| c == IcedCode::KeyN
    ||| c == IcedCode::KeyO
    ||| c == IcedCode::KeyP
    ||| c == IcedCode::KeyQ
    ||| c == IcedCode::KeyR
    ||| c == IcedCode::KeyS
    ||| c == IcedCode::KeyT
    ||| c == IcedCode::KeyU
}

#[verifier::rlimit(100)]
proof fn lemma_code_reported_group_0(a: Code, c: IcedCode)
    requires
        code_reported_group_0(c),
    ensures
        code_reported(a, c),
{
    match c {
        IcedCode::Backquote => {},
        IcedCode::Backslash => {},
        IcedCode::BracketLeft => {},
        IcedCode::BracketRight => {},
        IcedCode::Comma => {},
        IcedCode::Digit0 => {},
        IcedCode::Digit1 => {},
        IcedCode::Digit2 => {},
        IcedCode::Digit3 => {},
        IcedCode::Digit4 => {},
        IcedCode::Digit5 => {},
        IcedCode::Digit6 => {},
        IcedCode::Digit7 => {},
        IcedCode::Digit8 => {},
        IcedCode::Digit9 => {},
        IcedCode::Equal => {},
        IcedCode::IntlBackslash => {},
        IcedCode::IntlRo => {},
        IcedCode::IntlYen => {},
        IcedCode::KeyA => {},
        IcedCode::KeyB => {},
        IcedCode::KeyC => {},
        IcedCode::KeyD => {},
        IcedCode::KeyE => {},
        IcedCode::KeyF => {},
        IcedCode::KeyG => {},
        IcedCode::KeyH => {},
        IcedCode::KeyI => {},
        IcedCode::KeyJ => {},
        IcedCode::KeyK => {},
        IcedCode::KeyL => {},
        IcedCode::KeyM => {},
        IcedCode::KeyN => {},
        IcedCode::KeyO => {},
        IcedCode::KeyP => {},
        IcedCode::KeyQ => {},
        IcedCode::KeyR => {},
        IcedCode::KeyS => {},
        IcedCode::KeyT => {},
        IcedCode::KeyU => {},
        _ => {},
    }
}

spec fn code_reported_group_1(c: IcedCode) -> bool {
    ||| c == IcedCode::KeyV
    ||| c == IcedCode::KeyW
    ||| c == IcedCode::KeyX
    ||| c == IcedCode::KeyY
    ||| c == IcedCode::KeyZ
    ||| c == IcedCode::Minus
    ||| c == IcedCode::Period
    ||| c == IcedCode::Quote
    ||| c == IcedCode::Semicolon
    ||| c == IcedCode::Slash
    ||| c == IcedCode::AltLeft
    ||| c == IcedCode::AltRight
    ||| c == IcedCode::Backspace
    ||| c == IcedCode::CapsLock
    ||| c == IcedCode::ContextMenu
    ||| c == IcedCode::ControlLeft
    ||| c == IcedCode::ControlRight
    ||| c == IcedCode::Enter
    ||| c == IcedCode::SuperLeft
    ||| c == IcedCode::SuperRight
    ||| c == IcedCode::ShiftLeft
    ||| c == IcedCode::ShiftRight
    ||| c == IcedCode::Space
    ||| c == IcedCode::Tab
    ||| c == IcedCode::Convert
    ||| c == IcedCode::KanaMode
    ||| c == IcedCode::Lang1
    ||| c == IcedCode::Lang2
    ||| c == IcedCode::Lang3
    ||| c == IcedCode::Lang4
    ||| c == IcedCode::Lang5
    ||| c == IcedCode::NonConvert
    ||| c == IcedCode::Delete
    ||| c == IcedCode::End
    ||| c == IcedCode::Help
    ||| c == IcedCode::Home
    ||| c == IcedCode::Insert
    ||| c == IcedCode::PageDown
    ||| c == IcedCode::PageUp
    ||| c == IcedCode::ArrowDown
}

#[verifier::rlimit(100)]
proof fn lemma_code_reported_group_1(a: Code, c: IcedCode)
    requires
        code_reported_group_1(c),
    ensures
        code_reported(a, c),
{
    match c {
        IcedCode::KeyV => {},
        IcedCode::KeyW => {},
        IcedCode::KeyX => {},
        IcedCode::KeyY => {},
        IcedCode::KeyZ => {},
        IcedCode::Minus => {},
        IcedCode::Period => {},
        IcedCode::Quote => {},
        IcedCode::Semicolon => {},
        IcedCode::Slash => {},
        IcedCode::AltLeft => {},
        IcedCode::AltRight => {},
        IcedCode::Backspace => {},
        IcedCode::CapsLock => {},
        IcedCode::ContextMenu => {},
        IcedCode::ControlLeft => {},
        IcedCode::ControlRight => {},
        IcedCode::Enter => {},
        IcedCode::SuperLeft => {},
        IcedCode::SuperRight => {},
        IcedCode::ShiftLeft => {},
        IcedCode::ShiftRight => {},
        IcedCode::Space => {},
        IcedCode::Tab => {},
        IcedCode::Convert => {},
        IcedCode::KanaMode => {},
        IcedCode::Lang1 => {},
        IcedCode::Lang2 => {},
        IcedCode::Lang3 => {},
        IcedCode::Lang4 => {},
        IcedCode::Lang5 => {},
        IcedCode::NonConvert => {},
        IcedCode::Delete => {},
        IcedCode::End => {},
        IcedCode::Help => {},
        IcedCode::Home => {},
        IcedCode::Insert => {},
        IcedCode::PageDown => {},
        IcedCode::PageUp => {},
        IcedCode::ArrowDown => {},
        _ => {},
    }
}

spec fn code_reported_group_2(c: IcedCode) -> bool {
    ||| c == IcedCode::ArrowLeft
    ||| c == IcedCode::ArrowRight
    ||| c == IcedCode::ArrowUp
    ||| c == IcedCode::NumLock
    ||| c == IcedCode::Numpad0
    ||| c == IcedCode::Numpad1
    ||| c == IcedCode::Numpad2
    ||| c == IcedCode::Numpad3
    ||| c == IcedCode::Numpad4
    ||| c == IcedCode::Numpad5
    ||| c == IcedCode::Numpad6
    ||| c == IcedCode::Numpad7
    ||| c == IcedCode::Numpad8
    ||| c == IcedCode::Numpad9
    ||| c == IcedCode::NumpadAdd
    ||| c == IcedCode::NumpadBackspace
    ||| c == IcedCode::NumpadClear
    ||| c == IcedCode::NumpadClearEntry
    ||| c == IcedCode::NumpadComma
    ||| c == IcedCode::NumpadDecimal
    ||| c == IcedCode::NumpadDivide
    ||| c == IcedCode::NumpadEnter
    ||| c == IcedCode::NumpadEqual
    ||| c == IcedCode::NumpadHash
    ||| c == IcedCode::NumpadMemoryAdd
    ||| c == IcedCode::NumpadMemoryClear
    ||| c == IcedCode::NumpadMemoryRecall
    ||| c == IcedCode::NumpadMemoryStore
    ||| c == IcedCode::NumpadMemorySubtract
    ||| c == IcedCode::NumpadMultiply
    ||| c == IcedCode::NumpadParenLeft
    ||| c == IcedCode::NumpadParenRight
    ||| c == IcedCode::NumpadStar
    ||| c == IcedCode::NumpadSubtract
    ||| c == IcedCode::Escape
    ||| c == IcedCode::Fn
    ||| c == IcedCode::FnLock
    ||| c == IcedCode::PrintScreen
    ||| c == IcedCode::ScrollLock
    ||| c == IcedCode::Pause
}

#[verifier::rlimit(100)]
proof fn lemma_code_reported_group_2(a: Code, c: IcedCode)
    requires
        code_reported_group_2(c),
    ensures
        code_reported(a, c),
{
    match c {
        IcedCode::ArrowLeft => {},
        IcedCode::ArrowRight => {},
        IcedCode::ArrowUp => {},
        IcedCode::NumLock => {},
        IcedCode::Numpad0 => {},
        IcedCode::Numpad1 => {},
        IcedCode::Numpad2 => {},
        IcedCode::Numpad3 => {},
        IcedCode::Numpad4 => {},
        IcedCode::Numpad5 => {},
        IcedCode::Numpad6 => {},
        IcedCode::Numpad7 => {},
        IcedCode::Numpad8 => {},
        IcedCode::Numpad9 => {},
        IcedCode::NumpadAdd => {},
        IcedCode::NumpadBackspace => {},
        IcedCode::NumpadClear => {},
        IcedCode::NumpadClearEntry => {},
        IcedCode::NumpadComma => {},
        IcedCode::NumpadDecimal => {},
        IcedCode::NumpadDivide => {},
        IcedCode::NumpadEnter => {},
        IcedCode::NumpadEqual => {},
        IcedCode::NumpadHash => {},
        IcedCode::NumpadMemoryAdd => {},
        IcedCode::NumpadMemoryClear => {},
        IcedCode::NumpadMemoryRecall => {},
        IcedCode::NumpadMemoryStore => {},
        IcedCode::NumpadMemorySubtract => {},
        IcedCode::NumpadMultiply => {},
        IcedCode::NumpadParenLeft => {},
        IcedCode::NumpadParenRight => {},
        IcedCode::NumpadStar => {},
        IcedCode::NumpadSubtract => {},
        IcedCode::Escape => {},
        IcedCode::Fn => {},
        IcedCode::FnLock => {},
        IcedCode::PrintScreen => {},
        IcedCode::ScrollLock => {},
        IcedCode::Pause => {},
        _ => {},
    }
}

spec fn code_reported_group_3(c: IcedCode) -> bool {
    ||| c == IcedCode::BrowserBack
    ||| c == IcedCode::BrowserFavorites
    ||| c == IcedCode::BrowserForward
    ||| c == IcedCode::BrowserHome
    ||| c == IcedCode::BrowserRefresh
    ||| c == IcedCode::BrowserSearch
    ||| c == IcedCode::BrowserStop
    ||| c == IcedCode::Eject
    ||| c == IcedCode::LaunchApp1
    ||| c == IcedCode::LaunchApp2
    ||| c == IcedCode::LaunchMail
    ||| c == IcedCode::MediaPlayPause
    ||| c == IcedCode::MediaSelect
    ||| c == IcedCode::MediaStop
    ||| c == IcedCode::MediaTrackNext
    ||| c == IcedCode::MediaTrackPrevious
    ||| c == IcedCode::Power
    ||| c == IcedCode::Sleep
    ||| c == IcedCode::AudioVolumeDown
    ||| c == IcedCode::AudioVolumeMute
    ||| c == IcedCode::AudioVolumeUp
    ||| c == IcedCode::WakeUp
    ||| c == IcedCode::Meta
    ||| c == IcedCode::Hyper
    ||| c == IcedCode::Turbo
    ||| c == IcedCode::Abort
    ||| c == IcedCode::Resume
    ||| c == IcedCode::Suspend
    ||| c == IcedCode::Again
    ||| c == IcedCode::Copy
    ||| c == IcedCode::Cut
    ||| c == IcedCode::Find
    ||| c == IcedCode::Open
    ||| c == IcedCode::Paste
    ||| c == IcedCode::Props
    ||| c == IcedCode::Select
    ||| c == IcedCode::Undo
    ||| c == IcedCode::Hiragana
    ||| c == IcedCode::Katakana
    ||| c == IcedCode::F1
}

#[verifier::rlimit(100)]
proof fn lemma_code_reported_group_3(a: Code, c: IcedCode)
    requires
        code_reported_group_3(c),
    ensures
        code_reported(a, c),
{
    match c {
        IcedCode::BrowserBack => {},
        IcedCode::BrowserFavorites => {},
        IcedCode::BrowserForward => {},
        IcedCode::BrowserHome => {},
        IcedCode::BrowserRefresh => {},
        IcedCode::BrowserSearch => {},
        IcedCode::BrowserStop => {},
        IcedCode::Eject => {},
        IcedCode::LaunchApp1 => {},
        IcedCode::LaunchApp2 => {},
        IcedCode::LaunchMail => {},
        IcedCode::MediaPlayPause => {},
        IcedCode::MediaSelect => {},
        IcedCode::MediaStop => {},
        IcedCode::MediaTrackNext => {},
        IcedCode::MediaTrackPrevious => {},
        IcedCode::Power => {},
        IcedCode::Sleep => {},
        IcedCode::AudioVolumeDown => {},
        IcedCode::AudioVolumeMute => {},
        IcedCode::AudioVolumeUp => {},
        IcedCode::WakeUp => {},
        IcedCode::Meta => {},
        IcedCode::Hyper => {},
        IcedCode::Turbo => {},
        IcedCode::Abort => {},
        IcedCode::Resume => {},
        IcedCode::Suspend => {},
        IcedCode::Again => {},
        IcedCode::Copy => {},
        IcedCode::Cut => {},
        IcedCode::Find => {},
        IcedCode::Open => {},
        IcedCode::Paste => {},
        IcedCode::Props => {},
        IcedCode::Select => {},
        IcedCode::Undo => {},
        IcedCode::Hiragana => {},
        IcedCode::Katakana => {},
        IcedCode::F1 => {},
        _ => {},
    }
}

spec fn code_reported_group_4(c: IcedCode) -> bool {
    ||| c == IcedCode::F2
    ||| c == IcedCode::F3
    ||| c == IcedCode::F4
    ||| c == IcedCode::F5
    ||| c == IcedCode::F6
    ||| c == IcedCode::F7
    ||| c == IcedCode::F8
    ||| c == IcedCode::F9
    ||| c == IcedCode::F10
    ||| c == IcedCode::F11
    ||| c == IcedCode::F12
    ||| c == IcedCode::F13
    ||| c == IcedCode::F14
    ||| c == IcedCode::F15
    ||| c == IcedCode::F16
    ||| c == IcedCode::F17
    ||| c == IcedCode::F18
    ||| c == IcedCode::F19
    ||| c == IcedCode::F20
    ||| c == IcedCode::F21
    ||| c == IcedCode::F22
    ||| c == IcedCode::F23
    ||| c == IcedCode::F24
    ||| c == IcedCode::F25
    ||| c == IcedCode::F26
    ||| c == IcedCode::F27
    ||| c == IcedCode::F28
    ||| c == IcedCode::F29
    ||| c == IcedCode::F30
    ||| c == IcedCode::F31
    ||| c == IcedCode::F32
    ||| c == IcedCode::F33
    ||| c == IcedCode::F34
    ||| c == IcedCode::F35
}

#[verifier::rlimit(100)]
proof fn lemma_code_reported_group_4(a: Code, c: IcedCode)
    requires
        code_reported_group_4(c),
    ensures
        code_reported(a, c),
{
    match c {
        IcedCode::F2 => {},
        IcedCode::F3 => {},
        IcedCode::F4 => {},
        IcedCode::F5 => {},
        IcedCode::F6 => {},
        IcedCode::F7 => {},
        IcedCode::F8 => {},
        IcedCode::F9 => {},
        IcedCode::F10 => {},
        IcedCode::F11 => {},
        IcedCode::F12 => {},
        IcedCode::F13 => {},
        IcedCode::F14 => {},
        IcedCode::F15 => {},
        IcedCode::F16 => {},
        IcedCode::F17 => {},
        IcedCode::F18 => {},
        IcedCode::F19 => {},
        IcedCode::F20 => {},
        IcedCode::F21 => {},
        IcedCode::F22 => {},
        IcedCode::F23 => {},
        IcedCode::F24 => {},
        IcedCode::F25 => {},
        IcedCode::F26 => {},
        IcedCode::F27 => {},
        IcedCode::F28 => {},
        IcedCode::F29 => {},
        IcedCode::F30 => {},
        IcedCode::F31 => {},
        IcedCode::F32 => {},
        IcedCode::F33 => {},
        IcedCode::F34 => {},
        IcedCode::F35 => {},
        _ => {},
    }
}

/// No code the toolkit can stand for is lost: when a toolkit code stands
/// for the key of a code (up to the top-row digits, reported as the
/// keypad's, and the right meta key, reported as the left), that code is
/// reported with it, so each letter, digit, function key and the rest of
/// the table reaches the toolkit as the code of its own name.
pub proof fn lemma_codes_reported(a: Code, c: IcedCode)
    ensures
        code_from_iced(c) != Code::Unidentified && code_class(a) == code_from_iced(c) ==> iced_code_of(a)
            == Some(c),
{
    match c {
        IcedCode::Backquote => lemma_code_reported_group_0(a, c),
        IcedCode::Backslash => lemma_code_reported_group_0(a, c),
        IcedCode::BracketLeft => lemma_code_reported_group_0(a, c),
        IcedCode::BracketRight => lemma_code_reported_group_0(a, c),
        IcedCode::Comma => lemma_code_reported_group_0(a, c),
        IcedCode::Digit0 => lemma_code_reported_group_0(a, c),
        IcedCode::Digit1 => lemma_code_reported_group_0(a, c),
        IcedCode::Digit2 => lemma_code_reported_group_0(a, c),
        IcedCode::Digit3 => lemma_code_reported_group_0(a, c),
        IcedCode::Digit4 => lemma_code_reported_group_0(a, c),
        IcedCode::Digit5 => lemma_code_reported_group_0(a, c),
        IcedCode::Digit6 => lemma_code_reported_group_0(a, c),
        IcedCode::Digit7 => lemma_code_reported_group_0(a, c),
        IcedCode::Digit8 => lemma_code_reported_group_0(a, c),
        IcedCode::Digit9 => lemma_code_reported_group_0(a, c),
        IcedCode::Equal => lemma_code_reported_group_0(a, c),
        IcedCode::IntlBackslash => lemma_code_reported_group_0(a, c),
        IcedCode::IntlRo => lemma_code_reported_group_0(a, c),
        IcedCode::IntlYen => lemma_code_reported_group_0(a, c),
        IcedCode::KeyA => lemma_code_reported_group_0(a, c),
        IcedCode::KeyB => lemma_code_reported_group_0(a, c),
        IcedCode::KeyC => lemma_code_reported_group_0(a, c),
        IcedCode::KeyD => lemma_code_reported_group_0(a, c),
        IcedCode::KeyE => lemma_code_reported_group_0(a, c),
        IcedCode::KeyF => lemma_code_reported_group_0(a, c),
        IcedCode::KeyG => lemma_code_reported_group_0(a, c),
        IcedCode::KeyH => lemma_code_reported_group_0(a, c),
        IcedCode::KeyI => lemma_code_reported_group_0(a, c),
        IcedCode::KeyJ => lemma_code_reported_group_0(a, c),
        IcedCode::KeyK => lemma_code_reported_group_0(a, c),
        IcedCode::KeyL => lemma_code_reported_group_0(a, c),
        IcedCode::KeyM => lemma_code_reported_group_0(a, c),
        IcedCode::KeyN => lemma_code_reported_group_0(a, c),
        IcedCode::KeyO => lemma_code_reported_group_0(a, c),
        IcedCode::KeyP => lemma_code_reported_group_0(a, c),
        IcedCode::KeyQ => lemma_code_reported_group_0(a, c),
        IcedCode::KeyR => lemma_code_reported_group_0(a, c),
        IcedCode::KeyS => lemma_code_reported_group_0(a, c),
        IcedCode::KeyT => lemma_code_reported_group_0(a, c),
        IcedCode::KeyU => lemma_code_reported_group_0(a, c),
        IcedCode::KeyV => lemma_code_reported_group_1(a, c),
        IcedCode::KeyW => lemma_code_reported_group_1(a, c),
        IcedCode::KeyX => lemma_code_reported_group_1(a, c),
        IcedCode::KeyY => lemma_code_reported_group_1(a, c),
        IcedCode::KeyZ => lemma_code_reported_group_1(a, c),
        IcedCode::Minus => lemma_code_reported_group_1(a, c),
        IcedCode::Period => lemma_code_reported_group_1(a, c),
        IcedCode::Quote => lemma_code_reported_group_1(a, c),
        IcedCode::Semicolon => lemma_code_reported_group_1(a, c),
        IcedCode::Slash => lemma_code_reported_group_1(a, c),
        IcedCode::AltLeft => lemma_code_reported_group_1(a, c),
        IcedCode::AltRight => lemma_code_reported_group_1(a, c),
        IcedCode::Backspace => lemma_code_reported_group_1(a, c),
        IcedCode::CapsLock => lemma_code_reported_group_1(a, c),
        IcedCode::ContextMenu => lemma_code_reported_group_1(a, c),
        IcedCode::ControlLeft => lemma_code_reported_group_1(a, c),
        IcedCode::ControlRight => lemma_code_reported_group_1(a, c),
        IcedCode::Enter => lemma_code_reported_group_1(a, c),
        IcedCode::SuperLeft => lemma_code_reported_group_1(a, c),
        IcedCode::SuperRight => lemma_code_reported_group_1(a, c),
        IcedCode::ShiftLeft => lemma_code_reported_group_1(a, c),
        IcedCode::ShiftRight => lemma_code_reported_group_1(a, c),
        IcedCode::Space => lemma_code_reported_group_1(a, c),
        IcedCode::Tab => lemma_code_reported_group_1(a, c),
        IcedCode::Convert => lemma_code_reported_group_1(a, c),
        IcedCode::KanaMode => lemma_code_reported_group_1(a, c),
        IcedCode::Lang1 => lemma_code_reported_group_1(a, c),
        IcedCode::Lang2 => lemma_code_reported_group_1(a, c),
        IcedCode::Lang3 => lemma_code_reported_group_1(a, c),
        IcedCode::Lang4 => lemma_code_reported_group_1(a, c),
        IcedCode::Lang5 => lemma_code_reported_group_1(a, c),
        IcedCode::NonConvert => lemma_code_reported_group_1(a, c),
        IcedCode::Delete => lemma_code_reported_group_1(a, c),
        IcedCode::End => lemma_code_reported_group_1(a, c),
        IcedCode::Help => lemma_code_reported_group_1(a, c),
        IcedCode::Home => lemma_code_reported_group_1(a, c),
        IcedCode::Insert => lemma_code_reported_group_1(a, c),
        IcedCode::PageDown => lemma_code_reported_group_1(a, c),
        IcedCode::PageUp => lemma_code_reported_group_1(a, c),
        IcedCode::ArrowDown => lemma_code_reported_group_1(a, c),
        IcedCode::ArrowLeft => lemma_code_reported_group_2(a, c),
        IcedCode::ArrowRight => lemma_code_reported_group_2(a, c),
        IcedCode::ArrowUp => lemma_code_reported_group_2(a, c),
        IcedCode::NumLock => lemma_code_reported_group_2(a, c),
        IcedCode::Numpad0 => lemma_code_reported_group_2(a, c),
        IcedCode::Numpad1 => lemma_code_reported_group_2(a, c),
        IcedCode::Numpad2 => lemma_code_reported_group_2(a, c),
        IcedCode::Numpad3 => lemma_code_reported_group_2(a, c),
        IcedCode::Numpad4 => lemma_code_reported_group_2(a, c),
        IcedCode::Numpad5 => lemma_code_reported_group_2(a, c),
        IcedCode::Numpad6 => lemma_code_reported_group_2(a, c),
        IcedCode::Numpad7 => lemma_code_reported_group_2(a, c),
        IcedCode::Numpad8 => lemma_code_reported_group_2(a, c),
        IcedCode::Numpad9 => lemma_code_reported_group_2(a, c),
        IcedCode::NumpadAdd => lemma_code_reported_group_2(a, c),
        IcedCode::NumpadBackspace => lemma_code_reported_group_2(a, c),
        IcedCode::NumpadClear => lemma_code_reported_group_2(a, c),
        IcedCode::NumpadClearEntry => lemma_code_reported_group_2(a, c),
        IcedCode::NumpadComma => lemma_code_reported_group_2(a, c),
        IcedCode::NumpadDecimal => lemma_code_reported_group_2(a, c),
        IcedCode::NumpadDivide => lemma_code_reported_group_2(a, c),
        IcedCode::NumpadEnter => lemma_code_reported_group_2(a, c),
        IcedCode::NumpadEqual => lemma_code_reported_group_2(a, c),
        IcedCode::NumpadHash => lemma_code_reported_group_2(a, c),
        IcedCode::NumpadMemoryAdd => lemma_code_reported_group_2(a, c),
        IcedCode::NumpadMemoryClear => lemma_code_reported_group_2(a, c),
        IcedCode::NumpadMemoryRecall => lemma_code_reported_group_2(a, c),
        IcedCode::NumpadMemoryStore => lemma_code_reported_group_2(a, c),
        IcedCode::NumpadMemorySubtract => lemma_code_reported_group_2(a, c),
        IcedCode::NumpadMultiply => lemma_code_reported_group_2(a, c),
        IcedCode::NumpadParenLeft => lemma_code_reported_group_2(a, c),
        IcedCode::NumpadParenRight => lemma_code_reported_group_2(a, c),
        IcedCode::NumpadStar => lemma_code_reported_group_2(a, c),
        IcedCode::NumpadSubtract => lemma_code_reported_group_2(a, c),
        IcedCode::Escape => lemma_code_reported_group_2(a, c),
        IcedCode::Fn => lemma_code_reported_group_2(a, c),
        IcedCode::FnLock => lemma_code_reported_group_2(a, c),
        IcedCode::PrintScreen => lemma_code_reported_group_2(a, c),
        IcedCode::ScrollLock => lemma_code_reported_group_2(a, c),
        IcedCode::Pause => lemma_code_reported_group_2(a, c),
        IcedCode::BrowserBack => lemma_code_reported_group_3(a, c),
        IcedCode::BrowserFavorites => lemma_code_reported_group_3(a, c),
        IcedCode::BrowserForward => lemma_code_reported_group_3(a, c),
        IcedCode::BrowserHome => lemma_code_reported_group_3(a, c),
        IcedCode::BrowserRefresh => lemma_code_reported_group_3(a, c),
        IcedCode::BrowserSearch => lemma_code_reported_group_3(a, c),
        IcedCode::BrowserStop => lemma_code_reported_group_3(a, c),
        IcedCode::Eject => lemma_code_reported_group_3(a, c),
        IcedCode::LaunchApp1 => lemma_code_reported_group_3(a, c),
        IcedCode::LaunchApp2 => lemma_code_reported_group_3(a, c),
        IcedCode::LaunchMail => lemma_code_reported_group_3(a, c),
        IcedCode::MediaPlayPause => lemma_code_reported_group_3(a, c),
        IcedCode::MediaSelect => lemma_code_reported_group_3(a, c),
        IcedCode::MediaStop => lemma_code_reported_group_3(a, c),
        IcedCode::MediaTrackNext => lemma_code_reported_group_3(a, c),
        IcedCode::MediaTrackPrevious => lemma_code_reported_group_3(a, c),
        IcedCode::Power => lemma_code_reported_group_3(a, c),
        IcedCode::Sleep => lemma_code_reported_group_3(a, c),
        IcedCode::AudioVolumeDown => lemma_code_reported_group_3(a, c),
        IcedCode::AudioVolumeMute => lemma_code_reported_group_3(a, c),
        IcedCode::AudioVolumeUp => lemma_code_reported_group_3(a, c),
        IcedCode::WakeUp => lemma_code_reported_group_3(a, c),
        IcedCode::Meta => lemma_code_reported_group_3(a, c),
        IcedCode::Hyper => lemma_code_reported_group_3(a, c),
        IcedCode::Turbo => lemma_code_reported_group_3(a, c),
        IcedCode::Abort => lemma_code_reported_group_3(a, c),
        IcedCode::Resume => lemma_code_reported_group_3(a, c),
        IcedCode::Suspend => lemma_code_reported_group_3(a, c),
        IcedCode::Again => lemma_code_reported_group_3(a, c),
        IcedCode::Copy => lemma_code_reported_group_3(a, c),
        IcedCode::Cut => lemma_code_reported_group_3(a, c),
        IcedCode::Find => lemma_code_reported_group_3(a, c),
        IcedCode::Open => lemma_code_reported_group_3(a, c),
        IcedCode::Paste => lemma_code_reported_group_3(a, c),
        IcedCode::Props => lemma_code_reported_group_3(a, c),
        IcedCode::Select => lemma_code_reported_group_3(a, c),
        IcedCode::Undo => lemma_code_reported_group_3(a, c),
        IcedCode::Hiragana => lemma_code_reported_group_3(a, c),
        IcedCode::Katakana => lemma_code_reported_group_3(a, c),
        IcedCode::F1 => lemma_code_reported_group_3(a, c),
        IcedCode::F2 => lemma_code_reported_group_4(a, c),
        IcedCode::F3 => lemma_code_reported_group_4(a, c),
        IcedCode::F4 => lemma_code_reported_group_4(a, c),
        IcedCode::F5 => lemma_code_reported_group_4(a, c),
        IcedCode::F6 => lemma_code_reported_group_4(a, c),
        IcedCode::F7 => lemma_code_reported_group_4(a, c),
        IcedCode::F8 => lemma_code_reported_group_4(a, c),
        IcedCode::F9 => lemma_code_reported_group_4(a, c),
        IcedCode::F10 => lemma_code_reported_group_4(a, c),
        IcedCode::F11 => lemma_code_reported_group_4(a, c),
        IcedCode::F12 => lemma_code_reported_group_4(a, c),
        IcedCode::F13 => lemma_code_reported_group_4(a, c),
        IcedCode::F14 => lemma_code_reported_group_4(a, c),
        IcedCode::F15 => lemma_code_reported_group_4(a, c),
        IcedCode::F16 => lemma_code_reported_group_4(a, c),
        IcedCode::F17 => lemma_code_reported_group_4(a, c),
        IcedCode::F18 => lemma_code_reported_group_4(a, c),
        IcedCode::F19 => lemma_code_reported_group_4(a, c),
        IcedCode::F20 => lemma_code_reported_group_4(a, c),
        IcedCode::F21 => lemma_code_reported_group_4(a, c),
        IcedCode::F22 => lemma_code_reported_group_4(a, c),
        IcedCode::F23 => lemma_code_reported_group_4(a, c),
        IcedCode::F24 => lemma_code_reported_group_4(a, c),
        IcedCode::F25 => lemma_code_reported_group_4(a, c),
        IcedCode::F26 => lemma_code_reported_group_4(a, c),
        IcedCode::F27 => lemma_code_reported_group_4(a, c),
        IcedCode::F28 => lemma_code_reported_group_4(a, c),
        IcedCode::F29 => lemma_code_reported_group_4(a, c),
        IcedCode::F30 => lemma_code_reported_group_4(a, c),
        IcedCode::F31 => lemma_code_reported_group_4(a, c),
        IcedCode::F32 => lemma_code_reported_group_4(a, c),
        IcedCode::F33 => lemma_code_reported_group_4(a, c),
        IcedCode::F34 => lemma_code_reported_group_4(a, c),
        IcedCode::F35 => lemma_code_reported_group_4(a, c),
    }
}

/// The class of codes the conversion does not tell apart: a digit of the
/// top row is reported as the keypad's digit, and the right meta key as the
/// left one.
pub open spec fn code_class(code: Code) -> Code {
    match code {
        Code::Digit0 => Code::Numpad0,
        Code::Digit1 => Code::Numpad1,
        Code::Digit2 => Code::Numpad2,
        Code::Digit3 => Code::Numpad3,
        Code::Digit4 => Code::Numpad4,
        Code::Digit5 => Code::Numpad5,
        Code::Digit6 => Code::Numpad6,
        Code::Digit7 => Code::Numpad7,
        Code::Digit8 => Code::Numpad8,
        Code::Digit9 => Code::Numpad9,
        Code::MetaRight => Code::MetaLeft,
        _ => code,
    }
}

/// The code conversion loses only the distinctions it is written to lose:
/// each toolkit code comes from one class of codes, so two codes get the
/// same toolkit code only when they are the same key, a top-row digit and
/// the keypad's digit, or the two meta keys.
pub proof fn lemma_codes_kept_apart(a: Code, b: Code)
    ensures
        iced_code_of(a) matches Some(c) ==> code_class(a) == code_from_iced(c),
        iced_code_of(a) is Some && iced_code_of(a) == iced_code_of(b) ==> code_class(a)
            == code_class(b),
{
    lemma_code_inverse(a);
    lemma_code_inverse(b);
}

proof fn lemma_code_inverse(a: Code)
    ensures
        iced_code_of(a) matches Some(c) ==> code_class(a) == code_from_iced(c),
{
    match a {
        Code::Digit1 => {},
        Code::Digit2 => {},
        Code::Digit3 => {},
        Code::Digit4 => {},
        Code::Digit5 => {},
        Code::Digit6 => {},
        Code::Digit7 => {},
        Code::Digit8 => {},
        Code::Digit9 => {},
        Code::Digit0 => {},
        Code::KeyA => {},
        Code::KeyB => {},
        Code::KeyC => {},
        Code::KeyD => {},
        Code::KeyE => {},
        Code::KeyF => {},
        Code::KeyG => {},
        Code::KeyH => {},
        Code::KeyI => {},
        Code::KeyJ => {},
        Code::KeyK => {},
        Code::KeyL => {},
        Code::KeyM => {},
        Code::KeyN => {},
        Code::KeyO => {},
        Code::KeyP => {},
        Code::KeyQ => {},
        Code::KeyR => {},
        Code::KeyS => {},
        Code::KeyT => {},
        Code::KeyU => {},
        Code::KeyV => {},
        Code::KeyW => {},
        Code::KeyX => {},
        Code::KeyY => {},
        Code::KeyZ => {},
        Code::Escape => {},
        Code::F1 => {},
        Code::F2 => {},
        Code::F3 => {},
        Code::F4 => {},
        Code::F5 => {},
        Code::F6 => {},
        Code::F7 => {},
        Code::F8 => {},
        Code::F9 => {},
        Code::F10 => {},
        Code::F11 => {},
        Code::F12 => {},
        Code::PrintScreen => {},
        Code::ScrollLock => {},
        Code::Pause => {},
        Code::Insert => {},
        Code::Home => {},
        Code::Delete => {},
        Code::End => {},
        Code::PageDown => {},
        Code::PageUp => {},
        Code::ArrowLeft => {},
        Code::ArrowUp => {},
        Code::ArrowRight => {},
        Code::ArrowDown => {},
        Code::Backspace => {},
        Code::Enter => {},
        Code::Space => {},
        Code::NumLock => {},
        Code::Numpad0 => {},
        Code::Numpad1 => {},
        Code::Numpad2 => {},
        Code::Numpad3 => {},
        Code::Numpad4 => {},
        Code::Numpad5 => {},
        Code::Numpad6 => {},
        Code::Numpad7 => {},
        Code::Numpad8 => {},
        Code::Numpad9 => {},
        Code::NumpadAdd => {},
        Code::NumpadDivide => {},
        Code::NumpadDecimal => {},
        Code::NumpadComma => {},
        Code::NumpadEnter => {},
        Code::NumpadEqual => {},
        Code::NumpadMultiply => {},
        Code::NumpadSubtract => {},
        Code::Convert => {},
        Code::KanaMode => {},
        Code::NonConvert => {},
        Code::IntlYen => {},
        Code::AltLeft => {},
        Code::AltRight => {},
        Code::BracketLeft => {},
        Code::BracketRight => {},
        Code::ControlLeft => {},
        Code::ControlRight => {},
        Code::ShiftLeft => {},
        Code::ShiftRight => {},
        Code::MetaLeft => {},
        Code::MetaRight => {},
        Code::Minus => {},
        Code::Period => {},
        Code::Equal => {},
        Code::Quote => {},
        Code::Comma => {},
        Code::Semicolon => {},
        Code::Backslash => {},
        Code::Slash => {},
        Code::Tab => {},
        Code::Copy => {},
        Code::Paste => {},
        Code::Cut => {},
        Code::MediaSelect => {},
        Code::MediaStop => {},
        Code::MediaPlayPause => {},
        Code::AudioVolumeMute => {},
        Code::AudioVolumeDown => {},
        Code::AudioVolumeUp => {},
        Code::MediaTrackNext => {},
        Code::MediaTrackPrevious => {},
        _ => {},
    }
}

} // verus!
