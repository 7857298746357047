use vstd::prelude::*;

verus! {

/// A key's name is not empty and is made of lower-case ASCII letters and
/// digits, so that `KEY_ACTION` followed by a space and the name is a
/// one-word command.
pub proof fn lemma_key_name_charset(k: Keys)
    ensures
        k.spec_as_str().len() > 0,
        forall|i: int|
            0 <= i < k.spec_as_str().len() ==> ('a' <= #[trigger] k.spec_as_str()[i] <= 'z' || '0'
                <= k.spec_as_str()[i] <= '9'),
{
    reveal_strlit("arrowdown");
    reveal_strlit("arrowleft");
    reveal_strlit("arrowright");
    reveal_strlit("arrowup");
    reveal_strlit("aspectratio");
    reveal_strlit("audiomode");
    reveal_strlit("returnback");
    reveal_strlit("bluebutton");
    reveal_strlit("captionsubtitle");
    reveal_strlit("channeldown");
    reveal_strlit("channellist");
    reveal_strlit("channelup");
    reveal_strlit("deviceinput");
    reveal_strlit("screenbright");
    reveal_strlit("fastforward");
    reveal_strlit("greenbutton");
    reveal_strlit("myapp");
    reveal_strlit("programminfo");
    reveal_strlit("livetv");
    reveal_strlit("settingmenu");
    reveal_strlit("number0");
    reveal_strlit("number1");
    reveal_strlit("number2");
    reveal_strlit("number3");
    reveal_strlit("number4");
    reveal_strlit("number5");
    reveal_strlit("number6");
    reveal_strlit("number7");
    reveal_strlit("number8");
    reveal_strlit("number9");
    reveal_strlit("ok");
    reveal_strlit("play");
    reveal_strlit("previouschannel");
    reveal_strlit("programguide");
    reveal_strlit("record");
    reveal_strlit("redbutton");
    reveal_strlit("rewind");
    reveal_strlit("sleepreserve");
    reveal_strlit("userguide");
    reveal_strlit("videomode");
    reveal_strlit("volumedown");
    reveal_strlit("volumemute");
    reveal_strlit("volumeup");
    reveal_strlit("yellowbutton");
}

/// The length of a key name with its first and last two characters; no two
/// key names share it.
pub open spec fn key_name_fingerprint(s: Seq<char>) -> (nat, char, char, char) {
    (s.len(), s[0], s[s.len() - 1], s[s.len() - 2])
}

/// The key whose name has the fingerprint `f`.
pub open spec fn key_with_fingerprint(f: (nat, char, char, char)) -> Option<Keys> {
    if f == (9nat, 'a', 'n', 'w') {
        Some(Keys::ArrowDown)
    } else     if f == (9nat, 'a', 't', 'f') {
        Some(Keys::ArrowLeft)
    } else     if f == (10nat, 'a', 't', 'h') {
        Some(Keys::ArrowRight)
    } else     if f == (7nat, 'a', 'p', 'u') {
        Some(Keys::ArrowUp)
    } else     if f == (11nat, 'a', 'o', 'i') {
        Some(Keys::AspectRatio)
    } else     if f == (9nat, 'a', 'e', 'd') {
        Some(Keys::AudioMode)
    } else     if f == (10nat, 'r', 'k', 'c') {
        Some(Keys::Back)
    } else     if f == (10nat, 'b', 'n', 'o') {
        Some(Keys::BlueButton)
    } else     if f == (15nat, 'c', 'e', 'l') {
        Some(Keys::CaptionSubtitle)
    } else     if f == (11nat, 'c', 'n', 'w') {
        Some(Keys::ChannelDown)
    } else     if f == (11nat, 'c', 't', 's') {
        Some(Keys::ChannelList)
    } else     if f == (9nat, 'c', 'p', 'u') {
        Some(Keys::ChannelUp)
    } else     if f == (11nat, 'd', 't', 'u') {
        Some(Keys::DeviceInput)
    } else     if f == (12nat, 's', 't', 'h') {
        Some(Keys::EnergySaving)
    } else     if f == (11nat, 'f', 'd', 'r') {
        Some(Keys::FastForward)
    } else     if f == (11nat, 'g', 'n', 'o') {
        Some(Keys::GreenButton)
    } else     if f == (5nat, 'm', 'p', 'p') {
        Some(Keys::Home)
    } else     if f == (12nat, 'p', 'o', 'f') {
        Some(Keys::Info)
    } else     if f == (6nat, 'l', 'v', 't') {
        Some(Keys::LiveTV)
    } else     if f == (11nat, 's', 'u', 'n') {
        Some(Keys::Menu)
    } else     if f == (7nat, 'n', '0', 'r') {
        Some(Keys::Number0)
    } else     if f == (7nat, 'n', '1', 'r') {
        Some(Keys::Number1)
    } else     if f == (7nat, 'n', '2', 'r') {
        Some(Keys::Number2)
    } else     if f == (7nat, 'n', '3', 'r') {
        Some(Keys::Number3)
    } else     if f == (7nat, 'n', '4', 'r') {
        Some(Keys::Number4)
    } else     if f == (7nat, 'n', '5', 'r') {
        Some(Keys::Number5)
    } else     if f == (7nat, 'n', '6', 'r') {
        Some(Keys::Number6)
    } else     if f == (7nat, 'n', '7', 'r') {
        Some(Keys::Number7)
    } else     if f == (7nat, 'n', '8', 'r') {
        Some(Keys::Number8)
    } else     if f == (7nat, 'n', '9', 'r') {
        Some(Keys::Number9)
    } else     if f == (2nat, 'o', 'k', 'o') {
        Some(Keys::OkButton)
    } else     if f == (4nat, 'p', 'y', 'a') {
        Some(Keys::Play)
    } else     if f == (15nat, 'p', 'l', 'e') {
        Some(Keys::PreviousChannel)
    } else     if f == (12nat, 'p', 'e', 'd') {
        Some(Keys::ProgramGuide)
    } else     if f == (6nat, 'r', 'd', 'r') {
        Some(Keys::Record)
    } else     if f == (9nat, 'r', 'n', 'o') {
        Some(Keys::RedButton)
    } else     if f == (6nat, 'r', 'd', 'n') {
        Some(Keys::Rewind)
    } else     if f == (12nat, 's', 'e', 'v') {
        Some(Keys::SleepTimer)
    } else     if f == (9nat, 'u', 'e', 'd') {
        Some(Keys::UserGuide)
    } else     if f == (9nat, 'v', 'e', 'd') {
        Some(Keys::VideoMode)
    } else     if f == (10nat, 'v', 'n', 'w') {
        Some(Keys::VolumeDown)
    } else     if f == (10nat, 'v', 'e', 't') {
        Some(Keys::VolumeMute)
    } else     if f == (8nat, 'v', 'p', 'u') {
        Some(Keys::VolumeUp)
    } else     if f == (12nat, 'y', 'n', 'o') {
        Some(Keys::YellowButton)
    } else {
        None
    }
}

/// A key is found again from the fingerprint of its name.
proof fn lemma_key_fingerprint(k: Keys)
    ensures
        key_with_fingerprint(key_name_fingerprint(k.spec_as_str())) == Some(k),
{
    reveal_strlit("arrowdown");
    reveal_strlit("arrowleft");
    reveal_strlit("arrowright");
    reveal_strlit("arrowup");
    reveal_strlit("aspectratio");
    reveal_strlit("audiomode");
    reveal_strlit("returnback");
    reveal_strlit("bluebutton");
    reveal_strlit("captionsubtitle");
    reveal_strlit("channeldown");
    reveal_strlit("channellist");
    reveal_strlit("channelup");
    reveal_strlit("deviceinput");
    reveal_strlit("screenbright");
    reveal_strlit("fastforward");
    reveal_strlit("greenbutton");
    reveal_strlit("myapp");
    reveal_strlit("programminfo");
    reveal_strlit("livetv");
    reveal_strlit("settingmenu");
    reveal_strlit("number0");
    reveal_strlit("number1");
    reveal_strlit("number2");
    reveal_strlit("number3");
    reveal_strlit("number4");
    reveal_strlit("number5");
    reveal_strlit("number6");
    reveal_strlit("number7");
    reveal_strlit("number8");
    reveal_strlit("number9");
    reveal_strlit("ok");
    reveal_strlit("play");
    reveal_strlit("previouschannel");
    reveal_strlit("programguide");
    reveal_strlit("record");
    reveal_strlit("redbutton");
    reveal_strlit("rewind");
    reveal_strlit("sleepreserve");
    reveal_strlit("userguide");
    reveal_strlit("videomode");
    reveal_strlit("volumedown");
    reveal_strlit("volumemute");
    reveal_strlit("volumeup");
    reveal_strlit("yellowbutton");
    match k {
        Keys::ArrowDown => {},
        Keys::ArrowLeft => {},
        Keys::ArrowRight => {},
        Keys::ArrowUp => {},
        Keys::AspectRatio => {},
        Keys::AudioMode => {},
        Keys::Back => {},
        Keys::BlueButton => {},
        Keys::CaptionSubtitle => {},
        Keys::ChannelDown => {},
        Keys::ChannelList => {},
        Keys::ChannelUp => {},
        Keys::DeviceInput => {},
        Keys::EnergySaving => {},
        Keys::FastForward => {},
        Keys::GreenButton => {},
        Keys::Home => {},
        Keys::Info => {},
        Keys::LiveTV => {},
        Keys::Menu => {},
        Keys::Number0 => {},
        Keys::Number1 => {},
        Keys::Number2 => {},
        Keys::Number3 => {},
        Keys::Number4 => {},
        Keys::Number5 => {},
        Keys::Number6 => {},
        Keys::Number7 => {},
        Keys::Number8 => {},
        Keys::Number9 => {},
        Keys::OkButton => {},
        Keys::Play => {},
        Keys::PreviousChannel => {},
        Keys::ProgramGuide => {},
        Keys::Record => {},
        Keys::RedButton => {},
        Keys::Rewind => {},
        Keys::SleepTimer => {},
        Keys::UserGuide => {},
        Keys::VideoMode => {},
        Keys::VolumeDown => {},
        Keys::VolumeMute => {},
        Keys::VolumeUp => {},
        Keys::YellowButton => {},
    }
}

/// Distinct keys have distinct names.
pub proof fn lemma_key_names_distinct(k1: Keys, k2: Keys)
    ensures
        k1 != k2 ==> k1.spec_as_str() != k2.spec_as_str(),
{
    lemma_key_fingerprint(k1);
    lemma_key_fingerprint(k2);
}

/// The network interface whose MAC address is queried.
#[derive(Debug, Clone, Copy, PartialEq, Eq, Structural)]
pub enum ConnectionType {
    Wired,
    Wifi,
}

impl ConnectionType {
    /// The name of the interface as the `GET_MACADDRESS` command spells it.
    pub open spec fn spec_name(&self) -> Seq<char> {
        match self {
            ConnectionType::Wired => "Wired"@,
            ConnectionType::Wifi => "Wifi"@,
        }
    }

    /// The name of the interface as the `GET_MACADDRESS` command spells it.
    pub fn name(&self) -> (s: &'static str)
        ensures
            s@ == self.spec_name(),
    {
        match self {
            ConnectionType::Wired => "Wired",
            ConnectionType::Wifi => "Wifi",
        }
    }
}

/// Applications that can be launched on the TV.
#[derive(Debug, Clone, Copy, PartialEq, Eq, Structural)]
pub enum Apps {
    Amazon,
    GooglePlay,
    Hulu,
    Netflix,
    SlingTV,
    Youtube,
    Vudu,
    Settings,
    Photos,
    Music,
    Guide,
    Browser,
    Gallery,
    Plex,
    Disney,
    HboMax,
}

impl Apps {
    /// The application identifier used by the `APP_LAUNCH` command.
    pub open spec fn spec_as_str(&self) -> Seq<char> {
        match self {
            Apps::Amazon => "amazon"@,
            Apps::GooglePlay => "googleplaymovieswebos"@,
            Apps::Hulu => "hulu"@,
            Apps::Netflix => "netflix"@,
            Apps::SlingTV => "com.movenetworks.app.sling-tv-sling-production"@,
            Apps::Youtube => "youtube.leanback.v4"@,
            Apps::Vudu => "vudu"@,
            Apps::Settings => "com.palm.app.settings"@,
            Apps::Photos => "com.webos.app.photovideo"@,
            Apps::Music => "com.webos.app.music"@,
            Apps::Guide => "com.webos.service.iepg"@,
            Apps::Browser => "com.webos.app.browser"@,
            Apps::Gallery => "com.webos.app.igallery"@,
            Apps::Plex => "cdp-30"@,
            Apps::Disney => "com.disney.disneyplus-prod"@,
            Apps::HboMax => "com.hbo.hbomax"@,
        }
    }

    /// The application identifier used by the `APP_LAUNCH` command.
    pub fn as_str(&self) -> (s: &'static str)
        ensures
            s@ == self.spec_as_str(),
    {
        match self {
            Apps::Amazon => "amazon",
            Apps::GooglePlay => "googleplaymovieswebos",
            Apps::Hulu => "hulu",
            Apps::Netflix => "netflix",
            Apps::SlingTV => "com.movenetworks.app.sling-tv-sling-production",
            Apps::Youtube => "youtube.leanback.v4",
            Apps::Vudu => "vudu",
            Apps::Settings => "com.palm.app.settings",
            Apps::Photos => "com.webos.app.photovideo",
            Apps::Music => "com.webos.app.music",
            Apps::Guide => "com.webos.service.iepg",
            Apps::Browser => "com.webos.app.browser",
            Apps::Gallery => "com.webos.app.igallery",
            Apps::Plex => "cdp-30",
            Apps::Disney => "com.disney.disneyplus-prod",
            Apps::HboMax => "com.hbo.hbomax",
        }
    }
}

/// Energy saving levels accepted by the `ENERGY_SAVING` command.
#[derive(Debug, Clone, Copy, PartialEq, Eq, Structural)]
pub enum EnergySavingLevels {
    Auto,
    ScreenOff,
    Maximum,
    Medium,
    Minimum,
    Off,
}
impl EnergySavingLevels {
    /// The level name used by the `ENERGY_SAVING` command.
    pub open spec fn spec_as_str(&self) -> Seq<char> {
        match self {
            EnergySavingLevels::Auto => "auto"@,
            EnergySavingLevels::ScreenOff => "screenoff"@,
            EnergySavingLevels::Maximum => "maximum"@,
            EnergySavingLevels::Medium => "medium"@,
            EnergySavingLevels::Minimum => "minimum"@,
            EnergySavingLevels::Off => "off"@,
        }
    }

    /// The level name used by the `ENERGY_SAVING` command.
    pub fn as_str(&self) -> (s: &'static str)
        ensures
            s@ == self.spec_as_str(),
    {
        match self {
            EnergySavingLevels::Auto => "auto",
            EnergySavingLevels::ScreenOff => "screenoff",
            EnergySavingLevels::Maximum => "maximum",
            EnergySavingLevels::Medium => "medium",
            EnergySavingLevels::Minimum => "minimum",
            EnergySavingLevels::Off => "off",
        }
    }
}

/// Input sources accepted by the `INPUT_SELECT` command.
#[derive(Debug, Clone, Copy, PartialEq, Eq, Structural)]
pub enum Inputs {
    Dtv,
    Atv,
    Cadtv,
    Catv,
    Av,
    Component,
    Hdmi1,
    Hdmi2,
    Hdmi3,
    Hdmi4,
}
impl Inputs {
    /// The input name used by the `INPUT_SELECT` command.
    pub open spec fn spec_as_str(&self) -> Seq<char> {
        match self {
            Inputs::Dtv => "dtv"@,
            Inputs::Atv => "atv"@,
            Inputs::Cadtv => "cadtv"@,
            Inputs::Catv => "catv"@,
            Inputs::Av => "avav1"@,
            Inputs::Component => "component1"@,
            Inputs::Hdmi1 => "hdmi1"@,
            Inputs::Hdmi2 => "hdmi2"@,
            Inputs::Hdmi3 => "hdmi3"@,
            Inputs::Hdmi4 => "hdmi4"@,
        }
    }

    /// The input name used by the `INPUT_SELECT` command.
    pub fn as_str(&self) -> (s: &'static str)
        ensures
            s@ == self.spec_as_str(),
    {
        match self {
            Inputs::Dtv => "dtv",
            Inputs::Atv => "atv",
            Inputs::Cadtv => "cadtv",
            Inputs::Catv => "catv",
            Inputs::Av => "avav1",
            Inputs::Component => "component1",
            Inputs::Hdmi1 => "hdmi1",
            Inputs::Hdmi2 => "hdmi2",
            Inputs::Hdmi3 => "hdmi3",
            Inputs::Hdmi4 => "hdmi4",
        }
    }
}

/// Remote-control keys accepted by the `KEY_ACTION` command.
#[derive(Debug, Clone, Copy, PartialEq, Eq, Structural)]
pub enum Keys {
    ArrowDown,
    ArrowLeft,
    ArrowRight,
    ArrowUp,
    AspectRatio,
    AudioMode,
    Back,
    BlueButton,
    CaptionSubtitle,
    ChannelDown,
    ChannelList,
    ChannelUp,
    DeviceInput,
    EnergySaving,
    FastForward,
    GreenButton,
    Home,
    Info,
    LiveTV,
    Menu,
    Number0,
    Number1,
    Number2,
    Number3,
    Number4,
    Number5,
    Number6,
    Number7,
    Number8,
    Number9,
    OkButton,
    Play,
    PreviousChannel,
    ProgramGuide,
    Record,
    RedButton,
    Rewind,
    SleepTimer,
    UserGuide,
    VideoMode,
    VolumeDown,
    VolumeMute,
    VolumeUp,
    YellowButton,
}
impl Keys {
    /// The key name used by the `KEY_ACTION` command.
    pub open spec fn spec_as_str(&self) -> Seq<char> {
        match self {
            Keys::ArrowDown => "arrowdown"@,
            Keys::ArrowLeft => "arrowleft"@,
            Keys::ArrowRight => "arrowright"@,
            Keys::ArrowUp => "arrowup"@,
            Keys::AspectRatio => "aspectratio"@,
            Keys::AudioMode => "audiomode"@,
            Keys::Back => "returnback"@,
            Keys::BlueButton => "bluebutton"@,
            Keys::CaptionSubtitle => "captionsubtitle"@,
            Keys::ChannelDown => "channeldown"@,
            Keys::ChannelList => "channellist"@,
            Keys::ChannelUp => "channelup"@,
            Keys::DeviceInput => "deviceinput"@,
            Keys::EnergySaving => "screenbright"@,
            Keys::FastForward => "fastforward"@,
            Keys::GreenButton => "greenbutton"@,
            Keys::Home => "myapp"@,
            Keys::Info => "programminfo"@,
            Keys::LiveTV => "livetv"@,
            Keys::Menu => "settingmenu"@,
            Keys::Number0 => "number0"@,
            Keys::Number1 => "number1"@,
            Keys::Number2 => "number2"@,
            Keys::Number3 => "number3"@,
            Keys::Number4 => "number4"@,
            Keys::Number5 => "number5"@,
            Keys::Number6 => "number6"@,
            Keys::Number7 => "number7"@,
            Keys::Number8 => "number8"@,
            Keys::Number9 => "number9"@,
            Keys::OkButton => "ok"@,
            Keys::Play => "play"@,
            Keys::PreviousChannel => "previouschannel"@,
            Keys::ProgramGuide => "programguide"@,
            Keys::Record => "record"@,
            Keys::RedButton => "redbutton"@,
            Keys::Rewind => "rewind"@,
            Keys::SleepTimer => "sleepreserve"@,
            Keys::UserGuide => "userguide"@,
            Keys::VideoMode => "videomode"@,
            Keys::VolumeDown => "volumedown"@,
            Keys::VolumeMute => "volumemute"@,
            Keys::VolumeUp => "volumeup"@,
            Keys::YellowButton => "yellowbutton"@,
        }
    }

    /// The key name used by the `KEY_ACTION` command.
    pub fn as_str(&self) -> (s: &'static str)
        ensures
            s@ == self.spec_as_str(),
    {
        match self {
            Keys::ArrowDown => "arrowdown",
            Keys::ArrowLeft => "arrowleft",
            Keys::ArrowRight => "arrowright",
            Keys::ArrowUp => "arrowup",
            Keys::AspectRatio => "aspectratio",
            Keys::AudioMode => "audiomode",
            Keys::Back => "returnback",
            Keys::BlueButton => "bluebutton",
            Keys::CaptionSubtitle => "captionsubtitle",
            Keys::ChannelDown => "channeldown",
            Keys::ChannelList => "channellist",
            Keys::ChannelUp => "channelup",
            Keys::DeviceInput => "deviceinput",
            Keys::EnergySaving => "screenbright",
            Keys::FastForward => "fastforward",
            Keys::GreenButton => "greenbutton",
            Keys::Home => "myapp",
            Keys::Info => "programminfo",
            Keys::LiveTV => "livetv",
            Keys::Menu => "settingmenu",
            Keys::Number0 => "number0",
            Keys::Number1 => "number1",
            Keys::Number2 => "number2",
            Keys::Number3 => "number3",
            Keys::Number4 => "number4",
            Keys::Number5 => "number5",
            Keys::Number6 => "number6",
            Keys::Number7 => "number7",
            Keys::Number8 => "number8",
            Keys::Number9 => "number9",
            Keys::OkButton => "ok",
            Keys::Play => "play",
            Keys::PreviousChannel => "previouschannel",
            Keys::ProgramGuide => "programguide",
            Keys::Record => "record",
            Keys::RedButton => "redbutton",
            Keys::Rewind => "rewind",
            Keys::SleepTimer => "sleepreserve",
            Keys::UserGuide => "userguide",
            Keys::VideoMode => "videomode",
            Keys::VolumeDown => "volumedown",
            Keys::VolumeMute => "volumemute",
            Keys::VolumeUp => "volumeup",
            Keys::YellowButton => "yellowbutton",
        }
    }
}

/// Picture modes accepted by the `PICTURE_MODE` command.
#[derive(Debug, Clone, Copy, PartialEq, Eq, Structural)]
pub enum PictureModes {
    Cinema,
    Eco,
    FilmMaker,
    Game,
    Normal,
    Sports,
    Vivid,
}
impl PictureModes {
    /// The mode name used by the `PICTURE_MODE` command.
    pub open spec fn spec_as_str(&self) -> Seq<char> {
        match self {
            PictureModes::Cinema => "cinema"@,
            PictureModes::Eco => "eco"@,
            PictureModes::FilmMaker => "filmMaker"@,
            PictureModes::Game => "game"@,
            PictureModes::Normal => "normal"@,
            PictureModes::Sports => "sports"@,
            PictureModes::Vivid => "vivid"@,
        }
    }

    /// The mode name used by the `PICTURE_MODE` command.
    pub fn as_str(&self) -> (s: &'static str)
        ensures
            s@ == self.spec_as_str(),
    {
        match self {
            PictureModes::Cinema => "cinema",
            PictureModes::Eco => "eco",
            PictureModes::FilmMaker => "filmMaker",
            PictureModes::Game => "game",
            PictureModes::Normal => "normal",
            PictureModes::Sports => "sports",
            PictureModes::Vivid => "vivid",
        }
    }
}

/// Power states of the TV.
#[derive(Debug, Clone, Copy, PartialEq, Eq, Structural)]
pub enum PowerStates {
    On,
    Off,
    Unknown,
}
impl PowerStates {
    /// The lower-case name of the power state.
    pub open spec fn spec_as_str(&self) -> Seq<char> {
        match self {
            PowerStates::On => "on"@,
            PowerStates::Off => "off"@,
            PowerStates::Unknown => "unknown"@,
        }
    }

    /// The lower-case name of the power state.
    pub fn as_str(&self) -> (s: &'static str)
        ensures
            s@ == self.spec_as_str(),
    {
        match self {
            PowerStates::On => "on",
            PowerStates::Off => "off",
            PowerStates::Unknown => "unknown",
        }
    }
}

/// Screen mute modes accepted by the `SCREEN_MUTE` command.
#[derive(Debug, Clone, Copy, PartialEq, Eq, Structural)]
pub enum ScreenMuteModes {
    ScreenMuteOn,
    VideoMuteOn,
    AllMuteOff,
}
impl ScreenMuteModes {
    /// The mode name used by the `SCREEN_MUTE` command.
    pub open spec fn spec_as_str(&self) -> Seq<char> {
        match self {
            ScreenMuteModes::ScreenMuteOn => "screenmuteon"@,
            ScreenMuteModes::VideoMuteOn => "videomuteon"@,
            ScreenMuteModes::AllMuteOff => "allmuteoff"@,
        }
    }

    /// The mode name used by the `SCREEN_MUTE` command.
    pub fn as_str(&self) -> (s: &'static str)
        ensures
            s@ == self.spec_as_str(),
    {
        match self {
            ScreenMuteModes::ScreenMuteOn => "screenmuteon",
            ScreenMuteModes::VideoMuteOn => "videomuteon",
            ScreenMuteModes::AllMuteOff => "allmuteoff",
        }
    }
}

/// What the TV reports about the application currently shown.
#[derive(Debug)]
pub struct AppDetails {
    pub app: String,
    pub hot_plug: String,
    pub signal: String,
    pub hdcp_version: String,
    pub hdcp_status: String,
}

/// A volume level, between `VolumeLevel::MIN` and `VolumeLevel::MAX`.
#[derive(Debug, Clone, Copy, PartialEq, Eq, Structural, PartialOrd, Ord)]
pub struct VolumeLevel(u8);

impl VolumeLevel {
    pub const MIN: u8 = 0;

    pub const MAX: u8 = 100;

    #[verifier::type_invariant]
    spec fn in_range(self) -> bool {
        self.0 <= 100
    }

    /// The level that the value stands for.
    pub closed spec fn level(self) -> u8 {
        self.0
    }

    /// The message with which an out-of-range level is refused.
    pub open spec fn out_of_range_message() -> Seq<char> {
        "volume level must be between 0 and 100"@
    }

    /// What `new` gives for a level.
    pub closed spec fn spec_new(level: u8) -> Result<Self, &'static str> {
        if level <= 100 {
            Ok(VolumeLevel(level))
        } else {
            Err("volume level must be between 0 and 100")
        }
    }

    /// Makes a volume level; levels above `MAX` are refused.
    pub fn new(level: u8) -> (r: Result<Self, &'static str>)
        ensures
            r == Self::spec_new(level),
            level <= 100 <==> r is Ok,
            r matches Ok(v) ==> v.level() == level,
            r matches Err(msg) ==> msg@ == Self::out_of_range_message(),
    {
        if level <= Self::MAX {
            Ok(VolumeLevel(level))
        } else {
            Err("volume level must be between 0 and 100")
        }
    }

    /// The level as a number.
    pub fn value(self) -> (v: u8)
        ensures
            v == self.level(),
            v <= 100,
    {
        proof {
            use_type_invariant(&self);
        }
        self.0
    }
}

impl TryFrom<u8> for VolumeLevel {
    type Error = &'static str;

    fn try_from(level: u8) -> (r: Result<Self, Self::Error>)
        ensures
            level <= 100 <==> r is Ok,
            r matches Ok(v) ==> v.level() == level,
            r matches Err(msg) ==> msg@ == Self::out_of_range_message(),
    {
        Self::new(level)
    }
}

impl vstd::std_specs::convert::TryFromSpecImpl<u8> for VolumeLevel {
    open spec fn obeys_try_from_spec() -> bool {
        true
    }

    open spec fn try_from_spec(v: u8) -> Result<Self, &'static str> {
        Self::spec_new(v)
    }
}

impl From<VolumeLevel> for u8 {
    fn from(level: VolumeLevel) -> (v: u8) {
        level.value()
    }
}

impl vstd::std_specs::convert::FromSpecImpl<VolumeLevel> for u8 {
    open spec fn obeys_from_spec() -> bool {
        true
    }

    open spec fn from_spec(v: VolumeLevel) -> u8 {
        v.level()
    }
}

/// The length of a name with its first two and its last character; within
/// each of the vocabularies below no two names share it.
pub open spec fn name_fingerprint(s: Seq<char>) -> (nat, char, char, char) {
    (s.len(), s[0], s[1], s[s.len() - 1])
}

/// The application whose name has the fingerprint `f`.
pub open spec fn apps_with_fingerprint(f: (nat, char, char, char)) -> Option<Apps> {
    if f == (6nat, 'a', 'm', 'n') {
        Some(Apps::Amazon)
    } else     if f == (21nat, 'g', 'o', 's') {
        Some(Apps::GooglePlay)
    } else     if f == (4nat, 'h', 'u', 'u') {
        Some(Apps::Hulu)
    } else     if f == (7nat, 'n', 'e', 'x') {
        Some(Apps::Netflix)
    } else     if f == (46nat, 'c', 'o', 'n') {
        Some(Apps::SlingTV)
    } else     if f == (19nat, 'y', 'o', '4') {
        Some(Apps::Youtube)
    } else     if f == (4nat, 'v', 'u', 'u') {
        Some(Apps::Vudu)
    } else     if f == (21nat, 'c', 'o', 's') {
        Some(Apps::Settings)
    } else     if f == (24nat, 'c', 'o', 'o') {
        Some(Apps::Photos)
    } else     if f == (19nat, 'c', 'o', 'c') {
        Some(Apps::Music)
    } else     if f == (22nat, 'c', 'o', 'g') {
        Some(Apps::Guide)
    } else     if f == (21nat, 'c', 'o', 'r') {
        Some(Apps::Browser)
    } else     if f == (22nat, 'c', 'o', 'y') {
        Some(Apps::Gallery)
    } else     if f == (6nat, 'c', 'd', '0') {
        Some(Apps::Plex)
    } else     if f == (26nat, 'c', 'o', 'd') {
        Some(Apps::Disney)
    } else     if f == (14nat, 'c', 'o', 'x') {
        Some(Apps::HboMax)
    } else {
        None
    }
}

/// Each of the applications is found again from the fingerprint of its name.
proof fn lemma_apps_fingerprint(x: Apps)
    ensures
        apps_with_fingerprint(name_fingerprint(x.spec_as_str())) == Some(x),
{
    reveal_strlit("amazon");
    reveal_strlit("googleplaymovieswebos");
    reveal_strlit("hulu");
    reveal_strlit("netflix");
    reveal_strlit("com.movenetworks.app.sling-tv-sling-production");
    reveal_strlit("youtube.leanback.v4");
    reveal_strlit("vudu");
    reveal_strlit("com.palm.app.settings");
    reveal_strlit("com.webos.app.photovideo");
    reveal_strlit("com.webos.app.music");
    reveal_strlit("com.webos.service.iepg");
    reveal_strlit("com.webos.app.browser");
    reveal_strlit("com.webos.app.igallery");
    reveal_strlit("cdp-30");
    reveal_strlit("com.disney.disneyplus-prod");
    reveal_strlit("com.hbo.hbomax");
    match x {
        Apps::Amazon => {},
        Apps::GooglePlay => {},
        Apps::Hulu => {},
        Apps::Netflix => {},
        Apps::SlingTV => {},
        Apps::Youtube => {},
        Apps::Vudu => {},
        Apps::Settings => {},
        Apps::Photos => {},
        Apps::Music => {},
        Apps::Guide => {},
        Apps::Browser => {},
        Apps::Gallery => {},
        Apps::Plex => {},
        Apps::Disney => {},
        Apps::HboMax => {},
    }
}

/// Distinct applications have distinct names, so that no two of them stand for
/// the same thing in a command.
pub proof fn lemma_apps_names_distinct(x: Apps, y: Apps)
    ensures
        x != y ==> x.spec_as_str() != y.spec_as_str(),
{
    lemma_apps_fingerprint(x);
    lemma_apps_fingerprint(y);
}

/// The energy saving level whose name has the fingerprint `f`.
pub open spec fn energy_saving_levels_with_fingerprint(f: (nat, char, char, char)) -> Option<EnergySavingLevels> {
    if f == (4nat, 'a', 'u', 'o') {
        Some(EnergySavingLevels::Auto)
    } else     if f == (9nat, 's', 'c', 'f') {
        Some(EnergySavingLevels::ScreenOff)
    } else     if f == (7nat, 'm', 'a', 'm') {
        Some(EnergySavingLevels::Maximum)
    } else     if f == (6nat, 'm', 'e', 'm') {
        Some(EnergySavingLevels::Medium)
    } else     if f == (7nat, 'm', 'i', 'm') {
        Some(EnergySavingLevels::Minimum)
    } else     if f == (3nat, 'o', 'f', 'f') {
        Some(EnergySavingLevels::Off)
    } else {
        None
    }
}

/// Each of the energy saving levels is found again from the fingerprint of its name.
proof fn lemma_energy_saving_levels_fingerprint(x: EnergySavingLevels)
    ensures
        energy_saving_levels_with_fingerprint(name_fingerprint(x.spec_as_str())) == Some(x),
{
    reveal_strlit("auto");
    reveal_strlit("screenoff");
    reveal_strlit("maximum");
    reveal_strlit("medium");
    reveal_strlit("minimum");
    reveal_strlit("off");
    match x {
        EnergySavingLevels::Auto => {},
        EnergySavingLevels::ScreenOff => {},
        EnergySavingLevels::Maximum => {},
        EnergySavingLevels::Medium => {},
        EnergySavingLevels::Minimum => {},
        EnergySavingLevels::Off => {},
    }
}

/// Distinct energy saving levels have distinct names, so that no two of them stand for
/// the same thing in a command.
pub proof fn lemma_energy_saving_levels_names_distinct(x: EnergySavingLevels, y: EnergySavingLevels)
    ensures
        x != y ==> x.spec_as_str() != y.spec_as_str(),
{
    lemma_energy_saving_levels_fingerprint(x);
    lemma_energy_saving_levels_fingerprint(y);
}

/// The input whose name has the fingerprint `f`.
pub open spec fn inputs_with_fingerprint(f: (nat, char, char, char)) -> Option<Inputs> {
    if f == (3nat, 'd', 't', 'v') {
        Some(Inputs::Dtv)
    } else     if f == (3nat, 'a', 't', 'v') {
        Some(Inputs::Atv)
    } else     if f == (5nat, 'c', 'a', 'v') {
        Some(Inputs::Cadtv)
    } else     if f == (4nat, 'c', 'a', 'v') {
        Some(Inputs::Catv)
    } else     if f == (5nat, 'a', 'v', '1') {
        Some(Inputs::Av)
    } else     if f == (10nat, 'c', 'o', '1') {
        Some(Inputs::Component)
    } else     if f == (5nat, 'h', 'd', '1') {
        Some(Inputs::Hdmi1)
    } else     if f == (5nat, 'h', 'd', '2') {
        Some(Inputs::Hdmi2)
    } else     if f == (5nat, 'h', 'd', '3') {
        Some(Inputs::Hdmi3)
    } else     if f == (5nat, 'h', 'd', '4') {
        Some(Inputs::Hdmi4)
    } else {
        None
    }
}

/// Each of the inputs is found again from the fingerprint of its name.
proof fn lemma_inputs_fingerprint(x: Inputs)
    ensures
        inputs_with_fingerprint(name_fingerprint(x.spec_as_str())) == Some(x),
{
    reveal_strlit("dtv");
    reveal_strlit("atv");
    reveal_strlit("cadtv");
    reveal_strlit("catv");
    reveal_strlit("avav1");
    reveal_strlit("component1");
    reveal_strlit("hdmi1");
    reveal_strlit("hdmi2");
    reveal_strlit("hdmi3");
    reveal_strlit("hdmi4");
    match x {
        Inputs::Dtv => {},
        Inputs::Atv => {},
        Inputs::Cadtv => {},
        Inputs::Catv => {},
        Inputs::Av => {},
        Inputs::Component => {},
        Inputs::Hdmi1 => {},
        Inputs::Hdmi2 => {},
        Inputs::Hdmi3 => {},
        Inputs::Hdmi4 => {},
    }
}

/// Distinct inputs have distinct names, so that no two of them stand for
/// the same thing in a command.
pub proof fn lemma_inputs_names_distinct(x: Inputs, y: Inputs)
    ensures
        x != y ==> x.spec_as_str() != y.spec_as_str(),
{
    lemma_inputs_fingerprint(x);
    lemma_inputs_fingerprint(y);
}

/// The picture mode whose name has the fingerprint `f`.
pub open spec fn picture_modes_with_fingerprint(f: (nat, char, char, char)) -> Option<PictureModes> {
    if f == (6nat, 'c', 'i', 'a') {
        Some(PictureModes::Cinema)
    } else     if f == (3nat, 'e', 'c', 'o') {
        Some(PictureModes::Eco)
    } else     if f == (9nat, 'f', 'i', 'r') {
        Some(PictureModes::FilmMaker)
    } else     if f == (4nat, 'g', 'a', 'e') {
        Some(PictureModes::Game)
    } else     if f == (6nat, 'n', 'o', 'l') {
        Some(PictureModes::Normal)
    } else     if f == (6nat, 's', 'p', 's') {
        Some(PictureModes::Sports)
    } else     if f == (5nat, 'v', 'i', 'd') {
        Some(PictureModes::Vivid)
    } else {
        None
    }
}

/// Each of the picture modes is found again from the fingerprint of its name.
proof fn lemma_picture_modes_fingerprint(x: PictureModes)
    ensures
        picture_modes_with_fingerprint(name_fingerprint(x.spec_as_str())) == Some(x),
{
    reveal_strlit("cinema");
    reveal_strlit("eco");
    reveal_strlit("filmMaker");
    reveal_strlit("game");
    reveal_strlit("normal");
    reveal_strlit("sports");
    reveal_strlit("vivid");
    match x {
        PictureModes::Cinema => {},
        PictureModes::Eco => {},
        PictureModes::FilmMaker => {},
        PictureModes::Game => {},
        PictureModes::Normal => {},
        PictureModes::Sports => {},
        PictureModes::Vivid => {},
    }
}

/// Distinct picture modes have distinct names, so that no two of them stand for
/// the same thing in a command.
pub proof fn lemma_picture_modes_names_distinct(x: PictureModes, y: PictureModes)
    ensures
        x != y ==> x.spec_as_str() != y.spec_as_str(),
{
    lemma_picture_modes_fingerprint(x);
    lemma_picture_modes_fingerprint(y);
}

/// The power state whose name has the fingerprint `f`.
pub open spec fn power_states_with_fingerprint(f: (nat, char, char, char)) -> Option<PowerStates> {
    if f == (2nat, 'o', 'n', 'n') {
        Some(PowerStates::On)
    } else     if f == (3nat, 'o', 'f', 'f') {
        Some(PowerStates::Off)
    } else     if f == (7nat, 'u', 'n', 'n') {
        Some(PowerStates::Unknown)
    } else {
        None
    }
}

/// Each of the power states is found again from the fingerprint of its name.
proof fn lemma_power_states_fingerprint(x: PowerStates)
    ensures
        power_states_with_fingerprint(name_fingerprint(x.spec_as_str())) == Some(x),
{
    reveal_strlit("on");
    reveal_strlit("off");
    reveal_strlit("unknown");
    match x {
        PowerStates::On => {},
        PowerStates::Off => {},
        PowerStates::Unknown => {},
    }
}

/// Distinct power states have distinct names, so that no two of them stand for
/// the same thing in a command.
pub proof fn lemma_power_states_names_distinct(x: PowerStates, y: PowerStates)
    ensures
        x != y ==> x.spec_as_str() != y.spec_as_str(),
{
    lemma_power_states_fingerprint(x);
    lemma_power_states_fingerprint(y);
}

/// The screen mute mode whose name has the fingerprint `f`.
pub open spec fn screen_mute_modes_with_fingerprint(f: (nat, char, char, char)) -> Option<ScreenMuteModes> {
    if f == (12nat, 's', 'c', 'n') {
        Some(ScreenMuteModes::ScreenMuteOn)
    } else     if f == (11nat, 'v', 'i', 'n') {
        Some(ScreenMuteModes::VideoMuteOn)
    } else     if f == (10nat, 'a', 'l', 'f') {
        Some(ScreenMuteModes::AllMuteOff)
    } else {
        None
    }
}

/// Each of the screen mute modes is found again from the fingerprint of its name.
proof fn lemma_screen_mute_modes_fingerprint(x: ScreenMuteModes)
    ensures
        screen_mute_modes_with_fingerprint(name_fingerprint(x.spec_as_str())) == Some(x),
{
    reveal_strlit("screenmuteon");
    reveal_strlit("videomuteon");
    reveal_strlit("allmuteoff");
    match x {
        ScreenMuteModes::ScreenMuteOn => {},
        ScreenMuteModes::VideoMuteOn => {},
        ScreenMuteModes::AllMuteOff => {},
    }
}

/// Distinct screen mute modes have distinct names, so that no two of them stand for
/// the same thing in a command.
pub proof fn lemma_screen_mute_modes_names_distinct(x: ScreenMuteModes, y: ScreenMuteModes)
    ensures
        x != y ==> x.spec_as_str() != y.spec_as_str(),
{
    lemma_screen_mute_modes_fingerprint(x);
    lemma_screen_mute_modes_fingerprint(y);
}

/// The interface whose name has the fingerprint `f`.
pub open spec fn connection_type_with_fingerprint(f: (nat, char, char, char)) -> Option<ConnectionType> {
    if f == (5nat, 'W', 'i', 'd') {
        Some(ConnectionType::Wired)
    } else     if f == (4nat, 'W', 'i', 'i') {
        Some(ConnectionType::Wifi)
    } else {
        None
    }
}

/// Each of the interfaces is found again from the fingerprint of its name.
proof fn lemma_connection_type_fingerprint(x: ConnectionType)
    ensures
        connection_type_with_fingerprint(name_fingerprint(x.spec_name())) == Some(x),
{
    reveal_strlit("Wired");
    reveal_strlit("Wifi");
    match x {
        ConnectionType::Wired => {},
        ConnectionType::Wifi => {},
    }
}

/// Distinct interfaces have distinct names, so that no two of them stand for
/// the same thing in a command.
pub proof fn lemma_connection_type_names_distinct(x: ConnectionType, y: ConnectionType)
    ensures
        x != y ==> x.spec_name() != y.spec_name(),
{
    lemma_connection_type_fingerprint(x);
    lemma_connection_type_fingerprint(y);
}

} // verus!
