//! What the host passes at start-up: the port, the plugin's identifier, the
//! name of the registration event, and a description of the host.

use vstd::prelude::*;
use crate::decode::same_text;
use crate::info::{optional_info_read_as, read_optional_info};
use crate::keyed::texts;

verus! {

/// The kinds of device that the host knows.
#[derive(Clone, Copy, Debug, PartialEq, Eq)]
pub enum DeviceType {
    StreamDeck,
    StreamDeckMini,
    StreamDeckXL,
    StreamDeckMobile,
    StreamDeckPedal,
    CorsairVoyager,
    StreamDeckPlus,
}

/// The number that stands for a kind of device on the wire.
pub open spec fn device_code(kind: DeviceType) -> i32 {
    match kind {
        DeviceType::StreamDeck => 0,
        DeviceType::StreamDeckMini => 1,
        DeviceType::StreamDeckXL => 2,
        DeviceType::StreamDeckMobile => 3,
        DeviceType::StreamDeckPedal => 5,
        DeviceType::CorsairVoyager => 6,
        DeviceType::StreamDeckPlus => 7,
    }
}

impl DeviceType {
    /// The number that stands for this kind of device on the wire.
    pub fn code(&self) -> (r: i32)
        ensures
            r == device_code(*self),
    {
        match self {
            DeviceType::StreamDeck => 0,
            DeviceType::StreamDeckMini => 1,
            DeviceType::StreamDeckXL => 2,
            DeviceType::StreamDeckMobile => 3,
            DeviceType::StreamDeckPedal => 5,
            DeviceType::CorsairVoyager => 6,
            DeviceType::StreamDeckPlus => 7,
        }
    }

    /// The kind of device that `code` stands for, if it stands for one.
    pub fn from_code(code: i32) -> (r: Option<DeviceType>)
        ensures
            match r {
                Some(kind) => device_code(kind) == code,
                None => forall|kind: DeviceType| device_code(kind) != code,
            },
    {
        if code == 0 {
            Some(DeviceType::StreamDeck)
        } else if code == 1 {
            Some(DeviceType::StreamDeckMini)
        } else if code == 2 {
            Some(DeviceType::StreamDeckXL)
        } else if code == 3 {
            Some(DeviceType::StreamDeckMobile)
        } else if code == 5 {
            Some(DeviceType::StreamDeckPedal)
        } else if code == 6 {
            Some(DeviceType::CorsairVoyager)
        } else if code == 7 {
            Some(DeviceType::StreamDeckPlus)
        } else {
            None
        }
    }
}

pub struct StreamDeckArgs {
    pub port: i32,
    pub plugin_uuid: String,
    pub register_event: String,
    pub info: Option<Info>,
}

pub struct ApplicationInfo {
    pub font: Option<String>,
    pub language: Option<String>,
    pub platform: Option<String>,
    pub platform_version: Option<String>,
    pub version: Option<String>,
}

pub struct ColorsInfo {
    pub button_mouse_over_background_color: Option<String>,
    pub button_pressed_background_color: Option<String>,
    pub button_pressed_border_color: Option<String>,
    pub button_pressed_text_color: Option<String>,
    pub highlight_color: Option<String>,
}

pub struct PluginInfo {
    pub uuid: Option<String>,
    pub version: Option<String>,
}

#[derive(Clone, Copy, Debug, PartialEq, Eq)]
pub struct DeviceSize {
    pub columns: i32,
    pub rows: i32,
}

pub struct DeviceInfo {
    pub id: Option<String>,
    pub name: Option<String>,
    pub size: Option<DeviceSize>,
    pub device_type: i32,
}

pub struct Info {
    pub application: ApplicationInfo,
    pub device_pixel_ratio: Option<i32>,
    pub devices: Option<Vec<DeviceInfo>>,
    pub plugin: PluginInfo,
}

/// Why a list of arguments could not be taken.
#[derive(Clone, Copy, Debug, PartialEq, Eq)]
pub enum ArgsError {
    /// A flag stands last, with no value behind it.
    MissingValue,
    /// The value behind `-port` is no `i32`.
    InvalidPort,
}

/// The `i32` that `str::parse` reads from `s`; `None` where it reads none.
pub uninterp spec fn parsed_i32(s: Seq<char>) -> Option<i32>;

/// Calls `str::parse` for an `i32`. The contract names what it returns.
#[verifier::external_body]
fn parse_i32(s: &str) -> (r: Option<i32>)
    ensures
        r == parsed_i32(s@),
{
    match s.parse::<i32>() {
        Ok(n) => Some(n),
        Err(_) => None,
    }
}

/// The arguments that announce a value.
pub open spec fn is_flag(arg: Seq<char>) -> bool {
    arg == "-port"@ || arg == "-pluginUUID"@ || arg == "-registerEvent"@ || arg == "-info"@
}

/// What is wrong with the argument at place `i`, if anything is.
pub open spec fn error_at(args: Seq<Seq<char>>, i: int) -> Option<ArgsError> {
    if !is_flag(args[i]) {
        None
    } else if i + 1 >= args.len() {
        Some(ArgsError::MissingValue)
    } else if args[i] == "-port"@ && parsed_i32(args[i + 1]).is_none() {
        Some(ArgsError::InvalidPort)
    } else {
        None
    }
}

/// The first thing that is wrong among the first `n` arguments.
pub open spec fn first_error(args: Seq<Seq<char>>, n: int) -> Option<ArgsError>
    decreases n,
{
    if n <= 0 {
        None
    } else {
        match first_error(args, n - 1) {
            Some(e) => Some(e),
            None => error_at(args, n - 1),
        }
    }
}

/// The port that the first `n` arguments give: the value behind the last
/// `-port` among them, zero where there is none.
pub open spec fn port_after(args: Seq<Seq<char>>, n: int) -> i32
    decreases n,
{
    if n <= 0 {
        0
    } else if args[n - 1] == "-port"@ && n < args.len() && parsed_i32(args[n]).is_some() {
        parsed_i32(args[n]).unwrap()
    } else {
        port_after(args, n - 1)
    }
}

/// The value behind the last `flag` among the first `n` arguments, empty
/// where there is none.
pub open spec fn text_after(args: Seq<Seq<char>>, flag: Seq<char>, n: int) -> Seq<char>
    decreases n,
{
    if n <= 0 {
        Seq::empty()
    } else if args[n - 1] == flag && n < args.len() {
        args[n]
    } else {
        text_after(args, flag, n - 1)
    }
}

/// The text can be taken as the value of `-info`.
pub open spec fn info_accepted(text: Seq<char>) -> bool {
    exists|info: Option<Info>| optional_info_read_as(text, info)
}

/// The value behind the last `-info` among the first `n` arguments whose
/// value can be taken; a value that cannot is passed over.
pub open spec fn info_text_after(args: Seq<Seq<char>>, n: int) -> Option<Seq<char>>
    decreases n,
{
    if n <= 0 {
        None
    } else if args[n - 1] == "-info"@ && n < args.len() && info_accepted(args[n]) {
        Some(args[n])
    } else {
        info_text_after(args, n - 1)
    }
}

/// `info` is what the text gives, nothing where there is no text.
pub open spec fn info_matches(text: Option<Seq<char>>, info: Option<Info>) -> bool {
    match text {
        Some(t) => optional_info_read_as(t, info),
        None => info.is_none(),
    }
}

/// An error among the first `m` arguments is the first error of any
/// longer prefix.
pub proof fn lemma_first_error_stays(args: Seq<Seq<char>>, m: int, n: int)
    requires
        m <= n,
        first_error(args, m).is_some(),
    ensures
        first_error(args, n) == first_error(args, m),
    decreases n - m,
{
    if m < n {
        lemma_first_error_stays(args, m, n - 1);
    }
}

/// Takes the start-up arguments from the list that the host passed. Each
/// of `-port`, `-pluginUUID`, `-registerEvent` and `-info` announces the
/// value behind it; of two values for one flag the later stays. Every
/// argument is looked at, also one that is the value of the flag before it.
/// A flag in the last place and a port that is no `i32` are errors, and the
/// first error in the list is returned. A value of `-info` that is neither
/// `null` nor a description of the host is passed over.
pub fn parse_args(args: &Vec<String>) -> (r: Result<StreamDeckArgs, ArgsError>)
    ensures
        match r {
            Ok(a) => {
                &&& first_error(texts(args@), args.len() as int).is_none()
                &&& a.port == port_after(texts(args@), args.len() as int)
                &&& a.plugin_uuid@ == text_after(texts(args@), "-pluginUUID"@, args.len() as int)
                &&& a.register_event@ == text_after(
                    texts(args@),
                    "-registerEvent"@,
                    args.len() as int,
                )
                &&& info_matches(info_text_after(texts(args@), args.len() as int), a.info)
            },
            Err(e) => first_error(texts(args@), args.len() as int) == Some(e),
        },
{
    let ghost all = texts(args@);
    let mut port: i32 = 0;
    let mut plugin_uuid = String::new();
    let mut register_event = String::new();
    let mut info: Option<Info> = None;
    let n = args.len();
    let mut i: usize = 0;
    while i < n
        invariant
            n == args.len(),
            all == texts(args@),
            i <= n,
            first_error(all, i as int).is_none(),
            port == port_after(all, i as int),
            plugin_uuid@ == text_after(all, "-pluginUUID"@, i as int),
            register_event@ == text_after(all, "-registerEvent"@, i as int),
            info_matches(info_text_after(all, i as int), info),
        decreases n - i,
    {
        let p = args[i].as_str();
        assert(all[i as int] == p@);
        let is_port = same_text(p, "-port");
        let is_uuid = same_text(p, "-pluginUUID");
        let is_event = same_text(p, "-registerEvent");
        let is_info = same_text(p, "-info");
        if is_port || is_uuid || is_event || is_info {
            if i + 1 >= n {
                proof {
                    assert(first_error(all, i + 1) == Some(ArgsError::MissingValue));
                    lemma_first_error_stays(all, i + 1, n as int);
                }
                return Err(ArgsError::MissingValue);
            }
            let value = &args[i + 1];
            assert(all[i + 1] == value@);
            if is_port {
                match parse_i32(value.as_str()) {
                    Some(v) => {
                        port = v;
                    },
                    None => {
                        proof {
                            assert(first_error(all, i + 1) == Some(ArgsError::InvalidPort));
                            lemma_first_error_stays(all, i + 1, n as int);
                        }
                        return Err(ArgsError::InvalidPort);
                    },
                }
            }
            if is_uuid {
                plugin_uuid = value.clone();
            }
            if is_event {
                register_event = value.clone();
            }
            if is_info {
                match read_optional_info(value.as_str()) {
                    Some(parsed) => {
                        assert(info_accepted(value@));
                        info = parsed;
                    },
                    None => {},
                }
            }
        }
        i += 1;
    }
    Ok(StreamDeckArgs { port, plugin_uuid, register_event, info })
}

} // verus!
