//! Plain data shapes of the deck-controller protocol — key states, device
//! geometry, payloads — and the launch-argument parsing the program entry
//! point uses.

use vstd::prelude::*;

use crate::parse::{parse_u16_bytes, spec_parse_uint};
use crate::templates::str_chars_eq;
use vstd::string::StringSliceAdditionalSpecFns;

verus! {

/// A two-state deck key's state.
#[derive(Debug, Clone, Copy, PartialEq, Eq, Structural)]
pub enum SdState {
    Primary,
    Secondary,
}

impl SdState {
    /// The wire value of the state.
    pub fn as_u8(self) -> (r: u8)
        ensures
            r == self.spec_as_u8(),
    {
        match self {
            SdState::Primary => 0,
            SdState::Secondary => 1,
        }
    }

    pub open spec fn spec_as_u8(self) -> u8 {
        match self {
            SdState::Primary => 0,
            SdState::Secondary => 1,
        }
    }

    /// The state a wire value denotes, if any.
    pub fn from_u8(v: u8) -> (r: Option<SdState>)
        ensures
            r matches Some(s) ==> s.spec_as_u8() == v,
            r is None <==> v > 1,
    {
        match v {
            0 => Some(SdState::Primary),
            1 => Some(SdState::Secondary),
            _ => None,
        }
    }
}

/// A deck's key grid size.
#[derive(Debug, Clone, Copy, PartialEq, Eq, Structural)]
pub struct Size {
    pub columns: i64,
    pub rows: i64,
}

/// A key's position on the deck.
#[derive(Debug, Clone, Copy, PartialEq, Eq, Structural)]
pub struct Coordinates {
    pub column: i64,
    pub row: i64,
}

/// A key's position, as the action handlers receive it.
#[derive(Debug, Clone, Copy, PartialEq, Eq, Structural)]
pub struct KeyCoordinates {
    pub column: i32,
    pub row: i32,
}

/// A connected deck device.
#[derive(Debug, Clone)]
pub struct DeviceInfo {
    pub name: String,
    /// The device's numeric model kind.
    pub kind: i64,
    pub size: Size,
}

/// How a key's title is rendered.
#[derive(Debug, Clone)]
pub struct TitleParameters {
    pub font_family: String,
    pub font_size: i64,
    pub font_style: String,
    pub font_underline: bool,
    pub show_title: bool,
    pub title_alignment: String,
    pub title_color: String,
}

/// Payload of a title change.
#[derive(Debug, Clone)]
pub struct SetTitlePayload {
    /// Title to display; absent resets to the user's title.
    pub title: Option<String>,
    /// State the change applies to; absent applies to both.
    pub state: Option<SdState>,
    /// Which aspects to update: hardware, software, or both.
    pub target: Option<String>,
}

/// Payload of an image change.
#[derive(Debug, Clone)]
pub struct SetImagePayload {
    /// Image path or inline data; absent resets the image.
    pub image: Option<String>,
    pub state: Option<SdState>,
    pub target: Option<String>,
}

/// Payload describing a dial/touch key's interactions.
#[derive(Debug, Clone)]
pub struct TriggerPayload {
    pub long_touch: Option<String>,
    pub push: Option<String>,
    pub rotate: Option<String>,
    pub touch: Option<String>,
}

/// An entry of a property-inspector data source.
#[derive(Debug, Clone)]
pub struct Item {
    pub value: String,
    pub label: Option<String>,
    pub disabled: Option<bool>,
}

/// A labelled group of data-source entries.
#[derive(Debug, Clone)]
pub struct ItemGroup {
    pub label: String,
    pub children: Vec<Item>,
}

/// One data-source result: a single entry or a group.
#[derive(Debug, Clone)]
pub enum DataSourceResult {
    Item(Item),
    ItemGroup(ItemGroup),
}

/// A data-source response payload.
#[derive(Debug)]
pub struct DataSourcePayload {
    pub event: Option<String>,
    pub items: Vec<DataSourceResult>,
}

// ---------- Launch arguments ----------

/// Values the deck controller passes on launch.
#[derive(Clone, Debug)]
pub struct LaunchArgs {
    pub port: u16,
    pub plugin_uuid: String,
    pub register_event: String,
}

/// Why launch arguments were rejected.
#[derive(Debug, Clone, Copy, PartialEq, Eq, Structural)]
pub enum LaunchArgsError {
    MissingPort,
    MissingPluginUuid,
    MissingRegisterEvent,
    InvalidPort,
}

/// The argument following the first occurrence of `flag`, if both exist.
pub open spec fn spec_value_after(argv: Seq<Seq<char>>, flag: Seq<char>) -> Option<Seq<char>>
    decreases argv.len(),
{
    if argv.len() == 0 {
        None
    } else if argv[0] == flag {
        if argv.len() >= 2 {
            Some(argv[1])
        } else {
            None
        }
    } else {
        spec_value_after(argv.drop_first(), flag)
    }
}

/// The character sequences of an argument vector.
pub open spec fn argv_views(argv: Seq<String>) -> Seq<Seq<char>> {
    argv.map_values(|s: String| s@)
}

/// Find the argument following the first occurrence of `flag`.
pub fn value_after<'a>(argv: &'a Vec<String>, flag: &str) -> (r: Option<&'a str>)
    ensures
        r matches Some(s) ==> spec_value_after(argv_views(argv@), flag@) == Some(s@),
        r is None ==> spec_value_after(argv_views(argv@), flag@) is None,
{
    let ghost views = argv_views(argv@);
    let n = argv.len();
    let mut i: usize = 0;
    proof {
        assert(views.skip(0) =~= views);
    }
    while i < n
        invariant
            n == argv@.len(),
            views == argv_views(argv@),
            views.len() == n,
            0 <= i <= n,
            spec_value_after(views, flag@) == spec_value_after(views.skip(i as int), flag@),
        decreases n - i,
    {
        proof {
            assert(views.skip(i as int)[0] == views[i as int]);
            assert(views.skip(i as int).drop_first() =~= views.skip(i as int + 1));
        }
        if str_chars_eq(argv[i].as_str(), flag) {
            if i + 1 < n {
                return Some(argv[i + 1].as_str());
            } else {
                proof {
                    assert(views.skip(i as int).len() == n - i);
                }
                return None;
            }
        }
        i = i + 1;
    }
    None
}

/// What parsing an argument vector yields: the port (a decimal `u16`), the
/// plugin identifier and the registration event, or the first missing or
/// invalid piece in that order.
pub open spec fn spec_parse_launch_args(argv: Seq<Seq<char>>) -> Result<
    (int, Seq<char>, Seq<char>),
    LaunchArgsError,
> {
    let port_flag = seq!['-', 'p', 'o', 'r', 't'];
    let uuid_flag = seq!['-', 'p', 'l', 'u', 'g', 'i', 'n', 'U', 'U', 'I', 'D'];
    let reg_flag = seq!['-', 'r', 'e', 'g', 'i', 's', 't', 'e', 'r', 'E', 'v', 'e', 'n', 't'];
    match spec_value_after(argv, port_flag) {
        None => Err(LaunchArgsError::MissingPort),
        Some(port_str) => match spec_value_after(argv, uuid_flag) {
            None => Err(LaunchArgsError::MissingPluginUuid),
            Some(uuid) => match spec_value_after(argv, reg_flag) {
                None => Err(LaunchArgsError::MissingRegisterEvent),
                Some(reg) => match spec_parse_uint(encode_chars_as_bytes(port_str)) {
                    Some(p) => if 0 <= p <= u16::MAX {
                        Ok((p, uuid, reg))
                    } else {
                        Err(LaunchArgsError::InvalidPort)
                    },
                    None => Err(LaunchArgsError::InvalidPort),
                },
            },
        },
    }
}

/// The bytes of a character sequence, as UTF-8 encodes it.
pub open spec fn encode_chars_as_bytes(s: Seq<char>) -> Seq<u8> {
    vstd::utf8::encode_utf8(s)
}

/// Parse the deck controller's launch arguments.
pub fn parse_launch_args(argv: &Vec<String>) -> (r: Result<LaunchArgs, LaunchArgsError>)
    ensures
        ({
            match r {
                Ok(args) => spec_parse_launch_args(argv_views(argv@)) matches Ok(t) && t.0
                    == args.port && t.1 == args.plugin_uuid@ && t.2 == args.register_event@,
                Err(e) => spec_parse_launch_args(argv_views(argv@)) == Err::<
                    (int, Seq<char>, Seq<char>),
                    LaunchArgsError,
                >(e),
            }
        }),
{
    proof {
        reveal_strlit("-port");
        reveal_strlit("-pluginUUID");
        reveal_strlit("-registerEvent");
        assert("-port"@ =~= seq!['-', 'p', 'o', 'r', 't']);
        assert("-pluginUUID"@ =~= seq!['-', 'p', 'l', 'u', 'g', 'i', 'n', 'U', 'U', 'I', 'D']);
        assert("-registerEvent"@ =~= seq![
            '-', 'r', 'e', 'g', 'i', 's', 't', 'e', 'r', 'E', 'v', 'e', 'n', 't',
        ]);
    }
    let port_str = match value_after(argv, "-port") {
        Some(s) => s,
        None => {
            return Err(LaunchArgsError::MissingPort);
        },
    };
    let plugin_uuid = match value_after(argv, "-pluginUUID") {
        Some(s) => s,
        None => {
            return Err(LaunchArgsError::MissingPluginUuid);
        },
    };
    let register_event = match value_after(argv, "-registerEvent") {
        Some(s) => s,
        None => {
            return Err(LaunchArgsError::MissingRegisterEvent);
        },
    };
    let port = match parse_u16_bytes(port_str.as_bytes()) {
        Some(p) => p,
        None => {
            return Err(LaunchArgsError::InvalidPort);
        },
    };
    Ok(
        LaunchArgs {
            port,
            plugin_uuid: plugin_uuid.to_owned(),
            register_event: register_event.to_owned(),
        },
    )
}

} // verus!
