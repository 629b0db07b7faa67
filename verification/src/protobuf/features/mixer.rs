//! Messages of the audio mixer feature.

pub mod request;
pub mod response;
pub mod server_event;

use vstd::prelude::*;
use crate::protobuf::shared::receiver::Source;

verus! {

/// Mixer configuration: its mode (a `Mode` as its number), the output slots
/// and the sources mixed from the start.
#[derive(Clone, PartialEq, Debug, Default)]
pub struct Config {
    pub mode: i32,
    pub outputs: Vec<String>,
    pub sources: Vec<Source>,
}

/// A client request to the mixer.
#[derive(Clone, PartialEq, Debug, Default)]
pub struct Request {
    pub request: Option<request::Request>,
}

/// The mixer's answer to a request.
#[derive(Clone, Copy, PartialEq, Debug, Default)]
pub struct Response {
    pub response: Option<response::Response>,
}

/// An event pushed by the server.
#[derive(Clone, PartialEq, Debug, Default)]
pub struct ServerEvent {
    pub event: Option<server_event::Event>,
}

/// How the mixer picks its sources.
#[derive(Clone, Copy, Debug, PartialEq, Eq, Hash, PartialOrd, Ord, Default, Structural)]
pub enum Mode {
    #[default]
    Auto,
    Manual,
}

/// The field name of a mode in the protocol definition.
pub open spec fn mode_name(mode: Mode) -> Seq<char> {
    match mode {
        Mode::Auto => seq!['A', 'U', 'T', 'O'],
        Mode::Manual => seq!['M', 'A', 'N', 'U', 'A', 'L'],
    }
}

impl Mode {
    /// String value of the enum field names used in the ProtoBuf definition.
    ///
    /// The values are not transformed in any way and thus are considered
    /// stable (if the ProtoBuf definition does not change) and safe for
    /// programmatic use.
    pub fn as_str_name(&self) -> (name: &'static str)
        ensures
            name@ == mode_name(*self),
    {
        match self {
            Self::Auto => {
                proof {
                    reveal_strlit("AUTO");
                }
                "AUTO"
            },
            Self::Manual => {
                proof {
                    reveal_strlit("MANUAL");
                }
                "MANUAL"
            },
        }
    }

    /// Creates an enum from field names used in the ProtoBuf definition.
    pub fn from_str_name(value: &str) -> (mode: Option<Self>)
        ensures
            mode == (if value@ == mode_name(Mode::Auto) {
                Some(Mode::Auto)
            } else if value@ == mode_name(Mode::Manual) {
                Some(Mode::Manual)
            } else {
                None
            }),
    {
        let n: usize = value.unicode_len();
        if n == 4 && value.get_char(0) == 'A' && value.get_char(1) == 'U' && value.get_char(2)
            == 'T' && value.get_char(3) == 'O' {
            assert(value@ =~= mode_name(Mode::Auto));
            Some(Self::Auto)
        } else if n == 6 && value.get_char(0) == 'M' && value.get_char(1) == 'A' && value.get_char(
            2,
        ) == 'N' && value.get_char(3) == 'U' && value.get_char(4) == 'A' && value.get_char(5)
            == 'L' {
            assert(value@ =~= mode_name(Mode::Manual));
            Some(Self::Manual)
        } else {
            None
        }
    }
}

} // verus!
