//! Enumerations shared by the NMOS elements.

use crate::text::{has_suffix, lower_ascii, same_text};
use vstd::prelude::*;

verus! {

/// What kind of essence a flow carries.
#[derive(Debug, Clone, Copy, PartialEq, Eq, Structural)]
pub enum FlowFormat {
    Video,
    Audio,
    Data,
    Unspecified,
}

/// The format URN of a flow format, where it has one.
pub open spec fn format_urn(format: FlowFormat) -> Option<Seq<char>> {
    match format {
        FlowFormat::Video => Some("urn:x-nmos:format:video"@),
        FlowFormat::Audio => Some("urn:x-nmos:format:audio"@),
        FlowFormat::Data => Some("urn:x-nmos:format:data"@),
        FlowFormat::Unspecified => None,
    }
}

/// The flow format that a format URN names, `Unspecified` where it names none.
pub open spec fn format_of_urn(urn: Seq<char>) -> FlowFormat {
    if urn == "urn:x-nmos:format:video"@ {
        FlowFormat::Video
    } else if urn == "urn:x-nmos:format:audio"@ {
        FlowFormat::Audio
    } else if urn == "urn:x-nmos:format:data"@ {
        FlowFormat::Data
    } else {
        FlowFormat::Unspecified
    }
}

/// How a flow is carried.
#[derive(Debug, Clone, Copy, PartialEq, Eq, Structural)]
pub enum Transport {
    Mxl,
    Udp,
    Udp2,
    NvDsUdp,
}

impl Default for Transport {
    fn default() -> (r: Self)
        ensures
            r == Transport::Mxl,
    {
        Transport::Mxl
    }
}

/// How much of a receiver's capabilities is advertised.
#[derive(Debug, Clone, Copy, PartialEq, Eq, Structural)]
pub enum CapsMode {
    /// Leave what the transport file says.
    Auto,
    /// Only the exact shape of the flow.
    Narrow,
    /// Any shape that the element can receive.
    Wide,
}

/// How an essence kind is called in messages.
pub open spec fn format_word(format: FlowFormat) -> Seq<char> {
    match format {
        FlowFormat::Video => "Video"@,
        FlowFormat::Audio => "Audio"@,
        FlowFormat::Data => "Data"@,
        FlowFormat::Unspecified => "Unspecified"@,
    }
}

impl FlowFormat {
    /// How the essence kind is called in messages.
    pub fn word(self) -> (r: &'static str)
        ensures
            r@ == format_word(self),
    {
        match self {
            FlowFormat::Video => "Video",
            FlowFormat::Audio => "Audio",
            FlowFormat::Data => "Data",
            FlowFormat::Unspecified => "Unspecified",
        }
    }

    /// The flow format that a format URN names, `Unspecified` where it names none.
    pub fn from_format_urn(urn: &str) -> (r: FlowFormat)
        ensures
            r == format_of_urn(urn@),
    {
        if same_text(urn, "urn:x-nmos:format:video") {
            FlowFormat::Video
        } else if same_text(urn, "urn:x-nmos:format:audio") {
            FlowFormat::Audio
        } else if same_text(urn, "urn:x-nmos:format:data") {
            FlowFormat::Data
        } else {
            FlowFormat::Unspecified
        }
    }

    pub fn as_format_urn(self) -> (r: Option<&'static str>)
        ensures
            match r {
                Some(urn) => format_urn(self) == Some(urn@),
                None => format_urn(self) is None,
            },
    {
        match self {
            FlowFormat::Video => Some("urn:x-nmos:format:video"),
            FlowFormat::Audio => Some("urn:x-nmos:format:audio"),
            FlowFormat::Data => Some("urn:x-nmos:format:data"),
            FlowFormat::Unspecified => None,
        }
    }
}

/// Reading a format's own URN gives the format back.
pub proof fn format_urn_round_trip(format: FlowFormat)
    requires
        format_urn(format) is Some,
    ensures
        format_of_urn(format_urn(format)->0) == format,
{
    reveal_strlit("urn:x-nmos:format:video");
    reveal_strlit("urn:x-nmos:format:audio");
    reveal_strlit("urn:x-nmos:format:data");
    assert("urn:x-nmos:format:video"@.len() == 23);
    assert("urn:x-nmos:format:audio"@.len() == 23);
    assert("urn:x-nmos:format:data"@.len() == 22);
    assert("urn:x-nmos:format:video"@[18] == 'v');
    assert("urn:x-nmos:format:audio"@[18] == 'a');
}

/// The word for a format is the last part of its URN, but for the case of its letters.
pub proof fn word_ends_the_urn(format: FlowFormat)
    ensures
        format_urn(format) matches Some(urn) ==> has_suffix(
            urn,
            ":"@ + format_word(format).map_values(|c: char| lower_ascii(c)),
        ),
{
    reveal_strlit(":");
    reveal_strlit("urn:x-nmos:format:video");
    reveal_strlit("urn:x-nmos:format:audio");
    reveal_strlit("urn:x-nmos:format:data");
    reveal_strlit("Video");
    reveal_strlit("Audio");
    reveal_strlit("Data");
    let lower = |c: char| lower_ascii(c);
    match format {
        FlowFormat::Video => {
            let end = ":"@ + "Video"@.map_values(lower);
            assert("urn:x-nmos:format:video"@.skip(17) =~= end);
        },
        FlowFormat::Audio => {
            let end = ":"@ + "Audio"@.map_values(lower);
            assert("urn:x-nmos:format:audio"@.skip(17) =~= end);
        },
        FlowFormat::Data => {
            let end = ":"@ + "Data"@.map_values(lower);
            assert("urn:x-nmos:format:data"@.skip(17) =~= end);
        },
        FlowFormat::Unspecified => {},
    }
}

} // verus!
