//! The command surface: what a command-line front end offers and reports.
//!
//! Two commands exist. One encodes a message into an audio file, at a volume
//! and with a protocol that the user may choose; the other decodes an audio
//! file and reports the text it carried, or that it carried none.

use crate::ffi::ggwave_ProtocolId;
use vstd::prelude::*;
use vstd::std_specs::convert::FromSpecImpl;

verus! {

/// Volume of an encoding where the user names none.
pub const DEFAULT_VOLUME: i32 = 25;

/// Protocol of an encoding where the user names none.
pub const DEFAULT_PROTOCOL: Protocol = Protocol::AudibleFast;

/// The protocols that a user can choose from: every built-in protocol, and
/// none of the custom slots.
#[derive(Debug, Copy, Clone, PartialEq, Eq, Structural)]
pub enum Protocol {
    AudibleNormal,
    AudibleFast,
    AudibleFastest,
    UltrasoundNormal,
    UltrasoundFast,
    UltrasoundFastest,
    DtNormal,
    DtFast,
    DtFastest,
    MtNormal,
    MtFast,
    MtFastest,
}

impl Protocol {
    /// The selector that the engine knows this protocol by.
    pub open spec fn selector(self) -> ggwave_ProtocolId {
        match self {
            Protocol::AudibleNormal => ggwave_ProtocolId::GGWAVE_PROTOCOL_AUDIBLE_NORMAL,
            Protocol::AudibleFast => ggwave_ProtocolId::GGWAVE_PROTOCOL_AUDIBLE_FAST,
            Protocol::AudibleFastest => ggwave_ProtocolId::GGWAVE_PROTOCOL_AUDIBLE_FASTEST,
            Protocol::UltrasoundNormal => ggwave_ProtocolId::GGWAVE_PROTOCOL_ULTRASOUND_NORMAL,
            Protocol::UltrasoundFast => ggwave_ProtocolId::GGWAVE_PROTOCOL_ULTRASOUND_FAST,
            Protocol::UltrasoundFastest => ggwave_ProtocolId::GGWAVE_PROTOCOL_ULTRASOUND_FASTEST,
            Protocol::DtNormal => ggwave_ProtocolId::GGWAVE_PROTOCOL_DT_NORMAL,
            Protocol::DtFast => ggwave_ProtocolId::GGWAVE_PROTOCOL_DT_FAST,
            Protocol::DtFastest => ggwave_ProtocolId::GGWAVE_PROTOCOL_DT_FASTEST,
            Protocol::MtNormal => ggwave_ProtocolId::GGWAVE_PROTOCOL_MT_NORMAL,
            Protocol::MtFast => ggwave_ProtocolId::GGWAVE_PROTOCOL_MT_FAST,
            Protocol::MtFastest => ggwave_ProtocolId::GGWAVE_PROTOCOL_MT_FASTEST,
        }
    }
}

impl From<Protocol> for ggwave_ProtocolId {
    fn from(p: Protocol) -> (id: ggwave_ProtocolId) {
        match p {
            Protocol::AudibleNormal => ggwave_ProtocolId::GGWAVE_PROTOCOL_AUDIBLE_NORMAL,
            Protocol::AudibleFast => ggwave_ProtocolId::GGWAVE_PROTOCOL_AUDIBLE_FAST,
            Protocol::AudibleFastest => ggwave_ProtocolId::GGWAVE_PROTOCOL_AUDIBLE_FASTEST,
            Protocol::UltrasoundNormal => ggwave_ProtocolId::GGWAVE_PROTOCOL_ULTRASOUND_NORMAL,
            Protocol::UltrasoundFast => ggwave_ProtocolId::GGWAVE_PROTOCOL_ULTRASOUND_FAST,
            Protocol::UltrasoundFastest => ggwave_ProtocolId::GGWAVE_PROTOCOL_ULTRASOUND_FASTEST,
            Protocol::DtNormal => ggwave_ProtocolId::GGWAVE_PROTOCOL_DT_NORMAL,
            Protocol::DtFast => ggwave_ProtocolId::GGWAVE_PROTOCOL_DT_FAST,
            Protocol::DtFastest => ggwave_ProtocolId::GGWAVE_PROTOCOL_DT_FASTEST,
            Protocol::MtNormal => ggwave_ProtocolId::GGWAVE_PROTOCOL_MT_NORMAL,
            Protocol::MtFast => ggwave_ProtocolId::GGWAVE_PROTOCOL_MT_FAST,
            Protocol::MtFastest => ggwave_ProtocolId::GGWAVE_PROTOCOL_MT_FASTEST,
        }
    }
}

impl FromSpecImpl<Protocol> for ggwave_ProtocolId {
    open spec fn obeys_from_spec() -> bool {
        true
    }

    open spec fn from_spec(p: Protocol) -> ggwave_ProtocolId {
        p.selector()
    }
}

/// The choices are the first twelve selectors in the engine's numbering, and
/// two different choices never name the same one.
pub proof fn lemma_protocol_selectors(p: Protocol, q: Protocol)
    ensures
        0 <= p.selector().spec_code() <= 11,
        p.selector() == q.selector() <==> p == q,
{
}

/// What the bytes of a payload read as: the text they encode in UTF-8, with
/// the replacement character in place of every malformed sequence.
pub uninterp spec fn utf8_lossy(bytes: Seq<u8>) -> Seq<char>;

/// `String::from_utf8_lossy` of std. Its result depends on the bytes alone
/// and is named `utf8_lossy`; nothing more is claimed of it here.
#[verifier::external_body]
fn lossy_text(bytes: &[u8]) -> (text: String)
    ensures
        text@ == utf8_lossy(bytes@),
{
    String::from_utf8_lossy(bytes).into_owned()
}

/// The line that the decode command prints for an outcome.
pub open spec fn spec_decode_report(payload: Option<Seq<u8>>) -> Seq<char> {
    match payload {
        Some(bytes) => utf8_lossy(bytes),
        None => "No payload decoded."@,
    }
}

/// Reports what a decoding found: the payload as text, or a notice that
/// there was none. Finding no payload is an ordinary outcome of decoding
/// arbitrary audio, and is reported as such.
pub fn decode_report(payload: Option<&[u8]>) -> (line: String)
    ensures
        line@ == spec_decode_report(
            match payload {
                Some(bytes) => Some(bytes@),
                None => None,
            },
        ),
{
    match payload {
        Some(bytes) => lossy_text(bytes),
        None => "No payload decoded.".to_owned(),
    }
}

} // verus!
