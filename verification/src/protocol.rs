//! The fixed-size binary message protocol shared by every link in the
//! chain: operator console to backend, backend to runtime, runtime to
//! backend, and robot program to actuator.
//!
//! Every message travels as exactly eight bytes.  Byte 0 carries the
//! instruction tag; the remaining bytes are tag-specific payload, and
//! bytes a family declares reserved must be zero and are checked on
//! decode.  Decoding a frame that matches no known pattern fails with a
//! distinguishable error carrying the offending bytes; it never panics.

use vstd::prelude::*;
use crate::binary32;
use crate::speed::Speed;

verus! {

broadcast use vstd::array::group_array_axioms;

/// An 8-byte array that serves as the common message sent between
/// linkage programs.
pub type Bytes = [u8; 8];

/// A frame that could not be turned into a message.
#[derive(Debug, Clone, Copy, PartialEq)]
pub enum MessageError {
    /// The frame matches no known pattern of its decoder's family.
    UnknownMessage(Bytes),
    /// The frame is a well-formed motor instruction whose speed field is
    /// not a number, infinite, or beyond full scale once rounded.
    InvalidSpeed(Bytes),
}

/// The frame consisting of `tag` followed by seven zero bytes.
pub open spec fn spec_tag_frame(tag: u8) -> Seq<u8> {
    seq![tag, 0u8, 0u8, 0u8, 0u8, 0u8, 0u8, 0u8]
}

/// Builds the frame consisting of `tag` followed by seven zero bytes.
fn tag_frame(tag: u8) -> (r: Bytes)
    ensures
        r@ == spec_tag_frame(tag),
{
    let r: Bytes = [tag, 0, 0, 0, 0, 0, 0, 0];
    proof {
        assert(r@ =~= spec_tag_frame(tag));
    }
    r
}

/// Tag frames of different tags are different frames, so no family's
/// decoder accepts a frame that another family's tag marks: the tag
/// space does not collide.
pub proof fn lemma_tag_frames_distinct(tag1: u8, tag2: u8)
    requires
        tag1 != tag2,
    ensures
        spec_tag_frame(tag1) != spec_tag_frame(tag2),
{
    assert(spec_tag_frame(tag1)[0] == tag1);
    assert(spec_tag_frame(tag2)[0] == tag2);
}

/// Decides whether `bytes` is exactly `tag` followed by seven zero bytes.
fn is_tag_frame(bytes: &Bytes, tag: u8) -> (r: bool)
    ensures
        r == (bytes@ == spec_tag_frame(tag)),
{
    let r = bytes[0] == tag && bytes[1] == 0 && bytes[2] == 0 && bytes[3] == 0 && bytes[4] == 0
        && bytes[5] == 0 && bytes[6] == 0 && bytes[7] == 0;
    proof {
        if r {
            assert(bytes@ =~= spec_tag_frame(tag));
        }
    }
    r
}

// Frontend ------> Backend
#[derive(Debug, Clone, Copy, PartialEq, Eq, Structural)]
pub enum FrontendToBackendMessage {
    Enable,
    Disable,
}

// Backend ------> Frontend
#[derive(Debug, Clone, Copy, PartialEq, Eq, Structural)]
pub enum BackendToFrontendMessage {
    Enabled,
    Disabled,
}

// Backend ------> Runtime
#[derive(Debug, Clone, Copy, PartialEq, Eq, Structural)]
pub enum BackendToRuntimeMessage {
    Enable,
    Disable,
}

// Runtime ------> Backend
#[derive(Debug, Clone, Copy, PartialEq, Eq, Structural)]
pub enum RuntimeToBackendMessage {
    Enabled,
    Disabled,
}

/// The frame that encodes a frontend-to-backend message.
pub open spec fn spec_frame_frontend_to_backend(m: FrontendToBackendMessage) -> Seq<u8> {
    match m {
        FrontendToBackendMessage::Enable => spec_tag_frame(0x00),
        FrontendToBackendMessage::Disable => spec_tag_frame(0x01),
    }
}

/// The frontend-to-backend message a frame decodes to, if any.
pub open spec fn spec_parse_frontend_to_backend(s: Seq<u8>) -> Option<FrontendToBackendMessage> {
    if s == spec_tag_frame(0x00) {
        Some(FrontendToBackendMessage::Enable)
    } else if s == spec_tag_frame(0x01) {
        Some(FrontendToBackendMessage::Disable)
    } else {
        None
    }
}

impl FrontendToBackendMessage {
    /// Encodes this message as its frame.
    pub fn to_bytes(&self) -> (r: Bytes)
        ensures
            r@ == spec_frame_frontend_to_backend(*self),
    {
        match self {
            FrontendToBackendMessage::Enable => tag_frame(0x00),
            FrontendToBackendMessage::Disable => tag_frame(0x01),
        }
    }

    /// Decodes a frame into a message of this family, failing on every
    /// frame that matches no pattern of the family.
    pub fn try_from_bytes(bytes: &Bytes) -> (r: Result<FrontendToBackendMessage, MessageError>)
        ensures
            match spec_parse_frontend_to_backend(bytes@) {
                Some(m) => r == Ok::<FrontendToBackendMessage, MessageError>(m),
                None => r == Err::<FrontendToBackendMessage, MessageError>(
                    MessageError::UnknownMessage(*bytes),
                ),
            },
    {
        if is_tag_frame(bytes, 0x00) {
            Ok(FrontendToBackendMessage::Enable)
        } else if is_tag_frame(bytes, 0x01) {
            Ok(FrontendToBackendMessage::Disable)
        } else {
            Err(MessageError::UnknownMessage(*bytes))
        }
    }
}

/// Round trip for frontend-to-backend messages: decoding the encoding of
/// any message of the family returns exactly that message.
pub proof fn lemma_frontend_to_backend_round_trip(m: FrontendToBackendMessage)
    ensures
        spec_parse_frontend_to_backend(spec_frame_frontend_to_backend(m)) == Some(m),
{
    assert(spec_tag_frame(0x00)[0] == 0x00);
    assert(spec_tag_frame(0x01)[0] == 0x01);
}

/// The frame that encodes a backend-to-frontend message.
pub open spec fn spec_frame_backend_to_frontend(m: BackendToFrontendMessage) -> Seq<u8> {
    match m {
        BackendToFrontendMessage::Enabled => spec_tag_frame(0x08),
        BackendToFrontendMessage::Disabled => spec_tag_frame(0x09),
    }
}

/// The backend-to-frontend message a frame decodes to, if any.
pub open spec fn spec_parse_backend_to_frontend(s: Seq<u8>) -> Option<BackendToFrontendMessage> {
    if s == spec_tag_frame(0x08) {
        Some(BackendToFrontendMessage::Enabled)
    } else if s == spec_tag_frame(0x09) {
        Some(BackendToFrontendMessage::Disabled)
    } else {
        None
    }
}

impl BackendToFrontendMessage {
    /// Encodes this message as its frame.
    pub fn to_bytes(&self) -> (r: Bytes)
        ensures
            r@ == spec_frame_backend_to_frontend(*self),
    {
        match self {
            BackendToFrontendMessage::Enabled => tag_frame(0x08),
            BackendToFrontendMessage::Disabled => tag_frame(0x09),
        }
    }

    /// Decodes a frame into a message of this family, failing on every
    /// frame that matches no pattern of the family.
    pub fn try_from_bytes(bytes: &Bytes) -> (r: Result<BackendToFrontendMessage, MessageError>)
        ensures
            match spec_parse_backend_to_frontend(bytes@) {
                Some(m) => r == Ok::<BackendToFrontendMessage, MessageError>(m),
                None => r == Err::<BackendToFrontendMessage, MessageError>(
                    MessageError::UnknownMessage(*bytes),
                ),
            },
    {
        if is_tag_frame(bytes, 0x08) {
            Ok(BackendToFrontendMessage::Enabled)
        } else if is_tag_frame(bytes, 0x09) {
            Ok(BackendToFrontendMessage::Disabled)
        } else {
            Err(MessageError::UnknownMessage(*bytes))
        }
    }
}

/// Round trip for backend-to-frontend messages.
pub proof fn lemma_backend_to_frontend_round_trip(m: BackendToFrontendMessage)
    ensures
        spec_parse_backend_to_frontend(spec_frame_backend_to_frontend(m)) == Some(m),
{
    assert(spec_tag_frame(0x08)[0] == 0x08);
    assert(spec_tag_frame(0x09)[0] == 0x09);
}

/// The frame that encodes a backend-to-runtime message.
pub open spec fn spec_frame_backend_to_runtime(m: BackendToRuntimeMessage) -> Seq<u8> {
    match m {
        BackendToRuntimeMessage::Enable => spec_tag_frame(0x10),
        BackendToRuntimeMessage::Disable => spec_tag_frame(0x11),
    }
}

/// The backend-to-runtime message a frame decodes to, if any.
pub open spec fn spec_parse_backend_to_runtime(s: Seq<u8>) -> Option<BackendToRuntimeMessage> {
    if s == spec_tag_frame(0x10) {
        Some(BackendToRuntimeMessage::Enable)
    } else if s == spec_tag_frame(0x11) {
        Some(BackendToRuntimeMessage::Disable)
    } else {
        None
    }
}

impl BackendToRuntimeMessage {
    /// Encodes this message as its frame.
    pub fn to_bytes(&self) -> (r: Bytes)
        ensures
            r@ == spec_frame_backend_to_runtime(*self),
    {
        match self {
            BackendToRuntimeMessage::Enable => tag_frame(0x10),
            BackendToRuntimeMessage::Disable => tag_frame(0x11),
        }
    }

    /// Decodes a frame into a message of this family, failing on every
    /// frame that matches no pattern of the family.
    pub fn try_from_bytes(bytes: &Bytes) -> (r: Result<BackendToRuntimeMessage, MessageError>)
        ensures
            match spec_parse_backend_to_runtime(bytes@) {
                Some(m) => r == Ok::<BackendToRuntimeMessage, MessageError>(m),
                None => r == Err::<BackendToRuntimeMessage, MessageError>(
                    MessageError::UnknownMessage(*bytes),
                ),
            },
    {
        if is_tag_frame(bytes, 0x10) {
            Ok(BackendToRuntimeMessage::Enable)
        } else if is_tag_frame(bytes, 0x11) {
            Ok(BackendToRuntimeMessage::Disable)
        } else {
            Err(MessageError::UnknownMessage(*bytes))
        }
    }
}

/// Round trip for backend-to-runtime messages.
pub proof fn lemma_backend_to_runtime_round_trip(m: BackendToRuntimeMessage)
    ensures
        spec_parse_backend_to_runtime(spec_frame_backend_to_runtime(m)) == Some(m),
{
    assert(spec_tag_frame(0x10)[0] == 0x10);
    assert(spec_tag_frame(0x11)[0] == 0x11);
}

/// The frame that encodes a runtime-to-backend message.
pub open spec fn spec_frame_runtime_to_backend(m: RuntimeToBackendMessage) -> Seq<u8> {
    match m {
        RuntimeToBackendMessage::Enabled => spec_tag_frame(0x18),
        RuntimeToBackendMessage::Disabled => spec_tag_frame(0x19),
    }
}

/// The runtime-to-backend message a frame decodes to, if any.
pub open spec fn spec_parse_runtime_to_backend(s: Seq<u8>) -> Option<RuntimeToBackendMessage> {
    if s == spec_tag_frame(0x18) {
        Some(RuntimeToBackendMessage::Enabled)
    } else if s == spec_tag_frame(0x19) {
        Some(RuntimeToBackendMessage::Disabled)
    } else {
        None
    }
}

impl RuntimeToBackendMessage {
    /// Encodes this message as its frame.
    pub fn to_bytes(&self) -> (r: Bytes)
        ensures
            r@ == spec_frame_runtime_to_backend(*self),
    {
        match self {
            RuntimeToBackendMessage::Enabled => tag_frame(0x18),
            RuntimeToBackendMessage::Disabled => tag_frame(0x19),
        }
    }

    /// Decodes a frame into a message of this family, failing on every
    /// frame that matches no pattern of the family.
    pub fn try_from_bytes(bytes: &Bytes) -> (r: Result<RuntimeToBackendMessage, MessageError>)
        ensures
            match spec_parse_runtime_to_backend(bytes@) {
                Some(m) => r == Ok::<RuntimeToBackendMessage, MessageError>(m),
                None => r == Err::<RuntimeToBackendMessage, MessageError>(
                    MessageError::UnknownMessage(*bytes),
                ),
            },
    {
        if is_tag_frame(bytes, 0x18) {
            Ok(RuntimeToBackendMessage::Enabled)
        } else if is_tag_frame(bytes, 0x19) {
            Ok(RuntimeToBackendMessage::Disabled)
        } else {
            Err(MessageError::UnknownMessage(*bytes))
        }
    }
}

/// Round trip for runtime-to-backend messages.
pub proof fn lemma_runtime_to_backend_round_trip(m: RuntimeToBackendMessage)
    ensures
        spec_parse_runtime_to_backend(spec_frame_runtime_to_backend(m)) == Some(m),
{
    assert(spec_tag_frame(0x18)[0] == 0x18);
    assert(spec_tag_frame(0x19)[0] == 0x19);
}

// Cockpit ------> Linkage Lib
#[derive(Debug, Clone, Copy, PartialEq, Eq, Structural)]
pub enum CockpitToLinkage {
    GamepadInputEvent { gamepad_id: u8, event_type: u8, control: u8, value: u8 },
}

/// The frame that encodes a cockpit-to-linkage message: the gamepad tag,
/// three reserved zero bytes, then the event's four payload bytes.
pub open spec fn spec_frame_cockpit_to_linkage(m: CockpitToLinkage) -> Seq<u8> {
    match m {
        CockpitToLinkage::GamepadInputEvent { gamepad_id, event_type, control, value } => seq![
            0x20u8,
            0u8,
            0u8,
            0u8,
            gamepad_id,
            event_type,
            control,
            value,
        ],
    }
}

/// The cockpit-to-linkage message a frame decodes to, if any: the tag
/// must be the gamepad tag and the three reserved bytes must be zero.
pub open spec fn spec_parse_cockpit_to_linkage(s: Seq<u8>) -> Option<CockpitToLinkage> {
    if s.len() == 8 && s[0] == 0x20 && s[1] == 0 && s[2] == 0 && s[3] == 0 {
        Some(
            CockpitToLinkage::GamepadInputEvent {
                gamepad_id: s[4],
                event_type: s[5],
                control: s[6],
                value: s[7],
            },
        )
    } else {
        None
    }
}

impl CockpitToLinkage {
    /// Encodes this message as its frame.
    pub fn to_bytes(&self) -> (r: Bytes)
        ensures
            r@ == spec_frame_cockpit_to_linkage(*self),
    {
        match self {
            CockpitToLinkage::GamepadInputEvent { gamepad_id, event_type, control, value } => {
                let r: Bytes = [0x20, 0, 0, 0, *gamepad_id, *event_type, *control, *value];
                proof {
                    assert(r@ =~= spec_frame_cockpit_to_linkage(*self));
                }
                r
            },
        }
    }

    /// Decodes a frame into a message of this family, failing on every
    /// frame whose tag is not the gamepad tag or whose reserved bytes
    /// are not zero.
    pub fn try_from_bytes(bytes: &Bytes) -> (r: Result<CockpitToLinkage, MessageError>)
        ensures
            match spec_parse_cockpit_to_linkage(bytes@) {
                Some(m) => r == Ok::<CockpitToLinkage, MessageError>(m),
                None => r == Err::<CockpitToLinkage, MessageError>(
                    MessageError::UnknownMessage(*bytes),
                ),
            },
    {
        if bytes[0] == 0x20 && bytes[1] == 0 && bytes[2] == 0 && bytes[3] == 0 {
            Ok(
                CockpitToLinkage::GamepadInputEvent {
                    gamepad_id: bytes[4],
                    event_type: bytes[5],
                    control: bytes[6],
                    value: bytes[7],
                },
            )
        } else {
            Err(MessageError::UnknownMessage(*bytes))
        }
    }
}

/// Round trip for cockpit-to-linkage messages.
pub proof fn lemma_cockpit_to_linkage_round_trip(m: CockpitToLinkage)
    ensures
        spec_parse_cockpit_to_linkage(spec_frame_cockpit_to_linkage(m)) == Some(m),
{
}

// Linkage ------> Carburetor
#[derive(Debug, Clone, Copy, PartialEq, Eq, Structural)]
pub enum LinkageToCarburetor {
    MotorInstruction { channel: u8, speed: Speed },
}

/// How a frame fares against the motor-instruction pattern: a channel
/// and a speed count for a well-formed frame carrying a representable
/// speed, or the reason it is refused.
pub enum MotorFrameParse {
    /// Tag and reserved bytes match and the speed field carries the
    /// given count of ten-thousandths.
    Value { channel: u8, tt: int },
    /// Tag and reserved bytes match but the speed field is not a
    /// number, infinite, or beyond full scale once rounded.
    BadSpeed,
    /// The frame matches no pattern of this family.
    BadFrame,
}

/// The big-endian 32-bit word formed by bytes 4 through 7 of a frame.
pub open spec fn spec_frame_speed_bits(s: Seq<u8>) -> int {
    s[4] * 0x1000000 + s[5] * 0x10000 + s[6] * 0x100 + s[7]
}

/// The motor instruction a frame decodes to, if any.
pub open spec fn spec_parse_motor_frame(s: Seq<u8>) -> MotorFrameParse {
    if s.len() == 8 && s[0] == 0x40 && s[2] == 0 && s[3] == 0 {
        match binary32::spec_tt_of_bits(spec_frame_speed_bits(s) as u32) {
            Some(tt) => MotorFrameParse::Value { channel: s[1], tt },
            None => MotorFrameParse::BadSpeed,
        }
    } else {
        MotorFrameParse::BadFrame
    }
}

/// The frame that encodes a motor instruction for `channel` at `tt`
/// ten-thousandths of full power: the motor tag, the channel byte, two
/// reserved zero bytes, then the four big-endian bytes of the nearest
/// single-precision number.
pub open spec fn spec_frame_motor(channel: u8, tt: int) -> Seq<u8> {
    let bits = binary32::spec_bits_of_tt(tt) as int;
    seq![
        0x40u8,
        channel,
        0u8,
        0u8,
        (bits / 0x1000000) as u8,
        ((bits / 0x10000) % 0x100) as u8,
        ((bits / 0x100) % 0x100) as u8,
        (bits % 0x100) as u8,
    ]
}

impl LinkageToCarburetor {
    /// The channel this instruction drives.
    pub open spec fn spec_channel(self) -> u8 {
        match self {
            LinkageToCarburetor::MotorInstruction { channel, speed } => channel,
        }
    }

    /// The speed this instruction commands.
    pub open spec fn spec_speed(self) -> Speed {
        match self {
            LinkageToCarburetor::MotorInstruction { channel, speed } => speed,
        }
    }

    /// Encodes this instruction as its frame.
    pub fn to_bytes(&self) -> (r: Bytes)
        ensures
            r@ == spec_frame_motor(self.spec_channel(), self.spec_speed()@),
    {
        match self {
            LinkageToCarburetor::MotorInstruction { channel, speed } => {
                let bits: u32 = binary32::bits_of_tt(speed.ten_thousandths());
                let r: Bytes = [
                    0x40,
                    *channel,
                    0,
                    0,
                    (bits / 0x1000000) as u8,
                    ((bits / 0x10000) % 0x100) as u8,
                    ((bits / 0x100) % 0x100) as u8,
                    (bits % 0x100) as u8,
                ];
                proof {
                    assert(r@ =~= spec_frame_motor(self.spec_channel(), self.spec_speed()@));
                }
                r
            },
        }
    }

    /// Decodes a frame into a motor instruction.  The decoded speed is
    /// rounded to four decimal places before range-checking, so noise in
    /// the low bits of an intended-neutral value still registers as
    /// neutral.  A frame that matches the pattern but carries an
    /// unrepresentable speed is refused as an invalid speed, not as an
    /// unknown message.
    pub fn try_from_bytes(bytes: &Bytes) -> (r: Result<LinkageToCarburetor, MessageError>)
        ensures
            match spec_parse_motor_frame(bytes@) {
                MotorFrameParse::Value { channel, tt } => match r {
                    Ok(m) => m.spec_channel() == channel && m.spec_speed()@ == tt,
                    Err(_) => false,
                },
                MotorFrameParse::BadSpeed => r == Err::<LinkageToCarburetor, MessageError>(
                    MessageError::InvalidSpeed(*bytes),
                ),
                MotorFrameParse::BadFrame => r == Err::<LinkageToCarburetor, MessageError>(
                    MessageError::UnknownMessage(*bytes),
                ),
            },
    {
        if bytes[0] == 0x40 && bytes[2] == 0 && bytes[3] == 0 {
            let bits: u32 = (bytes[4] as u32) * 0x1000000 + (bytes[5] as u32) * 0x10000 + (
            bytes[6] as u32) * 0x100 + bytes[7] as u32;
            match binary32::tt_of_bits(bits) {
                Some(tt) => {
                    match Speed::new(tt) {
                        Some(speed) => Ok(
                            LinkageToCarburetor::MotorInstruction { channel: bytes[1], speed },
                        ),
                        None => Err(MessageError::InvalidSpeed(*bytes)),
                    }
                },
                None => Err(MessageError::InvalidSpeed(*bytes)),
            }
        } else {
            Err(MessageError::UnknownMessage(*bytes))
        }
    }
}

/// Round trip for motor instructions: a frame encoded from any channel
/// and any representable speed count decodes back to exactly that
/// channel and count.
pub proof fn lemma_motor_frame_round_trip(channel: u8, tt: int)
    requires
        -10000 <= tt <= 10000,
    ensures
        spec_parse_motor_frame(spec_frame_motor(channel, tt)) == (MotorFrameParse::Value {
            channel,
            tt,
        }),
{
    let bits: u32 = binary32::spec_bits_of_tt(tt);
    let s = spec_frame_motor(channel, tt);
    lemma_be_bytes_reassemble(bits);
    assert(spec_frame_speed_bits(s) == bits as int);
    binary32::lemma_tt_bits_round_trip(tt);
}

/// Splitting a 32-bit word into its four big-endian bytes and summing
/// them back with their place values returns the original word.
proof fn lemma_be_bytes_reassemble(bits: u32)
    ensures
        ((bits as int) / 0x1000000) as u8 * 0x1000000 + (((bits as int) / 0x10000) % 0x100) as u8
            * 0x10000 + (((bits as int) / 0x100) % 0x100) as u8 * 0x100 + ((bits as int)
            % 0x100) as u8 == bits as int,
{
    let b0: u32 = bits / 0x1000000;
    let b1: u32 = (bits / 0x10000) % 0x100;
    let b2: u32 = (bits / 0x100) % 0x100;
    let b3: u32 = bits % 0x100;
    assert(b0 * 0x1000000 + b1 * 0x10000 + b2 * 0x100 + b3 == bits) by (bit_vector)
        requires
            b0 == bits / 0x1000000,
            b1 == (bits / 0x10000) % 0x100,
            b2 == (bits / 0x100) % 0x100,
            b3 == bits % 0x100,
    ;
}

} // verus!
