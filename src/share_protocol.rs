use vstd::prelude::*;

verus! {

/// The two bytes that open a binary frame of the token.
pub const MAGIC_BYTES: [u8; 2] = [0x42, 0x4B];

/// A request to the token.
pub enum Command {
    StartEnrollment,
    Modify,
    SignChallenge(String),
    CreateVolume(VolumeCreationPayload),
    GetVolume,
    GetInfo,
}

/// Kind of a binary frame of the token.
#[derive(PartialEq, Eq, Structural, Clone, Copy, Debug)]
pub enum MessageType {
    Command,
    Response,
    Error,
}

impl MessageType {
    /// The byte that marks this kind of frame.
    pub fn code(self) -> (r: u8)
        ensures
            r == message_type_code(self),
    {
        match self {
            MessageType::Command => 0x01,
            MessageType::Response => 0x02,
            MessageType::Error => 0xEE,
        }
    }

    /// The kind of frame that a byte marks, if any.
    pub fn from_code(b: u8) -> (r: Option<MessageType>)
        ensures
            r matches Some(t) ==> message_type_code(t) == b,
            r is None <==> (b != 0x01 && b != 0x02 && b != 0xEE),
    {
        if b == 0x01 {
            Some(MessageType::Command)
        } else if b == 0x02 {
            Some(MessageType::Response)
        } else if b == 0xEE {
            Some(MessageType::Error)
        } else {
            None
        }
    }
}

/// The byte of each kind of frame.
pub open spec fn message_type_code(t: MessageType) -> u8 {
    match t {
        MessageType::Command => 0x01,
        MessageType::Response => 0x02,
        MessageType::Error => 0xEE,
    }
}

/// What the token needs to create an encrypted volume.
pub struct VolumeCreationPayload {
    pub volume_name: String,
    pub size_gb: u32,
    pub volume_id: String,
    pub mount_id: i32,
}

/// The token's answer: a result, or the reason it failed.
pub enum UsbResponse {
    Success(SuccessData),
    Error(String),
}

/// What a successful answer of the token carries.
pub enum SuccessData {
    EnrollmentInfo { uid: String, public_key: String },
    Signature { signature: String },
    DeviceInfo { device_name: String, device_size: u32, device_available_size: u32, mount_id: i32 },
    VolumeCreated { encrypted_key: String, volume_id: String },
    Ack,
}

} // verus!
