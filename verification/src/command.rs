//! The commands that the bridge sends to the camera, and how their replies
//! are read: the command that arms motion reporting, and the command that
//! switches the floodlight by hand.
//!
//! A command is sent under a message number of its own, and the camera
//! answers under the same number. The answer is an acknowledgement when its
//! response code is 200; anything else is a refusal.

use crate::status::MotionError;
use vstd::prelude::*;

verus! {

/// The message id of the command that asks the camera to report motion.
pub const MSG_ID_MOTION_REQUEST: u32 = 31;

/// The message id of the command that switches the floodlight by hand.
pub const MSG_ID_FLOODLIGHT_MANUAL: u32 = 288;

/// The message class under which commands are sent.
pub const COMMAND_CLASS: u16 = 0x6414;

/// The response code by which the camera acknowledges a command.
pub const RESPONSE_ACCEPTED: u16 = 200;

/// The header of a message to or from the camera.
#[derive(Clone, Copy, Debug, PartialEq, Eq, Structural)]
pub struct MessageHeader {
    /// What kind of message it is.
    pub msg_id: u32,
    /// The camera channel that the message is about.
    pub channel_id: u8,
    /// The number under which a command and its reply belong together.
    pub msg_num: u16,
    /// The stream that the message belongs to; zero in a command.
    pub stream_type: u8,
    /// The camera's verdict in a reply; zero in a command.
    pub response_code: u16,
    /// The message class.
    pub class: u16,
}

/// The body of the command that switches the floodlight by hand.
#[derive(Clone, Debug)]
pub struct FloodlightManual {
    /// The version of the body's layout.
    pub version: String,
    /// The camera channel whose floodlight is meant.
    pub channel_id: u8,
    /// One to switch the light on, zero to switch it off.
    pub status: u8,
    /// For how many seconds the light stays on.
    pub duration: u16,
}

/// The camera refused a command, with this response code.
#[derive(Clone, Copy, Debug, PartialEq, Eq, Structural)]
pub struct Refused {
    /// The response code of the reply.
    pub response_code: u16,
}

/// The header of the command `msg_id` for `channel_id`, sent under
/// `msg_num`.
pub open spec fn command(msg_id: u32, channel_id: u8, msg_num: u16) -> MessageHeader {
    MessageHeader {
        msg_id,
        channel_id,
        msg_num,
        stream_type: 0,
        response_code: 0,
        class: COMMAND_CLASS,
    }
}

/// Makes the header of the command `msg_id` for `channel_id`, to be sent
/// under `msg_num`.
pub fn command_header(msg_id: u32, channel_id: u8, msg_num: u16) -> (header: MessageHeader)
    ensures
        header == command(msg_id, channel_id, msg_num),
{
    MessageHeader {
        msg_id,
        channel_id,
        msg_num,
        stream_type: 0,
        response_code: 0,
        class: COMMAND_CLASS,
    }
}

/// Makes the header of the command that arms motion reporting on
/// `channel_id`, to be sent under `msg_num`.
pub fn motion_request(channel_id: u8, msg_num: u16) -> (header: MessageHeader)
    ensures
        header == command(MSG_ID_MOTION_REQUEST, channel_id, msg_num),
{
    command_header(MSG_ID_MOTION_REQUEST, channel_id, msg_num)
}

/// Makes the header of the command that switches the floodlight of
/// `channel_id` by hand, to be sent under `msg_num`.
pub fn floodlight_request(channel_id: u8, msg_num: u16) -> (header: MessageHeader)
    ensures
        header == command(MSG_ID_FLOODLIGHT_MANUAL, channel_id, msg_num),
{
    command_header(MSG_ID_FLOODLIGHT_MANUAL, channel_id, msg_num)
}

/// Whether `reply` acknowledges a command.
pub open spec fn acknowledged(reply: Option<&MessageHeader>) -> bool {
    reply matches Some(header) && header.response_code == RESPONSE_ACCEPTED
}

/// Reads the reply to the arming command that was sent under `msg_num`,
/// `None` standing for a reply that never came: the number under which
/// motion will be reported when the camera has acknowledged the command,
/// and `SetupRejected` when it has not.
pub fn motion_reply(reply: Option<&MessageHeader>, msg_num: u16) -> (armed: Result<
    u16,
    MotionError,
>)
    ensures
        armed == if acknowledged(reply) {
            Ok::<u16, MotionError>(msg_num)
        } else {
            Err(MotionError::SetupRejected)
        },
{
    match reply {
        Some(header) => {
            if header.response_code == RESPONSE_ACCEPTED {
                Ok(msg_num)
            } else {
                Err(MotionError::SetupRejected)
            }
        },
        None => Err(MotionError::SetupRejected),
    }
}

/// Makes the body of the command that switches the floodlight of
/// `channel_id` on, when `state` is set, or off, for `duration` seconds.
pub fn floodlight_manual(channel_id: u8, state: bool, duration: u16) -> (body: FloodlightManual)
    ensures
        body.version@ == "1"@,
        body.channel_id == channel_id,
        body.status == if state {
            1u8
        } else {
            0u8
        },
        body.duration == duration,
{
    FloodlightManual {
        version: "1".to_owned(),
        channel_id,
        status: if state {
            1
        } else {
            0
        },
        duration,
    }
}

/// Reads the reply to a floodlight command: the camera has accepted the
/// command when the response code is 200, and has refused it otherwise.
pub fn floodlight_reply(reply: &MessageHeader) -> (accepted: Result<(), Refused>)
    ensures
        accepted == if reply.response_code == RESPONSE_ACCEPTED {
            Ok::<(), Refused>(())
        } else {
            Err(Refused { response_code: reply.response_code })
        },
{
    if reply.response_code == RESPONSE_ACCEPTED {
        Ok(())
    } else {
        Err(Refused { response_code: reply.response_code })
    }
}

} // verus!
