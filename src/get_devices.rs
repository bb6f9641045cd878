//! The federation operation that gets information on all of a user's devices
//! (`GET /_matrix/federation/v1/user/devices`).

use vstd::prelude::*;

verus! {

/// An unsigned integer of js_int, in the range that JSON numbers hold exactly.
#[verifier::external_type_specification]
#[verifier::external_body]
pub struct ExUInt(js_int::UInt);

/// A device identifier of ruma_identifiers, carried through unread.
#[verifier::external_type_specification]
#[verifier::external_body]
pub struct ExDeviceId(ruma_identifiers::DeviceId);

/// The identity keys of a device, of ruma_common, carried through unread.
#[verifier::external_type_specification]
#[verifier::external_body]
pub struct ExDeviceKeys(ruma_common::encryption::DeviceKeys);

/// The request: whose devices are asked for.
pub struct Request<'a> {
    /// The user ID to retrieve devices for. Must be a user local to the receiving homeserver.
    /// It is sent in the query string.
    pub user_id: &'a ruma_identifiers::UserId,
}

/// The response: the user's devices and the version of that list.
pub struct Response {
    /// The user ID devices were requested for.
    pub user_id: Box<ruma_identifiers::UserId>,
    /// A unique ID for a given user_id which describes the version of the returned device list.
    pub stream_id: js_int::UInt,
    /// The user's devices. May be empty.
    pub devices: Vec<UserDevice>,
}

/// Information about a user's device.
pub struct UserDevice {
    /// The device ID.
    pub device_id: Box<ruma_identifiers::DeviceId>,
    /// Identity keys for the device.
    pub keys: ruma_common::encryption::DeviceKeys,
    /// Optional display name for the device.
    pub device_display_name: Option<String>,
}

impl<'a> Request<'a> {
    /// Creates a new `Request` with the given user id.
    pub fn new(user_id: &'a ruma_identifiers::UserId) -> (r: Self)
        ensures
            r.user_id == user_id,
    {
        Self { user_id }
    }
}

impl Response {
    /// Creates a new `Response` with the given user id, stream id and devices.
    pub fn new(
        user_id: Box<ruma_identifiers::UserId>,
        stream_id: js_int::UInt,
        devices: Vec<UserDevice>,
    ) -> (r: Self)
        ensures
            r.user_id == user_id,
            r.stream_id == stream_id,
            r.devices == devices,
    {
        Self { user_id, stream_id, devices }
    }
}

} // verus!
