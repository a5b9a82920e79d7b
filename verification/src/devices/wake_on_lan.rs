//! A computer that can be woken with a Wake-on-LAN magic packet, exposed to
//! Google Home as a scene.
use vstd::prelude::*;
use crate::config::{InfoConfig, MqttDeviceConfig};
use crate::error::ParseError;
use crate::google_home::device::Name;
use crate::google_home::errors::{DeviceError, ErrorCode};
use crate::google_home::types::Type;
use crate::messages::ActivateMessage;

verus! {

/// The UDP port the magic packet is sent to.
pub const WOL_PORT: u16 = 9;

/// Configuration of the computer.
pub struct WakeOnLANConfig {
    pub info: InfoConfig,
    pub mqtt: MqttDeviceConfig,
    pub mac_address: [u8; 6],
    pub broadcast_ip: [u8; 4],
}

/// The broadcast address used when none is configured.
pub fn default_broadcast_ip() -> (res: [u8; 4])
    ensures
        res@ == seq![255u8, 255u8, 255u8, 255u8],
{
    [255, 255, 255, 255]
}

/// A magic packet to send: for this MAC address, to this address and port.
pub struct WakeRequest {
    pub mac_address: [u8; 6],
    pub broadcast_ip: [u8; 4],
    pub port: u16,
}

/// The bytes of a magic packet: six bytes 0xFF, then the MAC address sixteen
/// times.
pub open spec fn magic_packet_bytes(mac: Seq<u8>) -> Seq<u8> {
    Seq::new(6, |i: int| 0xFFu8) + Seq::new(96, |i: int| mac[i % 6])
}

/// `wakey::WolPacket::from_bytes` and its bytes. Claimed, as its source
/// shows: for a six-byte address it succeeds, with six bytes 0xFF followed by
/// the address sixteen times.
#[verifier::external_body]
fn wol_packet(mac: &[u8; 6]) -> (res: Vec<u8>)
    ensures
        res@ == magic_packet_bytes(mac@),
{
    match wakey::WolPacket::from_bytes(mac) {
        Ok(packet) => packet.into_inner().to_vec(),
        Err(_) => Vec::new(),
    }
}

impl WakeRequest {
    /// The magic packet to send.
    pub fn packet(&self) -> (res: Vec<u8>)
        ensures
            res@ == magic_packet_bytes(self.mac_address@),
    {
        wol_packet(&self.mac_address)
    }
}

/// A computer that can be woken.
pub struct WakeOnLAN {
    identifier: String,
    config: WakeOnLANConfig,
}

impl WakeOnLANConfig {
    pub fn create(self, identifier: String) -> (res: WakeOnLAN)
        ensures
            res.identifier() == identifier,
            res.config() == self,
    {
        WakeOnLAN { identifier, config: self }
    }
}

impl WakeOnLAN {
    pub closed spec fn identifier(&self) -> String {
        self.identifier
    }

    pub closed spec fn config(&self) -> WakeOnLANConfig {
        self.config
    }

    pub fn get_id(&self) -> (res: &str)
        ensures
            res@ == self.identifier()@,
    {
        self.identifier.as_str()
    }

    /// The topic on which activation requests arrive.
    pub fn topics(&self) -> (res: Vec<&str>)
        ensures
            res@.len() == 1,
            res@[0]@ == self.config().mqtt.topic@,
    {
        let mut topics: Vec<&str> = Vec::new();
        topics.push(self.config.mqtt.topic.as_str());
        topics
    }

    /// Handles an activation request; `parsed` is its payload decoded.
    /// Undecodable requests are ignored.
    pub fn on_mqtt(&self, parsed: Result<ActivateMessage, ParseError>) -> (res: Option<
        Result<WakeRequest, ErrorCode>,
    >)
        ensures
            match parsed {
                Ok(m) => res == Some(self.spec_set_active(m.activate)),
                Err(_) => res is None,
            },
    {
        match parsed {
            Ok(message) => Some(self.set_active(message.activate())),
            Err(_) => None,
        }
    }

    pub fn get_device_type(&self) -> (res: Type)
        ensures
            res == Type::Scene,
    {
        Type::Scene
    }

    /// The configured name, with "Computer" as default name.
    pub fn get_device_name(&self) -> (res: Name)
        ensures
            res.name@ == self.config().info.name@,
            res.default_names@.len() == 1,
            res.default_names@[0]@ == "Computer"@,
            res.nicknames@.len() == 0,
    {
        let mut name = Name::new(self.config.info.name.as_str());
        name.add_default_name("Computer");
        name
    }

    pub fn is_online(&self) -> (res: bool)
        ensures
            res,
    {
        true
    }

    pub fn get_room_hint(&self) -> (res: Option<&str>)
        ensures
            match self.config().info.room {
                Some(r) => res matches Some(h) && h@ == r@,
                None => res is None,
            },
    {
        match &self.config.info.room {
            Some(r) => Some(r.as_str()),
            None => None,
        }
    }

    /// What activating (or deactivating) the scene does.
    pub open spec fn spec_set_active(&self, activate: bool) -> Result<WakeRequest, ErrorCode> {
        if activate {
            Ok(
                WakeRequest {
                    mac_address: self.config().mac_address,
                    broadcast_ip: self.config().broadcast_ip,
                    port: WOL_PORT,
                },
            )
        } else {
            Err(ErrorCode::DeviceError(DeviceError::ActionNotAvailable))
        }
    }

    /// What activating the scene answers once the magic packet went out (or
    /// failed to): success, or a transient error when it could not be sent.
    pub fn sent_result<E>(sent: Result<(), E>) -> (res: Result<(), ErrorCode>)
        ensures
            sent is Ok ==> res is Ok,
            sent is Err ==> res == Err::<(), ErrorCode>(ErrorCode::DeviceError(DeviceError::TransientError)),
    {
        match sent {
            Ok(()) => Ok(()),
            Err(_) => Err(ErrorCode::DeviceError(DeviceError::TransientError)),
        }
    }

    /// Activating the scene sends a magic packet for the computer's MAC
    /// address to the broadcast address; deactivating it is not supported.
    pub fn set_active(&self, activate: bool) -> (res: Result<WakeRequest, ErrorCode>)
        ensures
            res == self.spec_set_active(activate),
    {
        if activate {
            Ok(
                WakeRequest {
                    mac_address: self.config.mac_address,
                    broadcast_ip: self.config.broadcast_ip,
                    port: WOL_PORT,
                },
            )
        } else {
            Err(ErrorCode::DeviceError(DeviceError::ActionNotAvailable))
        }
    }
}

} // verus!
