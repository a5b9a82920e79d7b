//! The devices of the house. Each keeps its own state and, for each message
//! or event it receives, says what it wants done.
use vstd::prelude::*;
use crate::device_manager::Capabilities;
use crate::google_home::traits::Trait;

pub mod air_filter;
pub mod audio_setup;
pub mod contact_sensor;
pub mod debug_bridge;
pub mod hue_bridge;
pub mod hue_light;
pub mod ikea_outlet;
pub mod kasa_outlet;
pub mod light_sensor;
pub mod presence;
pub mod test_outlet;
pub mod wake_on_lan;
pub mod washer;

verus! {

/// Another device as a configuration refers to it: its id and which of the
/// traits it has that the referring device relies on.
pub struct DeviceRef {
    pub id: String,
    pub on_off: bool,
    pub timeout: bool,
}

/// The kinds of device there are.
#[derive(Clone, Copy, PartialEq, Eq, Structural, Debug)]
pub enum DeviceKind {
    IkeaOutlet,
    KasaOutlet,
    TestOutlet,
    HueGroup,
    HueBridge,
    AirFilter,
    AudioSetup,
    ContactSensor,
    DebugBridge,
    LightSensor,
    Presence,
    Washer,
    WakeOnLan,
    Ntfy,
}

/// The events a kind of device reacts to.
pub open spec fn kind_capabilities(kind: DeviceKind) -> Capabilities {
    let none = Capabilities { mqtt: false, presence: false, darkness: false, notification: false };
    match kind {
        DeviceKind::IkeaOutlet => Capabilities { mqtt: true, presence: true, ..none },
        DeviceKind::KasaOutlet => none,
        DeviceKind::TestOutlet => none,
        DeviceKind::HueGroup => Capabilities { mqtt: true, ..none },
        DeviceKind::HueBridge => Capabilities { presence: true, darkness: true, ..none },
        DeviceKind::AirFilter => Capabilities { mqtt: true, ..none },
        DeviceKind::AudioSetup => Capabilities { mqtt: true, presence: true, ..none },
        DeviceKind::ContactSensor => Capabilities { mqtt: true, presence: true, ..none },
        DeviceKind::DebugBridge => Capabilities { presence: true, darkness: true, ..none },
        DeviceKind::LightSensor => Capabilities { mqtt: true, ..none },
        DeviceKind::Presence => Capabilities { mqtt: true, ..none },
        DeviceKind::Washer => Capabilities { mqtt: true, ..none },
        DeviceKind::WakeOnLan => Capabilities { mqtt: true, ..none },
        DeviceKind::Ntfy => Capabilities { presence: true, notification: true, ..none },
    }
}

/// Whether a kind of device can be switched on and off.
pub open spec fn kind_on_off(kind: DeviceKind) -> bool {
    match kind {
        DeviceKind::IkeaOutlet | DeviceKind::KasaOutlet | DeviceKind::TestOutlet | DeviceKind::HueGroup
        | DeviceKind::AirFilter => true,
        _ => false,
    }
}

/// Whether a kind of device can switch itself off after a while.
pub open spec fn kind_timeout(kind: DeviceKind) -> bool {
    match kind {
        DeviceKind::IkeaOutlet | DeviceKind::HueGroup => true,
        _ => false,
    }
}

/// The Google Home traits a kind of device has.
pub open spec fn kind_traits(kind: DeviceKind) -> Seq<Trait> {
    match kind {
        DeviceKind::IkeaOutlet | DeviceKind::KasaOutlet | DeviceKind::TestOutlet | DeviceKind::HueGroup => seq![
            Trait::OnOff,
        ],
        DeviceKind::AirFilter => seq![Trait::OnOff, Trait::FanSpeed, Trait::HumiditySetting],
        DeviceKind::WakeOnLan => seq![Trait::Scene],
        _ => seq![],
    }
}

impl DeviceKind {
    /// The Google Home traits of this kind of device, in the order a SYNC
    /// answer lists them.
    pub fn traits(&self) -> (res: Vec<Trait>)
        ensures
            res@ == kind_traits(*self),
    {
        let mut traits: Vec<Trait> = Vec::new();
        match self {
            DeviceKind::IkeaOutlet | DeviceKind::KasaOutlet | DeviceKind::TestOutlet | DeviceKind::HueGroup => {
                traits.push(Trait::OnOff);
            },
            DeviceKind::AirFilter => {
                traits.push(Trait::OnOff);
                traits.push(Trait::FanSpeed);
                traits.push(Trait::HumiditySetting);
            },
            DeviceKind::WakeOnLan => {
                traits.push(Trait::Scene);
            },
            _ => {},
        }
        assert(traits@ =~= kind_traits(*self));
        traits
    }

    /// The events this kind of device reacts to.
    pub fn capabilities(&self) -> (res: Capabilities)
        ensures
            res == kind_capabilities(*self),
    {
        let none = Capabilities { mqtt: false, presence: false, darkness: false, notification: false };
        match self {
            DeviceKind::IkeaOutlet => Capabilities { mqtt: true, presence: true, ..none },
            DeviceKind::KasaOutlet => none,
            DeviceKind::TestOutlet => none,
            DeviceKind::HueGroup => Capabilities { mqtt: true, ..none },
            DeviceKind::HueBridge => Capabilities { presence: true, darkness: true, ..none },
            DeviceKind::AirFilter => Capabilities { mqtt: true, ..none },
            DeviceKind::AudioSetup => Capabilities { mqtt: true, presence: true, ..none },
            DeviceKind::ContactSensor => Capabilities { mqtt: true, presence: true, ..none },
            DeviceKind::DebugBridge => Capabilities { presence: true, darkness: true, ..none },
            DeviceKind::LightSensor => Capabilities { mqtt: true, ..none },
            DeviceKind::Presence => Capabilities { mqtt: true, ..none },
            DeviceKind::Washer => Capabilities { mqtt: true, ..none },
            DeviceKind::WakeOnLan => Capabilities { mqtt: true, ..none },
            DeviceKind::Ntfy => Capabilities { presence: true, notification: true, ..none },
        }
    }

    /// How another device refers to a device of this kind with this id.
    pub fn device_ref(&self, id: String) -> (res: DeviceRef)
        ensures
            res.id == id,
            res.on_off == kind_on_off(*self),
            res.timeout == kind_timeout(*self),
    {
        let on_off = match self {
            DeviceKind::IkeaOutlet | DeviceKind::KasaOutlet | DeviceKind::TestOutlet | DeviceKind::HueGroup
            | DeviceKind::AirFilter => true,
            _ => false,
        };
        let timeout = match self {
            DeviceKind::IkeaOutlet | DeviceKind::HueGroup => true,
            _ => false,
        };
        DeviceRef { id, on_off, timeout }
    }
}

} // verus!
