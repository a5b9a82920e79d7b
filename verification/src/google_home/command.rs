//! The commands of an EXECUTE request, and which trait each belongs to.
use vstd::prelude::*;
use crate::devices::{kind_traits, DeviceKind};
use crate::google_home::traits::Trait;

verus! {

/// A command that Google Home asks a device to carry out, with its
/// parameters.
pub enum Command {
    OnOff { on: bool },
    OpenClose { open_percent: u8 },
    BrightnessAbsolute { brightness: u8 },
    ActivateScene { deactivate: bool },
    SetFanSpeed { fan_speed: String },
}

/// The trait a command belongs to.
pub open spec fn command_trait(command: Command) -> Trait {
    match command {
        Command::OnOff { .. } => Trait::OnOff,
        Command::OpenClose { .. } => Trait::OpenClose,
        Command::BrightnessAbsolute { .. } => Trait::Brightness,
        Command::ActivateScene { .. } => Trait::Scene,
        Command::SetFanSpeed { .. } => Trait::FanSpeed,
    }
}

impl Command {
    /// The trait this command belongs to.
    pub fn required_trait(&self) -> (res: Trait)
        ensures
            res == command_trait(*self),
    {
        match self {
            Command::OnOff { .. } => Trait::OnOff,
            Command::OpenClose { .. } => Trait::OpenClose,
            Command::BrightnessAbsolute { .. } => Trait::Brightness,
            Command::ActivateScene { .. } => Trait::Scene,
            Command::SetFanSpeed { .. } => Trait::FanSpeed,
        }
    }
}

/// Each command needs the trait that declares it: OnOff needs OnOff,
/// OpenClose needs OpenClose, BrightnessAbsolute needs Brightness,
/// ActivateScene needs Scene and SetFanSpeed needs FanSpeed. So the
/// computer's scene can be activated, the air filter's fan speed set, and
/// every outlet and light switched, while an outlet has no scene.
pub proof fn lemma_command_traits(on: bool, open_percent: u8, brightness: u8, deactivate: bool, fan_speed: String)
    ensures
        command_trait(Command::OnOff { on }) == Trait::OnOff,
        command_trait(Command::OpenClose { open_percent }) == Trait::OpenClose,
        command_trait(Command::BrightnessAbsolute { brightness }) == Trait::Brightness,
        command_trait(Command::ActivateScene { deactivate }) == Trait::Scene,
        command_trait(Command::SetFanSpeed { fan_speed }) == Trait::FanSpeed,
        kind_traits(DeviceKind::WakeOnLan).contains(command_trait(Command::ActivateScene { deactivate })),
        kind_traits(DeviceKind::AirFilter).contains(command_trait(Command::SetFanSpeed { fan_speed })),
        kind_traits(DeviceKind::AirFilter).contains(command_trait(Command::OnOff { on })),
        kind_traits(DeviceKind::IkeaOutlet).contains(command_trait(Command::OnOff { on })),
        kind_traits(DeviceKind::KasaOutlet).contains(command_trait(Command::OnOff { on })),
        kind_traits(DeviceKind::HueGroup).contains(command_trait(Command::OnOff { on })),
        !kind_traits(DeviceKind::IkeaOutlet).contains(command_trait(Command::ActivateScene { deactivate })),
        !kind_traits(DeviceKind::WakeOnLan).contains(command_trait(Command::OnOff { on })),
{
    assert(kind_traits(DeviceKind::WakeOnLan)[0] == Trait::Scene);
    assert(kind_traits(DeviceKind::AirFilter)[1] == Trait::FanSpeed);
    assert(kind_traits(DeviceKind::AirFilter)[0] == Trait::OnOff);
    assert(kind_traits(DeviceKind::IkeaOutlet)[0] == Trait::OnOff);
    assert(kind_traits(DeviceKind::KasaOutlet)[0] == Trait::OnOff);
    assert(kind_traits(DeviceKind::HueGroup)[0] == Trait::OnOff);
}

/// Whether a device with these traits can carry out the command: it has
/// the trait the command belongs to.
pub fn supports(traits: &Vec<Trait>, command: &Command) -> (res: bool)
    ensures
        res == traits@.contains(command_trait(*command)),
{
    let wanted = command.required_trait();
    let n = traits.len();
    let mut i: usize = 0;
    while i < n
        invariant
            n == traits@.len(),
            i <= n,
            wanted == command_trait(*command),
            forall|j: int| 0 <= j < i ==> traits@[j] != wanted,
        decreases n - i,
    {
        if traits[i] == wanted {
            assert(traits@[i as int] == wanted);
            return true;
        }
        i = i + 1;
    }
    false
}

} // verus!
