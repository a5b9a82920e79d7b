//! An audio setup of a mixer and speakers, switched with a remote: the main
//! button switches both, the "up" button brings them on one at a time.
use vstd::prelude::*;
use crate::config::MqttDeviceConfig;
use crate::devices::DeviceRef;
use crate::error::{DeviceConfigError, ParseError};
use crate::event::OnPresence;
use crate::messages::{RemoteAction, RemoteMessage};
use crate::mqtt::{matchable_topic, mqtt_topic_matches, topic_matches};
use crate::text::owned;

verus! {

/// Configuration of an audio setup.
pub struct Config {
    pub identifier: String,
    pub mqtt: MqttDeviceConfig,
    pub mixer: DeviceRef,
    pub speakers: DeviceRef,
}

/// A request to switch one of the two devices.
#[derive(PartialEq, Eq, Structural, Debug)]
pub enum AudioCommand {
    SetMixer(bool),
    SetSpeakers(bool),
}

/// An audio setup.
pub struct AudioSetup {
    config: Config,
}

/// What a remote action asks of the setup, given whether the mixer and the
/// speakers are on.
pub open spec fn audio_commands(action: RemoteAction, mixer_on: bool, speakers_on: bool) -> Seq<
    AudioCommand,
> {
    match action {
        RemoteAction::On => if mixer_on {
            seq![AudioCommand::SetSpeakers(false), AudioCommand::SetMixer(false)]
        } else {
            seq![AudioCommand::SetSpeakers(true), AudioCommand::SetMixer(true)]
        },
        RemoteAction::BrightnessMoveUp => if !mixer_on {
            seq![AudioCommand::SetMixer(true)]
        } else if speakers_on {
            seq![AudioCommand::SetSpeakers(false)]
        } else {
            seq![AudioCommand::SetSpeakers(true)]
        },
        _ => seq![],
    }
}

/// The remote's buttons: the main button switches everything off when the
/// mixer is on and everything on (speakers first) when it is off, whatever
/// the speakers are; "up" switches the mixer on first, then toggles the
/// speakers; other buttons do nothing.
pub proof fn lemma_remote_buttons(mixer_on: bool, speakers_on: bool)
    ensures
        mixer_on ==> audio_commands(RemoteAction::On, mixer_on, speakers_on) == seq![
            AudioCommand::SetSpeakers(false),
            AudioCommand::SetMixer(false),
        ],
        !mixer_on ==> audio_commands(RemoteAction::On, mixer_on, speakers_on) == seq![
            AudioCommand::SetSpeakers(true),
            AudioCommand::SetMixer(true),
        ],
        !mixer_on ==> audio_commands(RemoteAction::BrightnessMoveUp, mixer_on, speakers_on) == seq![
            AudioCommand::SetMixer(true),
        ],
        mixer_on ==> audio_commands(RemoteAction::BrightnessMoveUp, mixer_on, speakers_on) == seq![
            AudioCommand::SetSpeakers(!speakers_on),
        ],
        audio_commands(RemoteAction::Off, mixer_on, speakers_on).len() == 0,
        audio_commands(RemoteAction::BrightnessMoveDown, mixer_on, speakers_on).len() == 0,
        audio_commands(RemoteAction::BrightnessStop, mixer_on, speakers_on).len() == 0,
{
}

impl AudioSetup {
    pub closed spec fn config(&self) -> Config {
        self.config
    }

    /// Sets up the audio: both the mixer and the speakers must be switchable.
    pub fn create(config: Config) -> (res: Result<Self, DeviceConfigError>)
        ensures
            !config.mixer.on_off ==> (res matches Err(DeviceConfigError::MissingTrait(id, t))
                && id == config.mixer.id && t@ == "OnOff"@),
            config.mixer.on_off && !config.speakers.on_off ==> (res matches Err(
                DeviceConfigError::MissingTrait(id, t),
            ) && id == config.speakers.id && t@ == "OnOff"@),
            config.mixer.on_off && config.speakers.on_off ==> (res matches Ok(a) && a.config()
                == config),
    {
        if !config.mixer.on_off {
            return Err(DeviceConfigError::MissingTrait(config.mixer.id, owned("OnOff")));
        }
        if !config.speakers.on_off {
            return Err(DeviceConfigError::MissingTrait(config.speakers.id, owned("OnOff")));
        }
        Ok(AudioSetup { config })
    }

    pub fn get_id(&self) -> (res: String)
        ensures
            res == self.config().identifier,
    {
        self.config.identifier.clone()
    }

    /// Handles a remote message on `topic`; `parsed` is its payload decoded,
    /// and `mixer_on` and `speakers_on` say whether the two are on now.
    /// Whether a message on `topic` that decodes to `parsed` is a remote
    /// action of this setup that depends on whether the mixer and the
    /// speakers are on: the only case in which `on_mqtt` reads those states.
    pub fn needs_states(&self, topic: &str, parsed: &Result<RemoteMessage, ParseError>) -> (res: bool)
        requires
            matchable_topic(topic@),
        ensures
            res == (mqtt_topic_matches(topic@, self.config().mqtt.topic@) && match *parsed {
                Ok(m) => m.action == RemoteAction::On || m.action == RemoteAction::BrightnessMoveUp,
                Err(_) => false,
            }),
    {
        match parsed {
            Ok(m) => match m.action {
                RemoteAction::On | RemoteAction::BrightnessMoveUp => topic_matches(
                    topic,
                    self.config.mqtt.topic.as_str(),
                ),
                _ => false,
            },
            Err(_) => false,
        }
    }

    pub fn on_mqtt(
        &self,
        topic: &str,
        parsed: Result<RemoteMessage, ParseError>,
        mixer_on: bool,
        speakers_on: bool,
    ) -> (res: Vec<AudioCommand>)
        requires
            matchable_topic(topic@),
        ensures
            res@ == (if mqtt_topic_matches(topic@, self.config().mqtt.topic@) {
                match parsed {
                    Ok(m) => audio_commands(m.action, mixer_on, speakers_on),
                    Err(_) => seq![],
                }
            } else {
                seq![]
            }),
            mqtt_topic_matches(topic@, self.config().mqtt.topic@) && parsed is Ok && parsed->Ok_0.action
                == RemoteAction::On ==> res@ == (if mixer_on {
                seq![AudioCommand::SetSpeakers(false), AudioCommand::SetMixer(false)]
            } else {
                seq![AudioCommand::SetSpeakers(true), AudioCommand::SetMixer(true)]
            }),
    {
        proof {
            lemma_remote_buttons(mixer_on, speakers_on);
        }
        let mut commands: Vec<AudioCommand> = Vec::new();
        if !topic_matches(topic, self.config.mqtt.topic.as_str()) {
            return commands;
        }
        let action = match parsed {
            Ok(message) => message.action(),
            Err(_) => {
                return commands;
            },
        };
        match action {
            RemoteAction::On => {
                if mixer_on {
                    commands.push(AudioCommand::SetSpeakers(false));
                    commands.push(AudioCommand::SetMixer(false));
                } else {
                    commands.push(AudioCommand::SetSpeakers(true));
                    commands.push(AudioCommand::SetMixer(true));
                }
            },
            RemoteAction::BrightnessMoveUp => {
                if !mixer_on {
                    commands.push(AudioCommand::SetMixer(true));
                } else if speakers_on {
                    commands.push(AudioCommand::SetSpeakers(false));
                } else {
                    commands.push(AudioCommand::SetSpeakers(true));
                }
            },
            _ => {},
        }
        assert(commands@ =~= audio_commands(action, mixer_on, speakers_on));
        commands
    }
}

impl OnPresence for AudioSetup {
    type Action = Vec<AudioCommand>;

    /// When everybody leaves, the speakers and then the mixer go off.
    fn on_presence(&mut self, presence: bool) -> (res: Vec<AudioCommand>)
        ensures
            final(self).config() == old(self).config(),
            res@ == (if presence {
                seq![]
            } else {
                seq![AudioCommand::SetSpeakers(false), AudioCommand::SetMixer(false)]
            }),
    {
        let mut commands: Vec<AudioCommand> = Vec::new();
        if !presence {
            commands.push(AudioCommand::SetSpeakers(false));
            commands.push(AudioCommand::SetMixer(false));
        }
        assert(commands@ =~= (if presence {
            seq![]
        } else {
            seq![AudioCommand::SetSpeakers(false), AudioCommand::SetMixer(false)]
        }));
        commands
    }
}

} // verus!
