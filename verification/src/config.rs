//! Configuration of the program and of its devices.
use vstd::prelude::*;
use std::collections::VecDeque;
use crate::text::owned;

verus! {

/// How the program starts: the Lua file to run, and the variables and
/// secrets handed to it.
pub struct Setup {
    pub entrypoint: String,
    pub variables: Vec<(String, String)>,
    pub secrets: Vec<(String, String)>,
}

/// The Lua file that is run when none is configured.
pub fn default_entrypoint() -> (res: String)
    ensures
        res@ == "./config/config.lua"@,
{
    owned("./config/config.lua")
}

/// An IP address: IPv4 as four bytes, IPv6 as eight 16-bit segments.
#[derive(Clone, Copy, Debug)]
pub enum IpAddress {
    V4([u8; 4]),
    V6([u16; 8]),
}

/// Where the Google Home fulfillment endpoint listens.
pub struct FulfillmentConfig {
    pub openid_url: String,
    pub ip: [u8; 4],
    pub port: u16,
}

/// The address the fulfillment endpoint listens on when none is configured:
/// all interfaces.
pub fn default_fulfillment_ip() -> (res: [u8; 4])
    ensures
        res@ == seq![0u8, 0u8, 0u8, 0u8],
{
    [0, 0, 0, 0]
}

/// The port the fulfillment endpoint listens on when none is configured.
pub fn default_fulfillment_port() -> (res: u16)
    ensures
        res == 7878,
{
    7878
}

impl FulfillmentConfig {
    /// The socket address to listen on: the configured address and port.
    pub fn socket_addr(&self) -> (res: ([u8; 4], u16))
        ensures
            res.0 == self.ip,
            res.1 == self.port,
    {
        (self.ip, self.port)
    }
}

/// The Google Home facing description of a device.
pub struct InfoConfig {
    pub identifier: String,
    pub name: String,
    pub room: Option<String>,
}

impl InfoConfig {
    pub fn identifier(&self) -> (res: String)
        ensures
            res == self.identifier,
    {
        self.identifier.clone()
    }
}

/// The topic an MQTT device listens on.
pub struct MqttDeviceConfig {
    pub topic: String,
}

/// A configuration module: an optional setup function, devices, and
/// sub-modules.
pub struct Module<S, D> {
    pub setup: Option<S>,
    pub devices: Vec<D>,
    pub modules: Vec<Module<S, D>>,
}

/// What calling a module's setup function gave, sorted out: nothing, a
/// non-empty list of devices, another module, or something else.
pub enum SetupOutcome<S, D> {
    Nothing,
    Devices(Vec<D>),
    Module(Module<S, D>),
    Unexpected,
}

/// The error when a setup function returned something that is neither
/// nothing, devices nor a module.
pub struct UnexpectedSetupResult;

/// Walks the modules breadth first, collecting their devices: the modules
/// still to visit, and the devices found so far.
pub struct Resolver<S, D> {
    queue: VecDeque<Module<S, D>>,
    devices: Vec<D>,
}

impl<S, D> Resolver<S, D> {
    /// The modules still to visit, in order.
    pub closed spec fn queue(&self) -> Seq<Module<S, D>> {
        self.queue@
    }

    /// The devices found so far, in order.
    pub closed spec fn devices(&self) -> Seq<D> {
        self.devices@
    }

    /// Starts with the top-level modules and no devices.
    pub fn new(modules: Vec<Module<S, D>>) -> (res: Self)
        ensures
            res.queue() == modules@,
            res.devices().len() == 0,
    {
        let mut queue: VecDeque<Module<S, D>> = VecDeque::new();
        Self::push_all(&mut queue, modules);
        Resolver { queue, devices: Vec::new() }
    }

    fn push_all(queue: &mut VecDeque<Module<S, D>>, modules: Vec<Module<S, D>>)
        ensures
            final(queue)@ == old(queue)@ + modules@,
    {
        let mut modules = modules;
        let total = modules.len();
        let ghost all = modules@;
        let ghost start = queue@;
        let mut i: usize = 0;
        while modules.len() > 0
            invariant
                all.len() == total,
                i + modules@.len() == all.len(),
                modules@ == all.skip(i as int),
                queue@ == start + all.take(i as int),
            decreases modules@.len(),
        {
            let m = modules.remove(0);
            queue.push_back(m);
            assert(all.take(i as int + 1) =~= all.take(i as int).push(all[i as int]));
            i = i + 1;
            assert(modules@ =~= all.skip(i as int));
        }
        assert(all.take(i as int) =~= all);
    }

    /// Takes the next module off the queue, queueing its sub-modules; gives
    /// back its setup function and its own devices (which `finish` adds
    /// after whatever the setup function gives). `None` when all modules
    /// have been visited.
    pub fn next(&mut self) -> (res: Option<(Option<S>, Vec<D>)>)
        ensures
            final(self).devices() == old(self).devices(),
            old(self).queue().len() == 0 ==> res is None && final(self).queue() == old(self).queue(),
            old(self).queue().len() > 0 ==> (res matches Some(r) && r.0 == old(self).queue()[0].setup
                && r.1 == old(self).queue()[0].devices && final(self).queue() == old(self).queue().drop_first()
                + old(self).queue()[0].modules@),
    {
        match self.queue.pop_front() {
            Some(module) => {
                Self::push_all(&mut self.queue, module.modules);
                Some((module.setup, module.devices))
            },
            None => None,
        }
    }

    /// Records what the setup function of the module just taken gave, then
    /// the module's own devices: devices are collected, a module is queued
    /// at the end, nothing is ignored, and anything else is an error.
    pub fn finish(&mut self, outcome: SetupOutcome<S, D>, module_devices: Vec<D>) -> (res: Result<
        (),
        UnexpectedSetupResult,
    >)
        ensures
            outcome is Unexpected <==> res is Err,
            res is Err ==> final(self).queue() == old(self).queue() && final(self).devices() == old(self).devices(),
            res is Ok ==> match outcome {
                SetupOutcome::Devices(d) => final(self).devices() == old(self).devices() + d@
                    + module_devices@ && final(self).queue() == old(self).queue(),
                SetupOutcome::Module(m) => final(self).devices() == old(self).devices()
                    + module_devices@ && final(self).queue() == old(self).queue().push(m),
                _ => final(self).devices() == old(self).devices() + module_devices@
                    && final(self).queue() == old(self).queue(),
            },
    {
        let mut module_devices = module_devices;
        match outcome {
            SetupOutcome::Nothing => {},
            SetupOutcome::Devices(d) => {
                let mut d = d;
                self.devices.append(&mut d);
            },
            SetupOutcome::Module(m) => {
                self.queue.push_back(m);
            },
            SetupOutcome::Unexpected => {
                return Err(UnexpectedSetupResult);
            },
        }
        self.devices.append(&mut module_devices);
        Ok(())
    }

    /// The devices found.
    pub fn into_devices(self) -> (res: Vec<D>)
        ensures
            res@ == self.devices(),
    {
        self.devices
    }
}

} // verus!
