use vstd::prelude::*;
use tokio::sync::broadcast::error::RecvError;
use tokio::sync::broadcast::{Receiver, Sender};
use crate::command::{normalize_command, normalized};
use crate::config::{
    or_default, MinecraftConfig, DEFAULT_LOG_PATH, DEFAULT_SOCKET_PATH, DEFAULT_SYSTEMD_UNIT,
};
use crate::session::SessionEvent;

verus! {

#[verifier::external_type_specification]
#[verifier::external_body]
#[verifier::reject_recursive_types(T)]
pub struct ExSender<T>(Sender<T>);

#[verifier::external_type_specification]
#[verifier::external_body]
#[verifier::reject_recursive_types(T)]
pub struct ExReceiver<T>(Receiver<T>);

#[verifier::external_type_specification]
pub struct ExRecvError(RecvError);

/// Lines the bus keeps for each subscriber before the oldest unread ones are
/// dropped.
pub const BUS_CAPACITY: usize = 16;

/// Relies on tokio::sync::broadcast::channel, which panics on a capacity of
/// zero or above half of `usize::MAX`; the first receiver is dropped at once.
#[verifier::external_body]
fn open_bus(capacity: usize) -> Sender<String>
    requires
        0 < capacity <= usize::MAX / 2,
{
    tokio::sync::broadcast::channel(capacity).0
}

/// Relies on Sender::subscribe: a receiver of the lines sent after the call.
#[verifier::external_body]
fn bus_subscribe(tx: &Sender<String>) -> Receiver<String> {
    tx.subscribe()
}

/// Relies on Sender::send: it fails only when no receiver is subscribed, and
/// on success gives the number of receivers, which is then at least one.
#[verifier::external_body]
fn bus_send(tx: &Sender<String>, line: String) -> (r: Option<usize>)
    ensures
        r matches Some(n) ==> n >= 1,
{
    tx.send(line).ok()
}

/// Relies on Sender::clone: another handle on the same channel.
#[verifier::external_body]
fn bus_clone(tx: &Sender<String>) -> Sender<String> {
    tx.clone()
}

/// A command ready for delivery: the control input to open and the text to
/// write to it in one write.
pub struct CommandRequest {
    pub path: String,
    pub text: String,
}

/// The bridge: its configuration and the sending end of the log bus.
pub struct MinecraftControl {
    /// The configuration the bridge runs with.
    pub config: MinecraftConfig,
    /// The sending end of the log bus.
    pub tx: Sender<String>,
}

/// The configuration a bridge runs with: the one given, or one that sets
/// nothing.
pub open spec fn effective_config(config: Option<MinecraftConfig>) -> MinecraftConfig {
    match config {
        Some(c) => c,
        None => MinecraftConfig { log_path: None, socket_path: None, systemd_unit: None },
    }
}

/// Creates the bridge and its log bus, which keeps `BUS_CAPACITY` lines for
/// each subscriber. The journal reader is started by the caller and publishes
/// through a clone of the result.
pub fn init(config: Option<MinecraftConfig>) -> (r: MinecraftControl)
    ensures
        r.config == effective_config(config),
{
    let mc_config = match config {
        Some(c) => c,
        None => MinecraftConfig::unset(),
    };
    MinecraftControl { config: mc_config, tx: open_bus(BUS_CAPACITY) }
}

/// Turns what a bus receive gave into a session event: a line, a report of
/// how many lines were dropped, or the end of the bus.
pub fn bus_event(received: Result<String, RecvError>) -> (e: SessionEvent)
    ensures
        received matches Ok(line) ==> e == SessionEvent::Line(line),
        received matches Err(RecvError::Lagged(n)) ==> e == SessionEvent::Lagged(n),
        received matches Err(RecvError::Closed) ==> e is BusClosed,
{
    match received {
        Ok(line) => SessionEvent::Line(line),
        Err(RecvError::Lagged(n)) => SessionEvent::Lagged(n),
        Err(RecvError::Closed) => SessionEvent::BusClosed,
    }
}

impl MinecraftControl {
    /// A new subscription to the log bus; it receives only lines published
    /// after this call.
    pub fn subscribe(&mut self) -> (r: Receiver<String>)
        ensures
            *final(self) == *old(self),
    {
        bus_subscribe(&self.tx)
    }

    /// Publishes a line to every current subscriber. Publishing never fails and
    /// never blocks: with no subscriber the line is dropped and 0 is returned,
    /// otherwise the number of subscribers that were handed the line.
    pub fn publish(&self, line: String) -> (r: usize) {
        match bus_send(&self.tx, line) {
            Some(n) => n,
            None => 0,
        }
    }

    /// The log file that a snapshot streams.
    pub fn log_file(&self) -> (r: String)
        ensures
            r@ == or_default(self.config.log_path, DEFAULT_LOG_PATH@),
    {
        self.config.log_file()
    }

    /// The journal unit whose entries the reader relays.
    pub fn journal_unit(&self) -> (r: String)
        ensures
            r@ == or_default(self.config.systemd_unit, DEFAULT_SYSTEMD_UNIT@),
    {
        self.config.unit()
    }

    /// Prepares an operator command for delivery: the configured control
    /// input, and the command with its trailing newline.
    pub fn command_request(&self, command: String) -> (r: CommandRequest)
        ensures
            r.path@ == or_default(self.config.socket_path, DEFAULT_SOCKET_PATH@),
            r.text@ == normalized(command@),
    {
        CommandRequest { path: self.config.control_input(), text: normalize_command(command) }
    }
}

impl Clone for MinecraftControl {
    fn clone(&self) -> (r: MinecraftControl)
        ensures
            r.config == self.config,
    {
        MinecraftControl { config: self.config.clone(), tx: bus_clone(&self.tx) }
    }
}

} // verus!
