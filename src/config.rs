use vstd::prelude::*;

verus! {

/// Where the server writes its log when the configuration names no file.
pub const DEFAULT_LOG_PATH: &'static str = "/var/lib/minecraft/logs/latest.log";

/// The server's control input when the configuration names none.
pub const DEFAULT_SOCKET_PATH: &'static str = "/run/minecraft-server.stdin";

/// The journal unit whose entries are relayed when the configuration names none.
pub const DEFAULT_SYSTEMD_UNIT: &'static str = "minecraft-server.service";

/// A configured value, or the default where none was given.
pub open spec fn or_default(v: Option<String>, default: Seq<char>) -> Seq<char> {
    match v {
        Some(s) => s@,
        None => default,
    }
}

/// The bridge's configuration; each field left out falls back to its default.
#[derive(Debug)]
pub struct MinecraftConfig {
    pub log_path: Option<String>,
    pub socket_path: Option<String>,
    pub systemd_unit: Option<String>,
}

fn value_or(v: &Option<String>, default: &str) -> (r: String)
    ensures
        r@ == or_default(*v, default@),
{
    match v {
        Some(s) => s.clone(),
        None => String::from_str(default),
    }
}

fn clone_field(v: &Option<String>) -> (r: Option<String>)
    ensures
        r == *v,
{
    match v {
        Some(s) => Some(s.clone()),
        None => None,
    }
}

impl Clone for MinecraftConfig {
    fn clone(&self) -> (r: MinecraftConfig)
        ensures
            r == *self,
    {
        MinecraftConfig {
            log_path: clone_field(&self.log_path),
            socket_path: clone_field(&self.socket_path),
            systemd_unit: clone_field(&self.systemd_unit),
        }
    }
}

impl MinecraftConfig {
    /// A configuration that sets nothing.
    pub fn unset() -> (r: MinecraftConfig)
        ensures
            r.log_path is None,
            r.socket_path is None,
            r.systemd_unit is None,
    {
        MinecraftConfig { log_path: None, socket_path: None, systemd_unit: None }
    }

    /// The log file that a snapshot reads.
    pub fn log_file(&self) -> (r: String)
        ensures
            r@ == or_default(self.log_path, DEFAULT_LOG_PATH@),
    {
        value_or(&self.log_path, DEFAULT_LOG_PATH)
    }

    /// The control input that commands are written to.
    pub fn control_input(&self) -> (r: String)
        ensures
            r@ == or_default(self.socket_path, DEFAULT_SOCKET_PATH@),
    {
        value_or(&self.socket_path, DEFAULT_SOCKET_PATH)
    }

    /// The journal unit whose entries are relayed.
    pub fn unit(&self) -> (r: String)
        ensures
            r@ == or_default(self.systemd_unit, DEFAULT_SYSTEMD_UNIT@),
    {
        value_or(&self.systemd_unit, DEFAULT_SYSTEMD_UNIT)
    }
}

} // verus!
