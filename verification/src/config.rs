//! The configuration a server is started with. It never changes afterwards.

use vstd::prelude::*;

verus! {

/// The port listened on when none is given.
pub const DEFAULT_PORT: u16 = 8000;

/// Seconds between kill and restore when none are given: five minutes.
pub const DEFAULT_RESTORE_DELAY: u64 = 300;

/// Bytes read from a connection at most; a longer request is cut there.
pub const REQUEST_BUFFER_SIZE: usize = 1024;

/// What the operator configures. Nothing is validated: a hook is taken as it
/// is given and first looked at when it is run.
#[derive(Clone, Debug, PartialEq, Eq)]
pub struct Config {
    /// Listening port.
    pub port: u16,
    /// The fixed secret that opens a challenge.
    pub first_secret: String,
    /// Shell command run when a challenge completes.
    pub kill_hook: String,
    /// Shell command run once, `restore_delay` seconds after the kill hook.
    pub restore_hook: String,
    /// Seconds between the kill and the restore.
    pub restore_delay: u64,
}

/// A configuration as plain values.
pub struct ConfigView {
    pub port: u16,
    pub first_secret: Seq<char>,
    pub kill_hook: Seq<char>,
    pub restore_hook: Seq<char>,
    pub restore_delay: u64,
}

impl View for Config {
    type V = ConfigView;

    open spec fn view(&self) -> ConfigView {
        ConfigView {
            port: self.port,
            first_secret: self.first_secret@,
            kill_hook: self.kill_hook@,
            restore_hook: self.restore_hook@,
            restore_delay: self.restore_delay,
        }
    }
}

impl Config {
    /// A configuration with every value given.
    pub fn new(
        port: u16,
        first_secret: String,
        kill_hook: String,
        restore_hook: String,
        restore_delay: u64,
    ) -> (config: Config)
        ensures
            config@ == (ConfigView {
                port,
                first_secret: first_secret@,
                kill_hook: kill_hook@,
                restore_hook: restore_hook@,
                restore_delay,
            }),
    {
        Config { port, first_secret, kill_hook, restore_hook, restore_delay }
    }

    /// A configuration on the default port with the default restore delay.
    pub fn with_defaults(first_secret: String, kill_hook: String, restore_hook: String) -> (config:
        Config)
        ensures
            config@ == (ConfigView {
                port: DEFAULT_PORT,
                first_secret: first_secret@,
                kill_hook: kill_hook@,
                restore_hook: restore_hook@,
                restore_delay: DEFAULT_RESTORE_DELAY,
            }),
    {
        Config {
            port: DEFAULT_PORT,
            first_secret,
            kill_hook,
            restore_hook,
            restore_delay: DEFAULT_RESTORE_DELAY,
        }
    }
}

} // verus!
