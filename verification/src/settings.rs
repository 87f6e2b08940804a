//! The settings that outlive a run.

use vstd::prelude::*;

verus! {

/// What is kept between runs: the port to connect to by default.
#[derive(Debug)]
pub struct Settings {
    pub default_midi_port: Option<String>,
}

impl Default for Settings {
    fn default() -> (settings: Settings)
        ensures
            settings.default_midi_port is None,
    {
        Settings { default_midi_port: None }
    }
}

impl Settings {
    /// A copy of the settings as they stand.
    pub fn get_settings(&self) -> (copy: Settings)
        ensures
            copy == *self,
    {
        match &self.default_midi_port {
            Some(port) => Settings { default_midi_port: Some(port.clone()) },
            None => Settings { default_midi_port: None },
        }
    }

    /// Replaces the default port. Writing the settings out is the caller's.
    pub fn set_default_midi_port(&mut self, port: Option<String>)
        ensures
            final(self).default_midi_port == port,
    {
        self.default_midi_port = port;
    }
}

} // verus!
