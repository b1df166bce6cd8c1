//! Connection settings of the client.
//!
//! Values start at fixed defaults; settings read from the server's JSON
//! configuration file, or given by the caller, override them field by field.
use vstd::prelude::*;

verus! {

/// Default server address.
pub const DEFAULT_HOST: &'static str = "127.0.0.1";

/// Default server port.
pub const DEFAULT_PORT: u16 = 4273;

/// Default read and write timeout, in seconds.
pub const DEFAULT_TIMEOUT: u16 = 10;

/// Default largest read, in bytes.
pub const DEFAULT_BUFFER_SIZE: usize = 8192;

/// Default path of the server's configuration file.
pub const DEFAULT_CONFIG_FILE: &'static str = "/etc/neutral-ipc-cfg.json";

/// The settings found in a configuration document; an absent field leaves
/// the current value as it is.
pub struct ConfigSettings {
    /// Server address.
    pub host: Option<String>,
    /// Server port; only its low 16 bits are kept.
    pub port: Option<u64>,
    /// Timeout in seconds; only its low 16 bits are kept.
    pub timeout: Option<u64>,
    /// Largest read, in bytes.
    pub buffer_size: Option<usize>,
    /// Path of the configuration file.
    pub config_file: Option<String>,
}

/// The values of a configuration.
pub struct ConfigView {
    /// Server address.
    pub host: Seq<char>,
    /// Server port.
    pub port: u16,
    /// Read and write timeout, in seconds.
    pub timeout: u16,
    /// Largest read, in bytes.
    pub buffer_size: usize,
    /// Path of the configuration file.
    pub config_file: Seq<char>,
}

/// The low 16 bits of `x`.
pub open spec fn low16(x: u64) -> u16 {
    (x % 65536) as u16
}

/// The configuration `c` once the settings `s` present in a configuration
/// file override it; the path of the file itself stays.
pub open spec fn with_file_settings(c: ConfigView, s: ConfigSettings) -> ConfigView {
    ConfigView {
        host: match s.host { Some(h) => h@, None => c.host },
        port: match s.port { Some(p) => low16(p), None => c.port },
        timeout: match s.timeout { Some(t) => low16(t), None => c.timeout },
        buffer_size: match s.buffer_size { Some(b) => b, None => c.buffer_size },
        config_file: c.config_file,
    }
}

/// The configuration `c` once all the settings present in `s` override it,
/// the path of the configuration file included.
pub open spec fn with_settings(c: ConfigView, s: ConfigSettings) -> ConfigView {
    ConfigView {
        config_file: match s.config_file { Some(f) => f@, None => c.config_file },
        ..with_file_settings(c, s)
    }
}

/// Settings for a client of the template server.
#[derive(Debug)]
pub struct NeutralIpcConfig {
    host: String,
    port: u16,
    timeout: u16,
    buffer_size: usize,
    config_file: String,
}

impl View for NeutralIpcConfig {
    type V = ConfigView;

    closed spec fn view(&self) -> ConfigView {
        ConfigView {
            host: self.host@,
            port: self.port,
            timeout: self.timeout,
            buffer_size: self.buffer_size,
            config_file: self.config_file@,
        }
    }
}

/// The default values.
pub open spec fn default_view() -> ConfigView {
    ConfigView {
        host: DEFAULT_HOST@,
        port: DEFAULT_PORT,
        timeout: DEFAULT_TIMEOUT,
        buffer_size: DEFAULT_BUFFER_SIZE,
        config_file: DEFAULT_CONFIG_FILE@,
    }
}

impl Default for NeutralIpcConfig {
    fn default() -> (r: Self)
        ensures
            r@ == default_view(),
    {
        NeutralIpcConfig {
            host: DEFAULT_HOST.to_owned(),
            port: DEFAULT_PORT,
            timeout: DEFAULT_TIMEOUT,
            buffer_size: DEFAULT_BUFFER_SIZE,
            config_file: DEFAULT_CONFIG_FILE.to_owned(),
        }
    }
}

impl NeutralIpcConfig {
    /// A configuration holding the default values. Settings read from the
    /// configuration file are applied with `load_settings`.
    pub fn new() -> (r: Self)
        ensures
            r@ == default_view(),
    {
        Self::default()
    }

    /// Overrides the values present in the settings read from the
    /// configuration file; the path of that file stays.
    pub fn load_settings(&mut self, settings: &ConfigSettings)
        ensures
            final(self)@ == with_file_settings(old(self)@, *settings),
    {
        match &settings.host {
            Some(h) => {
                self.host = h.clone();
            },
            None => {},
        }
        match settings.port {
            Some(p) => {
                self.port = (p % 65536) as u16;
            },
            None => {},
        }
        match settings.timeout {
            Some(t) => {
                self.timeout = (t % 65536) as u16;
            },
            None => {},
        }
        match settings.buffer_size {
            Some(b) => {
                self.buffer_size = b;
            },
            None => {},
        }
    }

    /// Overrides every value present in `settings`, the path of the
    /// configuration file included. Returns whether that path was given, in
    /// which case the caller reloads the file.
    pub fn update_settings(&mut self, settings: &ConfigSettings) -> (reload: bool)
        ensures
            final(self)@ == with_settings(old(self)@, *settings),
            reload == settings.config_file is Some,
    {
        self.load_settings(settings);
        match &settings.config_file {
            Some(f) => {
                self.config_file = f.clone();
                true
            },
            None => false,
        }
    }

    /// The server address.
    pub fn get_host(&self) -> (r: String)
        ensures
            r@ == self@.host,
    {
        self.host.clone()
    }

    /// The server port.
    pub fn get_port(&self) -> (r: u16)
        ensures
            r == self@.port,
    {
        self.port
    }

    /// The read and write timeout, in seconds.
    pub fn get_timeout(&self) -> (r: u16)
        ensures
            r == self@.timeout,
    {
        self.timeout
    }

    /// The largest read, in bytes.
    pub fn get_buffer_size(&self) -> (r: usize)
        ensures
            r == self@.buffer_size,
    {
        self.buffer_size
    }

    /// The path of the configuration file.
    pub fn get_config_file(&self) -> (r: String)
        ensures
            r@ == self@.config_file,
    {
        self.config_file.clone()
    }

    /// Sets the server address.
    pub fn set_host(&mut self, host: String)
        ensures
            final(self)@ == (ConfigView { host: host@, ..old(self)@ }),
    {
        self.host = host;
    }

    /// Sets the server port.
    pub fn set_port(&mut self, port: u16)
        ensures
            final(self)@ == (ConfigView { port, ..old(self)@ }),
    {
        self.port = port;
    }

    /// Sets the timeout, in seconds.
    pub fn set_timeout(&mut self, timeout: u16)
        ensures
            final(self)@ == (ConfigView { timeout, ..old(self)@ }),
    {
        self.timeout = timeout;
    }

    /// Sets the largest read, in bytes.
    pub fn set_buffer_size(&mut self, buffer_size: usize)
        ensures
            final(self)@ == (ConfigView { buffer_size, ..old(self)@ }),
    {
        self.buffer_size = buffer_size;
    }

    /// Sets the path of the configuration file, whose settings the caller
    /// then applies with `load_settings`.
    pub fn set_config_file(&mut self, config_file: String)
        ensures
            final(self)@ == (ConfigView { config_file: config_file@, ..old(self)@ }),
    {
        self.config_file = config_file;
    }
}

} // verus!
