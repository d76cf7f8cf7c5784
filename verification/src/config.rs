//! What a producer is started with.

use vstd::prelude::*;

verus! {

/// The settings of a video server.
#[derive(Debug)]
pub struct VideoServerConfig {
    pub listen_address: String,
    pub listen_port: u16,
    pub cert_path: String,
    pub key_path: String,
    pub video_path: String,
}

impl VideoServerConfig {
    pub fn new(
        listen_address: String,
        listen_port: u16,
        cert_path: String,
        key_path: String,
        video_path: String,
    ) -> (config: Self)
        ensures
            config.listen_address@ == listen_address@,
            config.listen_port == listen_port,
            config.cert_path@ == cert_path@,
            config.key_path@ == key_path@,
            config.video_path@ == video_path@,
    {
        Self { listen_address, listen_port, cert_path, key_path, video_path }
    }

    /// The address to listen on, as it was written. Whether it names a
    /// socket is for the caller to find out when it binds.
    pub fn listen_address(&self) -> (address: &str)
        ensures
            address@ == self.listen_address@,
    {
        self.listen_address.as_str()
    }

    pub fn listen_port(&self) -> (port: u16)
        ensures
            port == self.listen_port,
    {
        self.listen_port
    }

    pub fn cert_path(&self) -> (path: &str)
        ensures
            path@ == self.cert_path@,
    {
        self.cert_path.as_str()
    }

    pub fn key_path(&self) -> (path: &str)
        ensures
            path@ == self.key_path@,
    {
        self.key_path.as_str()
    }

    pub fn video_path(&self) -> (path: &str)
        ensures
            path@ == self.video_path@,
    {
        self.video_path.as_str()
    }
}

} // verus!
