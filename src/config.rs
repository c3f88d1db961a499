//! Server configuration: listener addresses and the log level.
//! Loading it from a file is the application's business.

use vstd::prelude::*;
use crate::text::{decimal, push_decimal};

verus! {

/// Where the two servers listen.
#[derive(Debug, Clone)]
pub struct ServerConfig {
    pub rest_host: String,
    pub rest_port: u16,
    pub grpc_host: String,
    pub grpc_port: u16,
}

/// Logging settings.
#[derive(Debug, Clone)]
pub struct LoggingConfig {
    pub level: String,
}

/// The whole configuration.
#[derive(Debug, Clone)]
pub struct Config {
    pub server: ServerConfig,
    pub logging: LoggingConfig,
}

/// `host:port`.
pub open spec fn endpoint_text(host: Seq<char>, port: u16) -> Seq<char> {
    host + ":"@ + decimal(port as nat)
}

fn endpoint(host: &String, port: u16) -> (r: String)
    ensures
        r@ == endpoint_text(host@, port),
{
    let mut r = host.clone();
    r.append(":");
    push_decimal(&mut r, port as u64);
    r
}

impl Default for Config {
    /// REST on 127.0.0.1:3000, gRPC on [::1]:5000, log level `debug`.
    fn default() -> (r: Config)
        ensures
            r.server.rest_host@ == "127.0.0.1"@,
            r.server.rest_port == 3000,
            r.server.grpc_host@ == "[::1]"@,
            r.server.grpc_port == 5000,
            r.logging.level@ == "debug"@,
    {
        Config {
            server: ServerConfig {
                rest_host: String::from_str("127.0.0.1"),
                rest_port: 3000,
                grpc_host: String::from_str("[::1]"),
                grpc_port: 5000,
            },
            logging: LoggingConfig { level: String::from_str("debug") },
        }
    }
}

impl Config {
    /// The REST listener address, `rest_host:rest_port`.
    pub fn rest_endpoint(&self) -> (r: String)
        ensures
            r@ == endpoint_text(self.server.rest_host@, self.server.rest_port),
    {
        endpoint(&self.server.rest_host, self.server.rest_port)
    }

    /// The gRPC listener address, `grpc_host:grpc_port`.
    pub fn grpc_endpoint(&self) -> (r: String)
        ensures
            r@ == endpoint_text(self.server.grpc_host@, self.server.grpc_port),
    {
        endpoint(&self.server.grpc_host, self.server.grpc_port)
    }
}

} // verus!
