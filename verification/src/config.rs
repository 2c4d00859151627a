//! The explicit configuration handed to each component at construction
//! time: addresses, ports, and the logger ports of every process.
//!
//! Loading and storing the configuration is the caller's business; the
//! core only carries these plain values.  The default configuration is
//! the wiring of one robot reachable under its usual host name.

use vstd::prelude::*;

verus! {

/// A host name for a network address.
pub type AddressHost = String;

/// A TCP port number.
pub type AddressPort = usize;

/// A network address: a host and a port.
#[derive(Debug, Clone)]
pub struct Address {
    pub host: AddressHost,
    pub port: AddressPort,
}

impl Address {
    /// Builds an address from its host and port.
    pub fn new(host: AddressHost, port: AddressPort) -> (r: Address)
        ensures
            r.host == host,
            r.port == port,
    {
        Address { host, port }
    }
}

/// Configuration of the robot program.
#[derive(Debug, Clone)]
pub struct LinkageLibConfig {
    pub port: AddressPort,
    pub carburetor_address: Address,
    pub logger_port: AddressPort,
}

impl LinkageLibConfig {
    /// The port the robot program accepts the operator console on.
    pub fn port(&self) -> (r: &AddressPort)
        ensures
            *r == self.port,
    {
        &self.port
    }

    /// The address of the actuator process.
    pub fn carburetor_address(&self) -> (r: &Address)
        ensures
            *r == self.carburetor_address,
    {
        &self.carburetor_address
    }

    /// The port the robot program's logger listens on.
    pub fn logger_port(&self) -> (r: &AddressPort)
        ensures
            *r == self.logger_port,
    {
        &self.logger_port
    }
}

/// Configuration of the actuator process.
#[derive(Debug, Clone)]
pub struct CarburetorConfig {
    pub port: AddressPort,
    pub logger_port: AddressPort,
}

impl CarburetorConfig {
    /// The port the actuator accepts motor instructions on.
    pub fn port(&self) -> (r: AddressPort)
        ensures
            r == self.port,
    {
        self.port
    }

    /// The port the actuator's logger listens on.
    pub fn logger_port(&self) -> (r: AddressPort)
        ensures
            r == self.logger_port,
    {
        self.logger_port
    }
}

/// Configuration of the operator console.
#[derive(Debug, Clone)]
pub struct CockpitConfig {
    pub linkage_lib_address: Address,
    pub linkage_socket_address: Address,
    pub gauge_address: Address,
    pub cockpit_backend_logger_address: Address,
    pub linkage_lib_logger_address: Address,
    pub carburetor_logger_address: Address,
}

impl CockpitConfig {
    /// The address of the robot program's event connection.
    pub fn linkage_lib_address(&self) -> (r: &Address)
        ensures
            *r == self.linkage_lib_address,
    {
        &self.linkage_lib_address
    }

    /// The address of the robot program's lifetime socket.
    pub fn linkage_socket_address(&self) -> (r: &Address)
        ensures
            *r == self.linkage_socket_address,
    {
        &self.linkage_socket_address
    }

    /// The address of the telemetry process.
    pub fn gauge_address(&self) -> (r: &Address)
        ensures
            *r == self.gauge_address,
    {
        &self.gauge_address
    }

    /// The address of the backend's logger.
    pub fn cockpit_backend_logger_address(&self) -> (r: &Address)
        ensures
            *r == self.cockpit_backend_logger_address,
    {
        &self.cockpit_backend_logger_address
    }

    /// The address of the robot program's logger.
    pub fn linkage_lib_logger_address(&self) -> (r: &Address)
        ensures
            *r == self.linkage_lib_logger_address,
    {
        &self.linkage_lib_logger_address
    }

    /// The address of the actuator's logger.
    pub fn carburetor_logger_address(&self) -> (r: &Address)
        ensures
            *r == self.carburetor_logger_address,
    {
        &self.carburetor_logger_address
    }
}

/// Configuration of the telemetry process.
#[derive(Debug, Clone)]
pub struct GaugeConfig {
    pub port: AddressPort,
}

impl GaugeConfig {
    /// The port the telemetry process serves on.
    pub fn port(&self) -> (r: AddressPort)
        ensures
            r == self.port,
    {
        self.port
    }
}

/// The configuration of every component of one robot installation.
#[derive(Debug, Clone)]
pub struct LinkageConfig {
    pub linkage_lib: LinkageLibConfig,
    pub carburetor: CarburetorConfig,
    pub cockpit: CockpitConfig,
    pub gauge: GaugeConfig,
}

impl LinkageConfig {
    /// The robot program's configuration.
    pub fn linkage_lib(&self) -> (r: &LinkageLibConfig)
        ensures
            *r == self.linkage_lib,
    {
        &self.linkage_lib
    }

    /// The actuator's configuration.
    pub fn carburetor(&self) -> (r: &CarburetorConfig)
        ensures
            *r == self.carburetor,
    {
        &self.carburetor
    }

    /// The operator console's configuration.
    pub fn cockpit(&self) -> (r: &CockpitConfig)
        ensures
            *r == self.cockpit,
    {
        &self.cockpit
    }

    /// Replaces the operator console's configuration.
    pub fn set_cockpit(&mut self, cockpit_config: CockpitConfig)
        ensures
            final(self).cockpit == cockpit_config,
            final(self).linkage_lib == old(self).linkage_lib,
            final(self).carburetor == old(self).carburetor,
            final(self).gauge == old(self).gauge,
    {
        self.cockpit = cockpit_config;
    }

    /// The telemetry process's configuration.
    pub fn gauge(&self) -> (r: &GaugeConfig)
        ensures
            *r == self.gauge,
    {
        &self.gauge
    }
}

impl Default for LinkageConfig {
    /// The wiring of one robot reachable under its usual host name.
    fn default() -> (r: LinkageConfig)
        ensures
            r.linkage_lib.port == 12362,
            r.linkage_lib.carburetor_address.host@ == "0.0.0.0"@,
            r.linkage_lib.carburetor_address.port == 48862,
            r.linkage_lib.logger_port == 7640,
            r.carburetor.port == 48862,
            r.carburetor.logger_port == 7644,
            r.cockpit.linkage_lib_address.host@ == "raspberrypi.local"@,
            r.cockpit.linkage_lib_address.port == 12362,
            r.cockpit.linkage_socket_address.host@ == "raspberrypi.local"@,
            r.cockpit.linkage_socket_address.port == 9999,
            r.cockpit.gauge_address.host@ == "raspberrypi.local"@,
            r.cockpit.gauge_address.port == 4226,
            r.cockpit.cockpit_backend_logger_address.host@ == "0.0.0.0"@,
            r.cockpit.cockpit_backend_logger_address.port == 7642,
            r.cockpit.linkage_lib_logger_address.host@ == "raspberrypi.local"@,
            r.cockpit.linkage_lib_logger_address.port == 7640,
            r.cockpit.carburetor_logger_address.host@ == "raspberrypi.local"@,
            r.cockpit.carburetor_logger_address.port == 7644,
            r.gauge.port == 4226,
    {
        LinkageConfig {
            linkage_lib: LinkageLibConfig {
                port: 12362,
                carburetor_address: Address { host: String::from_str("0.0.0.0"), port: 48862 },
                logger_port: 7640,
            },
            carburetor: CarburetorConfig { port: 48862, logger_port: 7644 },
            cockpit: CockpitConfig {
                linkage_lib_address: Address {
                    host: String::from_str("raspberrypi.local"),
                    port: 12362,
                },
                linkage_socket_address: Address {
                    host: String::from_str("raspberrypi.local"),
                    port: 9999,
                },
                gauge_address: Address { host: String::from_str("raspberrypi.local"), port: 4226 },
                cockpit_backend_logger_address: Address {
                    host: String::from_str("0.0.0.0"),
                    port: 7642,
                },
                linkage_lib_logger_address: Address {
                    host: String::from_str("raspberrypi.local"),
                    port: 7640,
                },
                carburetor_logger_address: Address {
                    host: String::from_str("raspberrypi.local"),
                    port: 7644,
                },
            },
            gauge: GaugeConfig { port: 4226 },
        }
    }
}

} // verus!
