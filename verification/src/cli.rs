//! The command-line settings, and the connection configuration they make.
use vstd::prelude::*;
use crate::bus::{BusSelection, ConnectionConfig, SshConfig, DEFAULT_CONNECT_TIMEOUT_SECS};
use crate::text::opt_view;
use std::path::PathBuf;

verus! {

/// The bus choice on the command line.
#[derive(Debug, Clone, Copy, PartialEq, Eq, Structural)]
pub enum CliBusSelection {
    Auto,
    System,
    Session,
}

/// The command-line settings.
#[derive(Debug)]
pub struct Cli {
    pub refresh_ms: u64,
    pub bus: CliBusSelection,
    pub ssh_host: Option<String>,
    pub ssh_user: Option<String>,
    pub ssh_port: u16,
    pub ssh_key: Option<PathBuf>,
    pub dbus_socket: Option<String>,
}

/// The bus selection a command-line choice stands for.
pub open spec fn cli_bus_spec(b: CliBusSelection) -> BusSelection {
    match b {
        CliBusSelection::Auto => BusSelection::Auto,
        CliBusSelection::System => BusSelection::System,
        CliBusSelection::Session => BusSelection::Session,
    }
}

/// The bus selection a command-line choice stands for.
pub fn bus_selection_from_cli(b: CliBusSelection) -> (r: BusSelection)
    ensures
        r == cli_bus_spec(b),
{
    match b {
        CliBusSelection::Auto => BusSelection::Auto,
        CliBusSelection::System => BusSelection::System,
        CliBusSelection::Session => BusSelection::Session,
    }
}

/// The connection configuration the settings ask for: their bus, SSH to the
/// given host (with user, port and key) when a host is given, the socket
/// override whenever one is given (local and SSH connections alike), and the
/// default connect timeout.
pub fn connection_config_from_cli(cli: Cli) -> (r: ConnectionConfig)
    ensures
        r.bus == cli_bus_spec(cli.bus),
        cli.ssh_host is None <==> r.ssh is None,
        match (cli.ssh_host, r.ssh) {
            (Some(h), Some(s)) => {
                &&& s.host@ == h@
                &&& opt_view(s.user) == opt_view(cli.ssh_user)
                &&& s.port == cli.ssh_port
                &&& s.key_path == cli.ssh_key
            },
            _ => true,
        },
        opt_view(r.dbus_socket) == opt_view(cli.dbus_socket),
        r.connect_timeout.secs == DEFAULT_CONNECT_TIMEOUT_SECS,
{
    let bus = bus_selection_from_cli(cli.bus);
    let ssh = match cli.ssh_host {
        Some(host) => Some(
            SshConfig { host, user: cli.ssh_user, port: cli.ssh_port, key_path: cli.ssh_key },
        ),
        None => None,
    };
    let mut config = ConnectionConfig::default();
    config.bus = bus;
    config.ssh = ssh;
    config.dbus_socket = cli.dbus_socket;
    config
}

} // verus!
