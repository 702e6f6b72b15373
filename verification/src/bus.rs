//! Which message bus to reach and how: local system or session bus, a unix
//! socket, or a remote bus through an SSH tunnel.
use vstd::prelude::*;
use crate::text::{decimal, decimal_string, join2, join3, owned};
use crate::units::strings_view;
use std::path::PathBuf;

verus! {

broadcast use vstd::string::group_string_axioms;

/// `std::path::PathBuf`, carried through as an opaque value.
#[verifier::external_type_specification]
#[verifier::external_body]
pub struct ExPathBuf(PathBuf);

/// A message bus of the machine.
#[derive(Debug, Clone, Copy, PartialEq, Eq, Structural)]
pub enum BusKind {
    System,
    Session,
}

/// Which bus the user asked for.
#[derive(Debug, Clone, Copy, PartialEq, Eq, Structural)]
pub enum BusSelection {
    Auto,
    System,
    Session,
}

/// How to reach a remote machine over SSH.
#[derive(Debug, Clone)]
pub struct SshConfig {
    pub host: String,
    pub user: Option<String>,
    pub port: u16,
    pub key_path: Option<PathBuf>,
}

/// How long connecting or running a manager command may take, in whole seconds.
#[derive(Debug, Clone, Copy, PartialEq, Eq, Structural)]
pub struct ConnectTimeout {
    pub secs: u64,
}

impl ConnectTimeout {
    /// A timeout of `secs` seconds.
    pub fn from_secs(secs: u64) -> (t: Self)
        ensures
            t.secs == secs,
    {
        ConnectTimeout { secs }
    }

    /// The timeout in whole seconds.
    pub fn as_secs(&self) -> (r: u64)
        ensures
            r == self.secs,
    {
        self.secs
    }
}

/// Everything needed to connect to a bus.
#[derive(Debug, Clone)]
pub struct ConnectionConfig {
    pub bus: BusSelection,
    pub ssh: Option<SshConfig>,
    pub dbus_socket: Option<String>,
    pub connect_timeout: ConnectTimeout,
}

/// The name of a bus kind.
pub open spec fn bus_kind_name(k: BusKind) -> Seq<char> {
    match k {
        BusKind::System => "system"@,
        BusKind::Session => "session"@,
    }
}

/// The bus a selection connects to first: automatic selection tries the system bus.
pub open spec fn bus_kind_for(s: BusSelection) -> BusKind {
    match s {
        BusSelection::Auto | BusSelection::System => BusKind::System,
        BusSelection::Session => BusKind::Session,
    }
}

impl BusKind {
    /// The bus's name.
    pub fn as_str(self) -> (r: &'static str)
        ensures
            r@ == bus_kind_name(self),
    {
        match self {
            BusKind::System => "system",
            BusKind::Session => "session",
        }
    }
}

/// Seconds allowed for connecting, unless configured otherwise.
pub const DEFAULT_CONNECT_TIMEOUT_SECS: u64 = 5;

impl Default for ConnectionConfig {
    /// Automatic bus selection, no SSH, no socket override, a five second timeout.
    fn default() -> (r: Self)
        ensures
            r.bus == BusSelection::Auto,
            r.ssh is None,
            r.dbus_socket is None,
            r.connect_timeout.secs == DEFAULT_CONNECT_TIMEOUT_SECS,
    {
        ConnectionConfig {
            bus: BusSelection::Auto,
            ssh: None,
            dbus_socket: None,
            connect_timeout: ConnectTimeout::from_secs(DEFAULT_CONNECT_TIMEOUT_SECS),
        }
    }
}

/// The bus kind to use for a selection.
pub fn bus_kind_from_selection(selection: BusSelection) -> (r: BusKind)
    ensures
        r == bus_kind_for(selection),
{
    match selection {
        BusSelection::Auto | BusSelection::System => BusKind::System,
        BusSelection::Session => BusKind::Session,
    }
}

/// The label of a connection: "remote:ssh(<host>)" through SSH, else "local:<bus>".
pub open spec fn connection_label_spec(k: BusKind, ssh_host: Option<Seq<char>>) -> Seq<char> {
    match ssh_host {
        Some(h) => "remote:ssh("@ + h + ")"@,
        None => "local:"@ + bus_kind_name(k),
    }
}

/// The label shown for a connection.
pub fn connection_label_for(bus_kind: BusKind, ssh_host: Option<&str>) -> (r: String)
    ensures
        r@ == connection_label_spec(
            bus_kind,
            match ssh_host {
                Some(h) => Some(h@),
                None => None,
            },
        ),
{
    match ssh_host {
        Some(host) => join3("remote:ssh(", host, ")"),
        None => join2("local:", bus_kind.as_str()),
    }
}

/// The standard path of the system bus socket.
pub open spec fn system_bus_socket() -> Seq<char> {
    "/var/run/dbus/system_bus_socket"@
}

/// Why a remote session bus cannot be reached without a socket path.
pub open spec fn session_socket_required() -> Seq<char> {
    "remote session bus over ssh requires an explicit dbus socket path; pass --dbus-socket (for example /run/user/<uid>/bus)"@
}

/// The socket to forward on the remote machine: the given one, else the
/// standard system bus socket; a remote session bus needs a given one.
pub fn remote_socket_path(bus_kind: BusKind, dbus_socket: Option<&str>) -> (r: Result<
    String,
    String,
>)
    ensures
        match (dbus_socket, r) {
            (Some(p), Ok(s)) => s@ == p@,
            (None, Ok(s)) => bus_kind == BusKind::System && s@ == system_bus_socket(),
            (None, Err(e)) => bus_kind == BusKind::Session && e@ == session_socket_required(),
            (Some(_), Err(_)) => false,
        },
{
    match dbus_socket {
        Some(path) => Ok(owned(path)),
        None => match bus_kind {
            BusKind::System => Ok(owned("/var/run/dbus/system_bus_socket")),
            BusKind::Session => Err(
                owned(
                    "remote session bus over ssh requires an explicit dbus socket path; pass --dbus-socket (for example /run/user/<uid>/bus)",
                ),
            ),
        },
    }
}

/// How to connect, as decided from the configuration.
pub enum ConnectPlan {
    /// Through an SSH tunnel to the given socket on the remote machine.
    ViaSsh { bus_kind: BusKind, remote_socket: String },
    /// To a local unix socket, at the given bus address.
    UnixSocket { bus_kind: BusKind, address: String },
    /// The system bus, falling back to the session bus.
    Auto,
    /// The given local bus.
    Bus { bus_kind: BusKind },
}

/// The bus address of a unix socket path.
pub open spec fn unix_socket_address_spec(path: Seq<char>) -> Seq<char> {
    "unix:path="@ + path
}

/// The bus address of a unix socket path.
pub fn unix_socket_address(path: &str) -> (r: String)
    ensures
        r@ == unix_socket_address_spec(path@),
{
    join2("unix:path=", path)
}

/// Decides how to connect: SSH when configured (the remote socket as
/// `remote_socket_path` gives it, or its error), else a given local socket,
/// else the selected bus, trying both buses for automatic selection.
pub fn connection_plan(config: &ConnectionConfig) -> (r: Result<ConnectPlan, String>)
    ensures
        config.ssh is Some ==> match r {
            Ok(ConnectPlan::ViaSsh { bus_kind, remote_socket }) => {
                &&& bus_kind == bus_kind_for(config.bus)
                &&& match config.dbus_socket {
                    Some(p) => remote_socket@ == p@,
                    None => bus_kind == BusKind::System && remote_socket@ == system_bus_socket(),
                }
            },
            Err(e) => {
                &&& config.dbus_socket is None
                &&& bus_kind_for(config.bus) == BusKind::Session
                &&& e@ == session_socket_required()
            },
            _ => false,
        },
        config.ssh is None && config.dbus_socket is Some ==> match r {
            Ok(ConnectPlan::UnixSocket { bus_kind, address }) => {
                &&& bus_kind == bus_kind_for(config.bus)
                &&& address@ == unix_socket_address_spec(config.dbus_socket->0@)
            },
            _ => false,
        },
        config.ssh is None && config.dbus_socket is None ==> match r {
            Ok(ConnectPlan::Auto) => config.bus == BusSelection::Auto,
            Ok(ConnectPlan::Bus { bus_kind }) => config.bus != BusSelection::Auto && bus_kind
                == bus_kind_for(config.bus),
            _ => false,
        },
{
    let bus_kind = bus_kind_from_selection(config.bus);
    if config.ssh.is_some() {
        let socket = match &config.dbus_socket {
            Some(p) => Some(p.as_str()),
            None => None,
        };
        return match remote_socket_path(bus_kind, socket) {
            Ok(remote_socket) => Ok(ConnectPlan::ViaSsh { bus_kind, remote_socket }),
            Err(e) => Err(e),
        };
    }
    match &config.dbus_socket {
        Some(path) => Ok(
            ConnectPlan::UnixSocket { bus_kind, address: unix_socket_address(path.as_str()) },
        ),
        None => match config.bus {
            BusSelection::Auto => Ok(ConnectPlan::Auto),
            BusSelection::System => Ok(ConnectPlan::Bus { bus_kind: BusKind::System }),
            BusSelection::Session => Ok(ConnectPlan::Bus { bus_kind: BusKind::Session }),
        },
    }
}

/// The bus address of the local end of an SSH tunnel.
pub open spec fn tcp_address_spec(port: u16) -> Seq<char> {
    "tcp:host=127.0.0.1,port="@ + decimal(port as nat)
}

/// The bus address of the local end of an SSH tunnel on the given port.
pub fn dbus_tcp_address_for(local_port: u16) -> (r: String)
    ensures
        r@ == tcp_address_spec(local_port),
{
    let port = decimal_string(local_port as u64);
    join2("tcp:host=127.0.0.1,port=", port.as_str())
}

/// Where SSH connects: "<user>@<host>", or the host alone.
pub open spec fn destination_spec(host: Seq<char>, user: Option<Seq<char>>) -> Seq<char> {
    match user {
        Some(u) => u + "@"@ + host,
        None => host,
    }
}

/// Where SSH connects for this configuration.
pub fn ssh_destination(config: &SshConfig) -> (r: String)
    ensures
        r@ == destination_spec(config.host@, crate::text::opt_view(config.user)),
{
    match &config.user {
        Some(user) => join3(user.as_str(), "@", config.host.as_str()),
        None => owned(config.host.as_str()),
    }
}

/// The SSH options of a tunnel: no remote command, fail when forwarding fails,
/// keep-alive probes, and the port. The key option, if any, follows them.
pub fn ssh_tunnel_options(port: u16) -> (r: Vec<String>)
    ensures
        strings_view(r@) == seq![
            "-N"@,
            "-o"@,
            "ExitOnForwardFailure=yes"@,
            "-o"@,
            "ServerAliveInterval=30"@,
            "-o"@,
            "ServerAliveCountMax=3"@,
            "-p"@,
            decimal(port as nat),
        ],
{
    let mut r: Vec<String> = Vec::new();
    r.push(owned("-N"));
    r.push(owned("-o"));
    r.push(owned("ExitOnForwardFailure=yes"));
    r.push(owned("-o"));
    r.push(owned("ServerAliveInterval=30"));
    r.push(owned("-o"));
    r.push(owned("ServerAliveCountMax=3"));
    r.push(owned("-p"));
    r.push(decimal_string(port as u64));
    assert(strings_view(r@) =~= seq![
        "-N"@,
        "-o"@,
        "ExitOnForwardFailure=yes"@,
        "-o"@,
        "ServerAliveInterval=30"@,
        "-o"@,
        "ServerAliveCountMax=3"@,
        "-p"@,
        decimal(port as nat),
    ]);
    r
}

/// The end of a tunnel's SSH command: forward the local port to the remote
/// socket ("-L <port>:<socket>"), then the destination.
pub fn ssh_tunnel_target(local_port: u16, remote_socket: &str, destination: &str) -> (r: Vec<
    String,
>)
    ensures
        strings_view(r@) == seq![
            "-L"@,
            decimal(local_port as nat) + ":"@ + remote_socket@,
            destination@,
        ],
{
    let mut r: Vec<String> = Vec::new();
    r.push(owned("-L"));
    let port = decimal_string(local_port as u64);
    r.push(join3(port.as_str(), ":", remote_socket));
    r.push(owned(destination));
    assert(strings_view(r@) =~= seq![
        "-L"@,
        decimal(local_port as nat) + ":"@ + remote_socket@,
        destination@,
    ]);
    r
}

/// What waiting for a tunnel does next.
#[derive(Debug, Clone, Copy, PartialEq, Eq, Structural)]
pub enum TunnelWait {
    /// The SSH process ended: give up.
    Exited,
    /// The local port accepts connections: the tunnel is up.
    Ready,
    /// The deadline passed: stop SSH and give up.
    TimedOut,
    /// Wait a little and look again.
    Retry,
}

/// One look at a starting tunnel: an ended SSH process fails first, then a
/// reachable port succeeds, then a passed deadline fails, else wait.
pub fn tunnel_wait_step(ssh_exited: bool, port_reachable: bool, deadline_passed: bool) -> (r:
    TunnelWait)
    ensures
        r == (if ssh_exited {
            TunnelWait::Exited
        } else if port_reachable {
            TunnelWait::Ready
        } else if deadline_passed {
            TunnelWait::TimedOut
        } else {
            TunnelWait::Retry
        }),
{
    if ssh_exited {
        TunnelWait::Exited
    } else if port_reachable {
        TunnelWait::Ready
    } else if deadline_passed {
        TunnelWait::TimedOut
    } else {
        TunnelWait::Retry
    }
}

} // verus!

verus! {

/// The bus that automatic selection tries next, given the one that just failed:
/// the system bus first, then the session bus, then no more.
pub open spec fn next_auto_bus_spec(failed: Option<BusKind>) -> Option<BusKind> {
    match failed {
        None => Some(BusKind::System),
        Some(BusKind::System) => Some(BusKind::Session),
        Some(BusKind::Session) => None,
    }
}

/// The bus that automatic selection tries next, given the one that just failed.
pub fn next_auto_bus(failed: Option<BusKind>) -> (r: Option<BusKind>)
    ensures
        r == next_auto_bus_spec(failed),
{
    match failed {
        None => Some(BusKind::System),
        Some(BusKind::System) => Some(BusKind::Session),
        Some(BusKind::Session) => None,
    }
}

} // verus!
