use systemd_tui::bus::{
    bus_kind_from_selection, connection_label_for, next_auto_bus, connection_plan, dbus_tcp_address_for,
    remote_socket_path, ssh_destination, ssh_tunnel_options, ssh_tunnel_target, tunnel_wait_step,
    unix_socket_address, BusKind, BusSelection, ConnectPlan, ConnectionConfig, SshConfig,
    TunnelWait,
};
use systemd_tui::cli::{connection_config_from_cli, Cli, CliBusSelection};
use std::path::PathBuf;

fn ssh(host: &str, user: Option<&str>) -> SshConfig {
    SshConfig {
        host: host.to_string(),
        user: user.map(|u| u.to_string()),
        port: 22,
        key_path: None,
    }
}

#[test]
fn bus_kind_as_str() {
    assert_eq!(BusKind::System.as_str(), "system");
    assert_eq!(BusKind::Session.as_str(), "session");
}

#[test]
fn connection_config_default_is_safe() {
    let cfg = ConnectionConfig::default();
    assert_eq!(cfg.bus, BusSelection::Auto);
    assert!(cfg.ssh.is_none());
    assert!(cfg.dbus_socket.is_none());
    assert_eq!(cfg.connect_timeout.as_secs(), 5);
}

#[test]
fn connection_label_for_local_bus() {
    assert_eq!(connection_label_for(BusKind::System, None), "local:system");
    assert_eq!(
        connection_label_for(BusKind::Session, None),
        "local:session"
    );
}

#[test]
fn connection_label_for_remote_ssh() {
    assert_eq!(
        connection_label_for(BusKind::System, Some("srv.example")),
        "remote:ssh(srv.example)"
    );
}

#[test]
fn bus_kind_from_selection_defaults_auto_to_system() {
    assert_eq!(bus_kind_from_selection(BusSelection::Auto), BusKind::System);
    assert_eq!(
        bus_kind_from_selection(BusSelection::System),
        BusKind::System
    );
    assert_eq!(
        bus_kind_from_selection(BusSelection::Session),
        BusKind::Session
    );
}

#[test]
fn remote_socket_defaults_to_system_bus_socket() {
    assert_eq!(
        remote_socket_path(BusKind::System, None).unwrap(),
        "/var/run/dbus/system_bus_socket"
    );
    assert_eq!(
        remote_socket_path(BusKind::Session, Some("/run/user/1000/bus")).unwrap(),
        "/run/user/1000/bus"
    );
    let err = remote_socket_path(BusKind::Session, None).unwrap_err();
    assert!(err.starts_with("remote session bus over ssh requires an explicit dbus socket path"));
}

#[test]
fn connection_plan_prefers_ssh_then_socket_then_bus() {
    let mut cfg = ConnectionConfig::default();
    assert!(matches!(connection_plan(&cfg), Ok(ConnectPlan::Auto)));
    cfg.bus = BusSelection::Session;
    assert!(matches!(
        connection_plan(&cfg),
        Ok(ConnectPlan::Bus { bus_kind: BusKind::Session })
    ));
    cfg.dbus_socket = Some("/tmp/bus".to_string());
    match connection_plan(&cfg) {
        Ok(ConnectPlan::UnixSocket { bus_kind, address }) => {
            assert_eq!(bus_kind, BusKind::Session);
            assert_eq!(address, "unix:path=/tmp/bus");
        }
        _ => panic!("expected a unix socket plan"),
    }
    cfg.ssh = Some(ssh("srv", None));
    match connection_plan(&cfg) {
        Ok(ConnectPlan::ViaSsh { bus_kind, remote_socket }) => {
            assert_eq!(bus_kind, BusKind::Session);
            assert_eq!(remote_socket, "/tmp/bus");
        }
        _ => panic!("expected an ssh plan"),
    }
    cfg.dbus_socket = None;
    assert!(connection_plan(&cfg).is_err());
}

#[test]
fn addresses_and_ssh_arguments() {
    assert_eq!(dbus_tcp_address_for(40123), "tcp:host=127.0.0.1,port=40123");
    assert_eq!(unix_socket_address("/run/bus"), "unix:path=/run/bus");
    assert_eq!(ssh_destination(&ssh("srv", Some("root"))), "root@srv");
    assert_eq!(ssh_destination(&ssh("srv", None)), "srv");
    assert_eq!(
        ssh_tunnel_options(2222),
        vec![
            "-N",
            "-o",
            "ExitOnForwardFailure=yes",
            "-o",
            "ServerAliveInterval=30",
            "-o",
            "ServerAliveCountMax=3",
            "-p",
            "2222"
        ]
    );
    assert_eq!(
        ssh_tunnel_target(5000, "/var/run/dbus/system_bus_socket", "root@srv"),
        vec!["-L", "5000:/var/run/dbus/system_bus_socket", "root@srv"]
    );
}

#[test]
fn tunnel_wait_decisions() {
    assert_eq!(tunnel_wait_step(true, true, true), TunnelWait::Exited);
    assert_eq!(tunnel_wait_step(false, true, true), TunnelWait::Ready);
    assert_eq!(tunnel_wait_step(false, false, true), TunnelWait::TimedOut);
    assert_eq!(tunnel_wait_step(false, false, false), TunnelWait::Retry);
}

#[test]
fn cli_settings_make_connection_config() {
    let cli = Cli {
        refresh_ms: 2000,
        bus: CliBusSelection::System,
        ssh_host: Some("srv.example".to_string()),
        ssh_user: Some("root".to_string()),
        ssh_port: 2222,
        ssh_key: Some(PathBuf::from("/root/.ssh/id")),
        dbus_socket: Some("/var/run/dbus/system_bus_socket".to_string()),
    };
    let cfg = connection_config_from_cli(cli);
    assert_eq!(cfg.bus, BusSelection::System);
    let ssh = cfg.ssh.unwrap();
    assert_eq!(ssh.host, "srv.example");
    assert_eq!(ssh.user.as_deref(), Some("root"));
    assert_eq!(ssh.port, 2222);
    assert_eq!(ssh.key_path, Some(PathBuf::from("/root/.ssh/id")));
    assert_eq!(
        cfg.dbus_socket.as_deref(),
        Some("/var/run/dbus/system_bus_socket")
    );

    let local = Cli {
        refresh_ms: 2000,
        bus: CliBusSelection::Session,
        ssh_host: None,
        ssh_user: None,
        ssh_port: 22,
        ssh_key: None,
        dbus_socket: Some("/run/user/1000/bus".to_string()),
    };
    let cfg = connection_config_from_cli(local);
    assert_eq!(cfg.bus, BusSelection::Session);
    assert!(cfg.ssh.is_none());
    assert_eq!(cfg.dbus_socket.as_deref(), Some("/run/user/1000/bus"));
    assert_eq!(cfg.connect_timeout.as_secs(), 5);
}

#[test]
fn socket_override_kept_for_local_automatic_bus() {
    let cli = Cli {
        refresh_ms: 2000,
        bus: CliBusSelection::Auto,
        ssh_host: None,
        ssh_user: None,
        ssh_port: 22,
        ssh_key: None,
        dbus_socket: Some("/tmp/custom_bus".to_string()),
    };
    let cfg = connection_config_from_cli(cli);
    assert_eq!(cfg.bus, BusSelection::Auto);
    assert_eq!(cfg.dbus_socket.as_deref(), Some("/tmp/custom_bus"));
    assert!(matches!(
        connection_plan(&cfg),
        Ok(ConnectPlan::UnixSocket { bus_kind: BusKind::System, .. })
    ));
}

#[test]
fn automatic_connection_tries_system_then_session() {
    assert_eq!(next_auto_bus(None), Some(BusKind::System));
    assert_eq!(next_auto_bus(Some(BusKind::System)), Some(BusKind::Session));
    assert_eq!(next_auto_bus(Some(BusKind::Session)), None);
}
