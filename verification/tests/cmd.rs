use tman_core::cmd::cmd_dev_server::{DevServerCommand, DEFAULT_IP_ADDRESS, DEFAULT_PORT};
use tman_core::cmd::cmd_package::PackageCommand;

fn command(ip: &str, port: u16, base_dir: Option<&str>) -> DevServerCommand {
    DevServerCommand {
        ip_address: ip.to_string(),
        port,
        base_dir: base_dir.map(|dir| dir.to_string()),
        external_frontend_asset_path: None,
    }
}

#[test]
fn the_default_address_is_any_interface_on_the_default_port() {
    assert_eq!(DEFAULT_IP_ADDRESS, "0.0.0.0");
    assert_eq!(DEFAULT_PORT, 49483);
    assert_eq!(u32::from(DEFAULT_PORT), 49152 + (114 + 116 + 101) % 16384);
    assert_eq!(command(DEFAULT_IP_ADDRESS, DEFAULT_PORT, None).bind_address(), "0.0.0.0:49483");
}

#[test]
fn bind_address_writes_the_port_in_decimal() {
    assert_eq!(command("127.0.0.1", 0, None).bind_address(), "127.0.0.1:0");
    assert_eq!(command("127.0.0.1", 7, None).bind_address(), "127.0.0.1:7");
    assert_eq!(command("127.0.0.1", 10, None).bind_address(), "127.0.0.1:10");
    assert_eq!(command("127.0.0.1", 80, None).bind_address(), "127.0.0.1:80");
    assert_eq!(command("127.0.0.1", 8080, None).bind_address(), "127.0.0.1:8080");
    assert_eq!(command("127.0.0.1", 10000, None).bind_address(), "127.0.0.1:10000");
    assert_eq!(command("::1", 65535, None).bind_address(), "::1:65535");
    assert_eq!(command("", 1, None).bind_address(), ":1");
}

#[test]
fn bind_address_agrees_with_the_standard_formatting() {
    let mut port: u16 = 0;
    loop {
        assert_eq!(command("h", port, None).bind_address(), format!("h:{}", port));
        if port > u16::MAX - 997 {
            break;
        }
        port += 997;
    }
}

#[test]
fn the_package_command_carries_nothing() {
    let command = PackageCommand {};
    assert_eq!(format!("{:?}", command), "PackageCommand");
}
