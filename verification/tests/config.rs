use vhost_user_vsock::config::ConnMapKey;
use vhost_user_vsock::config::VsockConfig;

#[test]
fn test_vsock_config_setup() {
    let vsock_config = VsockConfig::new(
        3,
        "/tmp/vhost4.socket".to_string(),
        "/tmp/vm4.vsock".to_string(),
    );

    assert_eq!(*vsock_config.get_guest_cid(), 3);
    assert_eq!(vsock_config.get_socket_path(), "/tmp/vhost4.socket");
    assert_eq!(vsock_config.get_uds_path(), "/tmp/vm4.vsock");
}

#[test]
fn lib_test_vsock_config_setup() {
    let vsock_config = VsockConfig::new(
        3,
        "/tmp/vhost4.socket".to_string(),
        "/tmp/vm4.vsock".to_string(),
    );

    assert_eq!(*vsock_config.get_guest_cid(), 3);
    assert_eq!(vsock_config.get_socket_path(), "/tmp/vhost4.socket");
    assert_eq!(vsock_config.get_uds_path(), "/tmp/vm4.vsock");
}

#[test]
fn key_code_tells_port_pairs_apart() {
    assert_eq!(ConnMapKey::new(1, 2).code(), 0x1_0000_0002);
    assert_ne!(ConnMapKey::new(1, 2).code(), ConnMapKey::new(2, 1).code());
    assert_eq!(ConnMapKey::new(u32::MAX, u32::MAX).code(), u64::MAX);
    assert_eq!(ConnMapKey::new(7, 9), ConnMapKey { local_port: 7, peer_port: 9 });
}
