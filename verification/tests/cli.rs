use vhost_user_vsock::cli::parse_args;
use vhost_user_vsock::cli::OptionParserError;
use vhost_user_vsock::cli::ParserError;

#[test]
fn all_parameters() {
    let config =
        parse_args("guest-cid=4,uds-path=/tmp/vm4.vsock,socket=/tmp/vhost4.socket").unwrap();
    assert_eq!(*config.get_guest_cid(), 4);
    assert_eq!(config.get_uds_path(), "/tmp/vm4.vsock");
    assert_eq!(config.get_socket_path(), "/tmp/vhost4.socket");
}

#[test]
fn order_does_not_matter_and_values_may_hold_equals_signs() {
    let config = parse_args(" socket=a=b,guest-cid=+18446744073709551615,uds-path= \n").unwrap();
    assert_eq!(*config.get_guest_cid(), u64::MAX);
    assert_eq!(config.get_uds_path(), "");
    assert_eq!(config.get_socket_path(), "a=b");
}

#[test]
fn the_last_setting_of_a_parameter_counts() {
    let config = parse_args("socket=a,uds-path=b,socket=c").unwrap();
    assert_eq!(config.get_socket_path(), "c");
}

#[test]
fn the_guest_cid_may_be_left_out() {
    let config = parse_args("uds-path=u,socket=s").unwrap();
    assert_eq!(*config.get_guest_cid(), 3);
}

#[test]
fn both_socket_paths_are_needed() {
    assert!(matches!(
        parse_args("guest-cid=4,uds-path=u"),
        Err(ParserError::SocketParameterMissing)
    ));
    assert!(matches!(
        parse_args("guest-cid=4,socket=s"),
        Err(ParserError::SocketParameterMissing)
    ));
    assert!(matches!(parse_args(""), Err(ParserError::SocketParameterMissing)));
    assert!(matches!(parse_args("  "), Err(ParserError::SocketParameterMissing)));
}

#[test]
fn wrong_settings() {
    match parse_args("guest-cid=4,color=blue,socket") {
        Err(ParserError::FailedConfigParse(OptionParserError::UnknownOption(name))) => {
            assert_eq!(name, "color")
        }
        _ => panic!("an unknown parameter"),
    }
    match parse_args("uds-path=u,socket") {
        Err(ParserError::FailedConfigParse(OptionParserError::InvalidSyntax(setting))) => {
            assert_eq!(setting, "socket")
        }
        _ => panic!("a parameter without a value"),
    }
    match parse_args("guest-cid=4,,socket=s") {
        Err(ParserError::FailedConfigParse(OptionParserError::UnknownOption(name))) => {
            assert_eq!(name, "")
        }
        _ => panic!("an empty setting"),
    }
    match parse_args("guest-cid=four,uds-path=u,socket=s") {
        Err(ParserError::FailedConfigParse(OptionParserError::Conversion(name, value))) => {
            assert_eq!(name, "guest-cid");
            assert_eq!(value, "four");
        }
        _ => panic!("a cid that is no number"),
    }
    match parse_args("guest-cid=18446744073709551616,uds-path=u,socket=s") {
        Err(ParserError::FailedConfigParse(OptionParserError::Conversion(_, value))) => {
            assert_eq!(value, "18446744073709551616")
        }
        _ => panic!("a cid that is too large"),
    }
}
