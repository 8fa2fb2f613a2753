use shfs::address::{choose_address, mount_options, split_port, split_target, DEFAULT_PORT};

#[test]
fn default_port_is_thirty() {
    assert_eq!(DEFAULT_PORT, 30);
}

#[test]
fn target_is_server_and_volume() {
    assert_eq!(
        split_target("fileserver.com:30/Vol"),
        ("fileserver.com:30".to_string(), "Vol".to_string())
    );
    assert_eq!(split_target("127.0.0.1:30/Vol"), ("127.0.0.1:30".to_string(), "Vol".to_string()));
}

#[test]
fn target_without_volume_has_the_empty_volume() {
    assert_eq!(split_target("127.0.0.1"), ("127.0.0.1".to_string(), "".to_string()));
    assert_eq!(split_target("host/"), ("host".to_string(), "".to_string()));
    assert_eq!(split_target(""), ("".to_string(), "".to_string()));
}

#[test]
fn target_takes_the_volume_up_to_the_next_separator() {
    assert_eq!(split_target("host/Vol/sub"), ("host".to_string(), "Vol".to_string()));
    assert_eq!(split_target("host//Vol"), ("host".to_string(), "".to_string()));
    assert_eq!(split_target("/Vol"), ("".to_string(), "Vol".to_string()));
}

#[test]
fn server_is_host_and_port() {
    assert_eq!(split_port("fileserver.com:31"), ("fileserver.com".to_string(), Some("31".to_string())));
    assert_eq!(split_port("fileserver.com"), ("fileserver.com".to_string(), None));
    assert_eq!(split_port("host:"), ("host".to_string(), Some("".to_string())));
    assert_eq!(split_port("host:1:2"), ("host".to_string(), Some("1".to_string())));
}

#[test]
fn last_ipv4_address_is_chosen() {
    assert_eq!(
        choose_address(&vec![Some((10, 0, 0, 1)), None, Some((10, 0, 0, 2)), None]),
        Some((10, 0, 0, 2))
    );
    assert_eq!(choose_address(&vec![Some((192, 168, 1, 9))]), Some((192, 168, 1, 9)));
}

#[test]
fn loopback_and_nothing_are_not_chosen() {
    assert_eq!(choose_address(&vec![Some((10, 0, 0, 1)), Some((127, 0, 0, 1))]), None);
    assert_eq!(choose_address(&vec![None, None]), None);
    assert_eq!(choose_address(&vec![]), None);
    assert_eq!(choose_address(&vec![Some((127, 0, 0, 1)), Some((127, 0, 0, 2))]), Some((127, 0, 0, 2)));
}

#[test]
fn every_mount_option_gets_its_flag() {
    assert_eq!(
        mount_options(&vec!["ro".to_string(), "allow_other".to_string()]),
        vec!["-o".to_string(), "ro".to_string(), "-o".to_string(), "allow_other".to_string()]
    );
    assert_eq!(mount_options(&vec![]), Vec::<String>::new());
}
