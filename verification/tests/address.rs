use busconn::address::{existing_path, session_bus_socket};
use busconn::{get_session_bus_path, get_system_bus_path, Error};

#[test]
fn no_address_in_the_environment() {
    assert_eq!(get_session_bus_path(None), Err(Error::NoAdressFound));
    assert_eq!(session_bus_socket(None), Err(Error::NoAdressFound));
}

#[test]
fn tcp_address_is_not_supported() {
    let address = "tcp:host=127.0.0.1".to_string();
    assert_eq!(
        get_session_bus_path(Some(address.clone())),
        Err(Error::AddressTypeNotSupported(address))
    );
}

#[test]
fn address_must_begin_with_the_prefix() {
    for address in ["", "unix", "unix:path", "unix:abstract=/tmp/x", " unix:path=/tmp", "UNIX:PATH=/tmp"] {
        assert_eq!(
            session_bus_socket(Some(address.to_string())),
            Err(Error::AddressTypeNotSupported(address.to_string()))
        );
    }
}

#[test]
fn path_is_what_follows_the_prefix() {
    assert_eq!(
        session_bus_socket(Some("unix:path=/run/user/1000/bus".to_string())),
        Ok("/run/user/1000/bus".to_string())
    );
    assert_eq!(session_bus_socket(Some("unix:path=".to_string())), Ok(String::new()));
    assert_eq!(
        session_bus_socket(Some("unix:path=/tmp/b\u{fc}s/\u{1f68c}".to_string())),
        Ok("/tmp/b\u{fc}s/\u{1f68c}".to_string())
    );
}

#[test]
fn a_repeated_prefix_is_taken_off_each_time() {
    assert_eq!(
        session_bus_socket(Some("unix:path=unix:path=/tmp/bus".to_string())),
        Ok("/tmp/bus".to_string())
    );
    assert_eq!(
        session_bus_socket(Some("unix:path=unix:path=unix:path=".to_string())),
        Ok(String::new())
    );
    assert_eq!(
        session_bus_socket(Some("unix:path=/tmp/unix:path=/bus".to_string())),
        Ok("/tmp/unix:path=/bus".to_string())
    );
}

#[test]
fn session_path_that_exists() {
    assert_eq!(get_session_bus_path(Some("unix:path=/".to_string())), Ok("/".to_string()));
}

#[test]
fn session_path_that_does_not_exist() {
    let missing = "/no/such/directory/for/a/bus/socket";
    assert_eq!(
        get_session_bus_path(Some(format!("unix:path={}", missing))),
        Err(Error::PathDoesNotExist(missing.to_string()))
    );
}

#[test]
fn existing_path_reports_what_was_found() {
    assert_eq!(existing_path("/tmp/bus.sock".to_string(), true), Ok("/tmp/bus.sock".to_string()));
    assert_eq!(
        existing_path("/tmp/bus.sock".to_string(), false),
        Err(Error::PathDoesNotExist("/tmp/bus.sock".to_string()))
    );
}

#[test]
fn system_bus_has_its_fixed_path() {
    let expected = "/run/dbus/system_bus_socket";
    match get_system_bus_path() {
        Ok(path) => {
            assert_eq!(path, expected);
            assert!(std::path::Path::new(expected).exists());
        }
        Err(Error::PathDoesNotExist(path)) => {
            assert_eq!(path, expected);
            assert!(!std::path::Path::new(expected).exists());
        }
        Err(other) => panic!("unexpected error: {:?}", other),
    }
}
