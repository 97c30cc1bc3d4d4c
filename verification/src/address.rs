//! Where the buses are.
//!
//! A bus is reached over a Unix socket. The system bus has a fixed path; the
//! session bus is announced in an address of the form `unix:path=...`, which
//! the caller takes from the environment.
use vstd::prelude::*;
use vstd::string::StrSliceExecFns;
use crate::error::Error;

verus! {

/// What an address of a Unix socket begins with.
pub open spec fn unix_path_prefix() -> Seq<char> {
    "unix:path="@
}

/// The socket path of the system bus.
pub open spec fn system_bus_path() -> Seq<char> {
    "/run/dbus/system_bus_socket"@
}

/// `address` without the prefix at its start, as often as the prefix stands
/// there.
pub open spec fn strip_prefixes(address: Seq<char>) -> Seq<char>
    decreases address.len(),
{
    let prefix = unix_path_prefix();
    if prefix.len() > 0 && prefix.is_prefix_of(address) {
        strip_prefixes(address.skip(prefix.len() as int))
    } else {
        address
    }
}

/// The socket path that `address` names, if it is the address of a Unix
/// socket.
pub open spec fn unix_path_of(address: Seq<char>) -> Option<Seq<char>> {
    if unix_path_prefix().is_prefix_of(address) {
        Some(strip_prefixes(address))
    } else {
        None
    }
}

/// `outcome` is what a look for the socket at `path` comes to: the path if
/// something was `found` there, [`Error::PathDoesNotExist`] with the path if
/// not.
pub open spec fn is_lookup_of(outcome: Result<String, Error>, path: Seq<char>, found: bool) -> bool {
    if found {
        outcome matches Ok(p) && p@ == path
    } else {
        outcome matches Err(Error::PathDoesNotExist(p)) && p@ == path
    }
}

/// `std::path::Path::exists`, asked of `Path::new(path)`: whether anything
/// is at `path` on this machine, now. What it answers depends on the file
/// system, so nothing is claimed of it.
#[verifier::external_body]
fn path_exists(path: &str) -> bool {
    std::path::Path::new(path).exists()
}

/// The result of looking for a socket at `path`, given whether anything was
/// found there.
pub fn existing_path(path: String, found: bool) -> (outcome: Result<String, Error>)
    ensures
        outcome == (if found {
            Ok::<String, Error>(path)
        } else {
            Err::<String, Error>(Error::PathDoesNotExist(path))
        }),
        is_lookup_of(outcome, path@, found),
{
    if found {
        Ok(path)
    } else {
        Err(Error::PathDoesNotExist(path))
    }
}

/// Whether the prefix stands in `s` at the position `at`, where `len` is the
/// length of `s`.
fn has_prefix_at(s: &str, len: usize, at: usize) -> (found: bool)
    requires
        len == s@.len(),
        at <= len,
    ensures
        found == unix_path_prefix().is_prefix_of(s@.skip(at as int)),
{
    let prefix = "unix:path=";
    proof {
        reveal_strlit("unix:path=");
    }
    if len - at < 10 {
        return false;
    }
    let mut i: usize = 0;
    while i < 10
        invariant
            i <= 10,
            at + 10 <= len,
            len == s@.len(),
            prefix@ == unix_path_prefix(),
            prefix@.len() == 10,
            forall|k: int| 0 <= k < i ==> s@[at + k] == prefix@[k],
        decreases 10 - i,
    {
        if s.get_char(at + i) != prefix.get_char(i) {
            return false;
        }
        i += 1;
    }
    true
}

/// The socket path that the address of the session bus names.
///
/// `address` is the value of `DBUS_SESSION_BUS_ADDRESS`, or `None` where the
/// variable is not set. Only the address of a Unix socket has a path.
pub fn session_bus_socket(address: Option<String>) -> (path: Result<String, Error>)
    ensures
        match address {
            None => path == Err::<String, Error>(Error::NoAdressFound),
            Some(a) => match unix_path_of(a@) {
                None => path == Err::<String, Error>(Error::AddressTypeNotSupported(a)),
                Some(p) => path matches Ok(found) && found@ == p,
            },
        },
{
    let address = match address {
        Some(a) => a,
        None => { return Err(Error::NoAdressFound); },
    };
    let s = address.as_str();
    let len = s.unicode_len();
    if !has_prefix_at(s, len, 0) {
        return Err(Error::AddressTypeNotSupported(address));
    }
    proof {
        reveal_strlit("unix:path=");
    }
    let mut at: usize = 0;
    assert(s@.skip(0) =~= s@);
    while has_prefix_at(s, len, at)
        invariant
            at <= len,
            len == s@.len(),
            unix_path_prefix().len() == 10,
            strip_prefixes(s@) == strip_prefixes(s@.skip(at as int)),
        decreases len - at,
    {
        assert(s@.skip(at as int).skip(10) =~= s@.skip(at + 10));
        at += 10;
    }
    Ok(s.substring_char(at, len).to_owned())
}

/// The socket path of the session bus, if a socket is there.
///
/// `address` is the value of `DBUS_SESSION_BUS_ADDRESS`, or `None` where the
/// variable is not set. Without it there is no address; an address that is
/// not of the form `unix:path=...` is not supported; and the path it names
/// is returned if something exists there, which the file system decides.
pub fn get_session_bus_path(address: Option<String>) -> (path: Result<String, Error>)
    ensures
        match address {
            None => path == Err::<String, Error>(Error::NoAdressFound),
            Some(a) => match unix_path_of(a@) {
                None => path == Err::<String, Error>(Error::AddressTypeNotSupported(a)),
                Some(p) => exists|found: bool| is_lookup_of(path, p, found),
            },
        },
{
    match session_bus_socket(address) {
        Ok(socket) => {
            let found = path_exists(socket.as_str());
            existing_path(socket, found)
        },
        Err(e) => Err(e),
    }
}

/// The socket path of the system bus, `/run/dbus/system_bus_socket`, if a
/// socket is there, which the file system decides.
pub fn get_system_bus_path() -> (path: Result<String, Error>)
    ensures
        exists|found: bool| is_lookup_of(path, system_bus_path(), found),
{
    let socket = "/run/dbus/system_bus_socket";
    let found = path_exists(socket);
    let path = existing_path(socket.to_owned(), found);
    assert(is_lookup_of(path, system_bus_path(), found));
    path
}

} // verus!
