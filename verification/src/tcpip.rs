//! Setting the DNS servers of a network interface through the registry
//! values of the TCP/IP services: what is written where, and what the
//! outcomes of the registry calls lead to. The calls themselves belong to
//! the caller.

use crate::net::{addresses_text, describe_addresses, IpAddress};
use vstd::prelude::*;
use vstd::string::StringExecFns;

verus! {

/// The kinds of failure that the system reports and that are told apart
/// here.
#[derive(Clone, Copy, Debug, PartialEq, Eq, Structural)]
pub enum IoErrorKind {
    NotFound,
    Other,
}

/// A failure that the system reported.
#[derive(Clone, Copy, Debug, PartialEq, Eq, Structural)]
pub struct IoError {
    pub kind: IoErrorKind,
    /// The system's error code, where it gave one.
    pub code: Option<i32>,
}

/// Errors that can happen when configuring DNS on Windows.
#[derive(Clone, Copy, Debug, PartialEq, Eq, Structural)]
pub enum Error {
    /// Failure to obtain an interface LUID given an alias.
    ObtainInterfaceLuid(IoError),
    /// Failure to obtain an interface GUID.
    ObtainInterfaceGuid(IoError),
    /// Failure to flush DNS cache; the code is the system's.
    FlushResolverCache(i32),
    /// Failed to update DNS servers for interface.
    SetResolvers(IoError),
}

/// The identifier of a network interface.
#[derive(Clone, Copy, Debug, PartialEq, Eq)]
pub struct Guid {
    pub data1: u32,
    pub data2: u16,
    pub data3: u16,
    pub data4: [u8; 8],
}

/// The character of a hexadecimal digit, in upper case.
pub open spec fn hex_char(digit: nat) -> char {
    if digit == 0 {
        '0'
    } else if digit == 1 {
        '1'
    } else if digit == 2 {
        '2'
    } else if digit == 3 {
        '3'
    } else if digit == 4 {
        '4'
    } else if digit == 5 {
        '5'
    } else if digit == 6 {
        '6'
    } else if digit == 7 {
        '7'
    } else if digit == 8 {
        '8'
    } else if digit == 9 {
        '9'
    } else if digit == 10 {
        'A'
    } else if digit == 11 {
        'B'
    } else if digit == 12 {
        'C'
    } else if digit == 13 {
        'D'
    } else if digit == 14 {
        'E'
    } else {
        'F'
    }
}

/// The last `width` hexadecimal digits of `value`, in upper case and with
/// leading zeros.
pub open spec fn hex_text(value: nat, width: nat) -> Seq<char>
    decreases width,
{
    if width == 0 {
        Seq::empty()
    } else {
        hex_text(value / 16, (width - 1) as nat).push(hex_char(value % 16))
    }
}

/// The text of a hexadecimal digit, in upper case.
fn hex_str(digit: u64) -> (r: &'static str)
    requires
        digit < 16,
    ensures
        r@ == seq![hex_char(digit as nat)],
{
    proof {
        reveal_strlit("0");
        reveal_strlit("1");
        reveal_strlit("2");
        reveal_strlit("3");
        reveal_strlit("4");
        reveal_strlit("5");
        reveal_strlit("6");
        reveal_strlit("7");
        reveal_strlit("8");
        reveal_strlit("9");
        reveal_strlit("A");
        reveal_strlit("B");
        reveal_strlit("C");
        reveal_strlit("D");
        reveal_strlit("E");
        reveal_strlit("F");
    }
    let text = if digit == 0 {
        "0"
    } else if digit == 1 {
        "1"
    } else if digit == 2 {
        "2"
    } else if digit == 3 {
        "3"
    } else if digit == 4 {
        "4"
    } else if digit == 5 {
        "5"
    } else if digit == 6 {
        "6"
    } else if digit == 7 {
        "7"
    } else if digit == 8 {
        "8"
    } else if digit == 9 {
        "9"
    } else if digit == 10 {
        "A"
    } else if digit == 11 {
        "B"
    } else if digit == 12 {
        "C"
    } else if digit == 13 {
        "D"
    } else if digit == 14 {
        "E"
    } else {
        "F"
    };
    assert(text@ =~= seq![hex_char(digit as nat)]);
    text
}

/// The last `width` hexadecimal digits of `value`, in upper case and with
/// leading zeros.
pub fn hex(value: u64, width: u8) -> (r: String)
    ensures
        r@ == hex_text(value as nat, width as nat),
    decreases width,
{
    if width == 0 {
        String::new()
    } else {
        let mut text = hex(value / 16, width - 1);
        text.append(hex_str(value % 16));
        assert(text@ =~= hex_text((value / 16) as nat, (width - 1) as nat).push(
            hex_char((value % 16) as nat),
        ));
        text
    }
}

impl Guid {
    /// The text of the identifier: its parts in hexadecimal digits, set
    /// between curly brackets and parted by hyphens.
    pub open spec fn text(self) -> Seq<char> {
        "{"@ + hex_text(self.data1 as nat, 8) + "-"@ + hex_text(self.data2 as nat, 4) + "-"@
            + hex_text(self.data3 as nat, 4) + "-"@ + hex_text(self.data4[0] as nat, 2)
            + hex_text(self.data4[1] as nat, 2) + "-"@ + hex_text(self.data4[2] as nat, 2)
            + hex_text(self.data4[3] as nat, 2) + hex_text(self.data4[4] as nat, 2) + hex_text(
            self.data4[5] as nat,
            2,
        ) + hex_text(self.data4[6] as nat, 2) + hex_text(self.data4[7] as nat, 2) + "}"@
    }
}

/// Obtain a string representation for a GUID object.
pub fn string_from_guid(guid: &Guid) -> (r: String)
    ensures
        r@ == guid.text(),
{
    let mut text = String::from_str("{");
    text.append(hex(guid.data1 as u64, 8).as_str());
    text.append("-");
    text.append(hex(guid.data2 as u64, 4).as_str());
    text.append("-");
    text.append(hex(guid.data3 as u64, 4).as_str());
    text.append("-");
    text.append(hex(guid.data4[0] as u64, 2).as_str());
    text.append(hex(guid.data4[1] as u64, 2).as_str());
    text.append("-");
    text.append(hex(guid.data4[2] as u64, 2).as_str());
    text.append(hex(guid.data4[3] as u64, 2).as_str());
    text.append(hex(guid.data4[4] as u64, 2).as_str());
    text.append(hex(guid.data4[5] as u64, 2).as_str());
    text.append(hex(guid.data4[6] as u64, 2).as_str());
    text.append(hex(guid.data4[7] as u64, 2).as_str());
    text.append("}");
    text
}

/// The addresses of `servers` for which `ipv6` says whether they are IPv6
/// addresses, in their order.
pub open spec fn of_version(servers: Seq<IpAddress>, ipv6: bool) -> Seq<IpAddress> {
    servers.filter(|address: IpAddress| address is V6 == ipv6)
}

/// The addresses of `servers` of one IP version, in their order.
pub fn servers_of_version(servers: &Vec<IpAddress>, ipv6: bool) -> (r: Vec<IpAddress>)
    ensures
        r@ == of_version(servers@, ipv6),
{
    let mut chosen: Vec<IpAddress> = Vec::new();
    let mut i: usize = 0;
    proof {
        reveal(Seq::filter);
        assert(servers@.take(0) =~= Seq::<IpAddress>::empty());
    }
    while i < servers.len()
        invariant
            i <= servers.len(),
            chosen@ == of_version(servers@.take(i as int), ipv6),
        decreases servers.len() - i,
    {
        proof {
            reveal(Seq::filter);
            assert(servers@.take(i + 1).drop_last() == servers@.take(i as int));
        }
        if servers[i].is_ipv6() == ipv6 {
            chosen.push(servers[i]);
        }
        i += 1;
    }
    assert(servers@.take(servers.len() as int) == servers@);
    chosen
}

/// What is to be done to the registry key of an interface under one of the
/// TCP/IP services.
#[derive(Debug, PartialEq, Eq)]
pub struct InterfaceConfig {
    /// The path of the key below the local machine's root key.
    pub path: String,
    /// The value to write as `NameServer`; `None` where that value is to be
    /// deleted.
    pub name_server: Option<String>,
}

/// The path of the registry key that holds the parameters of the interface
/// `guid` under `service`.
pub open spec fn interface_key_path(service: Seq<char>, guid: Seq<char>) -> Seq<char> {
    "SYSTEM\\CurrentControlSet\\Services\\"@ + service + "\\Parameters\\Interfaces\\"@ + guid
}

/// The value to write as `NameServer` for `nameservers`: their texts parted
/// by commas, or none where there are no servers.
pub open spec fn name_server_value(nameservers: Seq<IpAddress>) -> Option<Seq<char>> {
    if nameservers.len() == 0 {
        None
    } else {
        Some(addresses_text(nameservers))
    }
}

/// What is to be done to the registry key of the interface `guid` under
/// `service` so that the interface uses `nameservers`: where there are
/// servers, their texts are written as `NameServer`, parted by commas;
/// where there are none, that value is deleted.
pub fn config_interface(
    guid: &str,
    service: &str,
    nameservers: &Vec<IpAddress>,
) -> (r: InterfaceConfig)
    ensures
        r.path@ == interface_key_path(service@, guid@),
        match r.name_server {
            Some(value) => name_server_value(nameservers@) == Some(value@),
            None => name_server_value(nameservers@) is None,
        },
{
    let mut path = String::from_str("SYSTEM\\CurrentControlSet\\Services\\");
    path.append(service);
    path.append("\\Parameters\\Interfaces\\");
    path.append(guid);
    let name_server = if nameservers.len() > 0 {
        Some(describe_addresses(nameservers))
    } else {
        None
    };
    InterfaceConfig { path, name_server }
}

/// What is to be done to the registry so that the interface `guid` uses
/// `servers`: the IPv4 servers go to the service `Tcpip`, the IPv6 servers
/// to the service `Tcpip6`, in that order.
pub fn set_dns_inner(
    guid: &Guid,
    servers: &Vec<IpAddress>,
) -> (r: (InterfaceConfig, InterfaceConfig))
    ensures
        r.0.path@ == interface_key_path("Tcpip"@, guid.text()),
        r.1.path@ == interface_key_path("Tcpip6"@, guid.text()),
        match r.0.name_server {
            Some(value) => name_server_value(of_version(servers@, false)) == Some(value@),
            None => name_server_value(of_version(servers@, false)) is None,
        },
        match r.1.name_server {
            Some(value) => name_server_value(of_version(servers@, true)) == Some(value@),
            None => name_server_value(of_version(servers@, true)) is None,
        },
{
    let guid_str = string_from_guid(guid);
    let ipv4 = servers_of_version(servers, false);
    let ipv6 = servers_of_version(servers, true);
    (
        config_interface(guid_str.as_str(), "Tcpip", &ipv4),
        config_interface(guid_str.as_str(), "Tcpip6", &ipv6),
    )
}

/// What a failure to open the key of an interface leads to: a key that is
/// not there is no failure where no servers are to be set.
pub fn open_failed(config: &InterfaceConfig, error: IoError) -> (r: Result<(), IoError>)
    ensures
        r == if config.name_server is None && error.kind == IoErrorKind::NotFound {
            Ok::<(), IoError>(())
        } else {
            Err(error)
        },
{
    if config.name_server.is_none() && error.kind == IoErrorKind::NotFound {
        Ok(())
    } else {
        Err(error)
    }
}

/// What a failure to delete the value `NameServer` leads to: a value that
/// is not there is no failure.
pub fn delete_failed(error: IoError) -> (r: Result<(), IoError>)
    ensures
        r == if error.kind == IoErrorKind::NotFound {
            Ok::<(), IoError>(())
        } else {
            Err(error)
        },
{
    if error.kind == IoErrorKind::NotFound {
        Ok(())
    } else {
        Err(error)
    }
}

/// The outcome of setting the DNS servers in one registry transaction:
/// `changes` is the outcome of the changes, and `finish` is that of ending
/// the transaction, by committing it where the changes succeeded and by
/// rolling it back where they failed. A failure to roll back is reported
/// before the failure of the changes.
pub fn set_dns(changes: Result<(), IoError>, finish: Result<(), IoError>) -> (r: Result<
    (),
    Error,
>)
    ensures
        r == match (changes, finish) {
            (_, Err(error)) => Err::<(), Error>(Error::SetResolvers(error)),
            (Err(error), Ok(_)) => Err(Error::SetResolvers(error)),
            (Ok(_), Ok(_)) => Ok(()),
        },
{
    match finish {
        Err(error) => Err(Error::SetResolvers(error)),
        Ok(_) => match changes {
            Err(error) => Err(Error::SetResolvers(error)),
            Ok(_) => Ok(()),
        },
    }
}

/// The outcome of flushing the DNS cache, where `code` is the error code of
/// the system, if it reported one.
pub fn flush_dns_cache(code: Option<i32>) -> (r: Result<(), Error>)
    ensures
        r == match code {
            Some(code) => Err::<(), Error>(Error::FlushResolverCache(code)),
            None => Ok(()),
        },
{
    match code {
        Some(code) => Err(Error::FlushResolverCache(code)),
        None => Ok(()),
    }
}

/// Keeps track of the interface whose DNS servers were set.
#[derive(Clone, Copy, Debug, PartialEq, Eq)]
pub struct DnsMonitor {
    pub current_guid: Option<Guid>,
    pub should_flush: bool,
}

impl DnsMonitor {
    /// A monitor that has set no servers yet and flushes the DNS cache
    /// after every change.
    pub fn new() -> (r: Result<DnsMonitor, Error>)
        ensures
            r == Ok::<DnsMonitor, Error>(DnsMonitor { current_guid: None, should_flush: true }),
    {
        Ok(DnsMonitor { current_guid: None, should_flush: true })
    }

    /// Stops the monitor from flushing the DNS cache after a change.
    pub fn disable_flushing(&mut self)
        ensures
            *final(self) == (DnsMonitor { should_flush: false, ..*old(self) }),
    {
        self.should_flush = false;
    }

    /// Notes the outcome of setting the servers of the interface `guid`.
    /// Where they were set, the interface is remembered, and the answer
    /// says whether the DNS cache is to be flushed now; where they were not,
    /// nothing changes and the failure is the answer.
    pub fn set(&mut self, guid: Guid, outcome: Result<(), Error>) -> (r: Result<bool, Error>)
        ensures
            match outcome {
                Ok(_) => {
                    &&& r == Ok::<bool, Error>(old(self).should_flush)
                    &&& *final(self) == (DnsMonitor { current_guid: Some(guid), ..*old(self) })
                },
                Err(error) => r == Err::<bool, Error>(error) && *final(self) == *old(self),
            },
    {
        match outcome {
            Ok(_) => {
                self.current_guid = Some(guid);
                Ok(self.should_flush)
            },
            Err(error) => Err(error),
        }
    }

    /// Forgets the interface whose servers were set, and hands it out
    /// together with whether the DNS cache is to be flushed once the
    /// servers of the interface have been removed.
    pub fn reset(&mut self) -> (r: Option<(Guid, bool)>)
        ensures
            *final(self) == (DnsMonitor { current_guid: None, ..*old(self) }),
            r == match old(self).current_guid {
                Some(guid) => Some((guid, old(self).should_flush)),
                None => None,
            },
    {
        match self.current_guid.take() {
            Some(guid) => Some((guid, self.should_flush)),
            None => None,
        }
    }

    /// The outcome of a reset, from the outcome of removing the servers and
    /// the outcome of flushing the DNS cache, where it was flushed: the
    /// first failure of the two.
    pub fn reset_outcome(
        removed: Result<(), Error>,
        flushed: Option<Result<(), Error>>,
    ) -> (r: Result<(), Error>)
        ensures
            r == match (removed, flushed) {
                (Err(error), _) => Err::<(), Error>(error),
                (Ok(_), Some(Err(error))) => Err(error),
                _ => Ok(()),
            },
    {
        match removed {
            Err(error) => Err(error),
            Ok(_) => match flushed {
                Some(Err(error)) => Err(error),
                _ => Ok(()),
            },
        }
    }
}

} // verus!
