//! The discovery engine: a multicast participant that announces itself,
//! answers foreign announcements, and keeps a table of observed peers.
//!
//! The runtime owns the UDP socket; it feeds every decoded datagram to
//! [`DeviceScanner::handle_datagram`] together with the packet's source
//! address, sends the returned reply (if any), and periodically sends
//! [`DeviceScanner::announcement_message`].

use crate::keyseq::{first_key_index, has_key, lemma_first_key_index, lemma_first_key_index_is_first};
use crate::protos::{DeviceInfo, DeviceInfoView, DeviceResponse};
use crate::tokens::{is_uuid_chars, new_uuid_string};
use crate::wire::{announcement_bytes, encode_announcement};
use vstd::prelude::*;
use vstd::string::StrSliceExecFns;

verus! {

/// The source ips of the peer table, in order.
pub open spec fn device_ips(devices: Seq<DeviceInfoView>) -> Seq<Seq<char>> {
    devices.map_values(|d: DeviceInfoView| d.ip)
}

/// The peer table after learning `d`: the entry with `d`'s source ip is
/// replaced (a changed alias from the same source updates the entry), or
/// `d` is appended when no entry carries its ip.
pub open spec fn upsert_device(devices: Seq<DeviceInfoView>, d: DeviceInfoView) -> Seq<
    DeviceInfoView,
> {
    if has_key(device_ips(devices), d.ip) {
        devices.update(first_key_index(device_ips(devices), d.ip), d)
    } else {
        devices.push(d)
    }
}

/// Whether an address string, as the runtime renders it, is a loopback
/// address: an IPv4 address in `127.0.0.0/8`, or the IPv6 loopback `::1`.
pub open spec fn is_loopback_chars(s: Seq<char>) -> bool {
    ||| (s.len() >= 4 && s[0] == '1' && s[1] == '2' && s[2] == '7' && s[3] == '.')
    ||| (s.len() == 3 && s[0] == ':' && s[1] == ':' && s[2] == '1')
}

/// Whether `s` renders a loopback address.
pub fn is_loopback(s: &String) -> (r: bool)
    ensures
        r == is_loopback_chars(s@),
{
    let s = s.as_str();
    let n = s.unicode_len();
    if n >= 4 && s.get_char(0) == '1' && s.get_char(1) == '2' && s.get_char(2) == '7'
        && s.get_char(3) == '.' {
        return true;
    }
    if n == 3 && s.get_char(0) == ':' && s.get_char(1) == ':' && s.get_char(2) == '1' {
        return true;
    }
    false
}

/// The first address of `addrs` that is not a loopback address, if any.
pub open spec fn spec_first_non_loopback(addrs: Seq<Seq<char>>) -> Option<Seq<char>>
    decreases addrs.len(),
{
    if addrs.len() == 0 {
        None
    } else if !is_loopback_chars(addrs[0]) {
        Some(addrs[0])
    } else {
        spec_first_non_loopback(addrs.drop_first())
    }
}

/// A self-announcing, self-deduplicating multicast participant: its own
/// advertised identity and the table of peers it has observed.
pub struct DeviceScanner {
    /// This process's identity as it is announced, with `announcement`
    /// kept `true`; replies force the flag to `false` when encoding.
    pub this_device: DeviceResponse,
    /// The observed peers, keyed by source ip.
    pub devices: Vec<DeviceInfo>,
}

impl DeviceScanner {
    /// A fresh scanner advertising `device_alias` from `ip`:`port`, with a
    /// fingerprint minted once for the life of this value and an empty
    /// peer table.
    pub fn new(device_alias: String, ip: String, port: u16) -> (s: Self)
        ensures
            s.this_device@.device_info.alias == device_alias@,
            s.this_device@.device_info.device_type == "desktop"@,
            s.this_device@.device_info.device_model matches Some(m) && m == "linux"@,
            s.this_device@.device_info.ip == ip@,
            s.this_device@.device_info.port == port,
            s.this_device@.announcement == true,
            is_uuid_chars(s.this_device@.fingerprint),
            s.devices@ == Seq::<DeviceInfo>::empty(),
    {
        let fingerprint = new_uuid_string();
        let device_info = DeviceInfo {
            alias: device_alias,
            device_type: "desktop".to_owned(),
            device_model: Some("linux".to_owned()),
            ip,
            port,
        };
        let s = DeviceScanner {
            this_device: DeviceResponse { device_info, announcement: true, fingerprint },
            devices: Vec::new(),
        };
        proof {
            assert(s.devices@ =~= Seq::<DeviceInfo>::empty());
        }
        s
    }

    /// The periodic announcement datagram: this identity with
    /// `announcement` set, soliciting replies.
    pub fn announcement_message(&self) -> (r: Vec<u8>)
        ensures
            r@ == announcement_bytes(self.this_device@, true),
    {
        encode_announcement(&self.this_device, true)
    }

    /// Digest one received datagram, already decoded, together with the
    /// packet's source address.  The decoded `ip` and `port` are
    /// overwritten with the source address before anything else.
    ///
    /// Self-filter: a datagram carrying this process's own fingerprint is
    /// dropped — no reply, no table change — however its source address
    /// looped back.  A foreign announcement is answered with exactly one
    /// reply carrying this identity with `announcement` cleared, so a
    /// reply is never answered with a further reply.  Every foreign
    /// datagram inserts or updates the peer table entry for its source ip.
    pub fn handle_datagram(&mut self, decoded: DeviceResponse, src_ip: String, src_port: u16) -> (
        reply: Option<Vec<u8>>)
        ensures
            final(self).this_device == old(self).this_device,
            ({
                let seen = DeviceInfoView {
                    ip: src_ip@,
                    port: src_port,
                    ..decoded@.device_info
                };
                if decoded@.fingerprint == old(self).this_device@.fingerprint {
                    &&& reply is None
                    &&& final(self).devices == old(self).devices
                } else {
                    &&& (decoded@.announcement ==> (reply matches Some(r) && r@
                        == announcement_bytes(old(self).this_device@, false)))
                    &&& (!decoded@.announcement ==> reply is None)
                    &&& final(self).devices@.map_values(|d: DeviceInfo| d@) == upsert_device(
                        old(self).devices@.map_values(|d: DeviceInfo| d@),
                        seen,
                    )
                }
            }),
    {
        let mut seen = decoded;
        seen.device_info.ip = src_ip;
        seen.device_info.port = src_port;
        if seen.fingerprint.eq(&self.this_device.fingerprint) {
            return None;
        }
        let reply = if seen.announcement {
            Some(encode_announcement(&self.this_device, false))
        } else {
            None
        };
        let ghost devs0 = self.devices@.map_values(|d: DeviceInfo| d@);
        let ghost seenv = seen@.device_info;
        match Self::find_by_ip(&self.devices, &seen.device_info.ip) {
            Some(i) => {
                self.devices.set(i, seen.device_info);
                proof {
                    assert(self.devices@.map_values(|d: DeviceInfo| d@) =~= devs0.update(
                        i as int,
                        seenv,
                    ));
                }
            },
            None => {
                self.devices.push(seen.device_info);
                proof {
                    assert(self.devices@.map_values(|d: DeviceInfo| d@) =~= devs0.push(seenv));
                }
            },
        }
        reply
    }

    /// The first of `addrs` that is not a loopback address, if any; used
    /// to pick the address this device advertises from the addresses the
    /// machine's interfaces report.
    pub fn first_non_loopback(addrs: &Vec<String>) -> (r: Option<String>)
        ensures
            match r {
                Some(ip) => spec_first_non_loopback(addrs@.map_values(|s: String| s@))
                    == Some(ip@),
                None => spec_first_non_loopback(addrs@.map_values(|s: String| s@))
                    is None,
            },
    {
        let ghost av = addrs@.map_values(|s: String| s@);
        proof {
            assert(av.skip(0) =~= av);
        }
        let mut i: usize = 0;
        while i < addrs.len()
            invariant
                i <= addrs@.len(),
                av == addrs@.map_values(|s: String| s@),
                spec_first_non_loopback(av) == spec_first_non_loopback(av.skip(i as int)),
            decreases addrs@.len() - i,
        {
            proof {
                assert(av.skip(i as int).len() > 0);
                assert(av.skip(i as int)[0] == av[i as int]);
            }
            if !is_loopback(&addrs[i]) {
                return Some(addrs[i].clone());
            }
            proof {
                assert(av.skip(i as int).drop_first() =~= av.skip(i as int + 1));
            }
            i = i + 1;
        }
        proof {
            assert(av.skip(av.len() as int) =~= Seq::<Seq<char>>::empty());
        }
        None
    }

    /// Position of the table entry whose ip is `ip`, if any.
    fn find_by_ip(devices: &Vec<DeviceInfo>, ip: &String) -> (r: Option<usize>)
        ensures
            match r {
                Some(i) => i < devices@.len() && first_key_index(
                    device_ips(devices@.map_values(|d: DeviceInfo| d@)),
                    ip@,
                ) == i as int,
                None => !has_key(device_ips(devices@.map_values(|d: DeviceInfo| d@)), ip@),
            },
    {
        let ghost keys = device_ips(devices@.map_values(|d: DeviceInfo| d@));
        let mut i: usize = 0;
        while i < devices.len()
            invariant
                i <= devices@.len(),
                keys == device_ips(devices@.map_values(|d: DeviceInfo| d@)),
                forall|j: int| 0 <= j < i ==> keys[j] != ip@,
            decreases devices@.len() - i,
        {
            proof {
                assert(keys[i as int] == devices@[i as int]@.ip);
            }
            if devices[i].ip.eq(ip) {
                proof {
                    lemma_first_key_index_is_first(keys, ip@, i as int);
                }
                return Some(i);
            }
            i = i + 1;
        }
        proof {
            lemma_first_key_index(keys, ip@);
        }
        None
    }
}

} // verus!
