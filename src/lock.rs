//! The producer lock: which local interface and IPv4 address the lock row
//! records, the request for the conditional insert that takes the lock, what
//! the database's answer means, and the compare-and-set rules of the lock row.
use vstd::prelude::*;
use crate::recovery::RecoveryError;
use crate::types::ProducerId;

verus! {

/// An address of a local network interface.
#[derive(Debug, Clone, Copy, PartialEq, Eq, Structural)]
pub enum IpAddress {
    V4(u32),
    V6(u128),
}

/// A local network interface and one of its addresses.
#[derive(Debug, Clone)]
pub struct NetInterface {
    pub name: String,
    pub addr: IpAddress,
}

/// What is known of a registered producer.
#[derive(Debug, Clone, Copy)]
pub struct ProducerInfo {
    pub producer_id: ProducerId,
    pub num_shards: i16,
}

/// The row that the conditional insert of the lock writes.
#[derive(Debug, Clone)]
pub struct LockRequest {
    pub producer_id: ProducerId,
    pub lock_id: String,
    pub ifname: String,
    pub ipv4: u32,
}

/// A lock held on a producer: released by deleting its row if the row still
/// carries `lock_id`.
#[derive(Debug, Clone)]
pub struct ProducerLock {
    pub producer_id: ProducerId,
    pub lock_id: String,
}

/// Why the sink could not start.
#[derive(Debug, Clone, Copy)]
pub enum StartupError {
    /// The producer has no registration row.
    ProducerUnregistered(ProducerId),
    /// The registration gives a negative number of shards.
    InvalidShardCount(i16),
    /// Another holder has the producer's lock.
    AlreadyLocked(ProducerId),
    /// No interface with a usable IPv4 address was found.
    NoInterface,
    /// The recovered offsets are unusable.
    Recovery(RecoveryError),
}

pub open spec fn is_v4(a: IpAddress) -> bool {
    a is V4
}

/// The interface that matches what is asked for: the one named `ifname` with
/// an IPv4 address, or, with no name given, the one that holds the local
/// IPv4 address.
pub open spec fn matches_request(itf: NetInterface, ifname: Option<String>, local: Option<IpAddress>) -> bool {
    match ifname {
        Some(n) => itf.name@ == n@ && is_v4(itf.addr),
        None => match local {
            Some(IpAddress::V4(a)) => itf.addr == IpAddress::V4(a),
            _ => false,
        },
    }
}

/// Some interface matches.
pub open spec fn interface_exists(ifs: Seq<NetInterface>, ifname: Option<String>, local: Option<IpAddress>) -> bool {
    exists|i: int| 0 <= i < ifs.len() && matches_request(#[trigger] ifs[i], ifname, local)
}

/// `(name, ip)` comes from the first interface that matches.
pub open spec fn is_first_choice(
    ifs: Seq<NetInterface>,
    ifname: Option<String>,
    local: Option<IpAddress>,
    name: Seq<char>,
    ip: u32,
) -> bool {
    exists|i: int|
        0 <= i < ifs.len() && matches_request(#[trigger] ifs[i], ifname, local) && ifs[i].name@ == name
            && ifs[i].addr == IpAddress::V4(ip) && forall|j: int|
            0 <= j < i ==> !matches_request(#[trigger] ifs[j], ifname, local)
}

/// The interface name and IPv4 address that the lock row records: the first
/// interface named `ifname` that has an IPv4 address, or, when no name is
/// given, the first interface holding `local`, which must be an IPv4 address.
pub fn select_lock_interface(
    interfaces: &Vec<NetInterface>,
    ifname: &Option<String>,
    local: Option<IpAddress>,
) -> (r: Result<(String, u32), StartupError>)
    ensures
        r.is_ok() == interface_exists(interfaces@, *ifname, local),
        r matches Ok((name, ip)) ==> is_first_choice(interfaces@, *ifname, local, name@, ip),
        r matches Err(e) ==> e matches StartupError::NoInterface,
{
    if ifname.is_none() {
        match local {
            Some(IpAddress::V4(_)) => {},
            _ => {
                return Err(StartupError::NoInterface);
            },
        }
    }
    let mut i: usize = 0;
    while i < interfaces.len()
        invariant
            i <= interfaces@.len(),
            ifname.is_none() ==> local matches Some(IpAddress::V4(_)),
            forall|j: int| 0 <= j < i ==> !matches_request(#[trigger] interfaces@[j], *ifname, local),
        decreases interfaces@.len() - i,
    {
        let itf = &interfaces[i];
        let found = match ifname {
            Some(n) => itf.name == *n && matches!(itf.addr, IpAddress::V4(_)),
            None => itf.addr == local.unwrap(),
        };
        if found {
            if let IpAddress::V4(ip) = itf.addr {
                let name = itf.name.clone();
                assert(matches_request(interfaces@[i as int], *ifname, local));
                return Ok((name, ip));
            }
        }
        i = i + 1;
    }
    Err(StartupError::NoInterface)
}

/// A lowercase hexadecimal digit.
pub open spec fn is_lower_hex_digit(c: char) -> bool {
    (0x30 <= c as u32 <= 0x39) || (0x61 <= c as u32 <= 0x66)
}

/// The hyphenated lowercase text of a random (version 4, RFC 4122 variant)
/// UUID: 32 hex digits in groups of 8-4-4-4-12, the version digit `4` first
/// in the third group and one of `8`, `9`, `a`, `b` first in the fourth.
pub open spec fn is_uuid_v4_text(s: Seq<char>) -> bool {
    &&& s.len() == 36
    &&& forall|i: int|
        0 <= i < 36 && i != 8 && i != 13 && i != 18 && i != 23 ==> is_lower_hex_digit(#[trigger] s[i])
    &&& s[8] == '-' && s[13] == '-' && s[18] == '-' && s[23] == '-'
    &&& s[14] == '4'
    &&& (s[19] == '8' || s[19] == '9' || s[19] == 'a' || s[19] == 'b')
}

/// Relies on `uuid::Uuid::new_v4` for a fresh random id, whose version and
/// variant bits it sets, and on the `Display` impl of `uuid::Uuid`, which
/// writes the hyphenated lowercase form.
#[verifier::external_body]
fn new_lock_id() -> (r: String)
    ensures
        is_uuid_v4_text(r@),
{
    uuid::Uuid::new_v4().to_string()
}

/// The conditional insert that takes the lock for `producer_id`: a fresh lock
/// id, with the interface and address chosen as `select_lock_interface` does.
pub fn prepare_lock_request(
    producer_id: ProducerId,
    interfaces: &Vec<NetInterface>,
    ifname: &Option<String>,
    local: Option<IpAddress>,
) -> (r: Result<LockRequest, StartupError>)
    ensures
        r.is_ok() == interface_exists(interfaces@, *ifname, local),
        r matches Ok(q) ==> q.producer_id == producer_id && is_uuid_v4_text(q.lock_id@) && is_first_choice(
            interfaces@,
            *ifname,
            local,
            q.ifname@,
            q.ipv4,
        ),
        r matches Err(e) ==> e matches StartupError::NoInterface,
{
    match select_lock_interface(interfaces, ifname, local) {
        Ok((name, ip)) => {
            let lock_id = new_lock_id();
            Ok(LockRequest { producer_id, lock_id, ifname: name, ipv4: ip })
        },
        Err(e) => Err(e),
    }
}

/// The database's answer to the conditional insert of `request`: the lock is
/// held when the insert was applied; otherwise another holder has it.
pub fn lock_from_outcome(request: LockRequest, applied: bool) -> (r: Result<ProducerLock, StartupError>)
    ensures
        r.is_ok() == applied,
        r matches Ok(l) ==> l.producer_id == request.producer_id && l.lock_id@ == request.lock_id@,
        r matches Err(e) ==> e == StartupError::AlreadyLocked(request.producer_id),
{
    if applied {
        Ok(ProducerLock { producer_id: request.producer_id, lock_id: request.lock_id })
    } else {
        Err(StartupError::AlreadyLocked(request.producer_id))
    }
}

/// The number of shards of a producer from its registration, if any.
pub fn shard_count(producer_id: ProducerId, info: Option<ProducerInfo>) -> (r: Result<usize, StartupError>)
    ensures
        r.is_ok() == (info matches Some(i) && i.num_shards >= 0),
        r matches Ok(n) ==> n == info.unwrap().num_shards,
        info.is_none() ==> r == Err::<usize, StartupError>(StartupError::ProducerUnregistered(producer_id)),
        info.is_some() && info.unwrap().num_shards < 0 ==> r == Err::<usize, StartupError>(
            StartupError::InvalidShardCount(info.unwrap().num_shards),
        ),
{
    match info {
        None => Err(StartupError::ProducerUnregistered(producer_id)),
        Some(i) => {
            if i.num_shards < 0 {
                Err(StartupError::InvalidShardCount(i.num_shards))
            } else {
                Ok(i.num_shards as usize)
            }
        },
    }
}

/// The lock row after "insert if not exists" with lock id `id`, and whether
/// the insert was applied.
pub open spec fn cas_acquire(row: Option<Seq<char>>, id: Seq<char>) -> (Option<Seq<char>>, bool) {
    match row {
        None => (Some(id), true),
        Some(_) => (row, false),
    }
}

/// The lock row after "delete if lock_id = id".
pub open spec fn cas_release(row: Option<Seq<char>>, id: Seq<char>) -> Option<Seq<char>> {
    match row {
        Some(h) => if h == id {
            None
        } else {
            row
        },
        None => None,
    }
}

/// Of two attempts to take a free lock, exactly one succeeds, whichever
/// reaches the row first; the row then names the winner.
pub proof fn lemma_single_writer(first: Seq<char>, second: Seq<char>)
    ensures
        cas_acquire(None, first).1,
        !cas_acquire(cas_acquire(None, first).0, second).1,
        cas_acquire(cas_acquire(None, first).0, second).0 == Some(first),
{
}

/// Releasing twice is the same as releasing once, and a release by another
/// lock id leaves the row alone.
pub proof fn lemma_release_idempotent(row: Option<Seq<char>>, id: Seq<char>, other: Seq<char>)
    ensures
        cas_release(cas_release(row, id), id) == cas_release(row, id),
        row == Some(other) && other != id ==> cas_release(row, id) == row,
{
}

/// After the holder releases, the next attempt takes the lock.
pub proof fn lemma_acquire_after_release(holder: Seq<char>, next: Seq<char>)
    ensures
        cas_acquire(cas_release(cas_acquire(None, holder).0, holder), next) == (Some(next), true),
{
}

} // verus!
