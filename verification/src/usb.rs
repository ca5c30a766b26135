//! Device matching and bulk endpoint selection over a plain model of a
//! device's descriptors, and the check on a bulk write.

use vstd::prelude::*;
use crate::config::Device;
use crate::error::Error;

verus! {

/// Time allowed for one bulk write, in milliseconds.
pub const BULK_WRITE_TIMEOUT_MS: u64 = 500;

/// Time allowed for reading the probe response, in milliseconds.
pub const BULK_READ_TIMEOUT_MS: u64 = 1000;

/// One direction of one alternate setting of one interface of one configuration.
#[derive(Clone, Copy, Debug, PartialEq, Eq, Structural)]
pub struct Endpoint {
    pub address: u8,
    pub config: u8,
    pub iface: u8,
    pub setting: u8,
}

impl Endpoint {
    /// The endpoint's address, which is all that transfers need.
    pub fn get_address(&self) -> (a: u8)
        ensures
            a == self.address,
    {
        self.address
    }
}

/// A bulk IN endpoint and a bulk OUT endpoint of the same alternate setting.
#[derive(Clone, Copy, Debug, PartialEq, Eq, Structural)]
pub struct BulkEndpoints {
    pub in_ep: Endpoint,
    pub out_ep: Endpoint,
}

/// Transfer type of an endpoint.
#[derive(Clone, Copy, Debug, PartialEq, Eq, Structural)]
pub enum TransferKind {
    Control,
    Isochronous,
    Bulk,
    Interrupt,
}

/// Direction of an endpoint, seen from the host.
#[derive(Clone, Copy, Debug, PartialEq, Eq, Structural)]
pub enum Direction {
    In,
    Out,
}

/// What an endpoint descriptor says of its endpoint.
#[derive(Clone, Copy, Debug, PartialEq, Eq, Structural)]
pub struct EndpointDescriptor {
    pub address: u8,
    pub transfer: TransferKind,
    pub direction: Direction,
}

/// One alternate setting of an interface, with its endpoints in descriptor order.
#[derive(Clone, Debug)]
pub struct AltSetting {
    pub interface_number: u8,
    pub setting_number: u8,
    pub endpoints: Vec<EndpointDescriptor>,
}

/// An interface: its alternate settings in descriptor order.
#[derive(Clone, Debug)]
pub struct Interface {
    pub settings: Vec<AltSetting>,
}

/// A configuration: its number and its interfaces in descriptor order.
#[derive(Clone, Debug)]
pub struct Configuration {
    pub number: u8,
    pub interfaces: Vec<Interface>,
}

/// Whether `e` is a bulk endpoint of direction `dir`.
pub open spec fn is_bulk(e: EndpointDescriptor, dir: Direction) -> bool {
    e.transfer == TransferKind::Bulk && e.direction == dir
}

/// The last bulk endpoint of direction `dir` in `eps`: a later candidate
/// replaces an earlier one.
pub open spec fn last_bulk(eps: Seq<EndpointDescriptor>, dir: Direction) -> Option<
    EndpointDescriptor,
>
    decreases eps.len(),
{
    if eps.len() == 0 {
        None
    } else if is_bulk(eps.last(), dir) {
        Some(eps.last())
    } else {
        last_bulk(eps.drop_last(), dir)
    }
}

/// The pair that one alternate setting yields: present where the setting has
/// a bulk endpoint of each direction.
pub open spec fn setting_pair(config: u8, s: AltSetting) -> Option<BulkEndpoints> {
    match (last_bulk(s.endpoints@, Direction::In), last_bulk(s.endpoints@, Direction::Out)) {
        (Some(i), Some(o)) => Some(
            BulkEndpoints {
                in_ep: Endpoint {
                    address: i.address,
                    config,
                    iface: s.interface_number,
                    setting: s.setting_number,
                },
                out_ep: Endpoint {
                    address: o.address,
                    config,
                    iface: s.interface_number,
                    setting: s.setting_number,
                },
            },
        ),
        _ => None,
    }
}

/// Whether `(c, i, s)` names an alternate setting of a readable configuration.
/// An entry `None` stands for a configuration whose descriptor could not be read.
pub open spec fn valid_tuple(tree: Seq<Option<Configuration>>, c: int, i: int, s: int) -> bool {
    &&& 0 <= c < tree.len()
    &&& tree[c] is Some
    &&& 0 <= i < tree[c]->0.interfaces@.len()
    &&& 0 <= s < tree[c]->0.interfaces@[i].settings@.len()
}

/// The pair that the alternate setting at `(c, i, s)` yields.
pub open spec fn pair_at(tree: Seq<Option<Configuration>>, c: int, i: int, s: int) -> Option<
    BulkEndpoints,
>
    recommends
        valid_tuple(tree, c, i, s),
{
    setting_pair(tree[c]->0.number, tree[c]->0.interfaces@[i].settings@[s])
}

/// Scan order: by configuration, then interface, then alternate setting.
pub open spec fn scanned_before(c1: int, i1: int, s1: int, c: int, i: int, s: int) -> bool {
    c1 < c || (c1 == c && (i1 < i || (i1 == i && s1 < s)))
}

/// Whether `(c, i, s)` is the first alternate setting in scan order that
/// yields a pair.
pub open spec fn is_first_pair(tree: Seq<Option<Configuration>>, c: int, i: int, s: int) -> bool {
    &&& valid_tuple(tree, c, i, s)
    &&& pair_at(tree, c, i, s) is Some
    &&& forall|c1: int, i1: int, s1: int|
        #![trigger pair_at(tree, c1, i1, s1)]
        valid_tuple(tree, c1, i1, s1) && scanned_before(c1, i1, s1, c, i, s) ==> pair_at(
            tree,
            c1,
            i1,
            s1,
        ) is None
}

/// Whether no alternate setting of the device yields a pair.
pub open spec fn no_pair(tree: Seq<Option<Configuration>>) -> bool {
    forall|c: int, i: int, s: int|
        #![trigger pair_at(tree, c, i, s)]
        valid_tuple(tree, c, i, s) ==> pair_at(tree, c, i, s) is None
}

/// Whether `r` is what endpoint selection owes for `tree`: the pair of the
/// first alternate setting in scan order that yields one, or the failure
/// where none does.
pub open spec fn selects(tree: Seq<Option<Configuration>>, r: Result<BulkEndpoints, Error>) -> bool {
    match r {
        Ok(pair) => exists|c: int, i: int, s: int|
            is_first_pair(tree, c, i, s) && #[trigger] pair_at(tree, c, i, s) == Some(pair),
        Err(e) => e == Error::NoBulkEndpoints && no_pair(tree),
    }
}

/// Scans the endpoints of one alternate setting.
pub fn scan_setting(config: u8, setting: &AltSetting) -> (r: Option<BulkEndpoints>)
    ensures
        r == setting_pair(config, *setting),
{
    let mut bulk_in: Option<EndpointDescriptor> = None;
    let mut bulk_out: Option<EndpointDescriptor> = None;
    let n = setting.endpoints.len();
    let mut k: usize = 0;
    while k < n
        invariant
            k <= n,
            n == setting.endpoints@.len(),
            bulk_in == last_bulk(setting.endpoints@.take(k as int), Direction::In),
            bulk_out == last_bulk(setting.endpoints@.take(k as int), Direction::Out),
        decreases n - k,
    {
        let ep = setting.endpoints[k];
        proof {
            let next = setting.endpoints@.take(k + 1);
            assert(next.drop_last() =~= setting.endpoints@.take(k as int));
            assert(next.last() == ep);
        }
        match ep.transfer {
            TransferKind::Bulk => {
                match ep.direction {
                    Direction::In => {
                        bulk_in = Some(ep);
                    },
                    Direction::Out => {
                        bulk_out = Some(ep);
                    },
                }
            },
            _ => {},
        }
        k = k + 1;
    }
    assert(setting.endpoints@.take(n as int) =~= setting.endpoints@);
    match (bulk_in, bulk_out) {
        (Some(i), Some(o)) => Some(
            BulkEndpoints {
                in_ep: Endpoint {
                    address: i.address,
                    config,
                    iface: setting.interface_number,
                    setting: setting.setting_number,
                },
                out_ep: Endpoint {
                    address: o.address,
                    config,
                    iface: setting.interface_number,
                    setting: setting.setting_number,
                },
            },
        ),
        _ => None,
    }
}

/// Finds the bulk endpoint pair of a device: that of the first alternate
/// setting, by configuration, then interface, then setting, which has a bulk
/// endpoint of each direction. Configurations that could not be read are
/// passed over. Fails where no setting has both.
pub fn find_bulk_endpoints(tree: &Vec<Option<Configuration>>) -> (r: Result<BulkEndpoints, Error>)
    ensures
        selects(tree@, r),
{
    let mut c: usize = 0;
    while c < tree.len()
        invariant
            c <= tree@.len(),
            forall|c1: int, i1: int, s1: int|
                #![trigger pair_at(tree@, c1, i1, s1)]
                valid_tuple(tree@, c1, i1, s1) && c1 < c ==> pair_at(tree@, c1, i1, s1) is None,
        decreases tree@.len() - c,
    {
        match &tree[c] {
            Some(cfg) => {
                let mut i: usize = 0;
                while i < cfg.interfaces.len()
                    invariant
                        c < tree@.len(),
                        tree@[c as int] == Some(*cfg),
                        i <= cfg.interfaces@.len(),
                        forall|c1: int, i1: int, s1: int|
                            #![trigger pair_at(tree@, c1, i1, s1)]
                            valid_tuple(tree@, c1, i1, s1) && (c1 < c || (c1 == c && i1 < i))
                                ==> pair_at(tree@, c1, i1, s1) is None,
                    decreases cfg.interfaces@.len() - i,
                {
                    let iface = &cfg.interfaces[i];
                    let mut s: usize = 0;
                    while s < iface.settings.len()
                        invariant
                            c < tree@.len(),
                            tree@[c as int] == Some(*cfg),
                            i < cfg.interfaces@.len(),
                            cfg.interfaces@[i as int] == *iface,
                            s <= iface.settings@.len(),
                            forall|c1: int, i1: int, s1: int|
                                #![trigger pair_at(tree@, c1, i1, s1)]
                                valid_tuple(tree@, c1, i1, s1) && scanned_before(
                                    c1,
                                    i1,
                                    s1,
                                    c as int,
                                    i as int,
                                    s as int,
                                ) ==> pair_at(tree@, c1, i1, s1) is None,
                        decreases iface.settings@.len() - s,
                    {
                        match scan_setting(cfg.number, &iface.settings[s]) {
                            Some(pair) => {
                                assert(is_first_pair(tree@, c as int, i as int, s as int));
                                assert(pair_at(tree@, c as int, i as int, s as int) == Some(pair));
                                return Ok(pair);
                            },
                            None => {},
                        }
                        s = s + 1;
                    }
                    i = i + 1;
                }
            },
            None => {},
        }
        c = c + 1;
    }
    Err(Error::NoBulkEndpoints)
}

/// Scan order decides: at most one alternate setting is the first with a pair.
pub proof fn lemma_first_pair_unique(
    tree: Seq<Option<Configuration>>,
    c: int,
    i: int,
    s: int,
    c2: int,
    i2: int,
    s2: int,
)
    requires
        is_first_pair(tree, c, i, s),
        is_first_pair(tree, c2, i2, s2),
    ensures
        c == c2,
        i == i2,
        s == s2,
{
    if scanned_before(c, i, s, c2, i2, s2) {
        assert(pair_at(tree, c, i, s) is None);
    }
    if scanned_before(c2, i2, s2, c, i, s) {
        assert(pair_at(tree, c2, i2, s2) is None);
    }
}

/// Selection is determined by the descriptors: two results that selection may
/// give for one device are the same result.
pub proof fn lemma_selection_determined(
    tree: Seq<Option<Configuration>>,
    r1: Result<BulkEndpoints, Error>,
    r2: Result<BulkEndpoints, Error>,
)
    requires
        selects(tree, r1),
        selects(tree, r2),
    ensures
        r1 == r2,
{
    match (r1, r2) {
        (Ok(first), Ok(second)) => {
            let (c1, i1, s1) = choose|c: int, i: int, s: int|
                is_first_pair(tree, c, i, s) && #[trigger] pair_at(tree, c, i, s) == Some(first);
            let (c2, i2, s2) = choose|c: int, i: int, s: int|
                is_first_pair(tree, c, i, s) && #[trigger] pair_at(tree, c, i, s) == Some(second);
            lemma_first_pair_unique(tree, c1, i1, s1, c2, i2, s2);
        },
        (Ok(first), Err(_)) => {
            let (c1, i1, s1) = choose|c: int, i: int, s: int|
                is_first_pair(tree, c, i, s) && #[trigger] pair_at(tree, c, i, s) == Some(first);
            assert(pair_at(tree, c1, i1, s1) is None);
        },
        (Err(_), Ok(second)) => {
            let (c2, i2, s2) = choose|c: int, i: int, s: int|
                is_first_pair(tree, c, i, s) && #[trigger] pair_at(tree, c, i, s) == Some(second);
            assert(pair_at(tree, c2, i2, s2) is None);
        },
        (Err(_), Err(_)) => {},
    }
}

/// A direction is present among the endpoints exactly where one of them is a
/// bulk endpoint of that direction, and the candidate kept is such an
/// endpoint with no other of its kind after it.
pub proof fn lemma_last_bulk(eps: Seq<EndpointDescriptor>, dir: Direction)
    ensures
        last_bulk(eps, dir) is Some <==> exists|k: int|
            0 <= k < eps.len() && is_bulk(#[trigger] eps[k], dir),
        last_bulk(eps, dir) is Some ==> exists|k: int|
            0 <= k < eps.len() && #[trigger] eps[k] == last_bulk(eps, dir)->0 && is_bulk(
                eps[k],
                dir,
            ) && forall|j: int| k < j < eps.len() ==> !is_bulk(#[trigger] eps[j], dir),
    decreases eps.len(),
{
    if eps.len() > 0 {
        let n = eps.len() - 1;
        if is_bulk(eps.last(), dir) {
            assert(is_bulk(eps[n], dir));
            assert(eps[n] == last_bulk(eps, dir)->0);
        } else {
            let front = eps.drop_last();
            lemma_last_bulk(front, dir);
            if last_bulk(front, dir) is Some {
                let k = choose|k: int|
                    0 <= k < front.len() && #[trigger] front[k] == last_bulk(front, dir)->0
                        && is_bulk(front[k], dir) && forall|j: int|
                        k < j < front.len() ==> !is_bulk(#[trigger] front[j], dir);
                assert(eps[k] == front[k]);
                assert forall|j: int| k < j < eps.len() implies !is_bulk(
                    #[trigger] eps[j],
                    dir,
                ) by {
                    if j < front.len() {
                        assert(eps[j] == front[j]);
                    }
                }
                assert(is_bulk(eps[k], dir));
            } else {
                assert forall|k: int| 0 <= k < eps.len() implies !is_bulk(
                    #[trigger] eps[k],
                    dir,
                ) by {
                    if k < front.len() {
                        assert(eps[k] == front[k]);
                    }
                }
            }
        }
    }
}

/// Whether a device's identifiers could be read and are the wanted ones.
pub open spec fn is_match(d: Option<Device>, vid: u16, pid: u16) -> bool {
    d == Some(Device { vid, pid })
}

/// Picks the device to open among the attached ones, given in enumeration
/// order; an entry `None` is a device whose descriptor could not be read. The
/// first device with exactly the wanted identifiers is chosen.
pub fn find_device(devices: &Vec<Option<Device>>, vid: u16, pid: u16) -> (r: Result<usize, Error>)
    ensures
        match r {
            Ok(k) => k < devices@.len() && is_match(devices@[k as int], vid, pid) && forall|j: int|
                0 <= j < k ==> !is_match(#[trigger] devices@[j], vid, pid),
            Err(e) => e == (Error::DeviceNotFound { vid, pid }) && forall|j: int|
                0 <= j < devices@.len() ==> !is_match(#[trigger] devices@[j], vid, pid),
        },
{
    let mut k: usize = 0;
    while k < devices.len()
        invariant
            k <= devices@.len(),
            forall|j: int| 0 <= j < k ==> !is_match(#[trigger] devices@[j], vid, pid),
        decreases devices@.len() - k,
    {
        match devices[k] {
            Some(d) => {
                if d.vid == vid && d.pid == pid {
                    return Ok(k);
                }
            },
            None => {},
        }
        k = k + 1;
    }
    Err(Error::DeviceNotFound { vid, pid })
}

/// Judges the attempt to open the device that was found: a refusal is a
/// failure of its own kind, which names the device.
pub fn check_open(vid: u16, pid: u16, opened: bool) -> (r: Result<(), Error>)
    ensures
        opened ==> r == Ok::<(), Error>(()),
        !opened ==> r == Err::<(), Error>(Error::OpenFailed { vid, pid }),
{
    if opened {
        Ok(())
    } else {
        Err(Error::OpenFailed { vid, pid })
    }
}

/// Judges a bulk write that the transport reported as done: it succeeded only
/// if every byte of the packet was written.
pub fn check_bulk_write(written: usize, expected: usize) -> (r: Result<(), Error>)
    ensures
        written == expected ==> r == Ok::<(), Error>(()),
        written != expected ==> r == Err::<(), Error>(Error::ShortWrite { written, expected }),
{
    if written != expected {
        return Err(Error::ShortWrite { written, expected });
    }
    Ok(())
}

} // verus!
