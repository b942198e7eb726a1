//! Multi-sensor metering: one master stream per account aggregates the
//! latest consumption reported by each of its linked sensors (keyed by MAC
//! address) and debits their total from the account's balance.
//!
//! The sensors of a stream are kept in a vector without repeated MAC
//! addresses; its view `sensor_map` is the map from MAC address to latest
//! payload. The stream is looked up by the host and handed in (`None` when
//! the account has none); the new stream is handed back to be stored.

use vstd::prelude::*;

use crate::address::Address;
use crate::arith::fits_i128;

verus! {

/// A stream with more linked sensors than this violates the invariants.
pub const MAX_LINKED_SENSORS: usize = 10;

/// The latest consumption payload reported by one sensor.
#[derive(Debug)]
pub struct SensorReading {
    pub mac: String,
    pub payload: i128,
}

impl Clone for SensorReading {
    fn clone(&self) -> (r: SensorReading)
        ensures
            r == *self,
    {
        SensorReading { mac: self.mac.clone(), payload: self.payload }
    }
}

/// An account's master stream.
#[derive(Debug)]
pub struct MasterStream {
    pub account: Address,
    /// The linked sensors, each MAC address at most once.
    pub sensors: Vec<SensorReading>,
    pub balance: i128,
}

/// Why a sensor operation was refused.
#[derive(Clone, Copy, Debug, PartialEq, Eq, Structural)]
pub enum SensorError {
    /// The account has no master stream.
    StreamNotFound,
    /// The MAC address is not linked to the stream.
    SensorNotRegistered,
    /// The stream's balance is negative.
    BalanceInvariantViolated,
    /// More than `MAX_LINKED_SENSORS` sensors are linked.
    TooManySensors,
}

/// The readings as (MAC address, payload) pairs.
pub open spec fn entries(sensors: Seq<SensorReading>) -> Seq<(Seq<char>, i128)> {
    sensors.map_values(|r: SensorReading| (r.mac@, r.payload))
}

/// The MAC addresses of a sequence of pairs, in order.
pub open spec fn keys(e: Seq<(Seq<char>, i128)>) -> Seq<Seq<char>> {
    e.map_values(|p: (Seq<char>, i128)| p.0)
}

/// The map from key to value of a sequence of pairs (a later pair wins).
pub open spec fn to_map(e: Seq<(Seq<char>, i128)>) -> Map<Seq<char>, i128>
    decreases e.len(),
{
    if e.len() == 0 {
        Map::empty()
    } else {
        to_map(e.drop_last()).insert(e.last().0, e.last().1)
    }
}

/// The sum of a sequence of payloads.
pub open spec fn seq_sum(s: Seq<i128>) -> int
    decreases s.len(),
{
    if s.len() == 0 {
        0
    } else {
        seq_sum(s.drop_last()) + s.last()
    }
}

/// `true` when adding up `s` from the first element on never leaves the range
/// of `i128`.
pub open spec fn prefix_sums_fit(s: Seq<i128>) -> bool {
    forall|k: int| 0 <= k <= s.len() ==> #[trigger] fits_i128(seq_sum(s.take(k)))
}

impl MasterStream {
    /// No MAC address is linked twice.
    pub open spec fn wf(self) -> bool {
        keys(entries(self.sensors@)).no_duplicates()
    }

    /// Latest payload of each linked sensor, by MAC address.
    pub open spec fn sensor_map(self) -> Map<Seq<char>, i128> {
        to_map(entries(self.sensors@))
    }

    /// The payloads in the order they are added up.
    pub open spec fn payloads(self) -> Seq<i128> {
        self.sensors@.map_values(|r: SensorReading| r.payload)
    }

    /// The payloads once `mac` reports `payload`.
    pub open spec fn payloads_with(self, mac: Seq<char>, payload: i128) -> Seq<i128> {
        self.sensors@.map_values(
            |r: SensorReading|
                if r.mac@ == mac {
                    payload
                } else {
                    r.payload
                },
        )
    }
}

/// The sensors of the stored stream; a stream that does not exist yet has
/// none.
pub open spec fn linked_or_none(stored: Option<MasterStream>) -> Map<Seq<char>, i128> {
    match stored {
        Some(s) => s.sensor_map(),
        None => Map::empty(),
    }
}

/// The owner of the stored stream, or `account` for a stream that does not
/// exist yet.
pub open spec fn owner_or(stored: Option<MasterStream>, account: Address) -> Address {
    match stored {
        Some(s) => s.account,
        None => account,
    }
}

/// The balance of the stored stream; a stream that does not exist yet starts
/// at zero.
pub open spec fn balance_or_zero(stored: Option<MasterStream>) -> i128 {
    match stored {
        Some(s) => s.balance,
        None => 0,
    }
}

/// `true` when aggregating after `mac` reports `payload` does not overflow:
/// every partial sum of the payloads, and the debited balance, fit in an
/// `i128`.
pub open spec fn aggregation_defined(
    stored: Option<MasterStream>,
    mac: Seq<char>,
    payload: i128,
) -> bool {
    match stored {
        Some(s) => s.sensor_map().contains_key(mac) ==> {
            &&& prefix_sums_fit(s.payloads_with(mac, payload))
            &&& fits_i128(s.balance - seq_sum(s.payloads_with(mac, payload)))
        },
        None => true,
    }
}

proof fn lemma_to_map_dom(e: Seq<(Seq<char>, i128)>)
    ensures
        to_map(e).dom() == keys(e).to_set(),
        to_map(e).dom().finite(),
    decreases e.len(),
{
    if e.len() > 0 {
        lemma_to_map_dom(e.drop_last());
        assert(keys(e.drop_last()) =~= keys(e).drop_last());
        assert(keys(e).to_set() =~= keys(e.drop_last()).to_set().insert(e.last().0)) by {
            assert forall|k: Seq<char>| keys(e).to_set().contains(k) implies keys(
                e.drop_last(),
            ).to_set().insert(e.last().0).contains(k) by {
                let i = choose|i: int| 0 <= i < keys(e).len() && keys(e)[i] == k;
                if i < e.len() - 1 {
                    assert(keys(e.drop_last())[i] == k);
                }
            }
            assert forall|k: Seq<char>|
                keys(e.drop_last()).to_set().insert(e.last().0).contains(k) implies keys(
                e,
            ).to_set().contains(k) by {
                if k == e.last().0 {
                    assert(keys(e)[e.len() - 1] == k);
                } else {
                    let i = choose|i: int|
                        0 <= i < keys(e.drop_last()).len() && keys(e.drop_last())[i] == k;
                    assert(keys(e)[i] == k);
                }
            }
        }
    } else {
        assert(keys(e).to_set() =~= Set::empty());
    }
}

proof fn lemma_to_map_len(e: Seq<(Seq<char>, i128)>)
    requires
        keys(e).no_duplicates(),
    ensures
        to_map(e).dom().len() == e.len(),
{
    lemma_to_map_dom(e);
    keys(e).unique_seq_to_set();
}

proof fn lemma_to_map_update(e: Seq<(Seq<char>, i128)>, i: int, v: i128)
    requires
        keys(e).no_duplicates(),
        0 <= i < e.len(),
    ensures
        to_map(e.update(i, (e[i].0, v))) == to_map(e).insert(e[i].0, v),
    decreases e.len(),
{
    let k = e[i].0;
    let u = e.update(i, (k, v));
    if i == e.len() - 1 {
        assert(u.drop_last() =~= e.drop_last());
        assert(to_map(e).insert(k, v) =~= to_map(e.drop_last()).insert(k, v));
    } else {
        let d = e.drop_last();
        assert(keys(d) =~= keys(e).drop_last());
        assert(d[i] == e[i]);
        lemma_to_map_update(d, i, v);
        assert(u.drop_last() =~= d.update(i, (k, v)));
        assert(keys(e)[i] != keys(e)[e.len() - 1]);
        assert(to_map(u) =~= to_map(e).insert(k, v));
    }
}

proof fn lemma_to_map_remove(e: Seq<(Seq<char>, i128)>, i: int)
    requires
        keys(e).no_duplicates(),
        0 <= i < e.len(),
    ensures
        to_map(e.remove(i)) == to_map(e).remove(e[i].0),
        keys(e.remove(i)).no_duplicates(),
    decreases e.len(),
{
    let k = e[i].0;
    let d = e.drop_last();
    assert(keys(d) =~= keys(e).drop_last());
    assert(keys(e.remove(i)) =~= keys(e).remove(i));
    if i == e.len() - 1 {
        assert(e.remove(i) =~= d);
        lemma_to_map_dom(d);
        assert(!keys(d).contains(k)) by {
            if keys(d).contains(k) {
                let j = choose|j: int| 0 <= j < keys(d).len() && keys(d)[j] == k;
                assert(keys(e)[j] == keys(e)[i]);
            }
        }
        assert(to_map(e).remove(k) =~= to_map(d));
    } else {
        assert(d[i] == e[i]);
        lemma_to_map_remove(d, i);
        assert(e.remove(i).drop_last() =~= d.remove(i));
        assert(e.remove(i).last() == e.last());
        assert(keys(e)[i] != keys(e)[e.len() - 1]);
        assert(to_map(e.remove(i)) =~= to_map(e).remove(k));
    }
}

proof fn lemma_prefix_sum_step(s: Seq<i128>, k: int)
    requires
        0 <= k < s.len(),
    ensures
        seq_sum(s.take(k + 1)) == seq_sum(s.take(k)) + s[k],
{
    assert(s.take(k + 1).drop_last() =~= s.take(k));
}

/// The position of the sensor with MAC address `mac`, if it is linked.
fn find_sensor(sensors: &Vec<SensorReading>, mac: &String) -> (r: Option<usize>)
    ensures
        match r {
            Some(i) => i < sensors@.len() && sensors@[i as int].mac@ == mac@,
            None => forall|j: int| 0 <= j < sensors@.len() ==> sensors@[j].mac@ != mac@,
        },
{
    let mut i: usize = 0;
    while i < sensors.len()
        invariant
            i <= sensors@.len(),
            forall|j: int| 0 <= j < i ==> sensors@[j].mac@ != mac@,
        decreases sensors@.len() - i,
    {
        if sensors[i].mac == *mac {
            return Some(i);
        }
        i = i + 1;
    }
    None
}

proof fn lemma_linked_iff_listed(s: MasterStream, mac: Seq<char>)
    ensures
        s.sensor_map().contains_key(mac) <==> exists|j: int|
            0 <= j < s.sensors@.len() && s.sensors@[j].mac@ == mac,
{
    lemma_to_map_dom(entries(s.sensors@));
    if s.sensor_map().contains_key(mac) {
        let j = choose|j: int|
            0 <= j < keys(entries(s.sensors@)).len() && keys(entries(s.sensors@))[j] == mac;
        assert(s.sensors@[j].mac@ == mac);
    }
    if exists|j: int| 0 <= j < s.sensors@.len() && s.sensors@[j].mac@ == mac {
        let j = choose|j: int| 0 <= j < s.sensors@.len() && s.sensors@[j].mac@ == mac;
        assert(keys(entries(s.sensors@))[j] == mac);
    }
}

/// Link the sensor `mac` to the account's stream, creating the stream when
/// the account has none; the sensor's payload starts at zero (a sensor that
/// was already linked has its payload reset).
pub fn add_sensor(stored: Option<MasterStream>, account: Address, mac: String) -> (s: MasterStream)
    requires
        stored matches Some(t) ==> t.wf(),
    ensures
        s.wf(),
        s.sensor_map() == linked_or_none(stored).insert(mac@, 0),
        s.account == owner_or(stored, account),
        s.balance == balance_or_zero(stored),
{
    let mut stream = match stored {
        Some(t) => t,
        None => MasterStream { account, sensors: Vec::new(), balance: 0 },
    };
    proof {
        if stored is None {
            assert(stream.sensor_map() =~= Map::empty());
        }
    }
    let ghost before = stream.sensors@;
    match find_sensor(&stream.sensors, &mac) {
        Some(i) => {
            let ghost e = entries(before);
            stream.sensors.set(i, SensorReading { mac, payload: 0 });
            proof {
                assert(entries(stream.sensors@) =~= e.update(i as int, (e[i as int].0, 0)));
                assert(keys(entries(stream.sensors@)) =~= keys(e));
                lemma_to_map_update(e, i as int, 0);
            }
        },
        None => {
            let ghost m = mac@;
            stream.sensors.push(SensorReading { mac, payload: 0 });
            proof {
                let e = entries(before);
                assert(entries(stream.sensors@) =~= e.push((m, 0)));
                assert(entries(stream.sensors@).drop_last() =~= e);
                assert(keys(entries(stream.sensors@)) =~= keys(e).push(m));
            }
        },
    }
    stream
}

/// Unlink the sensor `mac` from the account's stream (nothing changes when it
/// is not linked).
pub fn remove_sensor(stored: Option<MasterStream>, mac: &String) -> (r: Result<
    MasterStream,
    SensorError,
>)
    requires
        stored matches Some(t) ==> t.wf(),
    ensures
        match stored {
            None => r == Err::<MasterStream, SensorError>(SensorError::StreamNotFound),
            Some(t) => r matches Ok(s) && {
                &&& s.wf()
                &&& s.sensor_map() == t.sensor_map().remove(mac@)
                &&& s.account == t.account
                &&& s.balance == t.balance
            },
        },
{
    let mut stream = match stored {
        Some(t) => t,
        None => return Err(SensorError::StreamNotFound),
    };
    let ghost before = stream.sensors@;
    match find_sensor(&stream.sensors, mac) {
        Some(i) => {
            stream.sensors.remove(i);
            proof {
                let e = entries(before);
                assert(entries(stream.sensors@) =~= e.remove(i as int));
                lemma_to_map_remove(e, i as int);
            }
        },
        None => {
            proof {
                let e = entries(before);
                lemma_to_map_dom(e);
                assert(!keys(e).contains(mac@)) by {
                    if keys(e).contains(mac@) {
                        let j = choose|j: int| 0 <= j < keys(e).len() && keys(e)[j] == mac@;
                        assert(before[j].mac@ == mac@);
                    }
                }
                assert(to_map(e).remove(mac@) =~= to_map(e));
            }
        },
    }
    Ok(stream)
}

/// `true` when `record_consumption` is defined for these inputs (the on-chain entry point
/// panics on an overflow of the total or of the balance otherwise).
pub fn aggregation_is_defined(stored: &Option<MasterStream>, mac: &String, payload: i128) -> (r:
    bool)
    ensures
        r == aggregation_defined(*stored, mac@, payload),
{
    let s = match stored {
        Some(s) => s,
        None => return true,
    };
    proof {
        lemma_linked_iff_listed(*s, mac@);
    }
    let found = match find_sensor(&s.sensors, mac) {
        Some(i) => i,
        None => return true,
    };
    assert(s.sensor_map().contains_key(mac@)) by {
        assert(s.sensors@[found as int].mac@ == mac@);
    }
    let ghost p = s.payloads_with(mac@, payload);
    let n = s.sensors.len();
    let mut total: i128 = 0;
    let mut k: usize = 0;
    while k < n
        invariant
            n == s.sensors@.len(),
            *stored == Some(*s),
            s.sensor_map().contains_key(mac@),
            p == s.payloads_with(mac@, payload),
            k <= n,
            total == seq_sum(p.take(k as int)),
            forall|j: int| 0 <= j <= k ==> #[trigger] fits_i128(seq_sum(p.take(j))),
        decreases n - k,
    {
        let v = if s.sensors[k].mac == *mac {
            payload
        } else {
            s.sensors[k].payload
        };
        proof {
            lemma_prefix_sum_step(p, k as int);
            assert(p[k as int] == v);
        }
        match total.checked_add(v) {
            Some(t) => total = t,
            None => {
                proof {
                    let j = k + 1;
                    assert(!fits_i128(seq_sum(p.take(j as int))));
                }
                return false;
            },
        }
        k = k + 1;
    }
    proof {
        assert(p.take(n as int) =~= p);
    }
    s.balance.checked_sub(total).is_some()
}

/// Record the latest `payload` of the linked sensor `mac`, then debit the
/// total of all linked sensors' payloads from the stream's balance. Returns
/// the stream and that total.
pub fn record_consumption(stored: Option<MasterStream>, mac: String, payload: i128) -> (r: Result<
    (MasterStream, i128),
    SensorError,
>)
    requires
        stored matches Some(t) ==> t.wf(),
        aggregation_defined(stored, mac@, payload),
    ensures
        match stored {
            None => r == Err::<(MasterStream, i128), SensorError>(SensorError::StreamNotFound),
            Some(t) => if !t.sensor_map().contains_key(mac@) {
                r == Err::<(MasterStream, i128), SensorError>(SensorError::SensorNotRegistered)
            } else {
                r matches Ok((s, total)) && {
                    &&& s.wf()
                    &&& s.sensor_map() == t.sensor_map().insert(mac@, payload)
                    &&& s.payloads() == t.payloads_with(mac@, payload)
                    &&& total == seq_sum(s.payloads())
                    &&& s.balance == t.balance - total
                    &&& s.account == t.account
                }
            },
        },
{
    let mut stream = match stored {
        Some(t) => t,
        None => return Err(SensorError::StreamNotFound),
    };
    let ghost t = stream;
    proof {
        lemma_linked_iff_listed(t, mac@);
    }
    let i = match find_sensor(&stream.sensors, &mac) {
        Some(i) => i,
        None => return Err(SensorError::SensorNotRegistered),
    };
    let ghost m = mac@;
    let ghost e = entries(t.sensors@);
    stream.sensors.set(i, SensorReading { mac, payload });
    proof {
        assert(entries(stream.sensors@) =~= e.update(i as int, (e[i as int].0, payload)));
        assert(keys(entries(stream.sensors@)) =~= keys(e));
        lemma_to_map_update(e, i as int, payload);
        assert(stream.payloads() =~= t.payloads_with(m, payload)) by {
            assert forall|j: int| 0 <= j < t.sensors@.len() implies stream.payloads()[j]
                == t.payloads_with(m, payload)[j] by {
                if j != i {
                    assert(keys(e)[j] != keys(e)[i as int]);
                }
            }
        }
    }
    let mut total: i128 = 0;
    let n = stream.sensors.len();
    let mut k: usize = 0;
    while k < n
        invariant
            n == stream.sensors@.len(),
            k <= n,
            prefix_sums_fit(stream.payloads()),
            total == seq_sum(stream.payloads().take(k as int)),
        decreases n - k,
    {
        proof {
            lemma_prefix_sum_step(stream.payloads(), k as int);
            assert(fits_i128(seq_sum(stream.payloads().take(k + 1))));
        }
        total = total + stream.sensors[k].payload;
        k = k + 1;
    }
    proof {
        assert(stream.payloads().take(n as int) =~= stream.payloads());
    }
    stream.balance = stream.balance - total;
    Ok((stream, total))
}

/// Check the stream's invariants: its balance is not negative and at most
/// `MAX_LINKED_SENSORS` sensors are linked.
pub fn validate_invariants(stored: &Option<MasterStream>) -> (r: Result<(), SensorError>)
    requires
        stored matches Some(t) ==> t.wf(),
    ensures
        r == (match stored {
            None => Err(SensorError::StreamNotFound),
            Some(t) => if t.balance < 0 {
                Err(SensorError::BalanceInvariantViolated)
            } else if t.sensor_map().dom().len() > MAX_LINKED_SENSORS {
                Err(SensorError::TooManySensors)
            } else {
                Ok(())
            },
        }),
{
    let stream = match stored {
        Some(t) => t,
        None => return Err(SensorError::StreamNotFound),
    };
    if stream.balance < 0 {
        return Err(SensorError::BalanceInvariantViolated);
    }
    proof {
        lemma_to_map_len(entries(stream.sensors@));
    }
    if stream.sensors.len() > MAX_LINKED_SENSORS {
        return Err(SensorError::TooManySensors);
    }
    Ok(())
}

/// On the map of linked sensors: a sensor just added is linked with a zero
/// payload, a sensor just removed is no longer linked (so its reports are
/// refused), and of two reports from one sensor only the latest is kept.
pub proof fn law_sensor_lifecycle(
    linked: Map<Seq<char>, i128>,
    mac: Seq<char>,
    first: i128,
    latest: i128,
)
    ensures
        linked.insert(mac, 0).contains_key(mac),
        linked.insert(mac, 0)[mac] == 0,
        !linked.remove(mac).contains_key(mac),
        linked.insert(mac, first).insert(mac, latest) == linked.insert(mac, latest),
{
    assert(linked.insert(mac, first).insert(mac, latest) =~= linked.insert(mac, latest));
}

} // verus!
