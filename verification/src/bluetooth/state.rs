//! The shell's picture of the Bluetooth adapter and its known devices.

use vstd::prelude::*;

verus! {

/// A Bluetooth device address: its 48 bits, most significant octet first.
pub type Address = u64;

/// A point-in-time snapshot of a remote device's properties.
///
/// Reading these from the device takes a D-Bus round trip; keeping the
/// snapshot lets the UI render device rows and tooltips from cached data.
#[derive(Debug)]
pub struct DeviceInfo {
    pub address: Address,
    /// The device's display name. Falls back to the remote device name if
    /// no alias has been set.
    pub alias: String,
    pub icon: Option<String>,
    pub paired: bool,
    pub trusted: bool,
    pub connected: bool,
    /// Signal strength, if the device is currently visible in a scan.
    pub rssi: Option<i16>,
    pub battery_percentage: Option<u8>,
}

/// What BlueZ is asking us for, or asking us to show, during pairing.
#[derive(Debug, Clone)]
pub enum PairingRequest {
    /// The remote device needs a PIN code (legacy, pre-2.1 devices).
    PinCode,
    /// The remote device needs a numeric passkey (0-999999).
    Passkey,
    /// Confirm that this passkey matches what's displayed on the remote
    /// device.
    ConfirmPasskey(u32),
    /// Authorize the pairing with no code exchange (just-works model).
    Authorize,
    /// Display this PIN code; the user types it on the *other* device.
    DisplayPinCode(String),
    /// Display this passkey; the user types it on the *other* device.
    /// `entered` counts how many digits they've typed there so far.
    DisplayPasskey { passkey: u32, entered: u16 },
}

/// A pairing prompt awaiting the user: which device asks, and for what.
#[derive(Debug, Clone)]
pub struct PairingPrompt {
    pub address: Address,
    pub request: PairingRequest,
}

/// A property of a remote device that changed, as BlueZ reports it.
#[derive(Debug)]
pub enum DeviceProperty {
    Connected(bool),
    Alias(String),
    Icon(String),
    Paired(bool),
    Trusted(bool),
    Rssi(i16),
    BatteryPercentage(u8),
    /// A property the shell does not track.
    Other,
}

/// A device snapshot after a property change.
pub open spec fn with_property(d: DeviceInfo, p: DeviceProperty) -> DeviceInfo {
    match p {
        DeviceProperty::Connected(c) => DeviceInfo { connected: c, ..d },
        DeviceProperty::Alias(alias) => DeviceInfo { alias, ..d },
        DeviceProperty::Icon(icon) => DeviceInfo { icon: Some(icon), ..d },
        DeviceProperty::Paired(paired) => DeviceInfo { paired, ..d },
        DeviceProperty::Trusted(trusted) => DeviceInfo { trusted, ..d },
        DeviceProperty::Rssi(rssi) => DeviceInfo { rssi: Some(rssi), ..d },
        DeviceProperty::BatteryPercentage(pct) => DeviceInfo { battery_percentage: Some(pct), ..d },
        DeviceProperty::Other => d,
    }
}

/// A property change of a device sets exactly the field it reports to the
/// reported value (alias, connection, pairing, trust, icon, signal strength
/// or battery level) and leaves the device's address and every other field
/// as they were; a property the shell does not track changes nothing.
pub proof fn lemma_property_sets_its_field(d: DeviceInfo, p: DeviceProperty)
    ensures
        ({
            let after = with_property(d, p);
            &&& after.address == d.address
            &&& after.connected == match p {
                DeviceProperty::Connected(c) => c,
                _ => d.connected,
            }
            &&& after.alias == match p {
                DeviceProperty::Alias(a) => a,
                _ => d.alias,
            }
            &&& after.icon == match p {
                DeviceProperty::Icon(i) => Some(i),
                _ => d.icon,
            }
            &&& after.paired == match p {
                DeviceProperty::Paired(x) => x,
                _ => d.paired,
            }
            &&& after.trusted == match p {
                DeviceProperty::Trusted(t) => t,
                _ => d.trusted,
            }
            &&& after.rssi == match p {
                DeviceProperty::Rssi(r) => Some(r),
                _ => d.rssi,
            }
            &&& after.battery_percentage == match p {
                DeviceProperty::BatteryPercentage(b) => Some(b),
                _ => d.battery_percentage,
            }
        }),
{
}

/// The devices of a list by address; where an address occurs twice, the
/// later entry wins.
pub open spec fn by_address(list: Seq<DeviceInfo>) -> Map<Address, DeviceInfo>
    decreases list.len(),
{
    if list.len() == 0 {
        Map::empty()
    } else {
        by_address(list.drop_last()).insert(list.last().address, list.last())
    }
}

/// No address occurs twice in the list.
pub open spec fn addresses_distinct(list: Seq<DeviceInfo>) -> bool {
    forall|i: int, j: int|
        0 <= i < list.len() && 0 <= j < list.len() && i != j ==> #[trigger] list[i].address
            != #[trigger] list[j].address
}

/// The addresses of the connected devices.
pub open spec fn connected_addresses(devices: Map<Address, DeviceInfo>) -> Set<Address> {
    devices.dom().filter(|a: Address| devices[a].connected)
}

proof fn lemma_by_address_finite(list: Seq<DeviceInfo>)
    ensures
        by_address(list).dom().finite(),
    decreases list.len(),
{
    if list.len() > 0 {
        lemma_by_address_finite(list.drop_last());
    }
}

/// An address is tracked exactly when some entry carries it, and a
/// distinct list maps each entry's address to that entry.
proof fn lemma_by_address_entries(list: Seq<DeviceInfo>)
    requires
        addresses_distinct(list),
    ensures
        forall|a: Address|
            by_address(list).dom().contains(a) <==> exists|i: int|
                0 <= i < list.len() && #[trigger] list[i].address == a,
        forall|i: int| 0 <= i < list.len() ==> by_address(list)[#[trigger] list[i].address] == list[i],
    decreases list.len(),
{
    if list.len() > 0 {
        let init = list.drop_last();
        assert(addresses_distinct(init)) by {
            assert forall|i: int, j: int|
                0 <= i < init.len() && 0 <= j < init.len() && i != j implies #[trigger] init[i].address
                != #[trigger] init[j].address by {
                assert(init[i] == list[i] && init[j] == list[j]);
            }
        }
        lemma_by_address_entries(init);
        assert forall|a: Address| by_address(list).dom().contains(a) <==> exists|i: int|
            0 <= i < list.len() && #[trigger] list[i].address == a by {
            if by_address(list).dom().contains(a) {
                if a != list.last().address {
                    assert(by_address(init).dom().contains(a));
                    let i = choose|i: int| 0 <= i < init.len() && #[trigger] init[i].address == a;
                    assert(list[i] == init[i]);
                } else {
                    assert(list[list.len() - 1].address == a);
                }
            }
            if exists|i: int| 0 <= i < list.len() && #[trigger] list[i].address == a {
                let i = choose|i: int| 0 <= i < list.len() && #[trigger] list[i].address == a;
                if i < list.len() - 1 {
                    assert(init[i] == list[i]);
                    assert(init[i].address == a);
                }
            }
        }
        assert forall|i: int| 0 <= i < list.len() implies by_address(list)[#[trigger] list[i].address]
            == list[i] by {
            if i < list.len() - 1 {
                assert(list[i] == init[i]);
                assert(list[i].address != list[list.len() - 1].address);
            }
        }
    }
}

/// Pushing a device with a new address adds exactly that device.
proof fn lemma_push_new(list: Seq<DeviceInfo>, info: DeviceInfo)
    requires
        addresses_distinct(list),
        !by_address(list).dom().contains(info.address),
    ensures
        addresses_distinct(list.push(info)),
        by_address(list.push(info)) == by_address(list).insert(info.address, info),
{
    lemma_by_address_entries(list);
    let pushed = list.push(info);
    assert(pushed.drop_last() =~= list);
    assert forall|i: int, j: int|
        0 <= i < pushed.len() && 0 <= j < pushed.len() && i != j implies #[trigger] pushed[i].address
        != #[trigger] pushed[j].address by {
        if i < list.len() && j < list.len() {
            assert(pushed[i] == list[i] && pushed[j] == list[j]);
        } else if i < list.len() {
            assert(pushed[i] == list[i]);
            assert(by_address(list).dom().contains(list[i].address));
        } else if j < list.len() {
            assert(pushed[j] == list[j]);
            assert(by_address(list).dom().contains(list[j].address));
        }
    }
}

/// Replacing the entry at `i` with a device of the same address replaces
/// that device.
proof fn lemma_replace_at(list: Seq<DeviceInfo>, i: int, info: DeviceInfo)
    requires
        addresses_distinct(list),
        0 <= i < list.len(),
        list[i].address == info.address,
    ensures
        addresses_distinct(list.update(i, info)),
        by_address(list.update(i, info)) == by_address(list).insert(info.address, info),
{
    let updated = list.update(i, info);
    assert(addresses_distinct(updated)) by {
        assert forall|p: int, q: int|
            0 <= p < updated.len() && 0 <= q < updated.len() && p != q implies #[trigger] updated[p].address
            != #[trigger] updated[q].address by {
            assert(updated[p].address == list[p].address);
            assert(updated[q].address == list[q].address);
        }
    }
    lemma_by_address_entries(list);
    lemma_by_address_entries(updated);
    assert(by_address(updated) =~= by_address(list).insert(info.address, info)) by {
        assert forall|a: Address| #[trigger] by_address(updated).dom().contains(a) <==> by_address(
            list,
        ).insert(info.address, info).dom().contains(a) by {
            if by_address(updated).dom().contains(a) {
                let k = choose|k: int| 0 <= k < updated.len() && #[trigger] updated[k].address == a;
                assert(list[k].address == a);
            }
            if by_address(list).dom().contains(a) {
                let k = choose|k: int| 0 <= k < list.len() && #[trigger] list[k].address == a;
                assert(updated[k].address == a);
            }
            if a == info.address {
                assert(updated[i].address == a);
            }
        }
        assert forall|a: Address| #[trigger] by_address(updated).dom().contains(a) implies by_address(
            updated,
        )[a] == by_address(list).insert(info.address, info)[a] by {
            let k = choose|k: int| 0 <= k < updated.len() && #[trigger] updated[k].address == a;
            assert(by_address(updated)[updated[k].address] == updated[k]);
            if k != i {
                assert(updated[k] == list[k]);
                assert(by_address(list)[list[k].address] == list[k]);
            }
        }
    }
}

/// Removing the entry at `i` removes that device.
proof fn lemma_remove_at(list: Seq<DeviceInfo>, i: int)
    requires
        addresses_distinct(list),
        0 <= i < list.len(),
    ensures
        addresses_distinct(list.remove(i)),
        by_address(list.remove(i)) == by_address(list).remove(list[i].address),
{
    let removed = list.remove(i);
    let a0 = list[i].address;
    assert(addresses_distinct(removed)) by {
        assert forall|p: int, q: int|
            0 <= p < removed.len() && 0 <= q < removed.len() && p != q implies #[trigger] removed[p].address
            != #[trigger] removed[q].address by {
            let pp = if p < i {
                p
            } else {
                p + 1
            };
            let qq = if q < i {
                q
            } else {
                q + 1
            };
            assert(removed[p] == list[pp] && removed[q] == list[qq]);
        }
    }
    lemma_by_address_entries(list);
    lemma_by_address_entries(removed);
    assert(by_address(removed) =~= by_address(list).remove(a0)) by {
        assert forall|a: Address| #[trigger] by_address(removed).dom().contains(a) <==> by_address(
            list,
        ).remove(a0).dom().contains(a) by {
            if by_address(removed).dom().contains(a) {
                let k = choose|k: int| 0 <= k < removed.len() && #[trigger] removed[k].address == a;
                let kk = if k < i {
                    k
                } else {
                    k + 1
                };
                assert(removed[k] == list[kk]);
                assert(list[kk].address == a);
            }
            if by_address(list).dom().contains(a) && a != a0 {
                let k = choose|k: int| 0 <= k < list.len() && #[trigger] list[k].address == a;
                if k < i {
                    assert(removed[k] == list[k]);
                } else {
                    assert(removed[k - 1] == list[k]);
                }
            }
        }
        assert forall|a: Address| #[trigger] by_address(removed).dom().contains(a) implies by_address(
            removed,
        )[a] == by_address(list)[a] by {
            let k = choose|k: int| 0 <= k < removed.len() && #[trigger] removed[k].address == a;
            let kk = if k < i {
                k
            } else {
                k + 1
            };
            assert(removed[k] == list[kk]);
            assert(by_address(removed)[removed[k].address] == removed[k]);
            assert(by_address(list)[list[kk].address] == list[kk]);
        }
    }
}

/// The number of connected entries in a list.
pub open spec fn connected_in(list: Seq<DeviceInfo>) -> nat
    decreases list.len(),
{
    if list.len() == 0 {
        0
    } else {
        connected_in(list.drop_last()) + if list.last().connected {
            1nat
        } else {
            0nat
        }
    }
}

/// In a distinct list, counting connected entries counts connected devices.
proof fn lemma_connected_in(list: Seq<DeviceInfo>)
    requires
        addresses_distinct(list),
    ensures
        connected_addresses(by_address(list)).finite(),
        connected_in(list) == connected_addresses(by_address(list)).len(),
    decreases list.len(),
{
    lemma_by_address_finite(list);
    by_address(list).dom().lemma_len_filter(|a: Address| by_address(list)[a].connected);
    if list.len() == 0 {
        assert(connected_addresses(by_address(list)) =~= Set::empty());
    } else {
        let init = list.drop_last();
        let x = list.last();
        assert(init.push(x) =~= list);
        assert(addresses_distinct(init)) by {
            assert forall|i: int, j: int|
                0 <= i < init.len() && 0 <= j < init.len() && i != j implies #[trigger] init[i].address
                != #[trigger] init[j].address by {
                assert(init[i] == list[i] && init[j] == list[j]);
            }
        }
        lemma_connected_in(init);
        lemma_by_address_entries(init);
        assert(!by_address(init).dom().contains(x.address)) by {
            if by_address(init).dom().contains(x.address) {
                let k = choose|k: int| 0 <= k < init.len() && #[trigger] init[k].address == x.address;
                assert(list[k] == init[k]);
                assert(list[list.len() - 1] == x);
            }
        }
        let before = connected_addresses(by_address(init));
        let after = connected_addresses(by_address(list));
        if x.connected {
            assert(after =~= before.insert(x.address));
        } else {
            assert(after =~= before);
        }
    }
}

/// The shell's picture of the Bluetooth adapter: whether it is powered and
/// discovering, and a snapshot of each known device, one per address.
#[derive(Debug)]
pub struct BluetoothState {
    devices: Vec<DeviceInfo>,
    discovering: bool,
    powered: bool,
}

impl BluetoothState {
    /// Each device is tracked once.
    #[verifier::type_invariant]
    closed spec fn one_entry_per_device(&self) -> bool {
        addresses_distinct(self.devices@)
    }

    /// The known devices, by address.
    pub closed spec fn device_map(&self) -> Map<Address, DeviceInfo> {
        by_address(self.devices@)
    }

    /// Whether the adapter is powered.
    pub closed spec fn is_powered(&self) -> bool {
        self.powered
    }

    /// Whether the adapter is discovering devices.
    pub closed spec fn is_discovering(&self) -> bool {
        self.discovering
    }

    /// The state after a full poll of the adapter: its flags and a snapshot
    /// of each device, a later snapshot of an address replacing an earlier
    /// one.
    pub fn new(powered: bool, discovering: bool, devices: Vec<DeviceInfo>) -> (s: Self)
        ensures
            s.is_powered() == powered,
            s.is_discovering() == discovering,
            s.device_map() == by_address(devices@),
    {
        let mut state = BluetoothState { devices: Vec::new(), discovering, powered };
        let mut rest = devices;
        let ghost all = rest@;
        let mut taken: Vec<DeviceInfo> = Vec::new();
        // move the snapshots over in their original order
        let n = rest.len();
        let mut reversed: Vec<DeviceInfo> = Vec::new();
        while rest.len() > 0
            invariant
                reversed@.len() + rest@.len() == n,
                n == all.len(),
                rest@ == all.subrange(0, rest@.len() as int),
                forall|k: int| 0 <= k < reversed@.len() ==> #[trigger] reversed@[k] == all[n - 1 - k],
            decreases rest.len(),
        {
            let d = rest.pop().unwrap();
            reversed.push(d);
        }
        let mut i: usize = 0;
        while reversed.len() > 0
            invariant
                reversed@.len() + i == n,
                n == all.len(),
                forall|k: int| 0 <= k < reversed@.len() ==> #[trigger] reversed@[k] == all[n - 1 - k],
                state.device_map() == by_address(all.subrange(0, i as int)),
                state.is_powered() == powered,
                state.is_discovering() == discovering,
            decreases reversed.len(),
        {
            let d = reversed.pop().unwrap();
            proof {
                assert(d == all[i as int]);
                assert(all.subrange(0, i + 1).drop_last() =~= all.subrange(0, i as int));
            }
            state.insert_device(d);
            i = i + 1;
        }
        proof {
            assert(all.subrange(0, n as int) =~= all);
        }
        state
    }

    /// The known devices.
    pub fn devices(&self) -> (d: &Vec<DeviceInfo>)
        ensures
            by_address(d@) == self.device_map(),
            addresses_distinct(d@),
    {
        proof {
            use_type_invariant(self);
        }
        &self.devices
    }

    /// Whether the adapter is powered.
    pub fn powered(&self) -> (b: bool)
        ensures
            b == self.is_powered(),
    {
        self.powered
    }

    /// Whether the adapter is discovering devices.
    pub fn discovering(&self) -> (b: bool)
        ensures
            b == self.is_discovering(),
    {
        self.discovering
    }

    /// Number of currently-connected devices.
    ///
    /// Derived from the device snapshots on every read, so it can never
    /// drift out of sync with the devices it counts.
    pub fn connected_device_count(&self) -> (n: usize)
        ensures
            n == connected_addresses(self.device_map()).len(),
    {
        proof {
            use_type_invariant(self);
            lemma_connected_in(self.devices@);
        }
        let mut count: usize = 0;
        let mut i: usize = 0;
        while i < self.devices.len()
            invariant
                i <= self.devices@.len(),
                count == connected_in(self.devices@.subrange(0, i as int)),
                count <= i,
            decreases self.devices.len() - i,
        {
            proof {
                assert(self.devices@.subrange(0, i + 1).drop_last() =~= self.devices@.subrange(
                    0,
                    i as int,
                ));
            }
            if self.devices[i].connected {
                count = count + 1;
            }
            i = i + 1;
        }
        proof {
            assert(self.devices@.subrange(0, i as int) =~= self.devices@);
        }
        count
    }

    /// Moves the parts out of the state, leaving it empty.
    fn take_parts(&mut self) -> (parts: (Vec<DeviceInfo>, bool, bool))
        ensures
            parts.0@ == old(self).devices@,
            parts.1 == old(self).discovering,
            parts.2 == old(self).powered,
            addresses_distinct(parts.0@),
    {
        let mut parts = BluetoothState { devices: Vec::new(), discovering: false, powered: false };
        std::mem::swap(&mut parts, self);
        proof {
            use_type_invariant(&parts);
        }
        let BluetoothState { devices, discovering, powered } = parts;
        (devices, discovering, powered)
    }

    /// The position of the device with this address, if it is known.
    fn position_of(&self, address: Address) -> (p: Option<usize>)
        ensures
            match p {
                Some(i) => i < self.devices@.len() && self.devices@[i as int].address == address,
                None => !self.device_map().dom().contains(address),
            },
    {
        proof {
            use_type_invariant(self);
            lemma_by_address_entries(self.devices@);
        }
        let mut i: usize = 0;
        while i < self.devices.len()
            invariant
                i <= self.devices@.len(),
                forall|k: int| 0 <= k < i ==> #[trigger] self.devices@[k].address != address,
            decreases self.devices.len() - i,
        {
            if self.devices[i].address == address {
                return Some(i);
            }
            i = i + 1;
        }
        None
    }

    /// Records a device snapshot, replacing any earlier one of its address.
    pub fn insert_device(&mut self, info: DeviceInfo)
        ensures
            final(self).device_map() == old(self).device_map().insert(info.address, info),
            final(self).is_powered() == old(self).is_powered(),
            final(self).is_discovering() == old(self).is_discovering(),
    {
        proof {
            use_type_invariant(&*self);
        }
        match self.position_of(info.address) {
            Some(i) => {
                proof {
                    lemma_replace_at(self.devices@, i as int, info);
                }
                let (mut devices, discovering, powered) = self.take_parts();
                devices.set(i, info);
                *self = BluetoothState { devices, discovering, powered };
            },
            None => {
                proof {
                    lemma_push_new(self.devices@, info);
                }
                let (mut devices, discovering, powered) = self.take_parts();
                devices.push(info);
                *self = BluetoothState { devices, discovering, powered };
            },
        }
    }

    /// Forgets the device with this address, if it is known.
    pub fn remove_device(&mut self, address: Address)
        ensures
            final(self).device_map() == old(self).device_map().remove(address),
            final(self).is_powered() == old(self).is_powered(),
            final(self).is_discovering() == old(self).is_discovering(),
    {
        proof {
            use_type_invariant(&*self);
        }
        match self.position_of(address) {
            Some(i) => {
                proof {
                    lemma_remove_at(self.devices@, i as int);
                }
                let (mut devices, discovering, powered) = self.take_parts();
                devices.remove(i);
                *self = BluetoothState { devices, discovering, powered };
            },
            None => {
                proof {
                    assert(self.device_map().remove(address) =~= self.device_map());
                }
            },
        }
    }

    /// Takes the snapshot of the device with this address out, leaving the
    /// device unknown; the snapshot is meant to be put back.
    fn take_device(&mut self, address: Address) -> (info: Option<DeviceInfo>)
        ensures
            final(self).device_map() == old(self).device_map().remove(address),
            final(self).is_powered() == old(self).is_powered(),
            final(self).is_discovering() == old(self).is_discovering(),
            match info {
                Some(d) => old(self).device_map().dom().contains(address) && d == old(
                    self,
                ).device_map()[address] && d.address == address,
                None => !old(self).device_map().dom().contains(address),
            },
    {
        proof {
            use_type_invariant(&*self);
            lemma_by_address_entries(self.devices@);
        }
        match self.position_of(address) {
            Some(i) => {
                proof {
                    lemma_remove_at(self.devices@, i as int);
                }
                let (mut devices, discovering, powered) = self.take_parts();
                let d = devices.remove(i);
                *self = BluetoothState { devices, discovering, powered };
                Some(d)
            },
            None => {
                proof {
                    assert(self.device_map().remove(address) =~= self.device_map());
                }
                None
            },
        }
    }

    /// Applies a property change to the device with this address; a change
    /// for an untracked device is ignored.
    pub fn apply_device_property(&mut self, address: Address, property: DeviceProperty)
        ensures
            final(self).device_map() == if old(self).device_map().dom().contains(address) {
                old(self).device_map().insert(
                    address,
                    with_property(old(self).device_map()[address], property),
                )
            } else {
                old(self).device_map()
            },
            old(self).device_map().dom().contains(address) ==> match property {
                DeviceProperty::Paired(x) => final(self).device_map()[address].paired == x,
                DeviceProperty::Connected(c) => final(self).device_map()[address].connected == c,
                DeviceProperty::Trusted(t) => final(self).device_map()[address].trusted == t,
                _ => true,
            },
            final(self).is_powered() == old(self).is_powered(),
            final(self).is_discovering() == old(self).is_discovering(),
    {
        let ghost before = self.device_map();
        match self.take_device(address) {
            Some(mut d) => {
                let ghost taken = d;
                let ghost change = property;
                match property {
                    DeviceProperty::Connected(c) => d.connected = c,
                    DeviceProperty::Alias(alias) => d.alias = alias,
                    DeviceProperty::Icon(icon) => d.icon = Some(icon),
                    DeviceProperty::Paired(paired) => d.paired = paired,
                    DeviceProperty::Trusted(trusted) => d.trusted = trusted,
                    DeviceProperty::Rssi(rssi) => d.rssi = Some(rssi),
                    DeviceProperty::BatteryPercentage(pct) => d.battery_percentage = Some(pct),
                    DeviceProperty::Other => {},
                }
                assert(d == with_property(taken, change));
                self.insert_device(d);
                proof {
                    assert(before.remove(address).insert(address, d) =~= before.insert(address, d));
                }
            },
            None => {},
        }
    }

    /// Sets whether the adapter is powered.
    pub fn set_powered(&mut self, powered: bool)
        ensures
            final(self).is_powered() == powered,
            final(self).is_discovering() == old(self).is_discovering(),
            final(self).device_map() == old(self).device_map(),
    {
        proof {
            use_type_invariant(&*self);
        }
        self.powered = powered;
    }

    /// Sets whether the adapter is discovering.
    pub fn set_discovering(&mut self, discovering: bool)
        ensures
            final(self).is_discovering() == discovering,
            final(self).is_powered() == old(self).is_powered(),
            final(self).device_map() == old(self).device_map(),
    {
        proof {
            use_type_invariant(&*self);
        }
        self.discovering = discovering;
    }
}

} // verus!
