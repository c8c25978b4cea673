//! The RF scene: registry of the emulated devices sharing the RF field, the
//! routing of RF packets between them, and the link-loss notifications
//! sent when one leaves.

use crate::rf::{DeactivateReason, DeactivateType, Protocol, RfPacket, RfPayload, Technology, BROADCAST};
use vstd::prelude::*;

verus! {

/// Number of device slots of the scene.
pub const MAX_DEVICES: usize = 128;

/// How a device reaches the scene.
#[derive(Clone, Copy, Debug, PartialEq, Eq, Structural)]
pub enum DeviceType {
    /// A host speaking NCI to an emulated controller.
    Nci,
    /// A raw peer speaking RF packets.
    Rf,
}

/// What the scene knows of a connected device.
#[derive(Clone, Copy, Debug, PartialEq, Eq, Structural)]
pub struct DeviceInformation {
    pub id: u16,
    pub position: u32,
    pub device_type: DeviceType,
}

/// Why the scene refused an operation.
#[derive(Clone, Copy, Debug, PartialEq, Eq, Structural)]
pub enum SceneError {
    /// Every device slot is taken.
    Full,
    /// Every identifier has been issued.
    IdsExhausted,
    /// No connected device has this identifier.
    InvalidArgument,
}

/// Registry of connected devices, one optional device per slot.
pub struct Scene {
    next_id: u16,
    devices: Vec<Option<DeviceInformation>>,
}

/// The notification that tells device `receiver` that device `sender` left
/// the RF field.
pub open spec fn link_loss(sender: u16, receiver: u16) -> RfPacket {
    RfPacket {
        sender,
        receiver,
        technology: Technology::NfcA,
        protocol: Protocol::Undetermined,
        payload: RfPayload::DeactivateNotification {
            deactivate_type: DeactivateType::Discovery,
            reason: DeactivateReason::RfLinkLoss,
        },
    }
}

/// The devices held in `slots`, in slot order.
pub open spec fn connected(slots: Seq<Option<DeviceInformation>>) -> Seq<DeviceInformation>
    decreases slots.len(),
{
    if slots.len() == 0 {
        Seq::empty()
    } else {
        let rest = connected(slots.drop_last());
        match slots.last() {
            Some(info) => rest.push(info),
            None => rest,
        }
    }
}

impl Scene {
    /// The identifier that the next added device receives.
    pub closed spec fn next_id(&self) -> u16 {
        self.next_id
    }

    /// Device slots, `None` where free.
    pub closed spec fn slots(&self) -> Seq<Option<DeviceInformation>> {
        self.devices@
    }

    pub open spec fn live(&self, n: int) -> bool {
        0 <= n < self.slots().len() && self.slots()[n] is Some
    }

    pub open spec fn info(&self, n: int) -> DeviceInformation {
        self.slots()[n]->Some_0
    }

    /// Slot count is fixed; identifiers of connected devices are distinct
    /// and were all issued before `next_id`, which never reaches the
    /// broadcast identifier.
    pub open spec fn wf(&self) -> bool {
        &&& self.slots().len() == MAX_DEVICES
        &&& self.next_id() <= BROADCAST
        &&& forall|n: int| #[trigger] self.live(n) ==> self.info(n).id < self.next_id()
        &&& forall|n: int, m: int|
            #[trigger] self.live(n) && #[trigger] self.live(m) && n != m ==> self.info(n).id
                != self.info(m).id
    }

    /// Slot `n` holds a device that receives a packet from `sender` to
    /// `receiver`: not the sender itself, addressed by the receiver field or
    /// by broadcast, and at the sender's position.
    pub open spec fn delivers(&self, sender: u16, receiver: u16, n: int) -> bool {
        &&& self.live(n)
        &&& self.info(n).id != sender
        &&& receiver == BROADCAST || receiver == self.info(n).id
        &&& exists|m: int|
            #![trigger self.live(m)]
            self.live(m) && self.info(m).id == sender && self.info(m).position == self.info(
                n,
            ).position
    }

    /// An empty scene.
    pub fn new() -> (r: Scene)
        ensures
            r.wf(),
            r.next_id() == 0,
            forall|n: int| 0 <= n < MAX_DEVICES ==> !#[trigger] r.live(n),
    {
        let mut devices: Vec<Option<DeviceInformation>> = Vec::new();
        let mut i: usize = 0;
        while i < MAX_DEVICES
            invariant
                i <= MAX_DEVICES,
                devices@.len() == i,
                forall|n: int| 0 <= n < i ==> devices@[n] is None,
            decreases MAX_DEVICES - i,
        {
            devices.push(None);
            i = i + 1;
        }
        Scene { next_id: 0, devices }
    }

    /// Add a device in the first free slot, under the next identifier and at
    /// the position equal to that identifier. Returns the slot and the
    /// identifier.
    pub fn add_device(&mut self, device_type: DeviceType) -> (r: Result<(usize, u16), SceneError>)
        requires
            old(self).wf(),
        ensures
            final(self).wf(),
            (forall|n: int| 0 <= n < MAX_DEVICES ==> #[trigger] old(self).live(n)) ==> r
                == Err::<(usize, u16), SceneError>(SceneError::Full),
            (exists|n: int| 0 <= n < MAX_DEVICES && !#[trigger] old(self).live(n)) && old(self).next_id() == BROADCAST ==> r == Err::<(usize, u16), SceneError>(
                SceneError::IdsExhausted,
            ),
            (exists|n: int| 0 <= n < MAX_DEVICES && !#[trigger] old(self).live(n)) && old(self).next_id() < BROADCAST ==> r is Ok,
            r is Err ==> final(self).slots() == old(self).slots() && final(self).next_id() == old(self).next_id(),
            r matches Ok((n, id)) ==> {
                &&& id == old(self).next_id()
                &&& forall|m: int| #[trigger] old(self).live(m) ==> old(self).info(m).id < id
                &&& final(self).next_id() == id + 1
                &&& n < MAX_DEVICES
                &&& !old(self).live(n as int)
                &&& forall|m: int| 0 <= m < n ==> #[trigger] old(self).live(m)
                &&& final(self).slots() == old(self).slots().update(
                    n as int,
                    Some(DeviceInformation { id, position: id as u32, device_type }),
                )
            },
    {
        let mut n: usize = 0;
        while n < MAX_DEVICES
            invariant
                n <= MAX_DEVICES,
                old(self).wf(),
                self.wf(),
                self.slots() == old(self).slots(),
                self.next_id() == old(self).next_id(),
                forall|m: int| 0 <= m < n ==> #[trigger] self.live(m),
            decreases MAX_DEVICES - n,
        {
            if self.devices[n].is_none() {
                assert(!old(self).live(n as int));
                assert forall|m: int| 0 <= m < n implies #[trigger] old(self).live(m) by {
                    assert(self.live(m));
                }
                if self.next_id == BROADCAST {
                    return Err(SceneError::IdsExhausted);
                }
                let id = self.next_id;
                let info = DeviceInformation { id, position: id as u32, device_type };
                self.devices.set(n, Some(info));
                self.next_id = id + 1;
                assert forall|a: int, b: int|
                    #[trigger] self.live(a) && #[trigger] self.live(b) && a != b implies self.info(
                    a,
                ).id != self.info(b).id by {
                    if a != n && b != n {
                        assert(old(self).live(a) && old(self).live(b));
                    } else if a != n {
                        assert(old(self).live(a));
                    } else {
                        assert(old(self).live(b));
                    }
                }
                assert forall|a: int| #[trigger] self.live(a) implies self.info(a).id
                    < self.next_id() by {
                    if a != n {
                        assert(old(self).live(a));
                    }
                }
                return Ok((n, id));
            }
            n = n + 1;
        }
        assert forall|m: int| 0 <= m < MAX_DEVICES implies #[trigger] old(self).live(m) by {
            assert(self.live(m));
        }
        Err(SceneError::Full)
    }

    /// Remove the device of slot `n`, and return one link-loss notification
    /// from it for each device still connected, in slot order.
    pub fn disconnect(&mut self, n: usize) -> (r: Vec<RfPacket>)
        requires
            old(self).wf(),
            old(self).live(n as int),
        ensures
            final(self).wf(),
            final(self).next_id() == old(self).next_id(),
            final(self).slots() == old(self).slots().update(n as int, None),
            forall|k: int|
                0 <= k < r@.len() ==> #[trigger] r@[k] == link_loss(
                    old(self).info(n as int).id,
                    r@[k].receiver,
                ),
            forall|k: int|
                #![trigger r@[k]]
                0 <= k < r@.len() ==> exists|m: int|
                    #![trigger final(self).info(m)]
                    final(self).live(m) && final(self).info(m).id == r@[k].receiver,
            forall|m: int|
                #[trigger] final(self).live(m) ==> exists|k: int|
                    0 <= k < r@.len() && (#[trigger] r@[k]).receiver == final(self).info(m).id,
            forall|k1: int, k2: int|
                0 <= k1 < k2 < r@.len() ==> (#[trigger] r@[k1]).receiver != (
                #[trigger] r@[k2]).receiver,
    {
        let id = self.devices[n].unwrap().id;
        self.devices.set(n, None);
        assert forall|a: int| #[trigger] self.live(a) implies old(self).live(a) && self.info(a)
            == old(self).info(a) by {
            assert(a != n);
        }
        let mut r: Vec<RfPacket> = Vec::new();
        // Slot of the device that each notification goes to.
        let ghost mut to: Seq<int> = Seq::empty();
        let mut i: usize = 0;
        while i < MAX_DEVICES
            invariant
                i <= MAX_DEVICES,
                n < MAX_DEVICES,
                self.wf(),
                self.slots() == old(self).slots().update(n as int, None),
                id == old(self).info(n as int).id,
                to.len() == r@.len(),
                forall|k: int|
                    0 <= k < r@.len() ==> #[trigger] r@[k] == link_loss(id, r@[k].receiver),
                forall|k: int|
                    0 <= k < to.len() ==> 0 <= #[trigger] to[k] < i && self.live(to[k])
                        && self.info(to[k]).id == r@[k].receiver,
                forall|k1: int, k2: int|
                    0 <= k1 < k2 < to.len() ==> #[trigger] to[k1] < #[trigger] to[k2],
                forall|m: int|
                    0 <= m < i && #[trigger] self.live(m) ==> exists|k: int|
                        0 <= k < to.len() && #[trigger] to[k] == m,
            decreases MAX_DEVICES - i,
        {
            if let Some(device) = self.devices[i] {
                let ghost before = to;
                let notification = RfPacket {
                    sender: id,
                    receiver: device.id,
                    technology: Technology::NfcA,
                    protocol: Protocol::Undetermined,
                    payload: RfPayload::DeactivateNotification {
                        deactivate_type: DeactivateType::Discovery,
                        reason: DeactivateReason::RfLinkLoss,
                    },
                };
                r.push(notification);
                proof {
                    to = to.push(i as int);
                    assert(self.live(i as int));
                    assert forall|m: int| 0 <= m < i + 1 && #[trigger] self.live(m) implies exists|
                        k: int,
                    |
                        0 <= k < to.len() && #[trigger] to[k] == m by {
                        if m < i {
                            let k = choose|k: int| 0 <= k < before.len()
                                && #[trigger] before[k] == m;
                            assert(to[k] == m);
                        } else {
                            assert(to[before.len() as int] == m);
                        }
                    }
                }
            }
            i = i + 1;
        }
        proof {
            assert forall|k: int|
                #![trigger r@[k]]
                0 <= k < r@.len() implies exists|m: int|
                    #![trigger self.info(m)]
                    self.live(m) && self.info(m).id == r@[k].receiver by {
                let m = to[k];
                assert(0 <= m < MAX_DEVICES);
                assert(self.live(m));
                assert(self.info(m).id == r@[k].receiver);
            }
            assert forall|m: int| #[trigger] self.live(m) implies exists|k: int|
                0 <= k < r@.len() && (#[trigger] r@[k]).receiver == self.info(m).id by {
                let k = choose|k: int| 0 <= k < to.len() && #[trigger] to[k] == m;
                assert(r@[k].receiver == self.info(m).id);
            }
            assert forall|k1: int, k2: int| 0 <= k1 < k2 < r@.len() implies (
            #[trigger] r@[k1]).receiver != (#[trigger] r@[k2]).receiver by {
                assert(to[k1] < to[k2]);
                assert(self.live(to[k1]) && self.live(to[k2]));
            }
        }
        r
    }

    /// Slot of the connected device with identifier `id`, if there is one.
    fn find(&self, id: u16) -> (r: Option<usize>)
        requires
            self.wf(),
        ensures
            r matches Some(n) ==> self.live(n as int) && self.info(n as int).id == id,
            r is None ==> forall|m: int| #[trigger] self.live(m) ==> self.info(m).id != id,
    {
        let mut i: usize = 0;
        while i < MAX_DEVICES
            invariant
                i <= MAX_DEVICES,
                self.wf(),
                forall|m: int| 0 <= m < i && #[trigger] self.live(m) ==> self.info(m).id != id,
            decreases MAX_DEVICES - i,
        {
            if let Some(device) = self.devices[i] {
                if device.id == id {
                    return Some(i);
                }
            }
            i = i + 1;
        }
        None
    }

    /// Slots of the devices that receive a packet that `sender` addressed to
    /// `receiver`, in increasing order: every device but the sender that the
    /// packet is addressed to (by identifier or by broadcast) and that stands
    /// at the sender's position. Nothing is delivered when the sender is not
    /// connected.
    pub fn route(&self, sender: u16, receiver: u16) -> (r: Vec<usize>)
        requires
            self.wf(),
        ensures
            forall|k: int|
                0 <= k < r@.len() ==> #[trigger] self.delivers(sender, receiver, r@[k] as int),
            forall|n: int|
                #[trigger] self.delivers(sender, receiver, n) ==> exists|k: int|
                    0 <= k < r@.len() && r@[k] == n,
            forall|k1: int, k2: int| 0 <= k1 < k2 < r@.len() ==> r@[k1] < r@[k2],
            forall|k: int, m: int|
                0 <= k < r@.len() && #[trigger] self.live(m) && self.info(m).id == sender
                    ==> self.info(#[trigger] r@[k] as int).position == self.info(m).position,
    {
        let mut r: Vec<usize> = Vec::new();
        let from = match self.find(sender) {
            Some(from) => from,
            None => return r,
        };
        let position = self.devices[from].unwrap().position;
        let mut i: usize = 0;
        while i < MAX_DEVICES
            invariant
                i <= MAX_DEVICES,
                self.wf(),
                self.live(from as int),
                self.info(from as int).id == sender,
                self.info(from as int).position == position,
                forall|k: int|
                    0 <= k < r@.len() ==> #[trigger] self.delivers(sender, receiver, r@[k] as int),
                forall|k: int| 0 <= k < r@.len() ==> #[trigger] r@[k] < i,
                forall|n: int|
                    0 <= n < i && #[trigger] self.delivers(sender, receiver, n) ==> exists|k: int|
                        0 <= k < r@.len() && r@[k] == n,
                forall|k1: int, k2: int| 0 <= k1 < k2 < r@.len() ==> r@[k1] < r@[k2],
            decreases MAX_DEVICES - i,
        {
            let ghost before = r@;
            if let Some(device) = self.devices[i] {
                if device.id != sender && (receiver == BROADCAST || receiver == device.id)
                    && device.position == position {
                    r.push(i);
                    assert(self.delivers(sender, receiver, i as int)) by {
                        assert(self.live(from as int));
                    }
                }
            }
            proof {
                assert forall|k: int| 0 <= k < r@.len() implies #[trigger] self.delivers(
                    sender,
                    receiver,
                    r@[k] as int,
                ) by {
                    if k < before.len() {
                        assert(r@[k] == before[k]);
                        assert(self.delivers(sender, receiver, before[k] as int));
                    }
                }
                assert forall|k: int| 0 <= k < r@.len() implies #[trigger] r@[k] < i + 1 by {
                    if k < before.len() {
                        assert(r@[k] == before[k]);
                        assert(before[k] < i);
                    }
                }
                assert forall|k1: int, k2: int| 0 <= k1 < k2 < r@.len() implies r@[k1] < r@[k2] by {
                    assert(r@[k1] == before[k1]);
                    assert(before[k1] < i);
                    if k2 < before.len() {
                        assert(r@[k2] == before[k2]);
                    }
                }
                if self.delivers(sender, receiver, i as int) {
                    let m = choose|m: int|
                        #![trigger self.live(m)]
                        self.live(m) && self.info(m).id == sender && self.info(m).position
                            == self.info(i as int).position;
                    assert(m == from);
                    assert(r@[r@.len() - 1] == i);
                } else {
                    assert(r@ == before);
                }
                assert forall|n: int|
                    0 <= n < i + 1 && #[trigger] self.delivers(sender, receiver, n) implies exists|
                    k: int,
                | 0 <= k < r@.len() && r@[k] == n by {
                    if n < i {
                        let k = choose|k: int| 0 <= k < before.len() && before[k] == n;
                        assert(r@[k] == n);
                    } else {
                        assert(r@[r@.len() - 1] == n);
                    }
                }
            }
            i = i + 1;
        }
        proof {
            assert forall|k: int, m: int|
                0 <= k < r@.len() && #[trigger] self.live(m)
                    && self.info(m).id == sender implies self.info(
                #[trigger] r@[k] as int,
            ).position == self.info(m).position by {
                assert(self.delivers(sender, receiver, r@[k] as int));
                assert(m == from);
                let m2 = choose|m2: int|
                    #![trigger self.live(m2)]
                    self.live(m2) && self.info(m2).id == sender && self.info(m2).position
                        == self.info(r@[k] as int).position;
                assert(m2 == from);
            }
        }
        r
    }

    /// Information on the connected device with identifier `id`.
    pub fn get_device(&self, id: u16) -> (r: Option<DeviceInformation>)
        requires
            self.wf(),
        ensures
            r is None <==> forall|m: int| #[trigger] self.live(m) ==> self.info(m).id != id,
            r matches Some(info) ==> exists|m: int|
                #[trigger] self.live(m) && self.info(m) == info && info.id == id,
    {
        match self.find(id) {
            Some(n) => self.devices[n],
            None => None,
        }
    }

    /// Move the connected device with identifier `id` to `position`.
    pub fn move_device(&mut self, id: u16, position: u32) -> (r: Result<(), SceneError>)
        requires
            old(self).wf(),
        ensures
            final(self).wf(),
            final(self).next_id() == old(self).next_id(),
            r is Err <==> forall|m: int| #[trigger] old(self).live(m)
                ==> old(self).info(m).id != id,
            r is Err ==> r == Err::<(), SceneError>(SceneError::InvalidArgument)
                && final(self).slots() == old(self).slots(),
            r is Ok ==> exists|m: int|
                #[trigger] old(self).live(m) && old(self).info(m).id == id && final(self).slots()
                    == old(self).slots().update(
                    m,
                    Some(DeviceInformation { position, ..old(self).info(m) }),
                ),
    {
        match self.find(id) {
            Some(n) => {
                let info = self.devices[n].unwrap();
                self.devices.set(n, Some(DeviceInformation { position, ..info }));
                assert(old(self).live(n as int));
                assert forall|a: int| #[trigger] self.live(a) implies old(self).live(a)
                    && self.info(
                    a,
                ).id == old(self).info(a).id by {
                    if a != n {
                        assert(old(self).live(a));
                    }
                }
                assert forall|a: int, b: int|
                    #[trigger] self.live(a) && #[trigger] self.live(b) && a != b implies self.info(
                    a,
                ).id != self.info(b).id by {
                    assert(old(self).live(a) && old(self).live(b));
                }
                Ok(())
            },
            None => Err(SceneError::InvalidArgument),
        }
    }

    /// Information on every connected device, in slot order.
    pub fn list_devices(&self) -> (r: Vec<DeviceInformation>)
        ensures
            r@ == connected(self.slots()),
    {
        let mut r: Vec<DeviceInformation> = Vec::new();
        let mut i: usize = 0;
        while i < self.devices.len()
            invariant
                i <= self.slots().len(),
                r@ == connected(self.slots().take(i as int)),
            decreases self.slots().len() - i,
        {
            assert(self.slots().take(i + 1).drop_last() =~= self.slots().take(i as int));
            if let Some(device) = self.devices[i] {
                r.push(device);
            }
            i = i + 1;
        }
        assert(self.slots().take(i as int) =~= self.slots());
        r
    }
}

proof fn lemma_next_id_monotone(run: Seq<Scene>, a: int, b: int)
    requires
        0 <= a <= b < run.len(),
        forall|t: int| 0 <= t < run.len() - 1
            ==> #[trigger] run[t].next_id() <= run[t + 1].next_id(),
    ensures
        run[a].next_id() <= run[b].next_id(),
    decreases b - a,
{
    if a < b {
        lemma_next_id_monotone(run, a, b - 1);
        assert(run[b - 1].next_id() <= run[b].next_id());
    }
}

/// Identifiers are never issued twice. Take a run of scene states, each
/// obtained from the one before by a scene operation: every operation keeps
/// `next_id` or raises it, and a successful `add_device` issues `next_id`
/// and raises it by one (their contracts say so). Then the identifiers
/// issued along the run are pairwise distinct.
pub proof fn lemma_ids_never_reissued(run: Seq<Scene>, issued: Seq<Option<u16>>)
    requires
        issued.len() + 1 == run.len(),
        forall|t: int| 0 <= t < issued.len()
            ==> #[trigger] run[t].next_id() <= run[t + 1].next_id(),
        forall|t: int|
            0 <= t < issued.len() && #[trigger] issued[t] is Some ==> issued[t] == Some(
                run[t].next_id(),
            ) && run[t + 1].next_id() == run[t].next_id() + 1,
    ensures
        forall|t1: int, t2: int|
            0 <= t1 < t2 < issued.len() && #[trigger] issued[t1] is Some
                && #[trigger] issued[t2] is Some
                ==> issued[t1] != issued[t2],
{
    assert forall|t1: int, t2: int|
        0 <= t1 < t2 < issued.len() && #[trigger] issued[t1] is Some
            && #[trigger] issued[t2] is Some
            implies issued[t1] != issued[t2] by {
        lemma_next_id_monotone(run, t1 + 1, t2);
    }
}

} // verus!
