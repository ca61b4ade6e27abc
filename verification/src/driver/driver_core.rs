//! The driver registry: the ordered collection of rig-driver capabilities a
//! camera can carry, which one is currently active, and the attach/detach
//! actions that keep the active cameras' components in step with it.

use vstd::prelude::*;

verus! {

use crate::Error;
use crate::drivers::fpv::CCFPV_ID;
use crate::drivers::orbit::CCORBIT_ID;
use crate::MAIN_CAMERA_ID;

/// A capability a camera rig can carry.  An implementor has a stable
/// identity the registry tracks it by; attaching and detaching the matching
/// component is the host's side of the contract and works purely through
/// this identity.
pub trait DriverMarker {
    /// The implementor's stable identity.
    spec fn spec_id(&self) -> u64;

    /// The identity, as a runtime value.
    fn get_id(&self) -> (r: u64)
        ensures
            r == self.spec_id(),
    ;

    /// The implementor's display name.
    fn get_name(&self) -> (r: &'static str);
}

/// One attach or detach order for the host: put the component identified by
/// `driver` on the camera entity `camera`, or take it off.
#[derive(Clone, Copy, PartialEq, Eq, Structural, Debug)]
pub struct DriverAction {
    pub driver: u64,
    pub camera: u64,
    pub attach: bool,
}

/// The expected outcome of one [`Drivers::apply`] pass, indexed flat: for
/// every registered driver (outer) and every active camera (inner), one
/// action, attaching exactly when the driver is the current one.
pub open spec fn apply_action(
    drivers: Seq<u64>,
    cams: Seq<u64>,
    current: int,
    k: int,
) -> DriverAction {
    DriverAction {
        driver: drivers[k / cams.len() as int],
        camera: cams[k % cams.len() as int],
        attach: k / cams.len() as int == current,
    }
}

/// The registry of enabled drivers and known camera kinds, with the index
/// of the current entry in each list.
pub struct Drivers {
    /// The enabled drivers, in registration order, by identity.
    pub enabled_drivers: Vec<u64>,
    pub driver_index: usize,
    /// The camera kinds drivers may be attached to, by identity.
    pub cameras: Vec<u64>,
    pub camera_index: usize,
}

/// `s` with runs of consecutive equal elements collapsed to one.
pub open spec fn spec_dedup(s: Seq<u64>) -> Seq<u64>
    decreases s.len(),
{
    if s.len() == 0 {
        s
    } else if s.len() == 1 {
        s
    } else if s.last() == s[s.len() - 2] {
        spec_dedup(s.drop_last())
    } else {
        spec_dedup(s.drop_last()).push(s.last())
    }
}

/// Collapsing consecutive duplicates keeps the sequence non-empty and keeps
/// its last element.
pub proof fn lemma_dedup_last(s: Seq<u64>)
    requires
        s.len() > 0,
    ensures
        spec_dedup(s).len() > 0,
        spec_dedup(s).last() == s.last(),
    decreases s.len(),
{
    if s.len() > 1 && s.last() == s[s.len() - 2] {
        lemma_dedup_last(s.drop_last());
        assert(s.drop_last().last() == s[s.len() - 2]);
    }
}

impl Drivers {
    /// The indices point into their lists (an empty list pins its index
    /// at 0).
    pub open spec fn wf(self) -> bool {
        &&& if self.enabled_drivers.len() == 0 {
            self.driver_index == 0
        } else {
            self.driver_index < self.enabled_drivers.len()
        }
        &&& if self.cameras.len() == 0 {
            self.camera_index == 0
        } else {
            self.camera_index < self.cameras.len()
        }
    }

    /// Runtime check of [`Drivers::wf`], for callers outside verified
    /// code.
    pub fn is_wf(&self) -> (r: bool)
        ensures
            r == self.wf(),
    {
        let d_ok = if self.enabled_drivers.len() == 0 {
            self.driver_index == 0
        } else {
            self.driver_index < self.enabled_drivers.len()
        };
        let c_ok = if self.cameras.len() == 0 {
            self.camera_index == 0
        } else {
            self.camera_index < self.cameras.len()
        };
        d_ok && c_ok
    }

    pub open spec fn spec_driver_index(self) -> usize {
        self.driver_index
    }

    pub open spec fn spec_camera_index(self) -> usize {
        self.camera_index
    }

    /// A registry with the given drivers and cameras; the first entry of
    /// each list is current.
    pub fn new(enabled_drivers: Vec<u64>, cameras: Vec<u64>) -> (r: Drivers)
        ensures
            r.enabled_drivers == enabled_drivers,
            r.cameras == cameras,
            r.spec_driver_index() == 0,
            r.spec_camera_index() == 0,
            r.wf(),
    {
        let r = Drivers { enabled_drivers, driver_index: 0, cameras, camera_index: 0 };
        r
    }

    /// The index of the current driver.
    pub fn index(&self) -> (r: usize)
        ensures
            r == self.spec_driver_index(),
    {
        self.driver_index
    }

    /// The identity of the current driver, or `None` while none is
    /// registered.
    pub fn current(&self) -> (r: Option<u64>)
        requires
            self.wf(),
        ensures
            self.enabled_drivers.len() == 0 ==> r is None,
            self.enabled_drivers.len() > 0 ==> r == Some(
                self.enabled_drivers@[self.spec_driver_index() as int],
            ),
    {
        if self.enabled_drivers.len() == 0 {
            None
        } else {
            Some(self.enabled_drivers[self.driver_index])
        }
    }

    /// Appends a driver to the registry and hands back its index.  The
    /// current driver is unchanged.
    pub fn register(&mut self, driver: u64) -> (r: usize)
        requires
            old(self).wf(),
            old(self).enabled_drivers.len() < usize::MAX,
        ensures
            final(self).enabled_drivers@ == old(self).enabled_drivers@.push(driver),
            r == old(self).enabled_drivers.len(),
            final(self).cameras == old(self).cameras,
            final(self).spec_driver_index() == old(self).spec_driver_index(),
            final(self).spec_camera_index() == old(self).spec_camera_index(),
            final(self).wf(),
    {
        let r = self.enabled_drivers.len();
        self.enabled_drivers.push(driver);
        r
    }

    /// Moves to the next driver in registration order, wrapping to the
    /// first after the last.  Advancing an empty registry is refused and
    /// changes nothing.
    pub fn next(&mut self) -> (r: Result<(), Error>)
        requires
            old(self).wf(),
        ensures
            final(self).enabled_drivers == old(self).enabled_drivers,
            final(self).cameras == old(self).cameras,
            final(self).spec_camera_index() == old(self).spec_camera_index(),
            final(self).wf(),
            old(self).enabled_drivers.len() == 0 ==> r == Err::<(), Error>(Error::InvalidState)
                && final(self).spec_driver_index() == old(self).spec_driver_index(),
            old(self).enabled_drivers.len() > 0 ==> r == Ok::<(), Error>(())
                && final(self).spec_driver_index() == crate::cycle::next_index(
                old(self).spec_driver_index() as nat,
                old(self).enabled_drivers.len() as nat,
            ),
    {
        if self.enabled_drivers.len() == 0 {
            return Err(Error::InvalidState);
        }
        if self.driver_index >= self.enabled_drivers.len() - 1 {
            self.driver_index = 0;
        } else {
            self.driver_index = self.driver_index + 1;
        }
        Ok(())
    }

    /// Makes `type_id` the current camera kind: it is appended, runs of
    /// consecutive duplicates are collapsed, and the camera index moves to
    /// its first occurrence.
    pub fn change_camera(&mut self, type_id: u64)
        requires
            old(self).wf(),
            old(self).cameras.len() < usize::MAX,
        ensures
            final(self).cameras@ == spec_dedup(old(self).cameras@.push(type_id)),
            final(self).spec_camera_index() < final(self).cameras@.len(),
            final(self).cameras@[final(self).spec_camera_index() as int] == type_id,
            forall|j: int| 0 <= j < final(self).spec_camera_index()
                ==> final(self).cameras@[j] != type_id,
            final(self).enabled_drivers == old(self).enabled_drivers,
            final(self).spec_driver_index() == old(self).spec_driver_index(),
            final(self).wf(),
    {
        self.cameras.push(type_id);
        let ghost pushed = self.cameras@;
        // Collapse runs of consecutive equal identities, as the host's
        // component list would.
        let mut deduped: Vec<u64> = Vec::new();
        let mut i: usize = 0;
        while i < self.cameras.len()
            invariant
                0 <= i <= self.cameras@.len(),
                self.cameras@ == pushed,
                deduped@ == spec_dedup(pushed.take(i as int)),
            decreases self.cameras@.len() - i,
        {
            let c = self.cameras[i];
            proof {
                assert(pushed.take(i + 1).drop_last() =~= pushed.take(i as int));
                assert(pushed.take(i + 1).last() == pushed[i as int]);
                if i > 0 {
                    lemma_dedup_last(pushed.take(i as int));
                    assert(pushed.take(i as int).last() == pushed[i - 1]);
                }
            }
            if deduped.len() == 0 {
                deduped.push(c);
            } else if deduped[deduped.len() - 1] != c {
                deduped.push(c);
            }
            i = i + 1;
        }
        proof {
            assert(pushed.take(pushed.len() as int) =~= pushed);
        }
        self.cameras = deduped;
        // The identity was just appended, so collapsing runs kept it as
        // the last element and the search below must succeed.
        proof {
            lemma_dedup_last(pushed);
        }
        let mut j: usize = 0;
        let n = self.cameras.len();
        while j < n
            invariant
                0 <= j <= n,
                n == self.cameras@.len(),
                n > 0,
                self.cameras@ == spec_dedup(old(self).cameras@.push(type_id)),
                self.enabled_drivers == old(self).enabled_drivers,
                self.driver_index == old(self).driver_index,
                old(self).wf(),
                self.cameras@.last() == type_id,
                forall|k: int| 0 <= k < j ==> self.cameras@[k] != type_id,
            decreases n - j,
        {
            if self.cameras[j] == type_id {
                self.camera_index = j;
                return ;
            }
            j = j + 1;
        }
        // Unreachable: the last element equals `type_id`.
        assert(false);
    }

    /// The attach/detach pass: one action for every registered driver and
    /// every active camera, attaching exactly the current driver and
    /// detaching every other — every pair is touched, not only the two
    /// drivers involved in the latest change.
    pub fn apply(&self, active_cameras: &Vec<u64>) -> (r: Vec<DriverAction>)
        requires
            self.wf(),
            self.enabled_drivers.len() * active_cameras.len() <= 1_000_000,
        ensures
            r@.len() == self.enabled_drivers@.len() * active_cameras@.len(),
            forall|k: int| 0 <= k < r@.len() ==> #[trigger] r@[k] == apply_action(
                self.enabled_drivers@,
                active_cameras@,
                self.spec_driver_index() as int,
                k,
            ),
    {
        let dlen = self.enabled_drivers.len();
        let clen = active_cameras.len();
        let mut out: Vec<DriverAction> = Vec::new();
        if clen == 0 {
            proof {
                assert(dlen as int * 0 == 0) by (nonlinear_arith);
            }
            return out;
        }
        let mut i: usize = 0;
        while i < dlen
            invariant
                0 <= i <= dlen,
                dlen == self.enabled_drivers@.len(),
                clen == active_cameras@.len(),
                0 < clen,
                dlen * clen <= 1_000_000,
                self.wf(),
                out@.len() == i as int * clen,
                forall|k: int| 0 <= k < out@.len() ==> #[trigger] out@[k] == apply_action(
                    self.enabled_drivers@,
                    active_cameras@,
                    self.spec_driver_index() as int,
                    k,
                ),
            decreases dlen - i,
        {
            let attach = i == self.driver_index;
            let d = self.enabled_drivers[i];
            let mut j: usize = 0;
            proof {
                assert((i as int + 1) * clen == i as int * clen + clen) by (nonlinear_arith);
                assert(i as int * clen >= 0) by (nonlinear_arith)
                    requires i >= 0 && clen > 0;
                assert((i as int + 1) * clen <= dlen * clen) by (nonlinear_arith)
                    requires i + 1 <= dlen && clen > 0;
            }
            while j < clen
                invariant
                    0 <= j <= clen,
                    0 <= i < dlen,
                    dlen == self.enabled_drivers@.len(),
                    clen == active_cameras@.len(),
                    0 < clen,
                    dlen * clen <= 1_000_000,
                    self.wf(),
                    attach == (i == self.spec_driver_index()),
                    d == self.enabled_drivers@[i as int],
                    out@.len() == i as int * clen + j,
                    i as int * clen + clen <= 1_000_000,
                    forall|k: int| 0 <= k < out@.len() ==> #[trigger] out@[k] == apply_action(
                        self.enabled_drivers@,
                        active_cameras@,
                        self.spec_driver_index() as int,
                        k,
                    ),
                decreases clen - j,
            {
                let c = active_cameras[j];
                proof {
                    let kk = i as int * clen + j;
                    vstd::arithmetic::div_mod::lemma_fundamental_div_mod_converse_div(
                        kk, clen as int, i as int, j as int);
                    vstd::arithmetic::div_mod::lemma_fundamental_div_mod_converse_mod(
                        kk, clen as int, i as int, j as int);
                    assert(i as int * clen == clen as int * i) by (nonlinear_arith);
                }
                out.push(DriverAction { driver: d, camera: c, attach });
                j = j + 1;
            }
            i = i + 1;
        }
        out
    }
}

/// Advancing a registry of `n` drivers is periodic with period `n`: from
/// any current index, `n` calls of [`Drivers::next`] — whose contract
/// steps the index by [`crate::cycle::next_index`] — lead back to the same
/// index, for every `n`, including a registry of one driver, which stays
/// at 0.  No call of `next` panics: an empty registry is refused with an
/// error instead.
pub proof fn lemma_next_periodic(d: Drivers)
    requires
        d.wf(),
        d.enabled_drivers.len() > 0,
    ensures
        crate::cycle::iter_next(
            d.spec_driver_index() as nat,
            d.enabled_drivers.len() as nat,
            d.enabled_drivers.len() as nat,
        ) == d.spec_driver_index(),
{
    crate::cycle::lemma_cycle_period(
        d.spec_driver_index() as nat,
        d.enabled_drivers.len() as nat,
    );
}

impl Default for Drivers {
    /// The stock registry: the orbit and first-person drivers, attached to
    /// the main camera kind.
    fn default() -> (r: Drivers)
        ensures
            r.enabled_drivers@ == seq![CCORBIT_ID, CCFPV_ID],
            r.cameras@ == seq![MAIN_CAMERA_ID],
            r.spec_driver_index() == 0,
            r.spec_camera_index() == 0,
            r.wf(),
    {
        let mut enabled_drivers: Vec<u64> = Vec::new();
        enabled_drivers.push(CCORBIT_ID);
        enabled_drivers.push(CCFPV_ID);
        let mut cameras: Vec<u64> = Vec::new();
        cameras.push(MAIN_CAMERA_ID);
        proof {
            assert(enabled_drivers@ =~= seq![CCORBIT_ID, CCFPV_ID]);
            assert(cameras@ =~= seq![MAIN_CAMERA_ID]);
        }
        Drivers { enabled_drivers, driver_index: 0, cameras, camera_index: 0 }
    }
}

} // verus!
