//! Bootstrap composition: one compositor connection, shared by value-semantic
//! handles, feeds the three capture backends, which are all registered as
//! sibling protocol interfaces at the one well-known object path.

use vstd::prelude::*;

verus! {

/// The well-known bus name the portal claims on startup.
pub fn dbus_name() -> (r: &'static str)
    ensures
        r@ == "org.freedesktop.impl.portal.desktop.cosmic"@,
{
    "org.freedesktop.impl.portal.desktop.cosmic"
}

/// The fixed object path under which every portal interface is registered.
pub fn dbus_path() -> (r: &'static str)
    ensures
        r@ == "/org/freedesktop/portal/desktop"@,
{
    "/org/freedesktop/portal/desktop"
}

/// A shared handle to the one compositor connection. Plain value semantics:
/// every clone names the same underlying connection, so all backends share a
/// single connection rather than each opening its own. The connection behind
/// the identifier must tolerate interleaved use by independent backends —
/// a requirement on whichever component implements it, not assumed here.
#[derive(Clone, Copy, PartialEq, Eq, Structural, Debug)]
pub struct WaylandHelper {
    /// Identifier of the underlying compositor connection.
    pub connection: u64,
}

impl WaylandHelper {
    /// A handle to the connection with the given identifier.
    pub fn new(connection: u64) -> (h: WaylandHelper)
        ensures
            h.connection == connection,
    {
        WaylandHelper { connection }
    }
}

/// The interface name of one capture backend. Dispatch at the shared object
/// path is keyed by interface name, so three backends coexist at one path
/// without collision.
#[derive(Clone, Copy, PartialEq, Eq, Structural, Debug)]
pub enum PortalIface {
    /// The generic access-check backend.
    Access,
    /// The screenshot backend.
    Screenshot,
    /// The screen-cast backend.
    ScreenCast,
}

/// One backend registration: an interface name bound at the shared object
/// path, with the backend's own clone of the compositor handle.
#[derive(Clone, Copy, PartialEq, Eq, Structural, Debug)]
pub struct BackendRegistration {
    /// Which interface the backend serves.
    pub iface: PortalIface,
    /// The backend's clone of the shared compositor handle.
    pub helper: WaylandHelper,
}

/// The dispatch table the bootstrap builds: every capture backend registered
/// at the one well-known path, in registration order.
pub struct BootstrapPlan {
    regs: Vec<BackendRegistration>,
}

/// Whether a plan registers all three capture backends, in order, each with
/// its own copy of the one compositor handle `h`.
pub open spec fn plan_complete(p: &BootstrapPlan, h: WaylandHelper) -> bool {
    &&& p.registrations().len() == 3
    &&& p.registrations()[0] == (BackendRegistration { iface: PortalIface::Access, helper: h })
    &&& p.registrations()[1] == (BackendRegistration { iface: PortalIface::Screenshot, helper: h })
    &&& p.registrations()[2] == (BackendRegistration { iface: PortalIface::ScreenCast, helper: h })
}

impl BootstrapPlan {
    /// The registrations, in the order they are made.
    pub closed spec fn registrations(&self) -> Seq<BackendRegistration> {
        self.regs@
    }

    /// Whether some backend serves the interface `iface` at the shared path.
    pub open spec fn spec_serves(&self, iface: PortalIface) -> bool {
        exists|i: int|
            0 <= i < self.registrations().len() && (#[trigger] self.registrations()[i]).iface
                == iface
    }

    /// Whether a caller addressing the shared path reaches a backend under
    /// the interface name `iface`.
    pub fn serves(&self, iface: PortalIface) -> (r: bool)
        ensures
            r == self.spec_serves(iface),
    {
        let n = self.regs.len();
        let mut i: usize = 0;
        while i < n
            invariant
                n == self.registrations().len(),
                0 <= i <= n,
                forall|k: int| 0 <= k < i ==> (#[trigger] self.registrations()[k]).iface != iface,
            decreases n - i,
        {
            let found = match (self.regs[i].iface, iface) {
                (PortalIface::Access, PortalIface::Access) => true,
                (PortalIface::Screenshot, PortalIface::Screenshot) => true,
                (PortalIface::ScreenCast, PortalIface::ScreenCast) => true,
                _ => false,
            };
            if found {
                return true;
            }
            i += 1;
        }
        proof {
            if self.spec_serves(iface) {
                let k = choose|k: int|
                    0 <= k < self.registrations().len() && (#[trigger] self.registrations()[k]).iface
                        == iface;
            }
        }
        false
    }

    /// The registrations, for a caller outside the proofs.
    pub fn registration_list(&self) -> (r: &Vec<BackendRegistration>)
        ensures
            r@ == self.registrations(),
    {
        &self.regs
    }
}

/// Compose the portal on startup. `compositor` is the compositor connection
/// handle if establishing the connection succeeded; `bus_acquired` says
/// whether the well-known bus name and the object path could be claimed.
/// Either failure is fatal — no plan, no retry, no partial operation. On
/// success the plan registers the three capture backends as sibling
/// interfaces at the one path, each with its own clone of the shared handle,
/// and the process then idles, servicing calls indefinitely.
pub fn bootstrap(compositor: Option<WaylandHelper>, bus_acquired: bool) -> (r: Option<
    BootstrapPlan,
>)
    ensures
        r is Some <==> (compositor is Some && bus_acquired),
        compositor matches Some(h) ==> (r matches Some(p) ==> plan_complete(&p, h)),
        r matches Some(p) ==> p.spec_serves(PortalIface::Access) && p.spec_serves(
            PortalIface::Screenshot,
        ) && p.spec_serves(PortalIface::ScreenCast),
{
    match compositor {
        Some(h) => {
            if bus_acquired {
                let mut regs: Vec<BackendRegistration> = Vec::new();
                regs.push(BackendRegistration { iface: PortalIface::Access, helper: h });
                regs.push(BackendRegistration { iface: PortalIface::Screenshot, helper: h });
                regs.push(BackendRegistration { iface: PortalIface::ScreenCast, helper: h });
                let p = BootstrapPlan { regs };
                proof {
                    assert(p.registrations().len() == 3);
                    assert(p.registrations()[0] == (BackendRegistration {
                        iface: PortalIface::Access,
                        helper: h,
                    }));
                    assert(p.registrations()[1] == (BackendRegistration {
                        iface: PortalIface::Screenshot,
                        helper: h,
                    }));
                    assert(p.registrations()[2] == (BackendRegistration {
                        iface: PortalIface::ScreenCast,
                        helper: h,
                    }));
                }
                Some(p)
            } else {
                None
            }
        },
        None => None,
    }
}

} // verus!
