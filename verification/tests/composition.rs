//! Tests of the bootstrap composition: one shared compositor handle, three
//! sibling interfaces at the one well-known object path, fatal startup
//! failures.

use portal_core::bootstrap::{
    bootstrap, dbus_name, dbus_path, PortalIface, WaylandHelper,
};

#[test]
fn bootstrap_registers_all_three_backends_at_one_path() {
    let helper = WaylandHelper::new(3);
    let plan = bootstrap(Some(helper), true).unwrap();
    assert!(plan.serves(PortalIface::Access));
    assert!(plan.serves(PortalIface::Screenshot));
    assert!(plan.serves(PortalIface::ScreenCast));
    assert_eq!(plan.registration_list().len(), 3);
}

#[test]
fn every_backend_gets_a_clone_of_the_one_compositor_handle() {
    let helper = WaylandHelper::new(8);
    let plan = bootstrap(Some(helper), true).unwrap();
    for registration in plan.registration_list() {
        assert_eq!(registration.helper, helper);
        assert_eq!(registration.helper.connection, 8);
    }
}

#[test]
fn missing_compositor_connection_is_fatal() {
    assert!(bootstrap(None, true).is_none());
}

#[test]
fn failed_bus_acquisition_is_fatal() {
    assert!(bootstrap(Some(WaylandHelper::new(1)), false).is_none());
}

#[test]
fn bus_identity_is_fixed() {
    assert_eq!(dbus_name(), "org.freedesktop.impl.portal.desktop.cosmic");
    assert_eq!(dbus_path(), "/org/freedesktop/portal/desktop");
}
