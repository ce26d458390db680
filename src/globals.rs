use vstd::prelude::*;
use wayland_client::protocol::__interfaces::WL_COMPOSITOR_INTERFACE;
use wayland_protocols::wp::idle_inhibit::zv1::client::__interfaces::ZWP_IDLE_INHIBIT_MANAGER_V1_INTERFACE;

verus! {

/// Relies on wayland_client's `WL_COMPOSITOR_INTERFACE`: its `name` is the
/// protocol name of the surface factory, `wl_compositor`.
#[verifier::external_body]
fn compositor_interface() -> (r: &'static str)
    ensures
        r@ == surface_factory_name(),
{
    WL_COMPOSITOR_INTERFACE.name
}

/// Relies on wayland_protocols' `ZWP_IDLE_INHIBIT_MANAGER_V1_INTERFACE`: its
/// `name` is the protocol name of the idle-inhibit manager,
/// `zwp_idle_inhibit_manager_v1`.
#[verifier::external_body]
fn inhibit_manager_interface() -> (r: &'static str)
    ensures
        r@ == inhibit_manager_name(),
{
    ZWP_IDLE_INHIBIT_MANAGER_V1_INTERFACE.name
}

/// Interface name of the global that creates surfaces.
pub open spec fn surface_factory_name() -> Seq<char> {
    "wl_compositor"@
}

/// Interface name of the global that creates idle inhibitors.
pub open spec fn inhibit_manager_name() -> Seq<char> {
    "zwp_idle_inhibit_manager_v1"@
}

/// What the session does with an advertised global.
#[derive(Clone, Copy, Debug, PartialEq, Eq, Structural)]
pub enum GlobalRole {
    /// Bind it and create the anchor surface from it.
    SurfaceFactory,
    /// Bind it; inhibitors are created through it.
    InhibitManager,
    /// Not needed.
    Ignored,
}

/// The role of a global advertised under `interface`.
pub open spec fn role_of(interface: Seq<char>) -> GlobalRole {
    if interface == surface_factory_name() {
        GlobalRole::SurfaceFactory
    } else if interface == inhibit_manager_name() {
        GlobalRole::InhibitManager
    } else {
        GlobalRole::Ignored
    }
}

/// Why the session cannot start.
#[derive(Clone, Copy, Debug, PartialEq, Eq, Structural)]
pub enum StartupError {
    /// No surface factory was advertised.
    MissingSurfaceFactory,
    /// No idle-inhibit manager was advertised.
    MissingInhibitManager,
}

/// Whether two strings hold the same characters.
fn same_text(a: &str, b: &str) -> (r: bool)
    ensures
        r == (a@ == b@),
{
    let a: String = a.to_owned();
    let b: String = b.to_owned();
    a == b
}

/// Decides what to do with a global advertised under `interface`.
pub fn classify_global(interface: &str) -> (r: GlobalRole)
    ensures
        r == role_of(interface@),
{
    if same_text(interface, compositor_interface()) {
        GlobalRole::SurfaceFactory
    } else if same_text(interface, inhibit_manager_interface()) {
        GlobalRole::InhibitManager
    } else {
        GlobalRole::Ignored
    }
}

/// The registry names of the globals bound so far.
#[derive(Clone, Copy, Debug, PartialEq, Eq, Structural)]
pub struct Bindings {
    pub surface_factory: Option<u32>,
    pub inhibit_manager: Option<u32>,
}

impl Bindings {
    /// Nothing bound yet.
    pub fn new() -> (r: Bindings)
        ensures
            r.surface_factory is None,
            r.inhibit_manager is None,
    {
        Bindings { surface_factory: None, inhibit_manager: None }
    }

    /// Records the global `name` advertised under `interface`, and returns its
    /// role: a later global of the same role replaces an earlier one.
    pub fn on_global(&mut self, name: u32, interface: &str) -> (r: GlobalRole)
        ensures
            r == role_of(interface@),
            final(self).surface_factory == if r == GlobalRole::SurfaceFactory {
                Some(name)
            } else {
                old(self).surface_factory
            },
            final(self).inhibit_manager == if r == GlobalRole::InhibitManager {
                Some(name)
            } else {
                old(self).inhibit_manager
            },
    {
        let role = classify_global(interface);
        match role {
            GlobalRole::SurfaceFactory => {
                self.surface_factory = Some(name);
            },
            GlobalRole::InhibitManager => {
                self.inhibit_manager = Some(name);
            },
            GlobalRole::Ignored => {},
        }
        role
    }

    /// Succeeds when both required globals are bound; otherwise names the
    /// first one missing, the surface factory before the manager.
    pub fn check_complete(&self) -> (r: Result<(), StartupError>)
        ensures
            r is Ok <==> (self.surface_factory is Some && self.inhibit_manager is Some),
            r == Err::<(), StartupError>(StartupError::MissingSurfaceFactory) <==> self.surface_factory is None,
            r == Err::<(), StartupError>(StartupError::MissingInhibitManager) <==> (
            self.surface_factory is Some && self.inhibit_manager is None),
    {
        if self.surface_factory.is_none() {
            Err(StartupError::MissingSurfaceFactory)
        } else if self.inhibit_manager.is_none() {
            Err(StartupError::MissingInhibitManager)
        } else {
            Ok(())
        }
    }
}

} // verus!
