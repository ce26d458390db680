use mpris_idle_inhibit::{classify_global, Bindings, GlobalRole, StartupError};

#[test]
fn compositor_global_is_surface_factory() {
    assert_eq!(classify_global("wl_compositor"), GlobalRole::SurfaceFactory);
}

#[test]
fn idle_inhibit_manager_global_is_recognised() {
    assert_eq!(classify_global("zwp_idle_inhibit_manager_v1"), GlobalRole::InhibitManager);
}

#[test]
fn unrelated_globals_are_ignored() {
    assert_eq!(classify_global("wl_shm"), GlobalRole::Ignored);
    assert_eq!(classify_global(""), GlobalRole::Ignored);
    assert_eq!(classify_global("wl_compositor "), GlobalRole::Ignored);
    assert_eq!(classify_global("zwp_idle_inhibit_manager_v2"), GlobalRole::Ignored);
}

#[test]
fn bindings_record_both_globals() {
    let mut b = Bindings::new();
    assert_eq!(b.check_complete(), Err(StartupError::MissingSurfaceFactory));
    assert_eq!(b.on_global(3, "wl_seat"), GlobalRole::Ignored);
    assert_eq!(b.on_global(7, "zwp_idle_inhibit_manager_v1"), GlobalRole::InhibitManager);
    assert_eq!(b.check_complete(), Err(StartupError::MissingSurfaceFactory));
    assert_eq!(b.on_global(1, "wl_compositor"), GlobalRole::SurfaceFactory);
    assert_eq!(b.surface_factory, Some(1));
    assert_eq!(b.inhibit_manager, Some(7));
    assert_eq!(b.check_complete(), Ok(()));
}

#[test]
fn missing_inhibit_manager_fails_startup() {
    let mut b = Bindings::new();
    b.on_global(1, "wl_compositor");
    assert_eq!(b.check_complete(), Err(StartupError::MissingInhibitManager));
}

#[test]
fn later_global_of_same_role_replaces_earlier() {
    let mut b = Bindings::new();
    b.on_global(1, "wl_compositor");
    b.on_global(9, "wl_compositor");
    assert_eq!(b.surface_factory, Some(9));
    assert_eq!(b.inhibit_manager, None);
}
