use gud_gadget::gud::{
    DisplayMode, GUD_DISPLAY_MODE_FLAG_PREFERRED, GUD_DISPLAY_MODE_FLAG_USER_MASK,
    GUD_PIXEL_FORMAT_RGB565,
};
use gud_gadget::modes::{
    normalize_advertised_mode, CatalogError, CatalogRoute, ModeKey, PhysicalCatalogMode,
    RouteCatalog,
};
use gud_gadget::protocol::DisplayStateSnapshot;

fn mode(clock: u32, width: u16, height: u16, flags: u32) -> DisplayMode {
    DisplayMode {
        clock,
        hdisplay: width,
        hsync_start: width + 40,
        hsync_end: width + 80,
        htotal: width + 160,
        vdisplay: height,
        vsync_start: height + 5,
        vsync_end: height + 10,
        vtotal: height + 30,
        flags,
    }
}

fn physical<M>(raw: M, timing: DisplayMode) -> PhysicalCatalogMode<M> {
    PhysicalCatalogMode { mode: raw, timing }
}

#[test]
fn full_timing_identity_distinguishes_clock_totals_and_polarity() {
    let base = mode(74_250, 1280, 720, 0);
    let mut clock = base.clone();
    clock.clock += 1;
    let mut total = base.clone();
    total.htotal += 1;
    let mut polarity = base.clone();
    polarity.flags = 1;

    assert_ne!(ModeKey::new(0, &base), ModeKey::new(0, &clock));
    assert_ne!(ModeKey::new(0, &base), ModeKey::new(0, &total));
    assert_ne!(ModeKey::new(0, &base), ModeKey::new(0, &polarity));
    assert_ne!(ModeKey::new(0, &base), ModeKey::new(1, &base));
}

#[test]
fn preferred_and_private_flags_do_not_change_timing_identity() {
    let base = mode(74_250, 1280, 720, 0x21);
    let mut decorated = base.clone();
    decorated.flags |= GUD_DISPLAY_MODE_FLAG_PREFERRED | (1 << 31) | (1 << 20);

    assert_eq!(ModeKey::new(0, &base), ModeKey::new(0, &decorated));
    assert_eq!(ModeKey::new(0, &decorated).flags, base.flags & GUD_DISPLAY_MODE_FLAG_USER_MASK);
}

#[test]
fn unsupported_flag_duplicates_keep_the_first_real_mode() {
    let first = mode(74_250, 1280, 720, 0);
    let mut duplicate = first.clone();
    duplicate.flags = (1 << 31) | GUD_DISPLAY_MODE_FLAG_PREFERRED;
    let catalog =
        RouteCatalog::build(0, &[physical(11, first), physical(22, duplicate)], 1, &[]).unwrap();

    assert_eq!(catalog.entries().len(), 1);
    assert_eq!(catalog.entries()[0].route, CatalogRoute::Exact(11));
    assert_eq!(catalog.entries()[0].advertised_mode.flags, GUD_DISPLAY_MODE_FLAG_PREFERRED);
}

#[test]
fn preferred_selection_uses_physical_index_and_marks_exactly_one_entry() {
    let first = mode(148_500, 1920, 1080, 0);
    let second = mode(74_250, 1280, 720, 0);
    let catalog =
        RouteCatalog::build(0, &[physical(1, first), physical(2, second.clone())], 1, &[])
            .unwrap();

    assert_eq!(catalog.preferred_entry().key, ModeKey::new(0, &second));
    assert_eq!(
        catalog
            .advertised_modes()
            .iter()
            .filter(|mode| mode.flags & GUD_DISPLAY_MODE_FLAG_PREFERRED != 0)
            .count(),
        1
    );
}

#[test]
fn exact_physical_and_synthetic_scaled_routes_are_classified() {
    let physical_mode = mode(148_500, 1920, 1080, 0);
    let synthetic_mode = mode(103_000, 900, 1900, 0);
    let catalog = RouteCatalog::build(
        0,
        &[physical(7, physical_mode.clone())],
        0,
        std::slice::from_ref(&synthetic_mode),
    )
    .unwrap();

    assert_eq!(catalog.entry_for_mode(&physical_mode).unwrap().route, CatalogRoute::Exact(7));
    assert_eq!(
        catalog.entry_for_mode(&synthetic_mode).unwrap().route,
        CatalogRoute::ScaledFallback
    );
}

#[test]
fn physical_mode_beats_an_identical_synthetic_timing() {
    let timing = mode(74_250, 1280, 720, 0x5);
    let catalog = RouteCatalog::build(
        0,
        &[physical(17, timing.clone())],
        0,
        std::slice::from_ref(&timing),
    )
    .unwrap();

    assert_eq!(catalog.entries().len(), 1);
    assert_eq!(catalog.entry_for_mode(&timing).unwrap().route, CatalogRoute::Exact(17));
}

#[test]
fn route_lookups_do_not_change_advertised_mode_order_or_preference() {
    let preferred = mode(148_500, 1920, 1080, 0x5);
    let second = mode(74_250, 1280, 720, 0x5);
    let synthetic = mode(103_000, 900, 1900, 0);
    let catalog = RouteCatalog::build(
        0,
        &[physical(1, preferred.clone()), physical(2, second.clone())],
        0,
        std::slice::from_ref(&synthetic),
    )
    .unwrap();
    let before = catalog.advertised_modes();

    assert!(catalog.entry_for_mode(&second).is_some());
    assert!(catalog.entry_for_mode(&synthetic).is_some());
    assert!(catalog.entry_for_mode(&preferred).is_some());

    assert_eq!(catalog.advertised_modes(), before);
    assert_eq!(catalog.preferred_entry().advertised_mode, before[0]);
}

#[test]
fn host_masked_echo_matches_the_catalog_entry() {
    let mut physical_mode = mode(74_250, 1280, 720, 0x21);
    physical_mode.flags |= (1 << 31) | GUD_DISPLAY_MODE_FLAG_PREFERRED;
    let catalog = RouteCatalog::build(0, &[physical(5, physical_mode.clone())], 0, &[]).unwrap();
    let mut echoed = physical_mode;
    echoed.flags &= GUD_DISPLAY_MODE_FLAG_USER_MASK;
    let snapshot = DisplayStateSnapshot {
        mode: echoed,
        format: GUD_PIXEL_FORMAT_RGB565,
        connector: 0,
        generation: 9,
    };

    assert_eq!(catalog.entry_for_snapshot(&snapshot).unwrap().route, CatalogRoute::Exact(5));
}

#[test]
fn normalization_masks_private_flags_before_adding_preferred() {
    let raw = mode(74_250, 1280, 720, GUD_DISPLAY_MODE_FLAG_USER_MASK | (1 << 31));

    assert_eq!(
        normalize_advertised_mode(&raw, true).flags,
        GUD_DISPLAY_MODE_FLAG_USER_MASK | GUD_DISPLAY_MODE_FLAG_PREFERRED
    );
    assert_eq!(normalize_advertised_mode(&raw, false).flags, GUD_DISPLAY_MODE_FLAG_USER_MASK);
}

#[test]
fn catalog_needs_a_physical_mode_and_a_valid_preference() {
    assert!(matches!(
        RouteCatalog::<u8>::build(0, &[], 0, &[mode(1, 2, 3, 0)]),
        Err(CatalogError::EmptyPhysicalCatalog)
    ));
    assert!(matches!(
        RouteCatalog::build(0, &[physical(1u8, mode(1, 2, 3, 0))], 1, &[]),
        Err(CatalogError::PreferredIndexOutOfRange { index: 1, len: 1 })
    ));
}

#[test]
fn synthetic_duplicates_and_other_connectors_are_kept_apart() {
    let a = mode(74_250, 1280, 720, 0);
    let b = mode(103_000, 900, 1900, 0);
    let catalog = RouteCatalog::build(
        3,
        &[physical(1u8, a.clone())],
        0,
        &[b.clone(), b.clone(), a.clone()],
    )
    .unwrap();
    assert_eq!(catalog.connector(), 3);
    assert_eq!(catalog.entries().len(), 2);
    assert_eq!(catalog.entries()[1].route, CatalogRoute::ScaledFallback);
    assert_eq!(catalog.entries()[1].key, ModeKey::new(3, &b));
    assert!(catalog.entry_for_key(ModeKey::new(0, &a)).is_none());
    assert_eq!(catalog.entry_for_key(ModeKey::new(3, &a)).unwrap().route, CatalogRoute::Exact(1));
}
