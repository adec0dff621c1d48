use injector::region::{select_destination, Perms, Region};

fn rx_private(start: u64, end: u64) -> Region {
    Region {
        start,
        end,
        perms: Perms { readable: true, writable: false, executable: true, private: true },
    }
}

fn with_perms(start: u64, end: u64, r: bool, w: bool, x: bool, p: bool) -> Region {
    Region { start, end, perms: Perms { readable: r, writable: w, executable: x, private: p } }
}

#[test]
fn single_region_selected_iff_large_enough() {
    let regions = vec![rx_private(0x1000, 0x1040)];
    assert_eq!(select_destination(&regions, 0), Some(rx_private(0x1000, 0x1040)));
    assert_eq!(select_destination(&regions, 16), Some(rx_private(0x1000, 0x1040)));
    assert_eq!(select_destination(&regions, 64), Some(rx_private(0x1000, 0x1040)));
    assert_eq!(select_destination(&regions, 65), None);
    assert_eq!(select_destination(&regions, 100), None);
}

#[test]
fn lowest_start_address_wins() {
    let regions = vec![
        rx_private(0x7000, 0x8000),
        rx_private(0x2000, 0x2100),
        rx_private(0x5000, 0x5040),
    ];
    assert_eq!(select_destination(&regions, 32), Some(rx_private(0x2000, 0x2100)));
}

#[test]
fn too_small_regions_are_skipped_even_if_lower() {
    let regions = vec![rx_private(0x1000, 0x1008), rx_private(0x4000, 0x5000)];
    assert_eq!(select_destination(&regions, 16), Some(rx_private(0x4000, 0x5000)));
}

#[test]
fn equal_start_prefers_first_listed() {
    let a = rx_private(0x3000, 0x3100);
    let b = rx_private(0x3000, 0x3200);
    let regions = vec![a, b];
    assert_eq!(select_destination(&regions, 16), Some(a));
}

#[test]
fn wrong_permission_patterns_are_never_selected() {
    let regions = vec![
        with_perms(0x1000, 0x2000, true, true, true, true),
        with_perms(0x2000, 0x3000, true, false, false, true),
        with_perms(0x3000, 0x4000, false, false, true, true),
        with_perms(0x4000, 0x5000, true, false, true, false),
    ];
    assert_eq!(select_destination(&regions, 8), None);
}

#[test]
fn empty_mapping_list_yields_none() {
    let regions: Vec<Region> = Vec::new();
    assert_eq!(select_destination(&regions, 1), None);
}
