use raytrace::scene::{ClosestHit, HittableList};

#[test]
fn list_add_keeps_order() {
    let mut list = HittableList::new();
    assert_eq!(list.len(), 0);
    list.add("ground");
    list.add("glass");
    list.add("metal");
    assert_eq!(list.len(), 3);
    assert_eq!(*list.get(0), "ground");
    assert_eq!(*list.get(2), "metal");
}

#[test]
fn list_clear_empties() {
    let mut list = HittableList::new();
    list.add(1u32);
    list.add(2u32);
    list.clear();
    assert_eq!(list.len(), 0);
    list.add(3u32);
    assert_eq!(list.len(), 1);
    assert_eq!(*list.get(0), 3);
}

#[test]
fn closer_sphere_inserted_first_wins() {
    // A (closer) then B (farther): A hits, B is then outside the narrowed window.
    let mut scan = ClosestHit::new();
    scan.record(true);
    scan.record(false);
    assert_eq!(scan.best(), Some(0));
}

#[test]
fn closer_sphere_inserted_last_wins() {
    // B (farther) then A (closer): both hit, the later and closer one replaces B.
    let mut scan = ClosestHit::new();
    scan.record(true);
    scan.record(true);
    assert_eq!(scan.best(), Some(1));
}

#[test]
fn scan_without_hits_reports_none() {
    let mut scan = ClosestHit::new();
    assert_eq!(scan.best(), None);
    scan.record(false);
    scan.record(false);
    scan.record(false);
    assert_eq!(scan.best(), None);
}

#[test]
fn scan_keeps_last_hit_among_misses() {
    let mut scan = ClosestHit::new();
    scan.record(false);
    scan.record(true);
    scan.record(false);
    scan.record(true);
    scan.record(false);
    assert_eq!(scan.best(), Some(3));
}
