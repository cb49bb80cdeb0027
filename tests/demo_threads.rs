use coop_kernel::demo::{hash_u32, DemoThread};

#[test]
fn hash_values() {
    assert_eq!(hash_u32(0), 0);
    assert_eq!(hash_u32(1), 1364076727);
    assert_eq!(hash_u32(2), 821347078);
    assert_eq!(hash_u32(0xdead_beef), 233162409);
}

#[test]
fn demo_thread_iterations() {
    let mut t = DemoThread::new(1);
    let a = t.iterate();
    assert_eq!((a.value, a.hash, a.yields, a.finished), (1, 1364076727, false, false));
    assert_eq!(t.x, 728);
    let b = t.iterate();
    assert_eq!((b.value, b.hash), (729, 4236929474));
    assert_eq!(t.x, 203);
    let c = t.iterate();
    assert_eq!((c.value, c.hash), (204, 3805550098));
    assert_eq!(t.x, 302);
    assert_eq!(t.k, 3);
}

#[test]
fn demo_thread_finishes_after_hundred_iterations() {
    let mut t = DemoThread::new(2);
    let mut n = 0;
    loop {
        let it = t.iterate();
        n += 1;
        assert_eq!(it.yields, it.value % 7 == 0);
        if it.finished {
            break;
        }
    }
    assert_eq!(n, 100);
}
