use channels::boks::Boks;
use channels::spinlock::Mutex;

#[test]
fn a_boks_owns_its_value() {
    let mut b = Boks::new(42);

    assert_eq!(42, *b.get());
    b.set(43);
    assert_eq!(43, *b.get());
    assert_eq!(43, b.into_inner());
}

#[test]
fn the_lock_guards_its_value() {
    let mut m = Mutex::new(0);

    m.acquire();
    assert_eq!(0, *m.get());
    m.set(10);
    m.release();
    m.acquire();
    assert_eq!(10, *m.get());
    m.release();
}
