use std::cmp::Ordering;
use std::mem::{align_of, size_of, size_of_val};

use read_cell::ReadCell;

#[test]
fn construct_read_recover() {
    let c = ReadCell::new(5);
    assert_eq!(c.get(), 5);
    assert_eq!(c.into_inner(), 5);
}

#[test]
fn new_then_get_returns_the_value() {
    assert_eq!(ReadCell::new(0u8).get(), 0);
    assert_eq!(ReadCell::new(i64::MIN).get(), i64::MIN);
    assert_eq!(ReadCell::new(u128::MAX).get(), u128::MAX);
    assert_eq!(ReadCell::new('x').get(), 'x');
    assert_eq!(ReadCell::new((1u8, true)).get(), (1u8, true));
    assert_eq!(ReadCell::new([7i16, -7]).get(), [7i16, -7]);
    assert_eq!(ReadCell::new(()).get(), ());
}

#[test]
fn reading_twice_gives_the_same_value() {
    let c = ReadCell::new(41u32);
    assert_eq!(c.get(), c.get());
}

#[test]
fn new_then_into_inner_returns_the_value() {
    let text = String::from("not copyable");
    let c = ReadCell::new(text.clone());
    assert_eq!(c.into_inner(), text);
    let items = vec![1, 2, 3];
    assert_eq!(ReadCell::new(items.clone()).into_inner(), items);
}

#[test]
fn get_mut_writes_through() {
    let mut c = ReadCell::new(5);
    *c.get_mut() += 1;
    assert_eq!(c.get(), 6);
    *c.get_mut() = -3;
    assert_eq!(c.get(), -3);
    assert_eq!(c.into_inner(), -3);
}

#[test]
fn get_mut_without_a_write_changes_nothing() {
    let mut c = ReadCell::new(12u8);
    let slot = c.get_mut();
    assert_eq!(*slot, 12);
    assert_eq!(c.get(), 12);
}

#[test]
fn get_mut_on_a_value_that_is_not_copyable() {
    let mut c = ReadCell::new(String::from("ab"));
    c.get_mut().push('c');
    assert_eq!(c.into_inner(), "abc");
}

#[test]
fn clone_holds_a_copy_of_the_value() {
    let c = ReadCell::new(9u16);
    let d = c.clone();
    assert_eq!(d.get(), 9);
    assert_eq!(c.get(), 9);
}

#[test]
fn clone_does_not_follow_later_writes() {
    let mut c = ReadCell::new(1);
    let d = c.clone();
    *c.get_mut() = 2;
    assert_eq!(c.get(), 2);
    assert_eq!(d.get(), 1);
}

#[test]
fn default_holds_the_default_value() {
    assert_eq!(ReadCell::<i32>::default().get(), 0);
    assert_eq!(ReadCell::<bool>::default().get(), false);
    assert_eq!(ReadCell::<Option<u8>>::default().get(), None);
    assert_eq!(ReadCell::<String>::default().into_inner(), String::new());
}

#[test]
fn from_is_the_constructor() {
    let c = ReadCell::from(3u64);
    assert_eq!(c.get(), 3);
    let d: ReadCell<u64> = 3u64.into();
    assert_eq!(d.get(), ReadCell::new(3u64).get());
    assert!(c == d);
}

#[test]
fn equality_is_that_of_the_values() {
    let pairs = [(1, 1), (1, 2), (2, 1), (-4, -4), (0, i32::MAX)];
    for (a, b) in pairs {
        let left = ReadCell::new(a);
        let right = ReadCell::new(b);
        assert_eq!(left == right, left.get() == right.get());
        assert_eq!(left != right, left.get() != right.get());
    }
}

#[test]
fn equal_values_in_different_cells_are_equal() {
    let left = ReadCell::new(77u8);
    let right = ReadCell::new(77u8);
    assert!(left == right);
    assert!(!(left != right));
}

#[test]
fn order_is_that_of_the_values() {
    let pairs = [(1, 1), (1, 2), (2, 1), (-4, 4), (i32::MIN, i32::MAX)];
    for (a, b) in pairs {
        let left = ReadCell::new(a);
        let right = ReadCell::new(b);
        assert_eq!(left.partial_cmp(&right), a.partial_cmp(&b));
        assert_eq!(left < right, a < b);
        assert_eq!(left <= right, a <= b);
        assert_eq!(left > right, a > b);
        assert_eq!(left >= right, a >= b);
        assert_eq!(left.cmp(&right), a.cmp(&b));
        assert_eq!(Ord::cmp(&left, &right), a.cmp(&b));
    }
}

#[test]
fn three_way_comparison_gives_each_outcome() {
    let two = ReadCell::new(2u8);
    assert_eq!(two.cmp(&ReadCell::new(3)), Ordering::Less);
    assert_eq!(two.cmp(&ReadCell::new(2)), Ordering::Equal);
    assert_eq!(two.cmp(&ReadCell::new(1)), Ordering::Greater);
    assert_eq!(two.partial_cmp(&ReadCell::new(3)), Some(Ordering::Less));
    assert_eq!(two.partial_cmp(&ReadCell::new(2)), Some(Ordering::Equal));
    assert_eq!(two.partial_cmp(&ReadCell::new(1)), Some(Ordering::Greater));
}

#[test]
fn values_without_an_order_give_none() {
    let nan = ReadCell::new(f64::NAN);
    let one = ReadCell::new(1.0f64);
    assert_eq!(nan.partial_cmp(&one), None);
    assert!(!(nan < one));
    assert!(!(nan <= one));
    assert!(!(nan > one));
    assert!(!(nan >= one));
    assert!(nan != nan);
    assert!(one == one);
}

#[test]
fn cells_sort_by_value() {
    let mut cells = vec![ReadCell::new(3), ReadCell::new(1), ReadCell::new(2)];
    cells.sort();
    let read: Vec<i32> = cells.iter().map(|c| c.get()).collect();
    assert_eq!(read, vec![1, 2, 3]);
    let largest = ReadCell::new(4).max(ReadCell::new(9));
    assert_eq!(largest.get(), 9);
}

#[test]
fn cells_of_values_that_are_not_copyable_compare_in_place() {
    let left = ReadCell::new(String::from("a"));
    let right = ReadCell::new(String::from("b"));
    assert!(left < right);
    assert!(left != right);
    assert_eq!(left.cmp(&right), Ordering::Less);
}

#[test]
fn a_cell_is_as_large_as_its_value() {
    assert_eq!(size_of::<ReadCell<u8>>(), size_of::<u8>());
    assert_eq!(size_of::<ReadCell<u64>>(), size_of::<u64>());
    assert_eq!(size_of::<ReadCell<[u16; 5]>>(), size_of::<[u16; 5]>());
    assert_eq!(size_of::<ReadCell<(u8, u32)>>(), size_of::<(u8, u32)>());
    assert_eq!(align_of::<ReadCell<u8>>(), align_of::<u8>());
    assert_eq!(align_of::<ReadCell<u64>>(), align_of::<u64>());
    assert_eq!(align_of::<ReadCell<[u16; 5]>>(), align_of::<[u16; 5]>());
    let array = ReadCell::new([1i32, 2, 3]);
    let slice: &ReadCell<[i32]> = &array;
    assert_eq!(size_of_val(slice), size_of_val(&[1i32, 2, 3][..]));
}

trait SyncProbe<Marker> {
    fn probe() {}
}

impl<T: ?Sized> SyncProbe<()> for T {}

impl<T: ?Sized + Sync> SyncProbe<u8> for T {}

#[test]
fn a_cell_cannot_be_shared_between_threads() {
    // Resolves only while `ReadCell<u32>` has one impl of the probe, that
    // is, while it is not `Sync`.
    <ReadCell<u32> as SyncProbe<_>>::probe();
    <ReadCell<[u8]> as SyncProbe<_>>::probe();
}
