use channels::cell::Cell;
use channels::once::OnceCell;
use channels::syncunsafecell::SyncUnsafeCell;
use channels::unsafecell::UnsafeCell;

#[test]
fn it_works() {
    let c = Cell::new(42);
    assert_eq!(c.get(), 42);
}

#[test]
fn test_set() {
    let mut c = Cell::new(10);
    c.set(20);
    assert_eq!(c.get(), 20);
}

#[test]
fn cell_test_replace() {
    let mut c = Cell::new(30);
    c.replace(40);
    assert_eq!(c.get(), 40);
}

#[test]
fn cell_test_into_inner() {
    let c = Cell::new(50);
    assert_eq!(c.into_inner(), 50);
}

#[test]
fn cell_test_clone() {
    let c1 = Cell::new(60);
    let c2 = c1.clone();
    assert_eq!(c1.get(), c2.get());
    assert_eq!(c2.get(), 60);
}

#[test]
fn cell_test_default() {
    let c: Cell<i32> = Cell::default();
    assert_eq!(c.get(), 0);
}

#[test]
fn test_partial_eq() {
    let c1 = Cell::new(70);
    let c2 = Cell::new(70);
    assert_eq!(c1, c2);
}

#[test]
fn cell_partial_eq_tells_values_apart() {
    let c1 = Cell::new(70);
    let c2 = Cell::new(71);
    assert!(c1 != c2);
}

#[test]
fn cell_test_from() {
    let c = Cell::from(80);
    assert_eq!(c.get(), 80);
}

#[test]
fn test_as_ptr() {
    let c = Cell::new(90);
    let ptr = c.as_ptr();
    assert_eq!(*ptr, 90);
}

#[test]
fn cell_test_get_mut() {
    let mut c = Cell::new(100);
    *c.get_mut() = 110;
    assert_eq!(c.get(), 110);
}

#[test]
fn test_once_cell_new() {
    let cell: OnceCell<i32> = OnceCell::new();
    assert!(cell.get().is_none());
}

#[test]
fn test_once_cell_set() {
    let mut cell = OnceCell::new();
    assert!(cell.set(10).is_ok());
    assert_eq!(cell.get(), Some(&10));
    assert!(cell.set(20).is_err());
}

#[test]
fn once_cell_second_set_hands_value_back() {
    let mut cell = OnceCell::new();
    assert_eq!(cell.set(10), Ok(()));
    assert_eq!(cell.set(20), Err(20));
    assert_eq!(cell.get(), Some(&10));
}

#[test]
fn test_once_cell_get_mut() {
    let mut cell = OnceCell::new();
    assert!(cell.set(10).is_ok());
    if let Some(value) = cell.get_mut() {
        *value = 20;
    }
    assert_eq!(cell.get(), Some(&20));
}

#[test]
fn once_cell_get_mut_on_empty() {
    let mut cell: OnceCell<i32> = OnceCell::new();
    assert!(cell.get_mut().is_none());
    assert!(cell.get().is_none());
}

#[test]
fn test_once_cell_try_insert() {
    let mut cell = OnceCell::new();
    assert!(cell.try_insert(10).is_ok());
    assert_eq!(cell.get(), Some(&10));
    assert!(cell.try_insert(20).is_err());
}

#[test]
fn once_cell_try_insert_results() {
    let mut cell = OnceCell::new();
    assert_eq!(cell.try_insert(10), Ok(&10));
    assert_eq!(cell.try_insert(20), Err((&10, 20)));
    assert_eq!(cell.get(), Some(&10));
}

#[test]
fn test_once_cell_into_inner() {
    let cell = OnceCell::from(10);
    assert_eq!(cell.into_inner(), Some(10));
}

#[test]
fn once_cell_into_inner_of_empty() {
    let cell: OnceCell<i32> = OnceCell::new();
    assert_eq!(cell.into_inner(), None);
}

#[test]
fn test_once_cell_take() {
    let mut cell = OnceCell::from(10);
    assert_eq!(cell.take(), Some(10));
    assert!(cell.get().is_none());
}

#[test]
fn once_cell_can_be_set_again_after_take() {
    let mut cell = OnceCell::from(10);
    assert_eq!(cell.take(), Some(10));
    assert_eq!(cell.take(), None);
    assert_eq!(cell.set(11), Ok(()));
    assert_eq!(cell.get(), Some(&11));
}

#[test]
fn test_once_cell_clone() {
    let cell = OnceCell::from(10);
    let cloned_cell = cell.clone();
    assert_eq!(cloned_cell.get(), Some(&10));
}

#[test]
fn test_once_cell_default() {
    let cell: OnceCell<i32> = OnceCell::default();
    assert!(cell.get().is_none());
}

#[test]
fn test_once_cell_partial_eq() {
    let cell1 = OnceCell::from(10);
    let cell2 = OnceCell::from(10);
    assert_eq!(cell1, cell2);
}

#[test]
fn test_once_cell_eq() {
    let cell1 = OnceCell::from(10);
    let cell2 = OnceCell::from(10);
    assert!(cell1 == cell2);
}

#[test]
fn once_cell_eq_tells_cells_apart() {
    let cell1 = OnceCell::from(10);
    let cell2 = OnceCell::from(11);
    let empty: OnceCell<i32> = OnceCell::new();
    assert!(cell1 != cell2);
    assert!(cell1 != empty);
}

#[test]
fn syncunsafecell_test_new() {
    let cell = SyncUnsafeCell::new(42);
    assert_eq!(*cell.get(), 42);
}

#[test]
fn syncunsafecell_test_into_inner() {
    let cell = SyncUnsafeCell::new(42);
    assert_eq!(cell.into_inner(), 42);
}

#[test]
fn test_get() {
    let cell = SyncUnsafeCell::new(42);
    assert_eq!(*cell.get(), 42);
}

#[test]
fn syncunsafecell_test_get_mut() {
    let mut cell = SyncUnsafeCell::new(42);
    *cell.get_mut() = 43;
    assert_eq!(*cell.get(), 43);
}

#[test]
fn syncunsafecell_test_default() {
    let cell: SyncUnsafeCell<i32> = Default::default();
    assert_eq!(*cell.get(), 0);
}

#[test]
fn syncunsafecell_test_from() {
    let cell: SyncUnsafeCell<i32> = SyncUnsafeCell::from(42);
    assert_eq!(*cell.get(), 42);
}

#[test]
fn replace_pointer_value() {
    let mut cell = UnsafeCell::new(42);
    let slot: &mut i32 = cell.get_mut();
    *slot = 13;
    assert_eq!(cell.into_inner(), 13);
}

#[test]
fn get_mut_test() {
    let mut cell = UnsafeCell::new(42);
    let mut_ref = cell.get_mut();
    *mut_ref = 43;
    assert_eq!(cell.into_inner(), 43);
}

#[test]
fn unsafecell_default_and_from() {
    let cell: UnsafeCell<u8> = UnsafeCell::default();
    assert_eq!(*cell.get(), 0);
    let cell = UnsafeCell::from(7u8);
    assert_eq!(*cell.get(), 7);
}
