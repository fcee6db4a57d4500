use lateinit::LateInit;

use core::cmp::Ordering;

#[test]
fn compare() {
    let mut li = LateInit::<usize>::new();
    li.init(4);

    assert!(li.gt(&3usize));
    assert!(li.lt(&5usize));
    assert!(li.ge(&4usize));
    assert!(li.le(&4usize));
}

#[test]
fn eq() {
    let mut li = LateInit::<usize>::new();
    li.init(4);

    assert!(li.eq(&4usize));
    assert!(li.ne(&5usize));
}

#[test]
fn single_write_then_read() {
    let mut li = LateInit::<usize>::new();
    li.init(17);

    assert_eq!(*li.data(), 17);
    assert_eq!(*li.deref(), 17);
    assert_eq!(*li.as_ref(), 17);
}

#[test]
fn uninitialized_renders_placeholder() {
    let li = LateInit::<usize>::new();

    assert_eq!(li.debug_string(), "<UNINITIALIZED>".to_string());
    assert_eq!(li.display_string(), "<UNINITIALIZED>".to_string());
}

#[test]
fn initialized_renders_value() {
    let mut li = LateInit::<usize>::new();
    li.init(4);

    assert_eq!(li.debug_string(), "4".to_string());
    assert_eq!(li.display_string(), "4".to_string());
}

#[test]
fn value_transparency() {
    let mut li = LateInit::<usize>::new();
    li.init(4);

    assert_eq!(*li.deref(), 4);
    assert!(li.eq(&4usize));
    assert!(li.gt(&3usize));
    assert!(li.lt(&5usize));
    assert!(li.ge(&4usize));
    assert!(li.le(&4usize));
    assert_eq!(li.partial_cmp(&4usize), Some(Ordering::Equal));
    assert_eq!(li.partial_cmp(&9usize), Some(Ordering::Less));
    assert_eq!(li.partial_cmp(&1usize), Some(Ordering::Greater));
}

#[test]
fn clone_is_independent() {
    let mut li = LateInit::<String>::new();
    li.init("hello world".to_string());

    let copy: String = li.clone();
    assert_eq!(copy, "hello world".to_string());

    // The copy is an independently owned value; the cell still holds its own.
    drop(copy);
    assert_eq!(*li.data(), "hello world".to_string());
}

#[test]
fn repeated_reads_agree() {
    let mut li = LateInit::<usize>::new();
    li.init(29);

    let first = *li.data();
    let second = *li.data();
    let third = *li.deref();
    assert_eq!(first, second);
    assert_eq!(second, third);
    assert!(li.eq(&first));
}

#[test]
fn option_reflects_state() {
    let mut li = LateInit::<usize>::new();
    assert!(li.option().is_none());

    li.init(4);
    assert_eq!(li.option(), &Some(4));
}

#[test]
fn scenario_integer_cell() {
    let mut li = LateInit::<usize>::new();
    assert_eq!(li.debug_string(), "<UNINITIALIZED>".to_string());
    assert_eq!(li.display_string(), "<UNINITIALIZED>".to_string());

    li.init(4);
    assert_eq!(*li.deref(), 4);
    assert!(li.eq(&4usize));
    assert!(li.ne(&5usize));
}

#[test]
fn string_cell() {
    let mut li = LateInit::<String>::new();
    assert_eq!(li.display_string(), "<UNINITIALIZED>".to_string());

    li.init("ready".to_string());
    assert_eq!(li.display_string(), "ready".to_string());
    assert!(li.eq(&"ready".to_string()));
}
