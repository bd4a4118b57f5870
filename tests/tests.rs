use std::collections::HashMap;
use unsafer::assumptions::{assume_that, OptionAssume};
use unsafer::pointers::{swap_aliasing, Bind, CellMut, CellRef, ConstPtr, MutPtr, Pointer};
use unsafer::shared_box::SharedBox;

struct Increment {
    ctr: ConstPtr,
}

impl Increment {
    fn inc(&self, mem: &mut [i32]) {
        let mut bind = Bind::new();
        *bind.get_mut(mem, self.ctr) += 1;
    }
}

#[test]
fn shared_test() {
    let s = Box::new(0);
    let mut s = SharedBox::from(s);
    {
        let a = Increment { ctr: s.as_ptr() };
        let b = Increment { ctr: s.as_ptr() };
        a.inc(s.memory_mut());
        b.inc(s.memory_mut());
    }
    let s = s.into_box();

    assert_eq!(*s, 2);
}

fn swap_ptr(mem: &mut [i32], a: MutPtr, b: MutPtr) {
    let mut bind = Bind::new();
    let temp = *bind.get(mem, a);
    *bind.get_mut(mem, a) = *bind.get(mem, b);
    *bind.get_mut(mem, b) = temp;
}

#[test]
fn bind_test() {
    let mut mem = vec![0, 10];
    let a = MutPtr { addr: 0 };
    let b = MutPtr { addr: 1 };
    swap_ptr(&mut mem, a, b);
    assert_eq!(mem[0], 10);

    swap_ptr(&mut mem, a, a);
    assert_eq!(mem[0], 10);
}

#[test]
fn assume_test() {
    let v = vec![1, 4, 7, 9];

    assume_that(|| v.len() == 4);
    let second = v[2];

    assert!(second == 7);

    let mut dict = HashMap::new();
    dict.insert("first", 64);
    dict.insert("second", 93);
    dict.insert("third", 1256);
    dict.insert("fourth", 5483);

    let a = *dict.get("third").assume_some();
    assert!(a == 1256);
}

#[test]
fn round_trip_keeps_value() {
    let s = SharedBox::from(Box::new(vec![3u8, 1, 4]));
    let b = s.into_box();
    assert_eq!(*b, vec![3u8, 1, 4]);
}

#[test]
fn shared_handles_name_one_cell() {
    let mut s = SharedBox::from(Box::new(5i64));
    let p = s.as_ptr();
    let q = s.as_ptr();
    assert_eq!(p.addr, q.addr);
    let mut bind = Bind::new();
    *bind.get_mut(s.memory_mut(), p) += 3;
    assert_eq!(*Bind::new().get(s.memory(), q), 8);
    *bind.get_mut(s.memory_mut(), q) += 4;
    assert_eq!(*Bind::new().get(s.memory(), p), 12);
    assert_eq!(*s.into_box(), 12);
}

#[test]
fn shared_memory_is_one_cell() {
    let s = SharedBox::from(Box::new('x'));
    assert_eq!(s.memory(), &['x'][..]);
}

#[test]
fn self_swap_is_noop() {
    let mut mem = vec![1u32, 2, 3];
    swap_aliasing(&mut mem, MutPtr { addr: 1 }, MutPtr { addr: 1 });
    assert_eq!(mem, vec![1u32, 2, 3]);
}

#[test]
fn swap_exchanges_values() {
    let mut mem = vec![1u32, 2, 3];
    swap_aliasing(&mut mem, MutPtr { addr: 0 }, MutPtr { addr: 2 });
    assert_eq!(mem, vec![3u32, 2, 1]);
}

#[test]
fn slice_reads_range() {
    let mem = vec![10, 20, 30, 40, 50];
    let bind = Bind::new();
    assert_eq!(bind.slice(&mem, ConstPtr { addr: 1 }, 3), &[20, 30, 40][..]);
    assert_eq!(bind.slice(&mem, CellRef { addr: 4 }, 0), &[] as &[i32]);
}

#[test]
fn slice_mut_writes_range_only() {
    let mut mem = vec![10, 20, 30, 40, 50];
    let mut bind = Bind::new();
    let cells = bind.slice_mut(&mut mem, CellMut { addr: 2 }, 2);
    cells[0] = 3;
    cells[1] = 4;
    assert_eq!(mem, vec![10, 20, 3, 4, 50]);
}

#[test]
fn write_with_stores_result() {
    let mut mem = vec![0u64; 4];
    let mut p = CellMut { addr: 3 };
    p.write_with(&mut mem, || 6 * 7);
    assert_eq!(mem, vec![0u64, 0, 0, 42]);
    let mut q = ConstPtr { addr: 0 };
    q.write_with(&mut mem, || 9);
    assert_eq!(mem, vec![9u64, 0, 0, 42]);
}

#[test]
fn pointers_report_their_address() {
    let m = MutPtr { addr: 7 };
    let c = CellRef { addr: 5 };
    let mut k = ConstPtr { addr: 2 };
    assert_eq!(Pointer::<u8>::as_ptr(&m).addr, 7);
    assert_eq!(Pointer::<u8>::as_ptr(&c).addr, 5);
    assert_eq!(Pointer::<u8>::as_mut_ptr(&mut k).addr, 2);
    let mut w = CellMut { addr: 9 };
    assert_eq!(Pointer::<u8>::as_mut_ptr(&mut w).addr, 9);
}

#[test]
fn read_through_uninit_view() {
    let mem = vec!['a', 'b'];
    let bind = Bind::new();
    assert_eq!(*bind.get(&mem, CellRef { addr: 1 }), 'b');
}

#[test]
fn assume_none_on_absent() {
    let dict: HashMap<&str, i32> = HashMap::new();
    dict.get("missing").assume_none();
    assert_eq!(Some(4).assume_some(), 4);
}
