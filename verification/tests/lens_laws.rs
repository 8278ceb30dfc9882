//! Lenses: projection, writing, defaults, and the composition laws on
//! concrete values.

use gru_ui::{Chars, Data, DataList, Lens};

fn list3(a: Data, b: Data, c: Data) -> Data {
    Data::List(Box::new(DataList::Cons(
        a,
        Box::new(DataList::Cons(b, Box::new(DataList::Cons(c, Box::new(DataList::Nil))))),
    )))
}

fn chars_of(s: &str) -> Chars {
    let mut c = Chars::new();
    for ch in s.chars() {
        c.push_back(ch);
    }
    c
}

#[test]
fn lens_field_reads_element() {
    let v = list3(Data::Int(10), Data::Bool(true), Data::Text(chars_of("hi")));
    let l = Lens::Field(1);
    assert!(l.get(&v).eq_val(&Data::Bool(true)));
}

#[test]
fn lens_field_miss_reads_unit() {
    let v = list3(Data::Int(10), Data::Bool(true), Data::Unit);
    let l = Lens::Field(7);
    assert!(l.get(&v).eq_val(&Data::Unit));
    let on_scalar = Lens::Field(0);
    assert!(on_scalar.get(&Data::Int(3)).eq_val(&Data::Unit));
}

#[test]
fn lens_slice_miss_reads_default() {
    let v = list3(Data::Int(10), Data::Int(20), Data::Int(30));
    let l = Lens::Slice(9, Box::new(Data::Int(-1)));
    assert!(l.get(&v).eq_val(&Data::Int(-1)));
}

#[test]
fn lens_put_replaces_element() {
    let mut v = list3(Data::Int(10), Data::Int(20), Data::Int(30));
    Lens::Field(2).put(&mut v, Data::Int(99));
    assert!(v.eq_val(&list3(Data::Int(10), Data::Int(20), Data::Int(99))));
}

#[test]
fn lens_put_miss_keeps_value() {
    let mut v = list3(Data::Int(10), Data::Int(20), Data::Int(30));
    Lens::Slice(9, Box::new(Data::Int(-1))).put(&mut v, Data::Int(99));
    assert!(v.eq_val(&list3(Data::Int(10), Data::Int(20), Data::Int(30))));
}

#[test]
fn lens_chain_law_with() {
    // Reading through a chain equals nested reads.
    let inner = list3(Data::Int(1), Data::Int(2), Data::Int(3));
    let v = list3(Data::Unit, inner.duplicate(), Data::Unit);
    let l1 = Lens::Field(1);
    let l2 = Lens::Field(2);
    let chained = l1.duplicate().chain(l2.duplicate());
    let nested = l2.get(&l1.get(&v));
    assert!(chained.get(&v).eq_val(&nested));
    assert!(chained.get(&v).eq_val(&Data::Int(3)));
}

#[test]
fn lens_chain_law_with_mut() {
    // Writing through a chain equals read, inner write, outer write-back.
    let inner = list3(Data::Int(1), Data::Int(2), Data::Int(3));
    let v0 = list3(Data::Unit, inner, Data::Unit);
    let l1 = Lens::Field(1);
    let l2 = Lens::Field(0);

    let mut via_chain = v0.duplicate();
    l1.duplicate().chain(l2.duplicate()).put(&mut via_chain, Data::Int(42));

    let mut projected = l1.get(&v0);
    l2.put(&mut projected, Data::Int(42));
    let mut via_nested = v0.duplicate();
    l1.put(&mut via_nested, projected);

    assert!(via_chain.eq_val(&via_nested));
    let expect = list3(Data::Unit, list3(Data::Int(42), Data::Int(2), Data::Int(3)), Data::Unit);
    assert!(via_chain.eq_val(&expect));
}

#[test]
fn lens_chain_associative() {
    let leaf = list3(Data::Int(7), Data::Int(8), Data::Int(9));
    let mid = list3(Data::Unit, leaf, Data::Unit);
    let v = list3(mid, Data::Unit, Data::Unit);
    let a = || Lens::Field(0);
    let b = || Lens::Field(1);
    let c = || Lens::Field(2);
    let left = a().chain(b()).chain(c());
    let right = a().chain(b().chain(c()));
    assert!(left.get(&v).eq_val(&Data::Int(9)));
    assert!(left.get(&v).eq_val(&right.get(&v)));
    let mut v1 = v.duplicate();
    let mut v2 = v.duplicate();
    left.put(&mut v1, Data::Int(0));
    right.put(&mut v2, Data::Int(0));
    assert!(v1.eq_val(&v2));
}

#[test]
fn chars_push_pop_len() {
    let mut t = chars_of("ab");
    t.push_back('c');
    assert_eq!(t.to_vec(), vec!['a', 'b', 'c']);
    assert_eq!(t.len_sat(), 3);
    t.pop_back();
    assert_eq!(t.to_vec(), vec!['a', 'b']);
    let mut e = Chars::new();
    e.pop_back();
    assert_eq!(e.to_vec(), Vec::<char>::new());
}

#[test]
fn data_eq_is_structural() {
    let a = list3(Data::Int(1), Data::Text(chars_of("x")), Data::Bool(false));
    let b = list3(Data::Int(1), Data::Text(chars_of("x")), Data::Bool(false));
    let c = list3(Data::Int(1), Data::Text(chars_of("y")), Data::Bool(false));
    assert!(a.eq_val(&b));
    assert!(!a.eq_val(&c));
    assert!(a.duplicate().eq_val(&a));
}
