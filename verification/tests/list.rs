use gc_list::{Error, Gc, Heap, List, Obj};
use heapless::Vec;

#[test]
fn list_from_iter() {
    let mut heap = Heap::new();

    // create a list of 5 elements
    let vec: Vec<u8, 10> = (0..5).collect();
    let list: Obj = List::from_iter(&mut heap, vec.iter().copied())
        .unwrap()
        .into();

    // collect the elements into a Vec of maximum length 10, through an iterator
    let back: Gc<List> = list.try_into().unwrap();
    let retrieved_vec: Vec<u8, 10> = back
        .as_ref(&heap)
        .as_slice()
        .iter()
        .copied()
        .map(TryInto::try_into)
        .collect::<Result<Vec<u8, 10>, Error>>()
        .unwrap();
    assert_eq!(vec, retrieved_vec);
}

#[test]
fn list_len() {
    let mut heap = Heap::new();

    let vec: Vec<u16, 17> = (0..17).collect();
    let list = List::from_iter(&mut heap, vec.iter().copied()).unwrap();
    assert_eq!(list.as_ref(&heap).len(), vec.len());
}

#[test]
fn list_as_slice() {
    let mut heap = Heap::new();

    let vec: Vec<u16, 17> = (13..13 + 17).collect();
    let list = List::from_iter(&mut heap, vec.iter().copied()).unwrap();

    let slice = list.as_ref(&heap).as_slice();
    assert_eq!(slice.len(), vec.len());
    for i in 0..slice.len() {
        assert_eq!(vec[i], slice[i].try_into().unwrap());
    }
}

#[test]
fn list_as_mut_slice() {
    let mut heap = Heap::new();

    let vec: Vec<u16, 5> = (0..5).collect();
    let mut list = List::from_iter(&mut heap, vec.iter().copied()).unwrap();

    let slice = Gc::<List>::as_mut(&mut list, &mut heap).as_mut_slice();
    assert_eq!(slice.len(), vec.len());
    assert_eq!(vec[0], slice[0].try_into().unwrap());

    for i in 0..slice.len() {
        slice[i] = ((i + 10) as u16).into();
    }

    let handle: Obj = list.into();
    let back: Gc<List> = handle.try_into().unwrap();
    let retrieved_vec: Vec<u16, 5> = back
        .as_ref(&heap)
        .as_slice()
        .iter()
        .copied()
        .map(TryInto::try_into)
        .collect::<Result<Vec<u16, 5>, Error>>()
        .unwrap();

    for i in 0..retrieved_vec.len() {
        assert_eq!(retrieved_vec[i], vec[i] + 10);
    }
}
