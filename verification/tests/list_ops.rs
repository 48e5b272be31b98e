use std::marker::PhantomData;
use traitlist::{Cons, LinkedList, Nil};

fn nil<T>() -> Nil<T> {
    Nil(PhantomData)
}

fn items<L: LinkedList>(list: &L) -> Vec<L::Item>
where
    L::Item: Clone,
{
    let mut out = Vec::new();
    let mut idx = 0;
    while let Some(item) = list.get(idx) {
        out.push(item.clone());
        idx += 1;
    }
    assert_eq!(out.len(), list.len());
    out
}

#[test]
fn empty_list_has_nothing() {
    let mut list = nil::<i32>();
    assert_eq!(list.len(), 0);
    assert_eq!(list.head(), None);
    assert_eq!(list.get(0), None);
    assert_eq!(list.get(7), None);
    assert!(list.head_mut().is_none());
    assert!(list.get_mut(0).is_none());
}

#[test]
fn len_counts_the_cells() {
    assert_eq!(Cons(7, nil()).len(), 1);
    assert_eq!(Cons(1, Cons(2, Cons(3, nil()))).len(), 3);
}

#[test]
fn head_is_the_first_element() {
    let list = Cons(4, Cons(5, nil()));
    assert_eq!(list.head(), Some(&4));
    assert_eq!(list.get(0), list.head());
}

#[test]
fn head_mut_writes_the_first_element() {
    let mut list = Cons(4, Cons(5, nil()));
    *list.head_mut().unwrap() = 40;
    assert_eq!(items(&list), vec![40, 5]);
}

#[test]
fn get_finds_each_position() {
    let list = Cons(10, Cons(20, Cons(30, nil())));
    assert_eq!(list.get(0), Some(&10));
    assert_eq!(list.get(1), Some(&20));
    assert_eq!(list.get(2), Some(&30));
}

#[test]
fn get_past_the_end_is_none() {
    let list = Cons(1, Cons(2, Cons(3, nil())));
    assert_eq!(list.get(3), None);
    assert_eq!(list.get(5), None);
    assert_eq!(list.get(usize::MAX), None);
}

#[test]
fn get_mut_writes_one_element() {
    let mut list = Cons(1, Cons(2, Cons(3, nil())));
    *list.get_mut(1).unwrap() = 20;
    assert_eq!(items(&list), vec![1, 20, 3]);
    *list.get_mut(2).unwrap() += 4;
    assert_eq!(items(&list), vec![1, 20, 7]);
}

#[test]
fn get_mut_past_the_end_is_none() {
    let mut list = Cons(1, Cons(2, Cons(3, nil())));
    assert!(list.get_mut(3).is_none());
    assert!(list.get_mut(5).is_none());
    assert_eq!(items(&list), vec![1, 2, 3]);
}

#[test]
fn push_puts_the_element_in_front() {
    let list = Cons(2, Cons(3, nil()));
    let before = items(&list);
    let pushed = list.push(1);
    assert_eq!(pushed.len(), before.len() + 1);
    assert_eq!(pushed.get(0), Some(&1));
    for (i, item) in before.iter().enumerate() {
        assert_eq!(pushed.get(i + 1), Some(item));
    }
    assert_eq!(items(&pushed), vec![1, 2, 3]);
}

#[test]
fn push_onto_empty_list() {
    let pushed = nil().push(5);
    assert_eq!(items(&pushed), vec![5]);
}

#[test]
fn pop_gives_head_and_rest() {
    let list = Cons(1, Cons(2, Cons(3, nil())));
    let head = list.head().copied();
    let len = list.len();
    let (popped, rest) = list.pop();
    assert_eq!(popped, Some(1));
    assert_eq!(popped, head);
    assert_eq!(rest.len(), len - 1);
    assert_eq!(items(&rest), vec![2, 3]);
}

#[test]
fn pop_on_empty_list_gives_none() {
    let (popped, rest) = nil::<i32>().pop();
    assert_eq!(popped, None);
    assert_eq!(rest.len(), 0);
    assert_eq!(rest.head(), None);
}

#[test]
fn pop_undoes_push() {
    let (popped, rest) = Cons(2, Cons(3, nil())).push(1).pop();
    assert_eq!(popped, Some(1));
    assert_eq!(items(&rest), vec![2, 3]);
}

#[test]
fn remove_from_the_middle() {
    let list = Cons(1, Cons(2, Cons(3, nil())));
    let (elem, rest) = list.remove(1);
    assert_eq!(elem, 2);
    assert_eq!(items(&rest), vec![1, 3]);
}

#[test]
fn remove_the_first() {
    let list = Cons(1, Cons(2, Cons(3, nil())));
    let (elem, rest) = list.remove(0);
    assert_eq!(elem, 1);
    assert_eq!(items(&rest), vec![2, 3]);
}

#[test]
fn remove_the_last() {
    let list = Cons(1, Cons(2, Cons(3, nil())));
    let (elem, rest) = list.remove(2);
    assert_eq!(elem, 3);
    assert_eq!(items(&rest), vec![1, 2]);
}

#[test]
fn remove_the_only_element() {
    let (elem, rest) = Cons(9, nil()).remove(0);
    assert_eq!(elem, 9);
    assert_eq!(rest.len(), 0);
}

#[test]
fn remove_from_a_longer_list() {
    let list = Cons(1, Cons(1, Cons(2, Cons(3, Cons(4, nil())))));
    let (elem, rest) = list.remove(2);
    assert_eq!(elem, 2);
    assert_eq!(items(&rest), vec![1, 1, 3, 4]);
    let (elem, rest) = rest.remove(3);
    assert_eq!(elem, 4);
    assert_eq!(items(&rest), vec![1, 1, 3]);
}

#[test]
fn remove_moves_values_that_are_not_copied() {
    let list = Cons("a".to_string(), Cons("b".to_string(), Cons("c".to_string(), nil())));
    let (elem, rest) = list.remove(1);
    assert_eq!(elem, "b");
    assert_eq!(items(&rest), vec!["a".to_string(), "c".to_string()]);
}

#[test]
fn insert_in_the_middle() {
    let list = Cons(1, Cons(1, Cons(1, Cons(1, nil()))));
    let list = list.insert(2, 2);
    assert_eq!(items(&list), vec![1, 1, 2, 1, 1]);
}

#[test]
fn insert_at_the_front_is_push() {
    let list = Cons(2, Cons(3, nil())).insert(0, 1);
    assert_eq!(items(&list), vec![1, 2, 3]);
    assert_eq!(items(&list), items(&Cons(2, Cons(3, nil())).push(1)));
}

#[test]
fn insert_behind_the_last() {
    let list = Cons(1, Cons(2, nil())).insert(2, 3);
    assert_eq!(items(&list), vec![1, 2, 3]);
}

#[test]
fn insert_at_each_position() {
    assert_eq!(items(&Cons(1, Cons(2, Cons(3, nil()))).insert(0, 9)), vec![9, 1, 2, 3]);
    assert_eq!(items(&Cons(1, Cons(2, Cons(3, nil()))).insert(1, 9)), vec![1, 9, 2, 3]);
    assert_eq!(items(&Cons(1, Cons(2, Cons(3, nil()))).insert(2, 9)), vec![1, 2, 9, 3]);
    assert_eq!(items(&Cons(1, Cons(2, Cons(3, nil()))).insert(3, 9)), vec![1, 2, 3, 9]);
}

#[test]
fn insert_into_empty_list() {
    let list = nil().insert(0, 9);
    assert_eq!(items(&list), vec![9]);
}

#[test]
fn insert_moves_values_that_are_not_copied() {
    let list = Cons("a".to_string(), Cons("c".to_string(), nil()));
    let list = list.insert(1, "b".to_string());
    assert_eq!(items(&list), vec!["a".to_string(), "b".to_string(), "c".to_string()]);
}

#[test]
fn remove_undoes_insert_at_each_position() {
    for idx in 0..4 {
        let list = Cons(10, Cons(20, Cons(30, nil())));
        let (elem, rest) = list.insert(idx, 99).remove(idx);
        assert_eq!(elem, 99);
        assert_eq!(items(&rest), vec![10, 20, 30]);
    }
}

#[test]
fn insert_undoes_remove_at_each_position() {
    for idx in 0..3 {
        let list = Cons(10, Cons(20, Cons(30, nil())));
        let (elem, rest) = list.remove(idx);
        assert_eq!(items(&rest.insert(idx, elem)), vec![10, 20, 30]);
    }
}

#[test]
fn default_of_nil_is_empty() {
    let list: Nil<i32> = Default::default();
    assert_eq!(list.len(), 0);
}

#[test]
fn default_of_cons_holds_default_elements() {
    let list: Cons<i32, Cons<i32, Nil<i32>>> = Default::default();
    assert_eq!(items(&list), vec![0, 0]);
    let words: Cons<String, Nil<String>> = Default::default();
    assert_eq!(items(&words), vec![String::new()]);
}

#[test]
fn lists_can_be_printed_for_debugging() {
    let list = Cons(1, Cons(2, nil::<i32>()));
    assert_eq!(format!("{:?}", list), "Cons(1, Cons(2, Nil(PhantomData<i32>)))");
}

#[test]
fn remove_agrees_with_a_vector_at_each_position() {
    for idx in 0..5 {
        let list = Cons(10, Cons(11, Cons(12, Cons(13, Cons(14, nil())))));
        let mut model = vec![10, 11, 12, 13, 14];
        let (elem, rest) = list.remove(idx);
        assert_eq!(elem, model.remove(idx));
        assert_eq!(items(&rest), model);
    }
}

#[test]
fn insert_agrees_with_a_vector_at_each_position() {
    for idx in 0..6 {
        let list = Cons(10, Cons(11, Cons(12, Cons(13, Cons(14, nil())))));
        let mut model = vec![10, 11, 12, 13, 14];
        let list = list.insert(idx, 99);
        model.insert(idx, 99);
        assert_eq!(items(&list), model);
    }
}

fn sum<L: LinkedList<Item = i32>>(list: &L) -> i32 {
    let mut total = 0;
    let mut walk = list.iter();
    while let Some(item) = walk.next() {
        total += item;
    }
    total
}

#[test]
fn any_list_can_be_handed_to_generic_code() {
    assert_eq!(sum(&nil()), 0);
    assert_eq!(sum(&Cons(1, Cons(2, Cons(3, nil())))), 6);
    assert_eq!(sum(&Cons(1, Cons(2, Cons(3, nil()))).push(4)), 10);
}
