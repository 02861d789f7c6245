use lexpr::{Cons, Value};

fn num(n: i64) -> Value {
    Value::Number(n)
}

fn chain(items: &[i64], terminator: Value) -> Cons {
    let mut rest = terminator;
    for (i, item) in items.iter().enumerate().rev() {
        let cell = Cons::new(num(*item), rest);
        if i == 0 {
            return cell;
        }
        rest = Value::Cons(cell);
    }
    panic!("a chain needs at least one element")
}

#[test]
fn new_holds_both_values() {
    let cell = Cons::new(num(1), num(2));
    assert_eq!(cell.car(), &num(1));
    assert_eq!(cell.cdr(), &num(2));
}

#[test]
fn as_pair_borrows_both() {
    let cell = Cons::new(num(1), num(2));
    assert_eq!(cell.as_pair(), (&num(1), &num(2)));
}

#[test]
fn into_pair_gives_back_head_and_tail() {
    let cell = Cons::new(Value::Bool(true), num(42));
    assert_eq!(cell.car(), &Value::Bool(true));
    assert_eq!(cell.cdr(), &num(42));
    let (car, cdr) = cell.into_pair();
    assert_eq!(car, Value::Bool(true));
    assert_eq!(cdr, num(42));

    let inner = Cons::new(num(7), Value::Null);
    let (car, cdr) = Cons::new(Value::Cons(inner.clone()), Value::Null).into_pair();
    assert_eq!(car, Value::Cons(inner));
    assert_eq!(cdr, Value::Null);
}

#[test]
fn setters_replace_one_field() {
    let mut cell = Cons::new(num(1), num(2));
    cell.set_car(num(10));
    assert_eq!(cell.as_pair(), (&num(10), &num(2)));
    cell.set_cdr(Value::Null);
    assert_eq!(cell.as_pair(), (&num(10), &Value::Null));
}

#[test]
fn mutable_accessors_write_through() {
    let mut cell = Cons::new(num(1), num(2));
    *cell.car_mut() = num(5);
    *cell.cdr_mut() = Value::Bool(false);
    assert_eq!(cell.car(), &num(5));
    assert_eq!(cell.cdr(), &Value::Bool(false));
}

#[test]
fn from_conversions() {
    assert_eq!(Value::from(3i64), num(3));
    assert_eq!(Value::from(true), Value::Bool(true));
    let cell = Cons::new(num(1), Value::Null);
    assert_eq!(Value::from(cell.clone()), Value::Cons(cell));
}

#[test]
fn is_cons_predicate() {
    assert!(Value::Cons(Cons::new(num(1), num(2))).is_cons());
    assert!(!Value::Null.is_cons());
    assert!(!num(1).is_cons());
}

#[test]
fn borrowing_traversal_yields_every_cell() {
    let list = chain(&[1, 2, 3, 4], Value::Null);
    let mut iter = list.iter();
    let mut cars = Vec::new();
    let mut tails_are_cells = Vec::new();
    while let Some(cell) = iter.next() {
        cars.push(cell.car().clone());
        tails_are_cells.push(cell.cdr().is_cons());
    }
    assert_eq!(cars, vec![num(1), num(2), num(3), num(4)]);
    assert_eq!(tails_are_cells, vec![true, true, true, false]);
    assert!(iter.next().is_none());
}

#[test]
fn borrowing_traversal_of_dotted_pair_yields_one_cell() {
    let cell = Cons::new(num(1), num(2));
    let mut iter = cell.iter();
    assert_eq!(iter.next(), Some(&cell));
    assert_eq!(iter.next(), None);
}

#[test]
fn owning_traversal_marks_only_the_last_item() {
    let list = chain(&[1, 2], num(3));
    let mut iter = list.into_iter();
    assert_eq!(iter.next(), Some((num(1), None)));
    assert_eq!(iter.next(), Some((num(2), Some(num(3)))));
    assert_eq!(iter.next(), None);
}

#[test]
fn owning_traversal_of_proper_list_ends_in_null() {
    let list = chain(&[5, 6, 7], Value::Null);
    let mut iter = list.into_iter();
    let mut items = Vec::new();
    while let Some(item) = iter.next() {
        items.push(item);
    }
    assert_eq!(
        items,
        vec![(num(5), None), (num(6), None), (num(7), Some(Value::Null))]
    );
}

#[test]
fn dotted_pair_converts_to_one_element() {
    let cell = Cons::new(num(1), num(2));
    assert_eq!(cell.to_vec(), (vec![num(1)], num(2)));
    assert_eq!(cell.to_ref_vec(), (vec![&num(1)], &num(2)));
    assert_eq!(cell.into_vec(), (vec![num(1)], num(2)));
}

#[test]
fn proper_list_converts_under_all_three() {
    let list = Cons::new(
        num(1),
        Cons::new(num(2), Cons::new(num(3), Value::Null).into()).into(),
    );
    assert_eq!(list.to_vec(), (vec![num(1), num(2), num(3)], Value::Null));
    assert_eq!(
        list.to_ref_vec(),
        (vec![&num(1), &num(2), &num(3)], &Value::Null)
    );
    assert_eq!(list.into_vec(), (vec![num(1), num(2), num(3)], Value::Null));
}

#[test]
fn built_chains_read_back_their_parts() {
    let cases: Vec<(Vec<i64>, Value)> = vec![
        (vec![9], Value::Null),
        (vec![1, 2, 3, 4, 5], Value::Bool(false)),
        (vec![-4, 0, 4], num(-1)),
    ];
    for (items, terminator) in cases {
        let expected: Vec<Value> = items.iter().map(|n| num(*n)).collect();
        let list = chain(&items, terminator.clone());
        let (refs, last) = list.to_ref_vec();
        let refs: Vec<Value> = refs.into_iter().cloned().collect();
        assert_eq!(refs, expected);
        assert_eq!(last, &terminator);
        assert_eq!(list.to_vec(), (expected.clone(), terminator.clone()));
        assert_eq!(list.into_vec(), (expected, terminator));
    }
}

#[test]
fn long_chain_converts() {
    let items: Vec<i64> = (0..10_000).collect();
    let list = chain(&items, num(-1));
    let (values, last) = list.to_vec();
    assert_eq!(values.len(), 10_000);
    assert_eq!(values[9_999], num(9_999));
    assert_eq!(last, num(-1));
    let mut count = 0;
    let mut iter = list.iter();
    while iter.next().is_some() {
        count += 1;
    }
    assert_eq!(count, 10_000);
    let (owned, last) = list.into_vec();
    assert_eq!(owned, values);
    assert_eq!(last, num(-1));
}

#[test]
fn equality_is_structural() {
    assert_eq!(Cons::new(num(1), num(2)), Cons::new(num(1), num(2)));
    assert_ne!(Cons::new(num(1), num(2)), Cons::new(num(1), num(3)));
    assert_ne!(Cons::new(num(1), num(2)), Cons::new(num(0), num(2)));
    assert_ne!(Cons::new(num(1), Value::Null), Cons::new(num(1), Value::Bool(false)));
    assert_eq!(chain(&[1, 2, 3], Value::Null), chain(&[1, 2, 3], Value::Null));
    assert_ne!(chain(&[1, 2, 3], Value::Null), chain(&[1, 2, 4], Value::Null));
    assert_ne!(chain(&[1, 2, 3], Value::Null), chain(&[1, 2, 3], num(0)));
    assert_ne!(chain(&[1, 2], Value::Null), chain(&[1, 2, 3], Value::Null));
}

#[test]
fn equality_of_deep_chains() {
    let items: Vec<i64> = (0..1_000).collect();
    let a = chain(&items, Value::Null);
    let b = a.clone();
    assert_eq!(a, b);
    let mut changed = items.clone();
    changed[999] = -1;
    assert_ne!(a, chain(&changed, Value::Null));
}

#[test]
fn clone_is_equal() {
    let list = chain(&[1, 2, 3], Value::Bool(true));
    let copy = list.clone();
    assert_eq!(copy, list);
    assert_eq!(copy.to_vec(), list.to_vec());
}

#[test]
fn dotted_pair_renders_with_dot() {
    assert_eq!(Cons::new(num(1), num(2)).to_debug_string(), "(1 . 2)");
}

#[test]
fn nested_cells_render_recursively() {
    let list = chain(&[1, 2], Value::Null);
    assert_eq!(list.to_debug_string(), "(1 . (2 . ()))");
    let cell = Cons::new(Value::Bool(true), Value::Bool(false));
    assert_eq!(cell.to_debug_string(), "(#t . #f)");
    assert_eq!(Cons::new(num(-305), num(i64::MIN)).to_debug_string(), "(-305 . -9223372036854775808)");
    assert_eq!(Value::Number(i64::MAX).to_debug_string(), "9223372036854775807");
    assert_eq!(Value::Number(0).to_debug_string(), "0");
    assert_eq!(Value::Null.to_debug_string(), "()");
}
