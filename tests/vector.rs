use tflite::{InnerIndex, Vector, VectorInsert, VectorOfUniquePtr, VectorRemove, VectorSlice};

fn filled(vs: &[i32]) -> Vector<i32> {
    let mut v = Vector::new();
    for x in vs {
        v.push_back(*x);
    }
    v
}

#[test]
fn push_back_keeps_insertion_order() {
    let mut v: Vector<i32> = Vector::new();
    assert_eq!(v.size(), 0);
    let pushed = [7, -3, 7, 100, 0];
    for (n, x) in pushed.iter().enumerate() {
        v.push_back(*x);
        assert_eq!(v.size(), n + 1);
    }
    for (i, x) in pushed.iter().enumerate() {
        assert_eq!(v.get(i), x);
    }
    assert_eq!(v.as_slice(), &pushed[..]);
}

#[test]
fn erase_shifts_later_elements_down() {
    let mut v = filled(&[1, 2, 3, 4, 5]);
    v.erase(1);
    assert_eq!(v.size(), 4);
    assert_eq!(v.as_slice(), &[1, 3, 4, 5]);
    v.erase(3);
    assert_eq!(v.as_slice(), &[1, 3, 4]);
    v.erase(0);
    assert_eq!(v.as_slice(), &[3, 4]);
}

#[test]
fn clear_leaves_size_zero() {
    let mut v = filled(&[1, 2, 3]);
    v.clear();
    assert_eq!(v.size(), 0);
    let mut e: Vector<i32> = Vector::new();
    e.clear();
    assert_eq!(e.size(), 0);
}

#[test]
fn truncate_keeps_prefix() {
    let mut v = filled(&[9, 8, 7, 6]);
    v.truncate(4);
    assert_eq!(v.as_slice(), &[9, 8, 7, 6]);
    v.truncate(2);
    assert_eq!(v.size(), 2);
    assert_eq!(v.as_slice(), &[9, 8]);
    v.truncate(0);
    assert_eq!(v.size(), 0);
}

#[test]
fn retain_even_indices() {
    let mut v: Vector<char> = Vector::new();
    v.assign(vec!['a', 'b', 'c', 'd', 'e', 'f']);
    v.retain(|i: usize, _x: &char| i % 2 == 0);
    assert_eq!(v.as_slice(), &['a', 'c', 'e']);
}

#[test]
fn retain_by_value_keeps_order() {
    let mut v = filled(&[5, 1, 6, 2, 7, 3]);
    v.retain(|_i: usize, x: &i32| *x > 4);
    assert_eq!(v.as_slice(), &[5, 6, 7]);
    v.retain(|_i: usize, _x: &i32| true);
    assert_eq!(v.as_slice(), &[5, 6, 7]);
    v.retain(|_i: usize, _x: &i32| false);
    assert_eq!(v.size(), 0);
}

#[test]
fn erase_range_middle() {
    let mut v = filled(&[10, 20, 30, 40]);
    v.erase_range(1, 2);
    assert_eq!(v.as_slice(), &[10, 40]);
    assert_eq!(v.size(), 2);
}

#[test]
fn erase_range_edges() {
    let mut v = filled(&[10, 20, 30, 40]);
    v.erase_range(2, 0);
    assert_eq!(v.as_slice(), &[10, 20, 30, 40]);
    v.erase_range(2, 2);
    assert_eq!(v.as_slice(), &[10, 20]);
    v.erase_range(0, 2);
    assert_eq!(v.size(), 0);
}

#[test]
fn pop_back_removes_last() {
    let mut v = filled(&[1, 2, 3]);
    v.pop_back();
    assert_eq!(v.as_slice(), &[1, 2]);
    v.pop_back();
    v.pop_back();
    assert_eq!(v.size(), 0);
}

#[test]
fn assign_replaces_contents() {
    let mut v = filled(&[1, 2, 3]);
    v.assign(vec![4, 5]);
    assert_eq!(v.as_slice(), &[4, 5]);
    v.assign(Vec::new());
    assert_eq!(v.size(), 0);
}

#[test]
fn writes_go_through_to_the_buffer() {
    let mut v = filled(&[1, 2, 3]);
    *v.get_mut(1) = 20;
    assert_eq!(v.as_slice(), &[1, 20, 3]);
    v.as_mut_slice()[2] = 30;
    assert_eq!(v.as_slice(), &[1, 20, 30]);
}

#[test]
fn owning_index_reaches_distinct_objects() {
    let mut v: Vector<Box<u64>> = Vector::new();
    v.assign(vec![Box::new(100), Box::new(200), Box::new(300)]);
    assert_eq!(v.size(), 3);
    assert_eq!(*v.index(InnerIndex(0)), 100);
    assert_eq!(*v.index(InnerIndex(1)), 200);
    assert_eq!(*v.index(InnerIndex(2)), 300);
    *v.index_mut(InnerIndex(1)) = 7;
    assert_eq!(*v.index(InnerIndex(0)), 100);
    assert_eq!(*v.index(InnerIndex(1)), 7);
    assert_eq!(*v.index(InnerIndex(2)), 300);
}

#[test]
fn owning_index_after_erase() {
    let mut v: VectorOfUniquePtr<String> = VectorOfUniquePtr::new();
    v.assign(vec![Box::new("x".to_string()), Box::new("y".to_string()), Box::new("z".to_string())]);
    v.erase(0);
    assert_eq!(v.size(), 2);
    assert_eq!(v.index(InnerIndex(0)), "y");
    v.index_mut(InnerIndex(1)).push('!');
    assert_eq!(v.index(InnerIndex(1)), "z!");
    v.retain(|_i: usize, s: &Box<String>| s.len() == 1);
    assert_eq!(v.size(), 1);
    assert_eq!(v.index(InnerIndex(0)), "y");
}
