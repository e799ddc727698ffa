use std::cell::Cell;
use triangles::candidate::{elem_count, OldState, TriangleBuf, ELEMS_PER_TRI, ELEMS_PER_VERT};

fn some_numbers(n: usize) -> Vec<u32> {
    (0..n).map(|i| (i as u32).wrapping_mul(0x9e37_79b9) ^ 0x3f00_0000).collect()
}

#[test]
fn a_triangle_has_three_vertices_of_six_numbers() {
    assert_eq!(ELEMS_PER_VERT, 6);
    assert_eq!(ELEMS_PER_TRI, 3 * ELEMS_PER_VERT);
    assert_eq!(elem_count(0), Some(0));
    assert_eq!(elem_count(100), Some(1800));
    assert_eq!(elem_count(usize::MAX / 18), Some(usize::MAX / 18 * 18));
    assert_eq!(elem_count(usize::MAX / 18 + 1), None);
}

#[test]
fn from_vbo_counts_whole_vertices() {
    let buf = TriangleBuf::from_vbo(some_numbers(36));
    assert_eq!(buf.len(), 36);
    assert_eq!(buf.n_verts(), 6);
    assert_eq!(buf.cached_mse(), None);
    let odd = TriangleBuf::from_vbo(some_numbers(20));
    assert_eq!(odd.n_verts(), 3);
    let none = TriangleBuf::from_vbo(Vec::new());
    assert_eq!(none.n_verts(), 0);
    assert_eq!(none.len(), 0);
}

#[test]
fn with_triangles_wants_eighteen_numbers_each() {
    assert!(TriangleBuf::with_triangles(2, some_numbers(36)).is_some());
    assert!(TriangleBuf::with_triangles(2, some_numbers(35)).is_none());
    assert!(TriangleBuf::with_triangles(0, Vec::new()).is_some());
    assert!(TriangleBuf::with_triangles(usize::MAX, some_numbers(18)).is_none());
    let buf = TriangleBuf::with_triangles(1, some_numbers(18)).unwrap();
    assert_eq!(buf.len(), 18);
    assert_eq!(buf.n_verts(), 3);
    assert_eq!(buf.get(4), some_numbers(18)[4]);
}

#[test]
fn mutate_at_overwrites_one_number() {
    let numbers = some_numbers(18);
    let mut buf = TriangleBuf::from_vbo(numbers.clone());
    let st = buf.mutate_at(7, 0xdead_beef);
    assert_eq!(st, OldState { id: 7, val: numbers[7] });
    for i in 0..18 {
        assert_eq!(buf.get(i), if i == 7 { 0xdead_beef } else { numbers[i] });
    }
    assert_eq!(buf.len(), 18);
}

#[test]
fn mutate_then_revert_restores_every_bit() {
    let numbers = some_numbers(54);
    let mut buf = TriangleBuf::from_vbo(numbers.clone());
    for round in 0..200u32 {
        let st = buf.mutate(round.wrapping_mul(0x0101_0101));
        assert!(st.id < 54);
        assert_eq!(st.val, numbers[st.id]);
        assert_eq!(buf.get(st.id), round.wrapping_mul(0x0101_0101));
        buf.revert(st);
        for i in 0..54 {
            assert_eq!(buf.get(i), numbers[i]);
        }
    }
}

#[test]
fn mutate_picks_the_only_number_there_is() {
    let mut buf = TriangleBuf::from_vbo(vec![5]);
    let st = buf.mutate(6);
    assert_eq!(st, OldState { id: 0, val: 5 });
    assert_eq!(buf.get(0), 6);
}

#[test]
fn mutate_reaches_every_number() {
    let mut buf = TriangleBuf::from_vbo(vec![0; 6]);
    let mut seen = [false; 6];
    for _ in 0..2000 {
        let st = buf.mutate(1);
        seen[st.id] = true;
    }
    assert_eq!(seen, [true; 6]);
}

#[test]
fn the_score_is_evaluated_once() {
    let calls = Cell::new(0u32);
    let mut buf = TriangleBuf::from_vbo(some_numbers(18));
    let eval = || {
        calls.set(calls.get() + 1);
        0x4120_0000
    };
    assert_eq!(buf.calc_mse(eval), 0x4120_0000);
    assert_eq!(calls.get(), 1);
    assert_eq!(buf.cached_mse(), Some(0x4120_0000));
    let again = || {
        calls.set(calls.get() + 1);
        0x4000_0000
    };
    assert_eq!(buf.calc_mse(again), 0x4120_0000);
    assert_eq!(calls.get(), 1);
    assert_eq!(buf.cached_mse(), Some(0x4120_0000));
}

#[test]
fn a_change_forgets_the_score() {
    let calls = Cell::new(0u32);
    let mut buf = TriangleBuf::from_vbo(some_numbers(18));
    assert_eq!(buf.calc_mse(|| { calls.set(calls.get() + 1); 7 }), 7);
    let st = buf.mutate_at(3, 1);
    assert_eq!(buf.cached_mse(), None);
    assert_eq!(buf.calc_mse(|| { calls.set(calls.get() + 1); 8 }), 8);
    assert_eq!(calls.get(), 2);
    buf.revert(st);
    assert_eq!(buf.cached_mse(), None);
    assert_eq!(buf.calc_mse(|| { calls.set(calls.get() + 1); 9 }), 9);
    assert_eq!(calls.get(), 3);
    assert_eq!(buf.calc_mse(|| { calls.set(calls.get() + 1); 10 }), 9);
    assert_eq!(calls.get(), 3);
}
