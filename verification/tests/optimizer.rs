use rand::rngs::StdRng;
use rand::{Rng, SeedableRng};
use std::cell::{Cell, RefCell};
use triangles::candidate::TriangleBuf;
use triangles::mse::TexMse;
use triangles::optimizer::{Optimizer, Phase};
use triangles::raster::Raster;

fn bits(x: f32) -> u32 {
    x.to_bits()
}

fn start(numbers: Vec<u32>, best: f32, draw_interval: i32) -> Optimizer {
    Optimizer::new(TriangleBuf::from_vbo(numbers), draw_interval, || bits(best))
}

#[test]
fn the_first_score_is_the_best() {
    let calls = Cell::new(0);
    let opt = Optimizer::new(TriangleBuf::from_vbo(vec![1, 2, 3]), 10, || {
        calls.set(calls.get() + 1);
        bits(12.5)
    });
    assert_eq!(calls.get(), 1);
    assert_eq!(opt.best_mse(), bits(12.5));
    assert_eq!(opt.candidate().cached_mse(), Some(bits(12.5)));
    assert_eq!(opt.candidate().len(), 3);
}

#[test]
fn a_cached_score_is_taken_as_it_is() {
    let mut state = TriangleBuf::from_vbo(vec![1, 2, 3]);
    state.calc_mse(|| bits(3.0));
    let opt = Optimizer::new(state, 10, || bits(1.0));
    assert_eq!(opt.best_mse(), bits(3.0));
}

#[test]
fn a_better_score_is_kept() {
    let mut opt = start(vec![10, 20, 30], 5.0, 10);
    assert_eq!(opt.phase(), Phase::Deciding);
    let st = opt.mutate(99);
    assert!(st.id < 3);
    assert_eq!(opt.phase(), Phase::Evaluating);
    let report = opt.decide(bits(4.5));
    assert!(report.accepted);
    assert_eq!(report.change, st);
    assert_eq!(report.mse, bits(4.5));
    assert_eq!(opt.phase(), Phase::Deciding);
    assert_eq!(opt.best_mse(), bits(4.5));
    assert_eq!(opt.candidate().get(st.id), 99);
}

#[test]
fn an_equal_score_is_undone() {
    let mut opt = start(vec![10, 20, 30], 5.0, 10);
    let st = opt.mutate(99);
    let report = opt.decide(bits(5.0));
    assert!(!report.accepted);
    assert_eq!(report.change, st);
    assert_eq!(opt.phase(), Phase::Deciding);
    assert_eq!(opt.best_mse(), bits(5.0));
    assert_eq!(opt.candidate().get(0), 10);
    assert_eq!(opt.candidate().get(1), 20);
    assert_eq!(opt.candidate().get(2), 30);
    assert_eq!(opt.candidate().cached_mse(), None);
}

#[test]
fn a_worse_score_is_undone() {
    let mut opt = start(vec![10, 20, 30], 5.0, 10);
    let st = opt.mutate(99);
    assert!(!opt.decide(bits(5.5)).accepted);
    assert_eq!(opt.best_mse(), bits(5.0));
    assert_eq!(opt.candidate().get(st.id), st.val);
}

#[test]
fn a_score_that_is_not_a_number_is_undone() {
    let mut opt = start(vec![10, 20, 30], 5.0, 10);
    let _ = opt.mutate(99);
    assert!(!opt.decide(bits(f32::NAN)).accepted);
    assert_eq!(opt.best_mse(), bits(5.0));
}

#[test]
fn nothing_is_better_than_a_best_that_is_not_a_number() {
    let mut opt = start(vec![10, 20, 30], f32::NAN, 10);
    let _ = opt.mutate(99);
    assert!(!opt.decide(bits(0.0)).accepted);
    assert!(f32::from_bits(opt.best_mse()).is_nan());
}

#[test]
fn step_tells_the_evaluation_what_changed() {
    let mut opt = start(vec![10, 20, 30], 5.0, 10);
    let told = Cell::new((usize::MAX, 0u32));
    let report = opt.step(77, |id, val| {
        told.set((id, val));
        bits(1.0)
    });
    assert_eq!(told.get(), (report.change.id, 77));
    assert!(report.accepted);
    assert_eq!(report.mse, bits(1.0));
    assert_eq!(report.change.val, [10, 20, 30][report.change.id]);
    assert_eq!(opt.candidate().get(report.change.id), 77);
    assert_eq!(opt.candidate().cached_mse(), Some(bits(1.0)));
    assert_eq!(opt.best_mse(), bits(1.0));
}

#[test]
fn step_undoes_what_did_not_help() {
    let mut opt = start(vec![10, 20, 30], 5.0, 10);
    let report = opt.step(77, |_, _| bits(6.0));
    assert!(!report.accepted);
    assert_eq!(report.mse, bits(6.0));
    for i in 0..3 {
        assert_eq!(opt.candidate().get(i), [10, 20, 30][i]);
    }
    assert_eq!(opt.candidate().cached_mse(), None);
    assert_eq!(opt.best_mse(), bits(5.0));
}

#[test]
fn a_redraw_is_due_once_the_count_has_passed_the_interval() {
    let mut opt = start(vec![1], 1.0, 2);
    // the count goes 0, 1, 2, 3, and the tick after that asks for the redraw
    assert!(!opt.tick());
    assert!(!opt.tick());
    assert!(!opt.tick());
    assert!(opt.tick());
    assert!(!opt.tick());
    assert!(!opt.tick());
    assert!(!opt.tick());
    assert!(opt.tick());
}

#[test]
fn a_redraw_starts_the_count_again() {
    let mut opt = start(vec![1], 1.0, 1);
    assert!(!opt.tick());
    assert!(!opt.tick());
    opt.redrawn();
    assert!(!opt.tick());
    assert!(!opt.tick());
    assert!(opt.tick());
}

#[test]
fn a_negative_interval_redraws_every_time() {
    let mut opt = start(vec![1], 1.0, -1);
    assert!(opt.tick());
    assert!(opt.tick());
    assert!(opt.tick());
}

#[test]
fn the_largest_interval_never_redraws() {
    let mut opt = start(vec![1], 1.0, i32::MAX);
    for _ in 0..1000 {
        assert!(!opt.tick());
    }
}

// Paints an image from the candidate's numbers: texel k takes its red from number k
// (modulo the count), the other channels stay fixed.
fn paint(numbers: &[u32], width: u32, height: u32) -> Raster {
    let mut img = Raster::filled(width, height, [0, 0, 0, 255]).unwrap();
    for k in 0..img.len() {
        let x = f32::from_bits(numbers[k % numbers.len()]);
        img.set_at(k, [(x * 255.0) as u64, 0, 0, 255]);
    }
    img
}

#[test]
fn the_best_score_never_increases() {
    let reference = Raster::filled(32, 32, [255, 0, 0, 255]).unwrap();
    let engine = RefCell::new(TexMse::new(32, 32).unwrap());
    let mut rng = StdRng::seed_from_u64(7);
    let numbers: Vec<u32> = (0..36).map(|_| rng.gen::<f32>().to_bits()).collect();
    let shadow = RefCell::new(numbers.clone());
    let score = |shadow: &Vec<u32>| -> u32 {
        let img = paint(shadow, 32, 32);
        (engine.borrow_mut().run(&reference, &img) as f32).to_bits()
    };
    let mut opt = Optimizer::new(TriangleBuf::from_vbo(numbers), 1000, || score(&shadow.borrow()));
    let mut best = f32::from_bits(opt.best_mse());
    let mut accepted = 0;
    for _ in 0..300 {
        let fresh = rng.gen::<f32>().to_bits();
        let report = opt.step(fresh, |id, val| {
            shadow.borrow_mut()[id] = val;
            score(&shadow.borrow())
        });
        if !report.accepted {
            shadow.borrow_mut()[report.change.id] = report.change.val;
        } else {
            accepted += 1;
        }
        let now = f32::from_bits(opt.best_mse());
        assert!(now <= best);
        assert_eq!(report.accepted, now < best);
        best = now;
        for i in 0..36 {
            assert_eq!(opt.candidate().get(i), shadow.borrow()[i]);
        }
    }
    assert!(accepted > 0);
}

#[test]
fn an_empty_candidate_can_be_scored() {
    let reference = Raster::filled(32, 32, [255, 0, 0, 255]).unwrap();
    let clear = Raster::filled(32, 32, [255, 0, 0, 255]).unwrap();
    let mut engine = TexMse::new(32, 32).unwrap();
    let state = TriangleBuf::with_triangles(0, Vec::new()).unwrap();
    let opt = Optimizer::new(state, 1000, || (engine.run(&reference, &clear) as f32).to_bits());
    assert_eq!(f32::from_bits(opt.best_mse()), 0.0);
    assert_eq!(opt.candidate().len(), 0);
}
