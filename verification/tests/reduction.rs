use triangles::dsq::{channel_sq_diff, TexDsq};
use triangles::fold::{average_color, fold_plan, sum_texels, try_run, FoldPlan, TexFold, TILE, WG_SIZE};
use triangles::mse::{ReductionError, TexMse};
use triangles::raster::Raster;
use triangles::vec4::{vec4_add, vec4_div, CHANNEL_MAX};

fn gradient(width: u32, height: u32, seed: u64) -> Raster {
    let mut img = Raster::new(width, height).unwrap();
    for y in 0..height {
        for x in 0..width {
            let k = (y as u64) * (width as u64) + x as u64;
            let v = k.wrapping_mul(2654435761).wrapping_add(seed) % 256;
            img.set(x, y, [v, (v * 7 + 1) % 256, (k + seed) % 256, 255]);
        }
    }
    img
}

fn naive_total(img: &Raster) -> [u64; 4] {
    let mut total = [0u64; 4];
    for k in 0..img.len() {
        let t = img.texel_at(k);
        for c in 0..4 {
            total[c] += t[c];
        }
    }
    total
}

fn naive_mse(a: &Raster, b: &Raster) -> u64 {
    let mut total = 0u64;
    for k in 0..a.len() {
        let (ta, tb) = (a.texel_at(k), b.texel_at(k));
        for c in 0..4 {
            let d = ta[c].abs_diff(tb[c]);
            total += d * d;
        }
    }
    total
}

#[test]
fn tile_is_twice_the_workgroup_size() {
    assert_eq!(WG_SIZE, 16);
    assert_eq!(TILE, 2 * WG_SIZE);
}

#[test]
fn vec4_add_adds_each_channel() {
    assert_eq!(vec4_add([1, 2, 3, 4], [10, 20, 30, 40]), [11, 22, 33, 44]);
}

#[test]
fn vec4_add_saturates() {
    assert_eq!(
        vec4_add([CHANNEL_MAX, CHANNEL_MAX - 1, 0, 5], [1, 1, 0, CHANNEL_MAX]),
        [CHANNEL_MAX, CHANNEL_MAX, 0, CHANNEL_MAX]
    );
}

#[test]
fn vec4_div_rounds_down() {
    assert_eq!(vec4_div([10, 11, 0, 1024], 4), [2, 2, 0, 256]);
}

#[test]
fn channel_sq_diff_is_the_square_either_way() {
    assert_eq!(channel_sq_diff(10, 3), 49);
    assert_eq!(channel_sq_diff(3, 10), 49);
    assert_eq!(channel_sq_diff(255, 0), 65025);
    assert_eq!(channel_sq_diff(7, 7), 0);
}

#[test]
fn channel_sq_diff_saturates() {
    assert_eq!(channel_sq_diff(CHANNEL_MAX, 0), CHANNEL_MAX);
    assert_eq!(channel_sq_diff(1 << 32, 0), CHANNEL_MAX);
    assert_eq!(channel_sq_diff((1 << 32) - 1, 0), ((1u64 << 32) - 1) * ((1u64 << 32) - 1));
}

#[test]
fn plan_for_one_tile() {
    assert_eq!(fold_plan(32, 32), Some(FoldPlan { first: (1, 1), second: None }));
}

#[test]
fn plan_for_a_small_image_has_one_pass() {
    assert_eq!(fold_plan(256, 64), Some(FoldPlan { first: (8, 2), second: None }));
}

#[test]
fn plan_has_a_second_pass_from_1024_on() {
    assert_eq!(fold_plan(1024, 1024), Some(FoldPlan { first: (32, 32), second: Some((1, 1)) }));
    assert_eq!(fold_plan(2048, 1024), Some(FoldPlan { first: (64, 32), second: Some((2, 1)) }));
    assert_eq!(fold_plan(1024, 992), Some(FoldPlan { first: (32, 31), second: None }));
}

#[test]
fn plan_for_an_empty_image() {
    assert_eq!(fold_plan(0, 0), Some(FoldPlan { first: (0, 0), second: Some((0, 0)) }));
}

#[test]
fn size_that_is_not_whole_tiles_has_no_plan() {
    assert_eq!(fold_plan(100, 100), None);
    assert_eq!(fold_plan(32, 33), None);
    assert_eq!(fold_plan(31, 32), None);
}

#[test]
fn raster_from_rgba8_reads_four_bytes_per_texel() {
    let img = Raster::from_rgba8(2, 1, &[1, 2, 3, 4, 5, 6, 7, 8]).unwrap();
    assert_eq!(img.get_width(), 2);
    assert_eq!(img.get_height(), 1);
    assert_eq!(img.get(0, 0), [1, 2, 3, 4]);
    assert_eq!(img.get(1, 0), [5, 6, 7, 8]);
}

#[test]
fn raster_from_rgba8_refuses_another_length() {
    assert!(Raster::from_rgba8(2, 1, &[1, 2, 3, 4, 5, 6, 7]).is_none());
    assert!(Raster::from_rgba8(2, 1, &[0; 12]).is_none());
    assert!(Raster::from_rgba8(0, 5, &[]).is_some());
}

#[test]
fn raster_set_changes_one_texel() {
    let mut img = Raster::new(3, 2).unwrap();
    img.set(2, 1, [9, 8, 7, 6]);
    assert_eq!(img.get(2, 1), [9, 8, 7, 6]);
    assert_eq!(img.texel_at(5), [9, 8, 7, 6]);
    assert_eq!(img.get(1, 1), [0, 0, 0, 0]);
    assert_eq!(img.len(), 6);
}

#[test]
fn raster_round_trips_through_its_texels() {
    let img = Raster::from_texels(1, 2, vec![[1, 1, 1, 1], [2, 2, 2, 2]]);
    assert_eq!(img.get(0, 1), [2, 2, 2, 2]);
    assert_eq!(img.into_texels(), vec![[1, 1, 1, 1], [2, 2, 2, 2]]);
}

#[test]
fn sum_texels_sums_every_channel() {
    let img = Raster::from_texels(2, 1, vec![[1, 2, 3, 4], [10, 20, 30, 40]]);
    assert_eq!(sum_texels(&img), [11, 22, 33, 44]);
}

#[test]
fn fold_gives_the_sum_of_all_texels() {
    let img = gradient(64, 96, 3);
    let mut fold = TexFold::new();
    assert_eq!(fold.run(&img), naive_total(&img));
}

#[test]
fn fold_of_a_flat_image() {
    let img = Raster::filled(32, 32, [255, 0, 0, 255]).unwrap();
    let mut fold = TexFold::new();
    assert_eq!(fold.run(&img), [255 * 1024, 0, 0, 255 * 1024]);
}

#[test]
fn fold_with_two_passes_gives_the_sum_of_all_texels() {
    let img = gradient(1024, 1024, 11);
    let mut fold = TexFold::new();
    assert_eq!(fold.run(&img), naive_total(&img));
}

#[test]
fn fold_saturates() {
    let img = Raster::filled(32, 32, [CHANNEL_MAX / 2, 1, CHANNEL_MAX, 0]).unwrap();
    let mut fold = TexFold::new();
    assert_eq!(fold.run(&img), [CHANNEL_MAX, 1024, CHANNEL_MAX, 0]);
}

#[test]
fn fold_of_an_empty_image_is_zero() {
    let img = Raster::new(0, 0).unwrap();
    let mut fold = TexFold::new();
    assert_eq!(fold.run(&img), [0, 0, 0, 0]);
}

#[test]
fn one_pass_folds_each_tile_into_one_texel() {
    let mut img = Raster::new(64, 32).unwrap();
    img.set(0, 0, [1, 0, 0, 0]);
    img.set(31, 31, [2, 0, 0, 0]);
    img.set(32, 0, [0, 5, 0, 0]);
    img.set(63, 31, [0, 0, 7, 0]);
    let mut fold = TexFold::new();
    let slot = fold.run_compute(2, 1, &img);
    let out = fold.scratch(slot);
    assert_eq!(out.get_width(), 2);
    assert_eq!(out.get_height(), 1);
    assert_eq!(out.get(0, 0), [3, 0, 0, 0]);
    assert_eq!(out.get(1, 0), [0, 5, 7, 0]);
    assert_eq!(fold.get_cached_tex(2, 1), slot);
}

#[test]
fn one_pass_over_a_part_of_an_image_leaves_the_rest_out() {
    let img = Raster::filled(64, 64, [1, 2, 3, 4]).unwrap();
    let mut fold = TexFold::new();
    let slot = fold.run_compute(1, 2, &img);
    let out = fold.scratch(slot);
    assert_eq!(out.len(), 2);
    assert_eq!(out.get(0, 0), [1024, 2048, 3072, 4096]);
    assert_eq!(out.get(0, 1), [1024, 2048, 3072, 4096]);
}

#[test]
fn fold_reuses_its_scratch_images() {
    let img = gradient(64, 32, 1);
    let mut fold = TexFold::new();
    let first = fold.run(&img);
    let slot = fold.get_cached_tex(2, 1);
    assert_eq!(slot, 0);
    let second = fold.run(&img);
    assert_eq!(first, second);
    assert_eq!(fold.get_cached_tex(2, 1), 0);
    let other = gradient(32, 32, 1);
    let _ = fold.run(&other);
    assert_eq!(fold.get_cached_tex(1, 1), 1);
    assert_eq!(fold.get_cached_tex(2, 1), 0);
}

#[test]
fn try_run_refuses_a_size_that_is_not_whole_tiles() {
    let img = Raster::filled(100, 100, [1, 1, 1, 1]).unwrap();
    let mut fold = TexFold::new();
    assert_eq!(try_run(&mut fold, &img), None);
    // nothing was made for it
    assert_eq!(fold.get_cached_tex(3, 3), 0);
}

#[test]
fn try_run_sums_where_it_can() {
    let img = Raster::filled(32, 64, [1, 2, 3, 4]).unwrap();
    let mut fold = TexFold::new();
    assert_eq!(try_run(&mut fold, &img), Some([2048, 4096, 6144, 8192]));
}

#[test]
fn average_color_of_a_flat_image_is_its_color() {
    let img = Raster::filled(32, 32, [255, 0, 0, 255]).unwrap();
    let mut fold = TexFold::new();
    assert_eq!(average_color(&mut fold, &img), Some([255, 0, 0, 255]));
}

#[test]
fn average_color_rounds_down() {
    let mut img = Raster::new(32, 32).unwrap();
    img.set(3, 4, [1023, 1024, 1025, 2048]);
    let mut fold = TexFold::new();
    assert_eq!(average_color(&mut fold, &img), Some([0, 1, 1, 2]));
}

#[test]
fn average_color_of_nothing() {
    let img = Raster::new(0, 32).unwrap();
    let mut fold = TexFold::new();
    assert_eq!(average_color(&mut fold, &img), None);
}

#[test]
fn dsq_squares_the_difference_of_each_channel() {
    let a = Raster::from_texels(2, 1, vec![[10, 0, 5, 255], [1, 2, 3, 4]]);
    let b = Raster::from_texels(2, 1, vec![[7, 4, 5, 0], [1, 3, 1, 8]]);
    let mut dest = Raster::new(2, 1).unwrap();
    TexDsq::new().run(&a, &b, &mut dest);
    assert_eq!(dest.texel_at(0), [9, 16, 0, 65025]);
    assert_eq!(dest.texel_at(1), [0, 1, 4, 16]);
}

#[test]
fn mse_of_identical_images_is_zero() {
    let a = gradient(64, 32, 5);
    let b = gradient(64, 32, 5);
    let mut engine = TexMse::new(64, 32).unwrap();
    assert_eq!(engine.run(&a, &a), 0);
    assert_eq!(engine.run(&a, &b), 0);
}

#[test]
fn mse_is_the_sum_of_squared_differences() {
    let a = gradient(64, 64, 5);
    let b = gradient(64, 64, 77);
    let mut engine = TexMse::new(64, 64).unwrap();
    let score = engine.run(&a, &b);
    assert_eq!(score, naive_mse(&a, &b));
    assert!(score > 0);
}

#[test]
fn mse_is_symmetric() {
    let a = gradient(32, 64, 1);
    let b = gradient(32, 64, 2);
    let mut engine = TexMse::new(32, 64).unwrap();
    assert_eq!(engine.run(&a, &b), engine.run(&b, &a));
}

#[test]
fn mse_of_a_single_difference_is_its_square() {
    let a = gradient(32, 32, 9);
    let mut engine = TexMse::new(32, 32).unwrap();
    let mut last = 0;
    for d in 1..=50u64 {
        let mut b = gradient(32, 32, 9);
        let mut t = b.get(5, 6);
        t[2] = if t[2] >= 128 { t[2] - d } else { t[2] + d };
        b.set(5, 6, t);
        let score = engine.run(&a, &b);
        assert_eq!(score, d * d);
        assert!(score > last);
        last = score;
    }
}

#[test]
fn mse_grows_when_one_channel_moves_away() {
    let a = gradient(32, 32, 9);
    let b = gradient(32, 32, 10);
    let mut engine = TexMse::new(32, 32).unwrap();
    let base = engine.run(&a, &b);
    let (ta, tb) = (a.get(0, 0), b.get(0, 0));
    let mut farther = gradient(32, 32, 10);
    let mut t = tb;
    t[0] = if tb[0] >= ta[0] { tb[0] + 300 } else { ta[0] + (ta[0] - tb[0]) + 300 };
    farther.set(0, 0, t);
    let moved = engine.run(&a, &farther);
    let d_old = ta[0].abs_diff(tb[0]);
    let d_new = ta[0].abs_diff(t[0]);
    assert!(d_new > d_old);
    assert_eq!(moved, base - d_old * d_old + d_new * d_new);
}

#[test]
fn mse_of_flat_images_is_the_squared_distance_times_the_texels() {
    let reference = Raster::filled(32, 32, [255, 0, 0, 255]).unwrap();
    let clear = Raster::filled(32, 32, [0, 0, 0, 0]).unwrap();
    let mut engine = TexMse::new(32, 32).unwrap();
    assert_eq!(engine.run(&reference, &clear), (255 * 255 + 255 * 255) * 1024);
    let same = Raster::filled(32, 32, [255, 0, 0, 255]).unwrap();
    assert_eq!(engine.run(&reference, &same), 0);
    let grey = Raster::filled(32, 32, [250, 10, 3, 255]).unwrap();
    assert_eq!(engine.run(&reference, &grey), (25 + 100 + 9) * 1024);
}

#[test]
fn mse_with_two_passes() {
    let a = Raster::filled(1024, 1024, [3, 0, 0, 0]).unwrap();
    let b = Raster::filled(1024, 1024, [0, 0, 4, 0]).unwrap();
    let mut engine = TexMse::new(1024, 1024).unwrap();
    assert_eq!(engine.run(&a, &b), 25 * 1024 * 1024);
}

#[test]
fn mse_saturates() {
    let a = Raster::filled(32, 32, [CHANNEL_MAX, 0, 0, 0]).unwrap();
    let b = Raster::filled(32, 32, [0, 0, 0, 0]).unwrap();
    let mut engine = TexMse::new(32, 32).unwrap();
    assert_eq!(engine.run(&a, &b), CHANNEL_MAX);
}

#[test]
fn try_run_checks_before_it_scores() {
    let a = Raster::filled(32, 32, [1, 2, 3, 4]).unwrap();
    let b = Raster::filled(32, 32, [2, 2, 3, 4]).unwrap();
    let mut engine = TexMse::new(32, 32).unwrap();
    assert_eq!(engine.try_run(&a, &b), Ok(1024));
}

#[test]
fn try_run_refuses_a_texture_size_of_100() {
    let a = Raster::filled(100, 100, [1, 2, 3, 4]).unwrap();
    let b = Raster::filled(100, 100, [2, 2, 3, 4]).unwrap();
    let mut engine = TexMse::new(100, 100).unwrap();
    assert_eq!(engine.try_run(&a, &b), Err(ReductionError::NotTileable));
    assert_eq!(engine.try_run(&a, &b), Err(ReductionError::NotTileable));
}

#[test]
fn try_run_refuses_another_size_than_its_own() {
    let a = Raster::filled(32, 32, [1, 2, 3, 4]).unwrap();
    let b = Raster::filled(64, 32, [2, 2, 3, 4]).unwrap();
    let mut engine = TexMse::new(32, 32).unwrap();
    assert_eq!(engine.try_run(&a, &b), Err(ReductionError::SizeMismatch));
    assert_eq!(engine.try_run(&b, &a), Err(ReductionError::SizeMismatch));
    let mut odd = TexMse::new(100, 100).unwrap();
    assert_eq!(odd.try_run(&a, &a), Err(ReductionError::SizeMismatch));
    assert_eq!(engine.get_width(), 32);
    assert_eq!(engine.get_height(), 32);
}
