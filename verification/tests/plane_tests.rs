use mandelbrot::coords::pixel_coords;
use mandelbrot::escape::{escape_decision, EscapeStep};
use mandelbrot::render::render;
use rayon::iter::{IndexedParallelIterator, IntoParallelIterator, ParallelIterator};

const BASE_SCALE: f64 = 300.0;

fn classify_plane_point(cr: f64, ci: f64) -> bool {
    let mut zr: f64 = 0.0;
    let mut zi: f64 = 0.0;
    let mut counter: u16 = 0;
    loop {
        let nr = zr * zr - zi * zi + cr;
        let ni = zr * zi + zi * zr + ci;
        zr = nr;
        zi = ni;
        counter += 1;
        match escape_decision(counter, zr * zr + zi * zi > 4.0) {
            EscapeStep::Continue => {}
            EscapeStep::NotMember => return false,
            EscapeStep::Member => return true,
        }
    }
}

fn plane_point(i: usize, width: usize, height: usize, scale: f64, ox: f64, oy: f64) -> (f64, f64) {
    let (px, py) = pixel_coords(i, width);
    let x = (px as f64 - width as f64 / 2.0 + ox) / (BASE_SCALE * scale);
    let y = (py as f64 - height as f64 / 2.0 + oy) / (BASE_SCALE * scale);
    (x, y)
}

fn evaluate(width: usize, height: usize, scale: f64, ox: f64, oy: f64) -> Vec<bool> {
    let mut grid: Vec<bool> = Vec::with_capacity(width * height);
    for i in 0..width * height {
        let (x, y) = plane_point(i, width, height, scale, ox, oy);
        grid.push(classify_plane_point(x, y));
    }
    grid
}

fn evaluate_with_pool(
    width: usize,
    height: usize,
    scale: f64,
    ox: f64,
    oy: f64,
    threads: usize,
) -> Vec<bool> {
    let pool = rayon::ThreadPoolBuilder::new()
        .num_threads(threads)
        .build()
        .unwrap();
    pool.install(|| {
        (0..width * height)
            .into_par_iter()
            .map(|i| {
                let (x, y) = plane_point(i, width, height, scale, ox, oy);
                classify_plane_point(x, y)
            })
            .collect()
    })
}

#[test]
fn origin_is_a_member() {
    assert!(classify_plane_point(0.0, 0.0));
}

#[test]
fn two_two_is_not_a_member() {
    assert!(!classify_plane_point(2.0, 2.0));
}

#[test]
fn corner_offset_taken_as_plane_point_escapes_in_one_step() {
    assert!(!classify_plane_point(-1.5, -1.5));
    assert!(!classify_plane_point(1.5, 1.5));
}

#[test]
fn zooming_keeps_the_center_point_classification() {
    let at_scale_one = classify_plane_point(0.0, 0.0);
    for scale in [2.0f64, 5.0, 50.0, 1000.0] {
        let center = 0.0 / (BASE_SCALE * scale);
        assert_eq!(classify_plane_point(center, center), at_scale_one);
    }
}

#[test]
fn grid_is_symmetric_under_vertical_mirror_without_offsets() {
    let w: usize = 9;
    let h: usize = 7;
    let grid = evaluate(w, h, 0.01, 0.0, 0.0);
    assert!(grid.iter().any(|&m| m) && grid.iter().any(|&m| !m));
    for r in 1..h {
        for x in 0..w {
            assert_eq!(grid[r * w + x], grid[(h - r) * w + x]);
        }
    }
}

#[test]
fn evaluation_is_deterministic_across_pool_sizes() {
    let sequential = evaluate(16, 12, 0.01, 3.0, 2.0);
    for threads in [1usize, 4, 16] {
        let parallel = evaluate_with_pool(16, 12, 0.01, 3.0, 2.0, threads);
        assert_eq!(parallel, sequential);
    }
}

#[test]
fn end_to_end_three_by_three_center_is_member() {
    let grid = evaluate(3, 3, 1.0, 0.0, 0.0);
    assert!(grid[4]);
    let buf = render(&grid, 3, 3);
    assert_eq!(buf.len(), 36);
    assert_eq!(&buf[16..20], &[0x5e, 0x48, 0xe8, 0xff]);
}
