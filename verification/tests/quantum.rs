use rust_waves::complex::Complex;
use rust_waves::quantum::{QWave, DELTA, STABILITY_PARAM};
use rust_waves::utils::{Arena, Status, I32_CAP_MAX, I32_CAP_MIN};

fn c(re: i32, im: i32) -> Complex {
    Complex { re, im }
}

fn delta_field(d: i32) -> Vec<Complex> {
    let mut seed = vec![c(0, 0); 25];
    seed[12] = c(d, 0);
    seed
}

#[test]
fn constants_of_the_quantum_field() {
    assert_eq!(STABILITY_PARAM, 6);
    assert_eq!(DELTA, 1);
}

#[test]
fn new_field_is_a_point_at_the_centre() {
    let arena = Arena::new(5, 5).unwrap();
    let wave = QWave::new(&arena);
    assert_eq!(wave.psi(), &delta_field(DELTA));
    assert_eq!(wave.psi_prev(), &delta_field(DELTA));
}

#[test]
fn new_field_on_an_even_grid() {
    let arena = Arena::new(4, 6).unwrap();
    let wave = QWave::new(&arena);
    for i in 0..24 {
        let want = if i == 14 { c(DELTA, 0) } else { c(0, 0) };
        assert_eq!(wave.psi()[i], want);
        assert_eq!(wave.psi_prev()[i], want);
    }
}

#[test]
fn unit_point_fades_under_a_shift() {
    let arena = Arena::new(5, 5).unwrap();
    let mut wave = QWave::new(&arena);
    wave.step(&arena, 0);
    for i in 0..25usize {
        let want = match i {
            7 | 11 | 13 | 17 => c(0, 1),
            12 => c(1, -4),
            _ => c(0, 0),
        };
        assert_eq!(wave.psi()[i], want, "cell {}", i);
    }
    let mut shifted = QWave::new(&arena);
    shifted.step(&arena, 1);
    for i in 0..25usize {
        // 1 shifted by one bit is 0, -4 shifted by one bit is -2
        let want = if i == 12 { c(1, -2) } else { c(0, 0) };
        assert_eq!(shifted.psi()[i], want, "cell {}", i);
    }
}

#[test]
fn seed_is_kept_inside_the_wall_only() {
    let arena = Arena::new(4, 4).unwrap();
    let seed: Vec<Complex> = (0..16).map(|i| c(i + 1, -(i + 1))).collect();
    let wave = QWave::seeded(&arena, &seed);
    for i in 0..16usize {
        let want = if [5usize, 6, 9, 10].contains(&i) { seed[i] } else { c(0, 0) };
        assert_eq!(wave.psi()[i], want);
        assert_eq!(wave.psi_prev()[i], want);
    }
}

#[test]
fn seed_is_capped() {
    let arena = Arena::new(3, 3).unwrap();
    let mut seed = vec![c(0, 0); 9];
    seed[4] = c(i32::MAX, i32::MIN);
    let wave = QWave::seeded(&arena, &seed);
    assert_eq!(wave.psi()[4], c(I32_CAP_MAX, I32_CAP_MIN));
    assert_eq!(wave.psi_prev()[4], c(I32_CAP_MAX, I32_CAP_MIN));
}

#[test]
fn delta_impulse_spreads_to_the_four_neighbours() {
    let arena = Arena::new(5, 5).unwrap();
    let d: i32 = 1 << 20;
    let mut wave = QWave::seeded(&arena, &delta_field(d));
    wave.step(&arena, 3);
    for i in 0..25usize {
        let want = match i {
            7 | 11 | 13 | 17 => c(0, 131072),
            12 => c(1048576, -524288),
            _ => c(0, 0),
        };
        assert_eq!(wave.psi()[i], want, "cell {}", i);
    }
    assert_eq!(wave.psi_prev(), &delta_field(d));
}

#[test]
fn delta_impulse_of_full_amplitude() {
    let arena = Arena::new(5, 5).unwrap();
    let mut wave = QWave::seeded(&arena, &delta_field(I32_CAP_MAX));
    wave.step(&arena, STABILITY_PARAM);
    for i in 0..25usize {
        let want = match i {
            7 | 11 | 13 | 17 => c(0, 16777215),
            12 => c(1073741823, -67108864),
            _ => c(0, 0),
        };
        assert_eq!(wave.psi()[i], want, "cell {}", i);
    }
}

#[test]
fn delta_impulse_for_many_sizes_and_shifts() {
    let arena = Arena::new(5, 5).unwrap();
    for d in [1i32, 7, 1000, 1 << 20, 123_456_789, I32_CAP_MAX] {
        for shift in [0u8, 1, 3, 6, 12, 31] {
            let mut wave = QWave::seeded(&arena, &delta_field(d));
            wave.step(&arena, shift);
            let side = ((d as i64) >> shift).clamp(-1073741824, 1073741823) as i32;
            let mid = ((-4 * d as i64) >> shift).clamp(-1073741824, 1073741823) as i32;
            for i in 0..25usize {
                let want = match i {
                    7 | 11 | 13 | 17 => c(0, side),
                    12 => c(d, mid),
                    _ => c(0, 0),
                };
                assert_eq!(wave.psi()[i], want, "d {} shift {} cell {}", d, shift, i);
            }
        }
    }
}

#[test]
fn second_step_reaches_the_corners() {
    let arena = Arena::new(5, 5).unwrap();
    let mut wave = QWave::seeded(&arena, &delta_field(1000));
    wave.step(&arena, 3);
    wave.step(&arena, 3);
    for i in 0..25usize {
        let want = match i {
            6 | 8 | 16 | 18 => c(-31, 0),
            7 | 11 | 13 | 17 => c(125, 125),
            12 => c(688, -500),
            _ => c(0, 0),
        };
        assert_eq!(wave.psi()[i], want, "cell {}", i);
    }
    for i in 0..25usize {
        let want = match i {
            7 | 11 | 13 | 17 => c(0, 125),
            12 => c(1000, -500),
            _ => c(0, 0),
        };
        assert_eq!(wave.psi_prev()[i], want, "cell {}", i);
    }
}

#[test]
fn steps_saturate() {
    let arena = Arena::new(5, 5).unwrap();
    let mut wave = QWave::seeded(&arena, &delta_field(I32_CAP_MAX));
    wave.step(&arena, 0);
    assert_eq!(wave.psi()[12], c(1073741823, -1073741824));
    assert_eq!(wave.psi()[7], c(0, 1073741823));
    wave.step(&arena, 0);
    for i in 0..25usize {
        let want = match i {
            6 | 8 | 16 | 18 => c(-1073741824, 0),
            7 | 11 | 13 | 17 => c(1073741823, 1073741823),
            12 => c(-1073741824, -1073741824),
            _ => c(0, 0),
        };
        assert_eq!(wave.psi()[i], want, "cell {}", i);
    }
}

#[test]
fn point_write_is_kept_as_it_is() {
    let arena = Arena::new(5, 5).unwrap();
    let mut wave = QWave::new(&arena);
    wave.set(0, c(i32::MAX, i32::MIN));
    wave.set(13, c(5, -6));
    assert_eq!(wave.psi()[0], c(i32::MAX, i32::MIN));
    assert_eq!(wave.psi()[13], c(5, -6));
    assert_eq!(wave.psi()[12], c(DELTA, 0));
    assert_eq!(wave.psi_prev(), &delta_field(DELTA));
}

#[test]
fn step_caps_what_it_keeps_of_the_present() {
    let arena = Arena::new(3, 3).unwrap();
    let mut wave = QWave::seeded(&arena, &vec![c(0, 0); 9]);
    wave.set(4, c(i32::MAX, i32::MIN));
    wave.step(&arena, 31);
    assert_eq!(wave.psi_prev()[4], c(I32_CAP_MAX, I32_CAP_MIN));
    // the Laplacian is -4 times the cell, (-8589934588, 8589934592): shifted by 31, -4 and 4
    assert_eq!(wave.psi()[4], c(-4, -4));
}

#[test]
fn wall_amplitudes_are_read_by_the_stencil() {
    let arena = Arena::new(3, 3).unwrap();
    let mut wave = QWave::seeded(&arena, &vec![c(0, 0); 9]);
    wave.set(1, c(800, 0));
    wave.set(3, c(0, 1600));
    wave.step(&arena, 3);
    assert_eq!(wave.psi()[4], c(-200, 100));
    assert_eq!(wave.psi()[1], c(800, 0));
    assert_eq!(wave.psi()[3], c(0, 1600));
}

#[test]
fn quantum_wall_cells_never_move() {
    let arena = Arena::new(6, 7).unwrap();
    let seed: Vec<Complex> = (0..42).map(|i| c(1_000_000 * (i + 1), -3_000_000 * i)).collect();
    let mut wave = QWave::seeded(&arena, &seed);
    wave.set(0, c(11, 12));
    wave.set(41, c(-13, 14));
    wave.set(12, c(15, -16));
    let psi0 = wave.psi().clone();
    let prev0 = wave.psi_prev().clone();
    for n in 0..30 {
        wave.step(&arena, (n % 7) as u8);
        for i in 0..42 {
            if matches!(arena.status[i], Status::Wall) {
                assert_eq!(wave.psi()[i], psi0[i]);
                assert_eq!(wave.psi_prev()[i], prev0[i]);
            } else {
                let z = wave.psi()[i];
                assert!(I32_CAP_MIN <= z.re && z.re <= I32_CAP_MAX);
                assert!(I32_CAP_MIN <= z.im && z.im <= I32_CAP_MAX);
            }
        }
    }
}
