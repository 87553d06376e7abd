use rust_waves::utils::{Arena, Status, I32_CAP_MAX, I32_CAP_MIN};
use rust_waves::waves::{CWave, FORCE_DAMPING_BIT_SHIFT, STIMULUS};

fn cell(row: usize, col: usize) -> usize {
    row * 60 + col
}

#[test]
fn constants_of_the_classical_field() {
    assert_eq!(FORCE_DAMPING_BIT_SHIFT, 4);
    assert_eq!(STIMULUS, 0x3fff_ffff);
}

#[test]
fn small_field_starts_at_rest() {
    let arena = Arena::new(7, 5).unwrap();
    let wave = CWave::new(&arena);
    assert_eq!(wave.u(), &vec![0i32; 35]);
    assert_eq!(wave.v(), &vec![0i32; 35]);
    assert_eq!(wave.force(), &vec![0i32; 35]);
}

#[test]
fn stimulus_is_a_square_inside_the_wall() {
    let arena = Arena::new(60, 60).unwrap();
    let wave = CWave::new(&arena);
    for row in 0..60 {
        for col in 0..60 {
            let lit = row > 50 && row < 59 && col > 50 && col < 59;
            let want = if lit { 0x3fff_ffff } else { 0 };
            assert_eq!(wave.u()[cell(row, col)], want, "row {} col {}", row, col);
        }
    }
    assert_eq!(wave.v(), &vec![0i32; 3600]);
    assert_eq!(wave.force(), &vec![0i32; 3600]);
}

#[test]
fn stimulus_ends_before_the_hundredth_row_and_column() {
    let arena = Arena::new(120, 110).unwrap();
    let wave = CWave::new(&arena);
    for row in 0..110usize {
        for col in 0..120usize {
            let lit = row > 50 && row < 100 && col > 50 && col < 100;
            let want = if lit { 0x3fff_ffff } else { 0 };
            assert_eq!(wave.u()[row * 120 + col], want, "row {} col {}", row, col);
        }
    }
}

#[test]
fn one_step_without_damping() {
    let arena = Arena::new(60, 60).unwrap();
    let mut wave = CWave::new(&arena);
    wave.step(&arena, 0);
    assert_eq!(wave.u()[cell(51, 51)], 536870911);
    assert_eq!(wave.v()[cell(51, 51)], -536870912);
    assert_eq!(wave.u()[cell(51, 52)], 805306367);
    assert_eq!(wave.v()[cell(51, 52)], -268435456);
    assert_eq!(wave.u()[cell(55, 55)], 1073741823);
    assert_eq!(wave.v()[cell(55, 55)], 0);
    assert_eq!(wave.u()[cell(50, 51)], 268435455);
    assert_eq!(wave.v()[cell(50, 51)], 268435455);
    assert_eq!(wave.u()[cell(58, 58)], 536870911);
    assert_eq!(wave.v()[cell(58, 58)], -536870912);
    assert_eq!(wave.u()[cell(49, 49)], 0);
    assert_eq!(wave.v()[cell(49, 49)], 0);
}

#[test]
fn two_steps_without_damping() {
    let arena = Arena::new(60, 60).unwrap();
    let mut wave = CWave::new(&arena);
    wave.step(&arena, 0);
    wave.step(&arena, 0);
    assert_eq!(wave.u()[cell(51, 51)], -1);
    assert_eq!(wave.v()[cell(51, 51)], -536870912);
    assert_eq!(wave.u()[cell(51, 52)], 402653183);
    assert_eq!(wave.v()[cell(51, 52)], -402653184);
    assert_eq!(wave.u()[cell(50, 51)], 469762046);
    assert_eq!(wave.v()[cell(50, 51)], 201326591);
    assert_eq!(wave.u()[cell(58, 58)], -134217729);
    assert_eq!(wave.v()[cell(58, 58)], -671088640);
}

#[test]
fn one_step_with_damping_one() {
    let arena = Arena::new(60, 60).unwrap();
    let mut wave = CWave::new(&arena);
    wave.step(&arena, 1);
    assert_eq!(wave.u()[cell(51, 51)], 805306367);
    assert_eq!(wave.v()[cell(51, 51)], -268435456);
    assert_eq!(wave.u()[cell(51, 52)], 939524095);
    assert_eq!(wave.v()[cell(51, 52)], -134217728);
    assert_eq!(wave.u()[cell(50, 51)], 134217728);
    assert_eq!(wave.v()[cell(50, 51)], 134217728);
}

#[test]
fn two_steps_with_damping_three() {
    let arena = Arena::new(60, 60).unwrap();
    let mut wave = CWave::new(&arena);
    wave.step(&arena, 3);
    assert_eq!(wave.u()[cell(51, 51)], 603979775);
    assert_eq!(wave.v()[cell(51, 51)], -469762048);
    assert_eq!(wave.u()[cell(50, 51)], 234881024);
    wave.step(&arena, 3);
    assert_eq!(wave.u()[cell(51, 51)], 134217727);
    assert_eq!(wave.v()[cell(51, 51)], -469762048);
    assert_eq!(wave.u()[cell(51, 52)], 501219327);
    assert_eq!(wave.v()[cell(51, 52)], -337641472);
    assert_eq!(wave.u()[cell(58, 58)], 31457279);
    assert_eq!(wave.v()[cell(58, 58)], -572522496);
}

#[test]
fn greatest_damping_shift_is_taken() {
    let arena = Arena::new(60, 60).unwrap();
    let mut wave = CWave::new(&arena);
    wave.step(&arena, 31);
    // a negative velocity shifted by 31 bits is -1, which the damping takes off
    assert_eq!(wave.v()[cell(51, 51)], -536870911);
    assert_eq!(wave.u()[cell(51, 51)], 536870912);
    // a positive one shifted by 31 bits is 0
    assert_eq!(wave.v()[cell(50, 51)], 268435455);
}

#[test]
fn force_pushes_and_decays() {
    let arena = Arena::new(60, 60).unwrap();
    let mut wave = CWave::new(&arena);
    wave.set_force(cell(30, 30), 1000);
    wave.set_force(cell(10, 10), -1000);
    assert_eq!(wave.force()[cell(30, 30)], 1000);
    wave.step(&arena, 0);
    assert_eq!(wave.u()[cell(30, 30)], 1000);
    assert_eq!(wave.v()[cell(30, 30)], 0);
    assert_eq!(wave.force()[cell(30, 30)], 938);
    assert_eq!(wave.u()[cell(10, 10)], -1000);
    assert_eq!(wave.force()[cell(10, 10)], -937);
    wave.step(&arena, 0);
    assert_eq!(wave.u()[cell(30, 30)], 938);
    assert_eq!(wave.v()[cell(30, 30)], -1000);
    assert_eq!(wave.force()[cell(30, 30)], 880);
    assert_eq!(wave.u()[cell(10, 10)], -937);
    assert_eq!(wave.v()[cell(10, 10)], 1000);
    assert_eq!(wave.force()[cell(10, 10)], -878);
}

#[test]
fn force_on_a_full_displacement_saturates() {
    let arena = Arena::new(60, 60).unwrap();
    let mut wave = CWave::new(&arena);
    wave.set_force(cell(55, 55), I32_CAP_MAX);
    wave.set_force(cell(5, 5), I32_CAP_MAX);
    wave.step(&arena, 0);
    assert_eq!(wave.u()[cell(55, 55)], I32_CAP_MAX);
    assert_eq!(wave.u()[cell(5, 5)], 1073741823);
    assert_eq!(wave.force()[cell(5, 5)], 1006632960);
    wave.step(&arena, 0);
    assert_eq!(wave.u()[cell(5, 5)], 1006632959);
    assert_eq!(wave.v()[cell(5, 5)], -1073741824);
    assert_eq!(wave.force()[cell(5, 5)], 943718400);
}

#[test]
fn values_stay_in_the_amplitude_range() {
    let arena = Arena::new(60, 60).unwrap();
    let mut wave = CWave::new(&arena);
    for _ in 0..40 {
        wave.step(&arena, 0);
        for i in 0..3600 {
            assert!(I32_CAP_MIN <= wave.u()[i] && wave.u()[i] <= I32_CAP_MAX);
            assert!(I32_CAP_MIN <= wave.v()[i] && wave.v()[i] <= I32_CAP_MAX);
        }
    }
}

#[test]
fn wall_cells_never_move() {
    let arena = Arena::new(60, 60).unwrap();
    let mut wave = CWave::new(&arena);
    wave.set_force(0, 77);
    wave.set_force(cell(59, 30), -5);
    let u0 = wave.u().clone();
    let v0 = wave.v().clone();
    let f0 = wave.force().clone();
    for n in 0..25 {
        wave.step(&arena, (n % 4) as u8);
        for i in 0..3600 {
            if matches!(arena.status[i], Status::Wall) {
                assert_eq!(wave.u()[i], u0[i]);
                assert_eq!(wave.v()[i], v0[i]);
                assert_eq!(wave.force()[i], f0[i]);
            }
        }
    }
    assert_eq!(wave.force()[0], 77);
    assert_eq!(wave.force()[cell(59, 30)], -5);
}

#[test]
fn picture_has_a_transparent_wall() {
    let arena = Arena::new(60, 60).unwrap();
    let mut wave = CWave::new(&arena);
    for n in 0..6 {
        let image = wave.render(&arena, n % 2 == 0);
        assert_eq!(image.len(), 3600);
        for i in 0..3600 {
            if matches!(arena.status[i], Status::Wall) {
                assert_eq!(image[i], 0x0000_0000);
            } else {
                assert_ne!(image[i], 0x0000_0000);
                assert_eq!(image[i] & 0xFF00_0000, 0xFF00_0000);
            }
        }
        wave.step(&arena, 2);
    }
}

#[test]
fn picture_shows_the_displacement() {
    let arena = Arena::new(60, 60).unwrap();
    let mut wave = CWave::new(&arena);
    let first = wave.render(&arena, false);
    assert_eq!(first[cell(55, 55)], 0xFFFF_FF00);
    assert_eq!(first[cell(30, 30)], 0xFF00_0000);
    assert_eq!(first[cell(0, 0)], 0);
    wave.step(&arena, 0);
    wave.step(&arena, 0);
    let third = wave.render(&arena, false);
    // displacements 536870911 - 536870912 = -1 and -134217729
    assert_eq!(third[cell(51, 51)], 0xFF00_0001);
    assert_eq!(third[cell(58, 58)], 0xFF00_0021);
    // displacement 402653183 has intensity 95
    assert_eq!(third[cell(51, 52)], 0xFF5F_5F00);
}
