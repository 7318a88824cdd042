use ntscloom_core::color::{
    B_FROM_I, B_FROM_Q, COEFFICIENT_SCALE, G_FROM_I, G_FROM_Q, I_FROM_B, I_FROM_G, I_FROM_R, Q_FROM_B,
    Q_FROM_G, Q_FROM_R, R_FROM_I, R_FROM_Q, Y_FROM_B, Y_FROM_G, Y_FROM_R,
};

fn coefficient(thousandths: i32) -> f32 {
    thousandths as f32 / COEFFICIENT_SCALE as f32
}

#[test]
fn coefficients_are_the_standard_matrix() {
    assert_eq!([Y_FROM_R, Y_FROM_G, Y_FROM_B], [299, 587, 114]);
    assert_eq!([I_FROM_R, I_FROM_G, I_FROM_B], [596, -274, -322]);
    assert_eq!([Q_FROM_R, Q_FROM_G, Q_FROM_B], [211, -523, 312]);
    assert_eq!([R_FROM_I, R_FROM_Q], [956, 621]);
    assert_eq!([G_FROM_I, G_FROM_Q], [-272, -647]);
    assert_eq!([B_FROM_I, B_FROM_Q], [-1106, 1703]);
    assert_eq!(COEFFICIENT_SCALE, 1000);
}

#[test]
fn coefficients_round_to_the_decimal_literals() {
    assert_eq!(coefficient(Y_FROM_R).to_bits(), 0.299f32.to_bits());
    assert_eq!(coefficient(Y_FROM_G).to_bits(), 0.587f32.to_bits());
    assert_eq!(coefficient(Y_FROM_B).to_bits(), 0.114f32.to_bits());
    assert_eq!(coefficient(I_FROM_R).to_bits(), 0.596f32.to_bits());
    assert_eq!(coefficient(I_FROM_G).to_bits(), (-0.274f32).to_bits());
    assert_eq!(coefficient(I_FROM_B).to_bits(), (-0.322f32).to_bits());
    assert_eq!(coefficient(Q_FROM_R).to_bits(), 0.211f32.to_bits());
    assert_eq!(coefficient(Q_FROM_G).to_bits(), (-0.523f32).to_bits());
    assert_eq!(coefficient(Q_FROM_B).to_bits(), 0.312f32.to_bits());
    assert_eq!(coefficient(R_FROM_I).to_bits(), 0.956f32.to_bits());
    assert_eq!(coefficient(R_FROM_Q).to_bits(), 0.621f32.to_bits());
    assert_eq!(coefficient(G_FROM_I).to_bits(), (-0.272f32).to_bits());
    assert_eq!(coefficient(G_FROM_Q).to_bits(), (-0.647f32).to_bits());
    assert_eq!(coefficient(B_FROM_I).to_bits(), (-1.106f32).to_bits());
    assert_eq!(coefficient(B_FROM_Q).to_bits(), 1.703f32.to_bits());
}

#[test]
fn luma_weights_sum_to_one_and_chroma_weights_to_zero() {
    assert_eq!(Y_FROM_R + Y_FROM_G + Y_FROM_B, COEFFICIENT_SCALE);
    assert_eq!(I_FROM_R + I_FROM_G + I_FROM_B, 0);
    assert_eq!(Q_FROM_R + Q_FROM_G + Q_FROM_B, 0);
}

fn round_trip(r: i64, g: i64, b: i64) -> (i64, i64) {
    let y = Y_FROM_R as i64 * r + Y_FROM_G as i64 * g + Y_FROM_B as i64 * b;
    let i = I_FROM_R as i64 * r + I_FROM_G as i64 * g + I_FROM_B as i64 * b;
    let q = Q_FROM_R as i64 * r + Q_FROM_G as i64 * g + Q_FROM_B as i64 * b;
    let scale = COEFFICIENT_SCALE as i64;
    let r2 = scale * y + R_FROM_I as i64 * i + R_FROM_Q as i64 * q;
    let g2 = scale * y + G_FROM_I as i64 * i + G_FROM_Q as i64 * q;
    let b2 = scale * y + B_FROM_I as i64 * i + B_FROM_Q as i64 * q;
    let y2 = Y_FROM_R as i64 * r2 + Y_FROM_G as i64 * g2 + Y_FROM_B as i64 * b2;
    (y, y2)
}

#[test]
fn round_trip_keeps_luma_in_exact_arithmetic() {
    // The colour (0.8, 0.2, 0.1) in thousandths.
    let (y, y2) = round_trip(800, 200, 100);
    assert_eq!(y, 368_000);
    assert_eq!(y2, 368_000_000_000 + 96 * 389_800 + 32 * 95_400);
    assert!((y2 - 1_000_000 * y).abs() < 10_000_000 * 1000);
}

#[test]
fn round_trip_keeps_luma_over_the_gamut() {
    let full = 16i64;
    for r in 0..=full {
        for g in 0..=full {
            for b in 0..=full {
                let (y, y2) = round_trip(r, g, b);
                assert!((y2 - 1_000_000 * y).abs() <= 100_000 * full);
            }
        }
    }
}
