use micyou_app::pcm::float32_to_pcm16;

fn bytes_of(samples: &[f32]) -> Vec<u8> {
    samples.iter().flat_map(|v| v.to_le_bytes()).collect()
}

fn samples_of(pcm: &[u8]) -> Vec<i16> {
    pcm.chunks_exact(2).map(|pair| i16::from_le_bytes([pair[0], pair[1]])).collect()
}

fn by_floats(bits: u32) -> i16 {
    (f32::from_bits(bits).clamp(-1.0, 1.0) * 32767.0) as i16
}

fn converted(bits: u32) -> i16 {
    samples_of(&float32_to_pcm16(&bits.to_le_bytes()))[0]
}

#[test]
fn test_float32_to_pcm16() {
    let input = [1.0f32, 0.0f32, -1.0f32]
        .into_iter()
        .flat_map(|v| v.to_le_bytes())
        .collect::<Vec<_>>();
    let pcm = float32_to_pcm16(&input);
    assert_eq!(pcm.len(), 6);
    assert_eq!(i16::from_le_bytes([pcm[0], pcm[1]]), 32767);
    assert_eq!(i16::from_le_bytes([pcm[2], pcm[3]]), 0);
    assert_eq!(i16::from_le_bytes([pcm[4], pcm[5]]), -32767);
}

#[test]
fn samples_are_scaled_and_cut_off() {
    let pcm = float32_to_pcm16(&bytes_of(&[0.5, -0.5, 0.25, 0.1, 3.0e-5, 2.0, -7.5]));
    assert_eq!(samples_of(&pcm), vec![16383, -16383, 8191, 3276, 0, 32767, -32767]);
}

#[test]
fn unusual_floats_have_a_sample() {
    assert_eq!(converted(f32::NAN.to_bits()), 0);
    assert_eq!(converted(0xffc0_0001), 0);
    assert_eq!(converted(f32::INFINITY.to_bits()), 32767);
    assert_eq!(converted(f32::NEG_INFINITY.to_bits()), -32767);
    assert_eq!(converted((-0.0f32).to_bits()), 0);
    assert_eq!(converted(1), 0);
    assert_eq!(converted(0x8000_0001), 0);
}

#[test]
fn conversion_agrees_with_float_arithmetic() {
    let mut bits: u32 = 0;
    for step in 0..400_000u32 {
        assert_eq!(converted(bits), by_floats(bits), "pattern {bits:#010x}");
        bits = bits.wrapping_add(0x0000_29ef).wrapping_add(step & 7);
    }
    for bits in 0x3f7f_f000u32..0x3f80_0100 {
        assert_eq!(converted(bits), by_floats(bits), "pattern {bits:#010x}");
        assert_eq!(converted(bits | 0x8000_0000), by_floats(bits | 0x8000_0000));
    }
}

#[test]
fn conversion_is_exact_at_every_sample_border() {
    for sample in 0..=32767u32 {
        let near = (sample as f64 / 32767.0) as f32;
        for bits in near.to_bits().saturating_sub(2)..=near.to_bits() + 2 {
            assert_eq!(converted(bits), by_floats(bits), "pattern {bits:#010x}");
        }
    }
}

#[test]
fn trailing_bytes_are_left_out() {
    let mut input = bytes_of(&[1.0]);
    input.extend_from_slice(&[1, 2, 3]);
    assert_eq!(samples_of(&float32_to_pcm16(&input)), vec![32767]);
    assert!(float32_to_pcm16(&[9, 9, 9]).is_empty());
    assert!(float32_to_pcm16(&[]).is_empty());
}

#[test]
fn sign_flips_with_the_sample() {
    for value in [0.0f32, 1.0e-3, 0.125, 0.7, 0.999, 1.0, 5.0] {
        let there = converted(value.to_bits());
        assert_eq!(converted((-value).to_bits()), -there);
        assert!((-32767..=32767).contains(&there));
    }
}

#[test]
fn frames_convert_piece_by_piece() {
    let first = bytes_of(&[0.1, -0.2, 0.3]);
    let second = bytes_of(&[-0.4, 0.5]);
    let mut joined = first.clone();
    joined.extend_from_slice(&second);
    let mut pieces = float32_to_pcm16(&first);
    pieces.extend(float32_to_pcm16(&second));
    assert_eq!(float32_to_pcm16(&joined), pieces);
}

#[test]
fn larger_samples_have_no_smaller_value() {
    let mut values = vec![f32::NEG_INFINITY, -2.0, -1.0, -0.0, 0.0, 1.0e-40, 1.0, f32::INFINITY];
    for step in 0..2000u32 {
        let value = f32::from_bits(0x3700_0000 + step * 0x1_0bcd);
        values.push(value);
        values.push(-value);
    }
    values.sort_by(|a, b| a.partial_cmp(b).unwrap());
    let samples: Vec<i16> = values.iter().map(|v| converted(v.to_bits())).collect();
    assert!(samples.windows(2).all(|pair| pair[0] <= pair[1]));
}
