//! Number formats, random numbers and the reference arithmetic.
use aegisllm_cuda::loader::fp8_blocks::{
    block_sides, block_size, dequant_fp8_block, dequant_fp8_block_into_bf16, has_block_table,
    scale_e4m3,
};
use aegisllm_cuda::loader::numeric::{
    bf16_values, build_e4m3_signed_lut, dense_vector_bits, divisor_is_usable, e4m3_to_f32_bits,
    f32_to_bf16_round, pertensor_scale_source, scalar_bits, ScaleSource,
};
use aegisllm_cuda::loader::tensors::TensorDType;
use aegisllm_cuda::runtime::cutlass_moe_smoke::{decode_e2m1_halves, decode_ue4m3_units};
use aegisllm_cuda::runtime::fp4_reference::{
    abs_max, dequantize, fp32_to_ue4m3_kernel_style, moe_best_e2m1_like_kernel,
};
use aegisllm_cuda::runtime::fp8_mma_smoke::{e4m3_of_small_int, f32_to_e4m3, small_product};
use aegisllm_cuda::runtime::linear::{gather_bf16_rows, widen_bf16};
use aegisllm_cuda::runtime::rng::Rng;

fn name() -> String {
    "norm".to_owned()
}

#[test]
fn bf16_rounds_to_nearest_even() {
    assert_eq!(f32_to_bf16_round(1.0f32.to_bits()), 0x3F80);
    assert_eq!(f32_to_bf16_round(0x3F80_8000), 0x3F80);
    assert_eq!(f32_to_bf16_round(0x3F81_8000), 0x3F82);
    assert_eq!(f32_to_bf16_round(0x3F80_8001), 0x3F81);
    assert_eq!(f32_to_bf16_round(f32::NAN.to_bits()), 0x7FC0);
    assert_eq!(f32_to_bf16_round(0xFFFF_FFFF), 0x7FC0);
    assert_eq!(f32_to_bf16_round(f32::INFINITY.to_bits()), 0x7F80);
    assert_eq!(f32_to_bf16_round(f32::MAX.to_bits()), 0x7F80);
}

#[test]
fn rounding_gives_back_widened_numbers() {
    for half in 0..=u16::MAX {
        let wide = widen_bf16(half);
        if !f32::from_bits(wide).is_nan() {
            assert_eq!(f32_to_bf16_round(wide), half);
        }
    }
}

#[test]
fn e4m3_decodes_exactly() {
    assert_eq!(f32::from_bits(e4m3_to_f32_bits(0x38)), 1.0);
    assert_eq!(f32::from_bits(e4m3_to_f32_bits(0x7E)), 448.0);
    assert_eq!(f32::from_bits(e4m3_to_f32_bits(0x01)), 1.0 / 512.0);
    assert_eq!(f32::from_bits(e4m3_to_f32_bits(0xC0)), -2.0);
    assert!(f32::from_bits(e4m3_to_f32_bits(0x7F)).is_nan());
    for byte in 0..=255u8 {
        let exponent = i32::from((byte >> 3) & 15);
        let mantissa = f32::from(byte & 7);
        if byte & 127 == 127 {
            continue;
        }
        let magnitude = if exponent == 0 {
            mantissa / 8.0 * 0.015625
        } else {
            (1.0 + mantissa / 8.0) * 2f32.powi(exponent - 7)
        };
        let value = if byte >= 128 { -magnitude } else { magnitude };
        assert_eq!(f32::from_bits(e4m3_to_f32_bits(byte)), value);
    }
}

#[test]
fn decoding_table_holds_every_byte() {
    let table = build_e4m3_signed_lut();
    assert_eq!(table.len(), 256);
    for byte in 0..=255u8 {
        assert_eq!(table[byte as usize], e4m3_to_f32_bits(byte));
    }
}

#[test]
fn e4m3_encoding_undoes_decoding() {
    for byte in 0..=255u8 {
        if byte & 127 != 127 {
            assert_eq!(f32_to_e4m3(e4m3_to_f32_bits(byte)), byte);
        }
    }
}

#[test]
fn e4m3_encoding_rounds_ties_to_even_and_saturates() {
    assert_eq!(f32_to_e4m3(1.0625f32.to_bits()), 0x38);
    assert_eq!(f32_to_e4m3(1.1875f32.to_bits()), 0x3A);
    assert_eq!(f32_to_e4m3(1000.0f32.to_bits()), 0x7E);
    assert_eq!(f32_to_e4m3((-1000.0f32).to_bits()), 0xFE);
    assert_eq!(f32_to_e4m3(0), 0);
    assert_eq!(f32_to_e4m3(f32::NAN.to_bits()), 0x7F);
    assert_eq!(f32_to_e4m3((7.9f32 / 512.0).to_bits()), 0x08);
    for value in -7..=7 {
        assert_eq!(e4m3_of_small_int(value), f32_to_e4m3((value as f32).to_bits()));
    }
}

#[test]
fn scale_bytes_round_to_nearest_even() {
    assert_eq!(fp32_to_ue4m3_kernel_style(1.0f32.to_bits()), 0x38);
    assert_eq!(fp32_to_ue4m3_kernel_style(1.07f32.to_bits()), 0x39);
    assert_eq!(fp32_to_ue4m3_kernel_style(1.0625f32.to_bits()), 0x38);
    assert_eq!(fp32_to_ue4m3_kernel_style(1.96875f32.to_bits()), 0x40);
    assert_eq!(fp32_to_ue4m3_kernel_style((-1.0f32).to_bits()), 0);
    assert_eq!(fp32_to_ue4m3_kernel_style(0), 0);
    assert_eq!(fp32_to_ue4m3_kernel_style((1.0f32 / 512.0).to_bits()), 1);
    assert_eq!(fp32_to_ue4m3_kernel_style((0.6f32 / 512.0).to_bits()), 1);
    assert_eq!(fp32_to_ue4m3_kernel_style((0.25f32 / 512.0).to_bits()), 0);
    assert_eq!(fp32_to_ue4m3_kernel_style((7.2f32 / 512.0).to_bits()), 7);
    assert_eq!(fp32_to_ue4m3_kernel_style(256.0f32.to_bits()), 0x78);
    assert_eq!(fp32_to_ue4m3_kernel_style(500.0f32.to_bits()), 0x7E);
    assert_eq!(fp32_to_ue4m3_kernel_style(f32::INFINITY.to_bits()), 0x7E);
    assert_eq!(fp32_to_ue4m3_kernel_style(f32::NAN.to_bits()), 0x7F);
    for byte in 0..127u8 {
        assert_eq!(fp32_to_ue4m3_kernel_style(e4m3_to_f32_bits(byte)), byte);
    }
}

#[test]
fn scale_bytes_grow_with_the_number() {
    let mut last = 0;
    for step in 0..4000u32 {
        let byte = fp32_to_ue4m3_kernel_style((step as f32 * 0.0625).to_bits());
        assert!(byte >= last);
        last = byte;
    }
}

#[test]
fn four_bits_are_the_nearest_ones() {
    let one = 1.0f32.to_bits();
    let best = |value: f32| moe_best_e2m1_like_kernel(one, value.to_bits());
    assert_eq!(best(0.25), 0);
    assert_eq!(best(0.26), 1);
    assert_eq!(best(0.75), 1);
    assert_eq!(best(1.0), 2);
    assert_eq!(best(1.75), 3);
    assert_eq!(best(2.5), 4);
    assert_eq!(best(3.5), 5);
    assert_eq!(best(5.0), 6);
    assert_eq!(best(5.01), 7);
    assert_eq!(best(-5.01), 15);
    assert_eq!(best(-0.1), 0);
    assert_eq!(best(f32::INFINITY), 0);
    assert_eq!(best(f32::NAN), 0);
    assert_eq!(moe_best_e2m1_like_kernel(0, 3.0f32.to_bits()), 0);
    assert_eq!(moe_best_e2m1_like_kernel((-1.0f32).to_bits(), 3.0f32.to_bits()), 0);
    for nibble in 0..16u8 {
        if nibble != 8 {
            assert_eq!(best(f32::from(decode_e2m1_halves(nibble)) / 2.0), nibble);
        }
    }
}

#[test]
fn four_bits_under_a_scale() {
    assert_eq!(decode_e2m1_halves(7), 12);
    assert_eq!(decode_e2m1_halves(15), -12);
    assert_eq!(decode_ue4m3_units(0x38), 1024);
    assert_eq!(decode_ue4m3_units(0x7E), 448 * 1024);
    assert_eq!(decode_ue4m3_units(0x7F), 0);
    assert_eq!(decode_ue4m3_units(0x01), 2);
    assert_eq!(decode_ue4m3_units(0x03), 6);
    assert_eq!(decode_ue4m3_units(0x08), 16);
    for byte in 0..127u8 {
        let number = f32::from_bits(e4m3_to_f32_bits(byte));
        assert_eq!(decode_ue4m3_units(byte) as f32 / 1024.0, number);
    }
    assert_eq!(dequantize(0x02, 0x01), 4);
    assert_eq!(dequantize(0x0D, 0x38), -3 * 2048);
    assert_eq!(dequantize(0x07, 0x7E), 6 * 448 * 2048);
}

#[test]
fn largest_magnitude_skips_what_is_no_number() {
    let bits: Vec<u32> = [1.0f32, -7.5, f32::NAN, 3.0].iter().map(|v| v.to_bits()).collect();
    assert_eq!(abs_max(&bits), 7.5f32.to_bits());
    assert_eq!(abs_max(&[]), 0);
    assert_eq!(abs_max(&[f32::NAN.to_bits()]), 0);
}

#[test]
fn bytes_become_numbers() {
    assert_eq!(bf16_values(&[0x80, 0x3F, 0x00, 0x40, 0xAA]), vec![0x3F80, 0x4000]);
    assert_eq!(
        dense_vector_bits(&name(), TensorDType::BF16, &[0x80, 0x3F]).unwrap(),
        vec![1.0f32.to_bits()]
    );
    assert_eq!(
        dense_vector_bits(&name(), TensorDType::F32, &2.5f32.to_le_bytes()).unwrap(),
        vec![2.5f32.to_bits()]
    );
    assert!(dense_vector_bits(&name(), TensorDType::U8, &[1]).is_err());
    assert_eq!(
        scalar_bits(&name(), TensorDType::F32, &(-4.0f32).to_le_bytes()).unwrap(),
        (-4.0f32).to_bits()
    );
    assert_eq!(scalar_bits(&name(), TensorDType::BF16, &[0x80, 0x3F]).unwrap(), 1.0f32.to_bits());
    assert_eq!(
        scalar_bits(&name(), TensorDType::F32, &[0, 0]).unwrap_err().message(),
        "`norm` must be a scalar F32 or BF16 tensor, got F32 (2 bytes)"
    );
}

#[test]
fn scales_come_as_multiplier_or_divisor() {
    assert_eq!(pertensor_scale_source(true, true), ScaleSource::Multiplier);
    assert_eq!(pertensor_scale_source(false, true), ScaleSource::Divisor);
    assert_eq!(pertensor_scale_source(false, false), ScaleSource::Absent);
    assert!(divisor_is_usable(45312.0f32.to_bits()));
    assert!(divisor_is_usable((-2.0f32).to_bits()));
    assert!(!divisor_is_usable(f32::MIN_POSITIVE.to_bits()));
    assert!(!divisor_is_usable(0));
    assert!(!divisor_is_usable(f32::NAN.to_bits()));
}

#[test]
fn tables_have_blocks_of_their_sides() {
    assert!(has_block_table(200, 128, 2, 1));
    assert!(!has_block_table(200, 128, 3, 1));
    assert_eq!(block_sides(200, 128, 2, 1), (128, 128));
    assert_eq!(block_sides(256, 256, 4, 4), (64, 64));
    assert_eq!(block_sides(2, 2, 1, 2), (2, 1));
    assert_eq!(block_size(200, 128, 2, 1), (100, 128));
    assert_eq!(block_size(64, 64, 1, 1), (64, 64));
    assert_eq!(block_size(257, 64, 4, 0), (65, 64));
}

#[test]
fn scaled_numbers_are_products() {
    assert_eq!(scale_e4m3(0x38, 0x3F80_0000), 1.0f32.to_bits());
    assert_eq!(scale_e4m3(0xB8, 0x4040_0000), (-3.0f32).to_bits());
    assert_eq!(scale_e4m3(0x7E, 0x7F7F_0000), f32::INFINITY.to_bits());
    assert_eq!(scale_e4m3(0x80, 0xFF80_0000), 0x7FC0_0000);
    assert_eq!(scale_e4m3(0x01, 0x0001_0000), 0x80);
    let mut scales: Vec<u32> = (0..=0xFFFFu32).step_by(61).map(|half| half << 16).collect();
    scales.extend((0..=0xFFFF_FFFFu32).step_by(2_500_009));
    scales.extend([1, 2, 3, 0xFF, 0x100, 0x101, 0x7F_FFFF, 0x80_0001, 0xFF_FFFF, 0x7F7F_FFFF]);
    for byte in 0..=255u8 {
        let number = f32::from_bits(e4m3_to_f32_bits(byte));
        for scale in &scales {
            let product = number * f32::from_bits(*scale);
            let expected = if product.is_nan() { 0x7FC0_0000 } else { product.to_bits() };
            assert_eq!(scale_e4m3(byte, *scale), expected, "{byte:#x} {scale:#x}");
        }
    }
}

#[test]
fn blocks_are_scaled_one_by_one() {
    let (two, four) = (2.0f32.to_bits(), 4.0f32.to_bits());
    let mut fp8 = vec![0x38u8; 200 * 128];
    fp8[130 * 128 + 5] = 0xC0;
    let values = dequant_fp8_block(&fp8, &[two, four], 200, 128, 1, 128, 128);
    assert_eq!(values.len(), 200 * 128);
    assert!(values[..128 * 128].iter().all(|value| *value == 0x4000));
    assert_eq!(values[128 * 128], 0x4080);
    assert_eq!(values[130 * 128 + 5], 0xC100);
    assert_eq!(values[199 * 128 + 127], 0x4080);
    assert_eq!(dequant_fp8_block(&[0x39], &[0x3F81_0000], 1, 1, 1, 1, 1), vec![0x3F91]);
    assert!(dequant_fp8_block(&[], &[], 0, 4, 0, 0, 0).is_empty());
}

#[test]
fn scaled_blocks_are_written_as_bytes() {
    let fp8 = [0x38, 0x38, 0xC0, 0x38];
    let scales = [1.0f32.to_bits(), 2.0f32.to_bits()];
    let mut dst = [0u8; 8];
    dequant_fp8_block_into_bf16(&mut dst, &fp8, &scales, 2, 2, 2, 2, 1);
    assert_eq!(dst, [0x80, 0x3F, 0x00, 0x40, 0x00, 0xC0, 0x00, 0x40]);
    assert_eq!(bf16_values(&dst), dequant_fp8_block(&fp8, &scales, 2, 2, 2, 2, 1));
    let mut longer = [7u8; 11];
    dequant_fp8_block_into_bf16(&mut longer, &fp8, &scales, 2, 2, 2, 2, 1);
    assert_eq!(longer, [0x80, 0x3F, 0x00, 0x40, 0x00, 0xC0, 0x00, 0x40, 7, 7, 7]);
    let mut shorter = [7u8; 4];
    dequant_fp8_block_into_bf16(&mut shorter, &fp8, &scales, 2, 2, 2, 2, 1);
    assert_eq!(shorter, [0x80, 0x3F, 0x00, 0x40]);
}

#[test]
fn rows_are_gathered_and_widened() {
    let values = [1u16, 2, 3, 4, 5, 6];
    assert_eq!(
        gather_bf16_rows(&values, 3, 2, &[2, 0]).unwrap(),
        vec![5 << 16, 6 << 16, 1 << 16, 2 << 16]
    );
    assert!(gather_bf16_rows(&values, 3, 2, &[3]).is_err());
}

#[test]
fn random_numbers_repeat() {
    let mut source = Rng(0xC0FF_EEEE);
    let mut x: u32 = 0xC0FF_EEEE;
    for _ in 0..100 {
        x ^= x << 13;
        x ^= x >> 17;
        x ^= x << 5;
        assert_eq!(source.next_u32(), x);
        assert_ne!(x, 0);
    }
    let mut source = Rng(5);
    let mut copy = Rng(5);
    let drawn = copy.next_u32();
    assert_eq!(source.next_unit(), drawn >> 8);
    let drawn = copy.next_u32();
    assert_eq!(source.next_nibble(), (drawn & 15) as u8);
    let drawn = copy.next_u32();
    assert_eq!(source.next_ue4m3_scale(), 0x38 + (drawn & 15) as u8 % 11);
    for _ in 0..1000 {
        let byte = source.next_ue4m3_scale();
        assert!((0x38..=0x42).contains(&byte));
    }
}

#[test]
fn small_product_is_the_matrix_product() {
    let a = vec![1, 2, 3, -4, 5, -6];
    let b = vec![7, 0, 1, 2, -2, 2];
    assert_eq!(small_product(&a, &b, 2, 2, 3), vec![10, 4, -34, -30]);
}
