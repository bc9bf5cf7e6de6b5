use two_pass_renderer::UniformRecord;

#[test]
fn record_packs_little_endian() {
    let record = UniformRecord { pass_index: 0x0102_0304, resolution: 77 };
    let bytes = record.data(0x0A0B_0C0D);
    assert_eq!(bytes, vec![0x04, 0x03, 0x02, 0x01, 0x0D, 0x0C, 0x0B, 0x0A]);
}

#[test]
fn record_matches_shader_scalar_layout() {
    // the host hands the resolution scalar to the shader as a 32-bit float
    let resolution: u32 = 800;
    let record = UniformRecord { pass_index: 1, resolution };
    let bytes = record.data((resolution as f32).to_bits());
    let mut expected = 1u32.to_le_bytes().to_vec();
    expected.extend_from_slice(&800f32.to_le_bytes());
    assert_eq!(bytes, expected);
    assert_eq!(bytes.len(), 8);
}

#[test]
fn zero_record_is_eight_zero_bytes() {
    let record = UniformRecord { pass_index: 0, resolution: 0 };
    assert_eq!(record.data(0), vec![0u8; 8]);
}
