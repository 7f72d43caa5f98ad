//! Shape handling of raw SPIR-V byte payloads.

use vulqueno::errors::ShaderError;
use vulqueno::spirv::{prepare_spirv, SPIRV_HEADER_WORDS, SPIRV_MAGIC};

/// A minimal well-shaped payload: the magic number followed by four
/// zero header words, all little-endian.
fn minimal_module() -> Vec<u8> {
    let mut bytes = vec![0x03, 0x02, 0x23, 0x07];
    bytes.extend(std::iter::repeat(0u8).take(16));
    bytes
}

#[test]
fn empty_payload_is_rejected() {
    assert_eq!(prepare_spirv(&[]), Err(ShaderError::ShaderModuleRejected));
}

#[test]
fn payload_not_a_multiple_of_four_is_rejected() {
    let mut bytes = minimal_module();
    bytes.push(0x00);
    assert_eq!(prepare_spirv(&bytes), Err(ShaderError::ShaderModuleRejected));
}

#[test]
fn payload_shorter_than_a_header_is_rejected() {
    let bytes = [0x03, 0x02, 0x23, 0x07, 0, 0, 0, 0];
    assert_eq!(prepare_spirv(&bytes), Err(ShaderError::ShaderModuleRejected));
}

#[test]
fn payload_without_the_magic_number_is_rejected() {
    let mut bytes = minimal_module();
    bytes[3] = 0x08;
    assert_eq!(prepare_spirv(&bytes), Err(ShaderError::ShaderModuleRejected));
}

#[test]
fn minimal_module_decomposes_into_header_words() {
    let words = prepare_spirv(&minimal_module()).unwrap();
    assert_eq!(words, vec![SPIRV_MAGIC, 0, 0, 0, 0]);
    assert_eq!(words.len(), SPIRV_HEADER_WORDS);
}

#[test]
fn words_are_read_little_endian() {
    let mut bytes = minimal_module();
    bytes.extend([0x78, 0x56, 0x34, 0x12]);
    let words = prepare_spirv(&bytes).unwrap();
    assert_eq!(words[5], 0x1234_5678);
}

#[test]
fn preparing_the_same_payload_twice_gives_the_same_words() {
    // Two loads of one shader file hand the device identical code.
    let bytes = minimal_module();
    assert_eq!(prepare_spirv(&bytes), prepare_spirv(&bytes));
}
