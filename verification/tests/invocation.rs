use radamsa::flip::BitFlipEngine;
use radamsa::{generate, mutate, ProcessState};

#[test]
fn test_generator() {
    let mut engine = BitFlipEngine::new();
    let mut state = ProcessState::new();
    let start_val = "hello world".as_bytes().to_vec();
    for i in 0..100 {
        let output = generate(&mut engine, &mut state, &start_val, None, None);
        println!("output {} {}", i, String::from_utf8_lossy(&output));
    }
}

#[test]
fn test_mutator() {
    let mut engine = BitFlipEngine::new();
    let mut state = ProcessState::new();
    let mut mut_vec = "hello world".as_bytes().to_vec();
    mut_vec.extend(vec![0u8; 1000].iter().copied());
    for i in 0..100 {
        mutate(&mut engine, &mut state, &mut mut_vec, None);
        println!("output {} \"{}\"", i, String::from_utf8_lossy(&mut_vec));
    }
}

#[test]
fn generate_is_deterministic_for_explicit_seed() {
    // Same input, same explicit seed, same capacity: identical output, both
    // across repeated calls on one session and across fresh sessions (the
    // stand-in for separate process invocations).
    let input = b"determinism".to_vec();

    let mut engine1 = BitFlipEngine::new();
    let mut state1 = ProcessState::new();
    let first = generate(&mut engine1, &mut state1, &input, Some(77), Some(64));
    let second = generate(&mut engine1, &mut state1, &input, Some(77), Some(64));
    assert_eq!(first, second);

    let mut engine2 = BitFlipEngine::new();
    let mut state2 = ProcessState::new();
    let other_run = generate(&mut engine2, &mut state2, &input, Some(77), Some(64));
    assert_eq!(first, other_run);
}

#[test]
fn generate_respects_capacity_bound() {
    let mut engine = BitFlipEngine::new();
    let mut state = ProcessState::new();
    let input = b"0123456789".to_vec();
    for maxsize in [0usize, 1, 4, 10, 16, 1000] {
        let output = generate(&mut engine, &mut state, &input, Some(3), Some(maxsize));
        assert!(output.len() <= maxsize);
    }
}

#[test]
fn generate_empty_input_small_capacity() {
    // Empty input, explicit seed 0, maxsize 16: length within the bound and
    // reproducible for the fixed seed.
    let mut engine = BitFlipEngine::new();
    let mut state = ProcessState::new();
    let empty: Vec<u8> = Vec::new();
    let output = generate(&mut engine, &mut state, &empty, Some(0), Some(16));
    assert!(output.len() <= 16);

    let mut engine2 = BitFlipEngine::new();
    let mut state2 = ProcessState::new();
    let again = generate(&mut engine2, &mut state2, &empty, Some(0), Some(16));
    assert_eq!(output, again);
}

#[test]
fn generate_exact_output_of_reference_engine() {
    // The reference engine XORs each byte with the seed's low byte and
    // truncates to the capacity.
    let mut engine = BitFlipEngine::new();
    let mut state = ProcessState::new();
    let input = vec![1u8, 2, 3];
    let output = generate(&mut engine, &mut state, &input, Some(0xff), Some(2));
    assert_eq!(output, vec![1u8 ^ 0xff, 2u8 ^ 0xff]);
    // A seed above the low byte flips the same bits as its low byte alone.
    let output2 = generate(&mut engine, &mut state, &input, Some(0x1_00ff), Some(2));
    assert_eq!(output, output2);
}

#[test]
fn generate_uses_default_capacity_when_unspecified() {
    let mut engine = BitFlipEngine::new();
    let mut state = ProcessState::new();
    let input = b"hello world".to_vec();
    let output = generate(&mut engine, &mut state, &input, Some(0), None);
    // Seed 0 flips nothing, and 11 bytes fit far below the 1 MiB default.
    assert_eq!(output, input);
    assert_eq!(input, b"hello world".to_vec());
}

#[test]
fn mutate_preserves_length_and_bounds_fill() {
    // An 11-byte sequence padded with 1000 zero bytes, explicit seed 42:
    // the fill never exceeds the length, and the length stays 1011.
    let mut engine = BitFlipEngine::new();
    let mut state = ProcessState::new();
    let mut mut_vec = "hello world".as_bytes().to_vec();
    mut_vec.extend(vec![0u8; 1000].iter().copied());
    assert_eq!(mut_vec.len(), 1011);
    let filled = mutate(&mut engine, &mut state, &mut mut_vec, Some(42));
    assert!(filled <= 1011);
    assert_eq!(mut_vec.len(), 1011);
}

#[test]
fn mutate_exact_output_of_reference_engine() {
    let mut engine = BitFlipEngine::new();
    let mut state = ProcessState::new();
    let mut buf = vec![5u8, 0, 255];
    let filled = mutate(&mut engine, &mut state, &mut buf, Some(1));
    assert_eq!(filled, 3);
    assert_eq!(buf, vec![5u8 ^ 1, 0u8 ^ 1, 255u8 ^ 1]);
    // Flipping against the same seed twice restores the original bytes.
    let filled2 = mutate(&mut engine, &mut state, &mut buf, Some(1));
    assert_eq!(filled2, 3);
    assert_eq!(buf, vec![5u8, 0, 255]);
}

#[test]
fn mutate_accepts_empty_buffer() {
    let mut engine = BitFlipEngine::new();
    let mut state = ProcessState::new();
    let mut buf: Vec<u8> = Vec::new();
    let filled = mutate(&mut engine, &mut state, &mut buf, None);
    assert_eq!(filled, 0);
    assert_eq!(buf.len(), 0);
}

#[test]
fn setup_runs_exactly_once_per_session() {
    // The instrumentation point on the reference engine's setup entry:
    // any number of public operations trigger setup exactly once.
    let mut engine = BitFlipEngine::new();
    let mut state = ProcessState::new();
    assert_eq!(engine.setup_calls(), 0);
    assert!(!state.is_initialized());

    let input = b"abc".to_vec();
    let mut buf = b"xyz".to_vec();
    for _ in 0..3 {
        generate(&mut engine, &mut state, &input, None, Some(8));
    }
    for _ in 0..2 {
        mutate(&mut engine, &mut state, &mut buf, None);
    }
    assert_eq!(engine.setup_calls(), 1);
    assert!(state.is_initialized());
}
