use quantun::rng::PqcRng;

#[test]
fn fill_keeps_length_and_randomizes() {
    let mut rng = PqcRng;
    let mut buf = vec![0u8; 64];
    rng.fill(&mut buf);
    assert_eq!(buf.len(), 64);
    // 64 zero bytes from the OS CSPRNG would be astronomically unlikely.
    assert_ne!(buf, vec![0u8; 64]);

    let mut other = vec![0u8; 64];
    rng.fill(&mut other);
    assert_ne!(buf, other);
}

#[test]
fn fill_empty_buffer_is_noop() {
    let mut rng = PqcRng;
    let mut buf: Vec<u8> = Vec::new();
    rng.fill(&mut buf);
    assert!(buf.is_empty());
}
