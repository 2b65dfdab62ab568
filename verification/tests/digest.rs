use beacon::digest::mix;
use beacon::digest::DIGEST_SIZE;
use beacon::Entropy;

#[test]
fn digest_input_is_data_then_timestamp() {
    let entropy = Entropy { version: 1, timestamp: 0x0102_0304_0506_0708, data: vec![0xaa, 0xbb] };
    let mut out = vec![0x11];
    entropy.write_digest_input(&mut out);
    assert_eq!(out, vec![0x11, 0xaa, 0xbb, 8, 7, 6, 5, 4, 3, 2, 1]);
}

#[test]
fn negative_timestamp_is_twos_complement() {
    let entropy = Entropy { version: 0, timestamp: -2, data: vec![1, 2, 3] };
    let mut out = Vec::new();
    entropy.write_digest_input(&mut out);
    assert_eq!(out, vec![1, 2, 3, 254, 255, 255, 255, 255, 255, 255, 255]);
    let entropy = Entropy { version: 0, timestamp: i64::MIN, data: vec![] };
    let mut out = Vec::new();
    entropy.write_digest_input(&mut out);
    assert_eq!(out, vec![0, 0, 0, 0, 0, 0, 0, 0x80]);
}

#[test]
fn version_is_not_part_of_the_digest_input() {
    let mut zero = Vec::new();
    Entropy { version: 0, timestamp: 9, data: vec![4, 5] }.write_digest_input(&mut zero);
    let mut one = Vec::new();
    Entropy { version: 1, timestamp: 9, data: vec![4, 5] }.write_digest_input(&mut one);
    assert_eq!(zero, one);
}

#[test]
fn mixing_digest_of_empty_entropies() {
    // SHA-256 of sixteen zero bytes.
    let empty = Entropy { version: 0, timestamp: 0, data: vec![] };
    let digest = mix(&empty, &empty);
    assert_eq!(digest.len(), DIGEST_SIZE);
    assert_eq!(
        digest,
        vec![
            55, 71, 8, 255, 247, 113, 157, 213, 151, 158, 200, 117, 213, 108, 210, 40, 111, 109,
            60, 247, 236, 49, 122, 59, 37, 99, 42, 171, 40, 236, 55, 187
        ]
    );
}

#[test]
fn mixing_digest_with_a_negative_timestamp() {
    let remote = Entropy { version: 1, timestamp: -2, data: vec![1, 2, 3] };
    let local = Entropy { version: 1, timestamp: 0x0102_0304_0506_0708, data: vec![] };
    assert_eq!(
        mix(&remote, &local),
        vec![
            213, 92, 59, 102, 10, 22, 239, 159, 48, 252, 32, 207, 184, 230, 66, 159, 183, 210,
            148, 116, 84, 65, 247, 4, 172, 20, 3, 136, 170, 126, 154, 25
        ]
    );
}

#[test]
fn mixing_digest_of_zeros_and_ones() {
    let remote = Entropy { version: 0, timestamp: 0, data: vec![0; 32] };
    let local = Entropy { version: 0, timestamp: 0, data: vec![0xff; 32] };
    assert_eq!(
        mix(&remote, &local),
        vec![
            156, 50, 34, 7, 169, 217, 41, 22, 65, 136, 152, 107, 111, 98, 21, 15, 191, 188, 45,
            211, 255, 76, 219, 132, 248, 44, 184, 73, 244, 29, 117, 61
        ]
    );
}
