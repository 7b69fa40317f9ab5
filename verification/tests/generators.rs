use std::cell::Cell;
use tyche::prelude::{
    draw_f32_bits, draw_string, random_i32, random_i8, random_u16, random_u32, random_u64,
    random_u8, Entropy, EntropyError,
};

/// A reproducible stream of bytes that stands for the entropy source.
struct Stream {
    state: Cell<u64>,
}

impl Stream {
    fn new(seed: u64) -> Stream {
        Stream { state: Cell::new(seed) }
    }

    fn next(&self) -> u64 {
        let s = self.state.get().wrapping_add(0x9e37_79b9_7f4a_7c15);
        self.state.set(s);
        let mut z = s;
        z = (z ^ (z >> 30)).wrapping_mul(0xbf58_476d_1ce4_e5b9);
        z = (z ^ (z >> 27)).wrapping_mul(0x94d0_49bb_1331_11eb);
        z ^ (z >> 31)
    }

    fn bytes(&self, n: usize) -> Result<Vec<u8>, EntropyError> {
        let mut out = Vec::with_capacity(n);
        while out.len() < n {
            for b in self.next().to_le_bytes() {
                if out.len() < n {
                    out.push(b);
                }
            }
        }
        Ok(out)
    }
}

#[test]
fn test_random_str() {
    let stream = Stream::new(11);
    let mut entropy = Entropy::new(|n: usize| stream.bytes(n));
    for _ in 0..1500000 {
        let tmp = draw_string(&mut entropy);
        assert!(tmp.is_ok());
    }
}

#[test]
fn test_random_i8() {
    let stream = Stream::new(12);
    let mut entropy = Entropy::new(|n: usize| stream.bytes(n));
    for _ in 0..1500000 {
        let answ = random_i8(&mut entropy);
        assert!(answ.is_ok());
    }
}

#[test]
fn test_random_i32() {
    let stream = Stream::new(13);
    let mut entropy = Entropy::new(|n: usize| stream.bytes(n));
    for _ in 0..1500000 {
        let answ = random_i32(&mut entropy);
        assert!(answ.is_ok());
    }
}

#[test]
fn test_random_u8() {
    let stream = Stream::new(14);
    let mut entropy = Entropy::new(|n: usize| stream.bytes(n));
    for _ in 0..1500000 {
        let answ = random_u8(&mut entropy);
        assert!(answ.is_ok());
    }
}

#[test]
fn test_random_u16() {
    let stream = Stream::new(15);
    let mut entropy = Entropy::new(|n: usize| stream.bytes(n));
    for _ in 0..1500000 {
        let answ = random_u16(&mut entropy);
        assert!(answ.is_ok());
    }
}

#[test]
fn test_random_u32() {
    let stream = Stream::new(16);
    let mut entropy = Entropy::new(|n: usize| stream.bytes(n));
    for _ in 0..1500000 {
        let answ = random_u32(&mut entropy);
        assert!(answ.is_ok());
    }
}

#[test]
fn test_random_u64() {
    let stream = Stream::new(17);
    let mut entropy = Entropy::new(|n: usize| stream.bytes(n));
    for _ in 0..1500000 {
        let answ = random_u64(&mut entropy);
        assert!(answ.is_ok());
    }
}

#[test]
fn test_random_f32() {
    let stream = Stream::new(18);
    let mut entropy = Entropy::new(|n: usize| stream.bytes(n));
    for _ in 0..1500000 {
        let answ = draw_f32_bits(&mut entropy);
        assert!(answ.is_ok());
    }
}

#[test]
fn drawn_values_agree_with_the_standard_byte_order() {
    let stream = Stream::new(19);
    let replay = Stream::new(19);
    let mut entropy = Entropy::new(|n: usize| stream.bytes(n));
    for _ in 0..10000 {
        let b = replay.bytes(1).unwrap();
        assert_eq!(random_u8(&mut entropy), Ok(b[0]));
        let b = replay.bytes(2).unwrap();
        assert_eq!(random_u16(&mut entropy), Ok(u16::from_le_bytes([b[0], b[1]])));
        let b = replay.bytes(4).unwrap();
        assert_eq!(random_u32(&mut entropy), Ok(u32::from_le_bytes([b[0], b[1], b[2], b[3]])));
        let b = replay.bytes(8).unwrap();
        assert_eq!(
            random_u64(&mut entropy),
            Ok(u64::from_le_bytes([b[0], b[1], b[2], b[3], b[4], b[5], b[6], b[7]]))
        );
        let b = replay.bytes(1).unwrap();
        assert_eq!(random_i8(&mut entropy), Ok(i8::from_le_bytes([b[0]])));
        let b = replay.bytes(4).unwrap();
        assert_eq!(random_i32(&mut entropy), Ok(i32::from_le_bytes([b[0], b[1], b[2], b[3]])));
    }
}

#[test]
fn drawn_bit_patterns_are_never_nan() {
    let stream = Stream::new(20);
    let mut entropy = Entropy::new(|n: usize| stream.bytes(n));
    let mut values = 0u32;
    for _ in 0..1500000 {
        if let Some(bits) = draw_f32_bits(&mut entropy).unwrap() {
            assert!(!f32::from_bits(bits).is_nan());
            values += 1;
        }
    }
    assert!(values > 0);
}

#[test]
fn drawn_strings_hold_one_character_below_0x80() {
    let stream = Stream::new(21);
    let mut entropy = Entropy::new(|n: usize| stream.bytes(n));
    let mut strings = 0u32;
    for _ in 0..100000 {
        if let Some(text) = draw_string(&mut entropy).unwrap() {
            assert_eq!(text.chars().count(), 1);
            assert!(text.is_ascii());
            strings += 1;
        }
    }
    assert!(strings > 0);
}

#[test]
fn each_generator_asks_once_for_its_own_width() {
    let asked: Cell<Vec<usize>> = Cell::new(Vec::new());
    let mut entropy = Entropy::new(|n: usize| -> Result<Vec<u8>, EntropyError> {
        let mut seen = asked.take();
        seen.push(n);
        asked.set(seen);
        Ok(vec![0x41; n])
    });
    random_u8(&mut entropy).unwrap();
    random_u16(&mut entropy).unwrap();
    random_u32(&mut entropy).unwrap();
    random_u64(&mut entropy).unwrap();
    random_i8(&mut entropy).unwrap();
    random_i32(&mut entropy).unwrap();
    draw_f32_bits(&mut entropy).unwrap();
    draw_string(&mut entropy).unwrap();
    assert_eq!(asked.take(), vec![1, 2, 4, 8, 1, 4, 4, 10]);
}

#[test]
fn a_failure_of_the_source_is_handed_on_unchanged() {
    let mut closed = Entropy::new(|_n: usize| -> Result<Vec<u8>, EntropyError> {
        Err(EntropyError::EntropySourceUnavailable)
    });
    let mut dry = Entropy::new(|_n: usize| -> Result<Vec<u8>, EntropyError> {
        Err(EntropyError::EntropyExhausted)
    });
    assert_eq!(random_u8(&mut closed), Err(EntropyError::EntropySourceUnavailable));
    assert_eq!(random_u16(&mut closed), Err(EntropyError::EntropySourceUnavailable));
    assert_eq!(random_u32(&mut closed), Err(EntropyError::EntropySourceUnavailable));
    assert_eq!(random_u64(&mut closed), Err(EntropyError::EntropySourceUnavailable));
    assert_eq!(random_i8(&mut closed), Err(EntropyError::EntropySourceUnavailable));
    assert_eq!(random_i32(&mut closed), Err(EntropyError::EntropySourceUnavailable));
    assert_eq!(draw_f32_bits(&mut closed), Err(EntropyError::EntropySourceUnavailable));
    assert_eq!(draw_string(&mut closed), Err(EntropyError::EntropySourceUnavailable));
    assert_eq!(random_u8(&mut dry), Err(EntropyError::EntropyExhausted));
    assert_eq!(random_u64(&mut dry), Err(EntropyError::EntropyExhausted));
    assert_eq!(draw_string(&mut dry), Err(EntropyError::EntropyExhausted));
}

#[test]
fn a_short_read_is_exhaustion() {
    let mut short =
        Entropy::new(|n: usize| -> Result<Vec<u8>, EntropyError> { Ok(vec![0x41; n - 1]) });
    assert_eq!(random_u8(&mut short), Err(EntropyError::EntropyExhausted));
    assert_eq!(random_u16(&mut short), Err(EntropyError::EntropyExhausted));
    assert_eq!(random_u32(&mut short), Err(EntropyError::EntropyExhausted));
    assert_eq!(random_u64(&mut short), Err(EntropyError::EntropyExhausted));
    assert_eq!(random_i8(&mut short), Err(EntropyError::EntropyExhausted));
    assert_eq!(random_i32(&mut short), Err(EntropyError::EntropyExhausted));
    assert_eq!(draw_f32_bits(&mut short), Err(EntropyError::EntropyExhausted));
    assert_eq!(draw_string(&mut short), Err(EntropyError::EntropyExhausted));
}

#[test]
fn a_read_hands_back_what_the_source_gave() {
    let mut entropy = Entropy::new(|n: usize| -> Result<Vec<u8>, EntropyError> {
        Ok((0..n).map(|i| i as u8).collect())
    });
    assert_eq!(entropy.read(0), Ok(vec![]));
    assert_eq!(entropy.read(3), Ok(vec![0, 1, 2]));
    assert_eq!(entropy.read(1), Ok(vec![0]));
    let mut closed = Entropy::new(|_n: usize| -> Result<Vec<u8>, EntropyError> {
        Err(EntropyError::EntropySourceUnavailable)
    });
    assert_eq!(closed.read(4), Err(EntropyError::EntropySourceUnavailable));
    let mut dry = Entropy::new(|_n: usize| -> Result<Vec<u8>, EntropyError> {
        Err(EntropyError::EntropyExhausted)
    });
    assert_eq!(dry.read(4), Err(EntropyError::EntropyExhausted));
}

#[test]
fn one_handle_serves_draw_after_draw() {
    let stream = Stream::new(22);
    let replay = Stream::new(22);
    let mut entropy = Entropy::new(|n: usize| stream.bytes(n));
    let first = random_u32(&mut entropy).unwrap();
    let second = random_u32(&mut entropy).unwrap();
    let b = replay.bytes(4).unwrap();
    assert_eq!(first, u32::from_le_bytes([b[0], b[1], b[2], b[3]]));
    let b = replay.bytes(4).unwrap();
    assert_eq!(second, u32::from_le_bytes([b[0], b[1], b[2], b[3]]));
}
