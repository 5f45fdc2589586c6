use i2s_audio::wav::{sample_from_le, Samples, Wav16, WavError, HEADER_LEN};

fn file_with(samples: &[i16]) -> Vec<u8> {
    let mut data: Vec<u8> = vec![0xAA; HEADER_LEN];
    for s in samples {
        data.extend_from_slice(&s.to_le_bytes());
    }
    data
}

fn collect(mut s: Samples) -> Vec<i16> {
    let mut out = Vec::new();
    while let Some(x) = s.next() {
        out.push(x);
    }
    out
}

#[test]
fn sample_bytes_are_little_endian_twos_complement() {
    assert_eq!(sample_from_le(0x00, 0x00), 0);
    assert_eq!(sample_from_le(0x01, 0x00), 1);
    assert_eq!(sample_from_le(0xFF, 0xFF), -1);
    assert_eq!(sample_from_le(0xFF, 0x7F), 32767);
    assert_eq!(sample_from_le(0x00, 0x80), -32768);
    assert_eq!(sample_from_le(0x38, 0xFF), -200);
}

#[test]
fn decode_round_trip_recovers_every_sample() {
    let encoded: Vec<i16> = vec![0, 1, -1, 100, -200, 300, -400, 32767, -32768, 0x1234];
    let data = file_with(&encoded);
    let wav = Wav16::new(&data);
    assert_eq!(wav.len(), encoded.len());
    assert_eq!(collect(wav.stream()), encoded);
}

#[test]
fn header_only_gives_no_samples() {
    let data = file_with(&[]);
    let wav = Wav16::new(&data);
    assert_eq!(wav.len(), 0);
    assert_eq!(wav.stream().next(), None);
}

#[test]
fn header_bytes_are_never_decoded() {
    let mut data = file_with(&[7]);
    for b in data.iter_mut().take(HEADER_LEN) {
        *b = 0x55;
    }
    let wav = Wav16::new(&data);
    assert_eq!(collect(wav.stream()), vec![7]);
}

#[test]
fn trailing_odd_byte_is_dropped() {
    let mut data = file_with(&[5, -5]);
    data.push(0x12);
    let wav = Wav16::new(&data);
    assert_eq!(wav.len(), 2);
    assert_eq!(collect(wav.stream()), vec![5, -5]);
}

#[test]
fn parse_rejects_short_buffer() {
    let data = vec![0u8; HEADER_LEN - 1];
    assert_eq!(Wav16::parse(&data).err(), Some(WavError::TooShort));
    assert_eq!(Wav16::parse(&[]).err(), Some(WavError::TooShort));
}

#[test]
fn parse_rejects_odd_remainder() {
    let mut data = file_with(&[1, 2]);
    data.push(0);
    assert_eq!(Wav16::parse(&data).err(), Some(WavError::OddLength));
}

#[test]
fn parse_accepts_whole_samples() {
    let data = file_with(&[3, -4]);
    let wav = Wav16::parse(&data).ok().unwrap();
    assert_eq!(collect(wav.stream()), vec![3, -4]);
    let empty = file_with(&[]);
    assert_eq!(Wav16::parse(&empty).ok().unwrap().len(), 0);
}

#[test]
fn stream_restarts_from_the_first_sample() {
    let data = file_with(&[10, 20, 30]);
    let wav = Wav16::new(&data);
    let mut s = wav.stream();
    assert_eq!(s.len(), 3);
    assert_eq!(s.next(), Some(10));
    assert_eq!(s.next(), Some(20));
    assert_eq!(s.next(), Some(30));
    assert_eq!(s.next(), None);
    assert_eq!(s.next(), None);
    s.restart();
    assert_eq!(s.next(), Some(10));
}
