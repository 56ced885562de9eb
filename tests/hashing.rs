use hashing_reader::channel_error;
use hashing_reader::tap::HashTap;
use hashing_reader::HashingReader;
use sha2::{Digest, Sha256, Sha512};
use std::error::Error;
use std::io::{Cursor, ErrorKind, Read};
use std::sync::mpsc::{SendError, TryRecvError};

#[test]
fn test_std_hashing() -> Result<(), Box<dyn Error>> {
    let data = "Hello, world!";

    let mut hasher = Sha256::new();
    hasher.update(data);
    let hash1 = hasher.finalize();

    let cursor = Cursor::new(data);

    let (mut wrapper, wrapper_hasher) = HashingReader::<_, Sha256>::new(cursor);

    let mut buffer = String::new();
    let result = wrapper.read_to_string(&mut buffer);
    assert!(result.is_ok());

    let hash2 = wrapper_hasher.try_recv().unwrap().unwrap();

    assert_eq!(data, buffer);
    assert_eq!(hash1.as_slice().len(), hash2.len());
    assert_eq!(hash1.as_slice(), hash2);

    Ok(())
}

#[test]
fn test_std_hashing_eof() -> Result<(), Box<dyn Error>> {
    let data = "Hello, world!";

    let mut cursor = Cursor::new(data);

    let (mut wrapper, hasher) = HashingReader::<_, Sha256>::new(&mut cursor);

    drop(hasher);

    let mut buffer = String::new();
    let result = std::io::Read::read_to_string(&mut wrapper, &mut buffer);

    // An error, since the digest could not be delivered on the channel.
    assert!(result.is_err());
    // All the data up to the end of the stream was copied nonetheless.
    assert_eq!(data, buffer);

    Ok(())
}

/// A reader that yields `data` and then fails.
struct Failing {
    data: Vec<u8>,
    pos: usize,
}

impl Read for Failing {
    fn read(&mut self, buf: &mut [u8]) -> std::io::Result<usize> {
        if self.pos == self.data.len() {
            return Err(std::io::Error::new(ErrorKind::BrokenPipe, "inner stream broke"));
        }
        let n = buf.len().min(self.data.len() - self.pos);
        buf[..n].copy_from_slice(&self.data[self.pos..self.pos + n]);
        self.pos += n;
        Ok(n)
    }
}

fn digest_in_chunks<H: Digest>(data: &[u8], chunk: usize) -> Vec<u8> {
    let (mut wrapper, rx) = HashingReader::<_, H>::new(Cursor::new(data.to_vec()));
    let mut buf = vec![0u8; chunk];
    let mut seen = Vec::new();
    loop {
        let n = wrapper.read(&mut buf).unwrap();
        if n == 0 {
            break;
        }
        assert!(n <= chunk);
        seen.extend_from_slice(&buf[..n]);
        assert!(matches!(rx.try_recv(), Err(TryRecvError::Empty)));
    }
    assert_eq!(seen, data);
    rx.try_recv().unwrap().unwrap()
}

#[test]
fn empty_stream_gives_digest_of_nothing() {
    let d = digest_in_chunks::<Sha256>(b"", 8);
    assert_eq!(d, Sha256::digest(b"").to_vec());
    assert_eq!(
        d,
        vec![
            0xe3, 0xb0, 0xc4, 0x42, 0x98, 0xfc, 0x1c, 0x14, 0x9a, 0xfb, 0xf4, 0xc8, 0x99, 0x6f,
            0xb9, 0x24, 0x27, 0xae, 0x41, 0xe4, 0x64, 0x9b, 0x93, 0x4c, 0xa4, 0x95, 0x99, 0x1b,
            0x78, 0x52, 0xb8, 0x55
        ]
    );
}

#[test]
fn digest_matches_direct_hashing_for_any_chunk_size() {
    let data: Vec<u8> = (0..1000u32).map(|i| (i * 7 % 251) as u8).collect();
    let direct = Sha256::digest(&data).to_vec();
    for chunk in [1usize, 3, 7, 64, 999, 1000, 4096] {
        assert_eq!(digest_in_chunks::<Sha256>(&data, chunk), direct);
    }
    let direct512 = Sha512::digest(&data).to_vec();
    assert_eq!(direct512.len(), 64);
    assert_eq!(digest_in_chunks::<Sha512>(&data, 13), direct512);
}

#[test]
fn hello_world_digest_is_the_direct_one() {
    let d = digest_in_chunks::<Sha256>(b"Hello, world!", 4);
    assert_eq!(d, Sha256::digest(b"Hello, world!").to_vec());
    assert_ne!(d, Sha256::digest(b"").to_vec());
}

#[test]
fn dropped_receiver_fails_only_the_final_read() {
    let (mut wrapper, rx) = HashingReader::<_, Sha256>::new(Cursor::new(b"Hello, world!".to_vec()));
    drop(rx);
    let mut buf = [0u8; 5];
    assert_eq!(wrapper.read(&mut buf).unwrap(), 5);
    assert_eq!(wrapper.read(&mut buf).unwrap(), 5);
    assert_eq!(wrapper.read(&mut buf).unwrap(), 3);
    let err = wrapper.read(&mut buf).unwrap_err();
    assert_eq!(err.kind(), ErrorKind::Other);
    assert!(err.to_string().contains("could not be delivered"));
}

#[test]
fn inner_failure_is_reported_and_announced() {
    let inner = Failing { data: b"abcdef".to_vec(), pos: 0 };
    let (mut wrapper, rx) = HashingReader::<_, Sha256>::new(inner);
    let mut buf = [0u8; 4];
    assert_eq!(wrapper.read(&mut buf).unwrap(), 4);
    assert_eq!(wrapper.read(&mut buf).unwrap(), 2);
    let err = wrapper.read(&mut buf).unwrap_err();
    assert_eq!(err.kind(), ErrorKind::BrokenPipe);
    assert_eq!(err.to_string(), "inner stream broke");
    assert_eq!(rx.try_recv().unwrap(), None);
    // the session has ended: a second failure announces nothing more
    let err = wrapper.read(&mut buf).unwrap_err();
    assert_eq!(err.kind(), ErrorKind::BrokenPipe);
    assert!(matches!(rx.try_recv(), Err(TryRecvError::Empty)));
}

#[test]
fn inner_failure_with_dropped_receiver_keeps_both_signals() {
    let inner = Failing { data: b"abc".to_vec(), pos: 0 };
    let (mut wrapper, rx) = HashingReader::<_, Sha256>::new(inner);
    drop(rx);
    let mut buf = [0u8; 8];
    assert_eq!(wrapper.read(&mut buf).unwrap(), 3);
    let err = wrapper.read(&mut buf).unwrap_err();
    let text = err.to_string();
    assert!(text.contains("could not be delivered"));
    assert!(text.contains("inner stream broke"));
}

#[test]
fn reads_after_the_end_announce_nothing_more() {
    let (mut wrapper, rx) = HashingReader::<_, Sha256>::new(Cursor::new(b"xyz".to_vec()));
    let mut out = Vec::new();
    wrapper.read_to_end(&mut out).unwrap();
    assert_eq!(out, b"xyz");
    let mut buf = [0u8; 4];
    assert_eq!(wrapper.read(&mut buf).unwrap(), 0);
    assert_eq!(wrapper.read(&mut buf).unwrap(), 0);
    assert_eq!(rx.try_recv().unwrap().unwrap(), Sha256::digest(b"xyz").to_vec());
    assert!(matches!(rx.try_recv(), Err(TryRecvError::Empty)));
}

#[test]
fn tap_counts_only_newly_filled_bytes() {
    let (mut tap, rx) = HashTap::<Sha256>::new();
    let filled = b"Hello, world!";
    tap.observe_filled(&filled[..7], 0).unwrap();
    tap.observe_filled(&filled[..], 7).unwrap();
    tap.observe_filled(&filled[..], 13).unwrap();
    assert_eq!(rx.try_recv().unwrap().unwrap(), Sha256::digest(filled).to_vec());
}

#[test]
fn tap_reports_failure_notice() {
    let (mut tap, rx) = HashTap::<Sha256>::new();
    tap.observe(b"partial").unwrap();
    let e = tap.fail(std::io::Error::new(ErrorKind::TimedOut, "slow"));
    assert_eq!(e.kind(), ErrorKind::TimedOut);
    assert_eq!(rx.try_recv().unwrap(), None);
    // a new session starts afresh after the failure
    tap.observe(b"again").unwrap();
    tap.observe(b"").unwrap();
    assert_eq!(rx.try_recv().unwrap().unwrap(), Sha256::digest(b"again").to_vec());
}

#[test]
fn channel_error_names_the_undelivered_completion() {
    let e = channel_error(SendError(Some(vec![1u8, 2, 3])));
    assert_eq!(e.kind(), ErrorKind::Other);
    assert_eq!(
        e.to_string(),
        "stream ended but its completion could not be delivered: the receiver is gone"
    );
}

#[test]
fn account_read_passes_counts_and_errors_on() {
    let (mut tap, rx) = HashTap::<Sha256>::new();
    let buf = *b"abcdefgh";
    assert_eq!(tap.account_read(Ok(3), &buf).unwrap(), 3);
    assert_eq!(tap.account_read(Ok(2), &buf[3..]).unwrap(), 2);
    assert_eq!(tap.account_read(Ok(0), &buf).unwrap(), 0);
    assert_eq!(rx.try_recv().unwrap().unwrap(), Sha256::digest(b"abcde").to_vec());
    let err = tap
        .account_read(Err(std::io::Error::new(ErrorKind::NotFound, "gone")), &buf)
        .unwrap_err();
    assert_eq!(err.kind(), ErrorKind::NotFound);
    assert!(matches!(rx.try_recv(), Err(TryRecvError::Empty)));
}
