use std::collections::hash_map::DefaultHasher;
use std::hash::Hasher;

use checked_io::{Check, Checker, Counter, InnerCounter};

fn write_all(d: &mut Counter<Vec<u8>>, buf: &[u8]) -> Result<usize, String> {
    d.inner_mut().extend_from_slice(buf);
    d.record_transfer(buf, Ok(buf.len()))
}

#[test]
fn counter_example_scenario() {
    let mut d: Counter<Vec<u8>> = Checker::new_default(Vec::new());
    assert_eq!(write_all(&mut d, &[0x61, 0x62]), Ok(2));
    assert_eq!(write_all(&mut d, &[0x63]), Ok(1));
    assert_eq!(d.output(), 3);
    let old = d.replace_checker(InnerCounter::default());
    assert_eq!(old.output(), 3);
    assert_eq!(d.output(), 0);
    let (_, inner) = d.into_parts();
    assert_eq!(inner, vec![0x61, 0x62, 0x63]);
}

#[test]
fn counter_starts_at_zero() {
    let d: Counter<()> = Checker::new_default(());
    assert_eq!(d.output(), 0);
    assert_eq!(InnerCounter::default().output(), 0);
}

#[test]
fn counter_update_adds_length() {
    let mut c = InnerCounter::default();
    c.update(&[1, 2, 3, 4, 5]);
    c.update(&[]);
    c.update(&[6]);
    assert_eq!(c.output(), 6);
    assert_eq!(c.output(), 6);
}

#[test]
fn counter_room_at_ceiling() {
    let c = InnerCounter::default();
    assert!(c.can_take(usize::MAX));
    let mut c = InnerCounter::default();
    c.update(&[0; 10]);
    assert!(c.can_take(usize::MAX - 10));
    assert!(!c.can_take(usize::MAX - 9));
}

#[test]
fn counter_chunking_does_not_matter() {
    let data: Vec<u8> = (0..100u8).collect();
    let mut whole = InnerCounter::default();
    whole.update(&data);
    let mut parts = InnerCounter::default();
    for chunk in data.chunks(7) {
        parts.update(chunk);
    }
    assert_eq!(parts.output(), whole.output());
    assert_eq!(whole.output(), 100);
}

#[test]
fn counter_counts_reads_in_any_chunking() {
    let source: Vec<u8> = (0..50u8).collect();
    let mut d: Counter<usize> = Checker::new_default(0);
    let mut buf = [0u8; 8];
    loop {
        let pos = *d.inner_mut();
        let n = std::cmp::min(buf.len(), source.len() - pos);
        buf[..n].copy_from_slice(&source[pos..pos + n]);
        *d.inner_mut() = pos + n;
        let r: Result<usize, String> = d.record_transfer(&buf, Ok(n));
        assert_eq!(r, Ok(n));
        if n == 0 {
            break;
        }
    }
    assert_eq!(d.output(), 50);
}

#[test]
fn partial_transfer_counts_only_confirmed_bytes() {
    let mut d: Counter<()> = Checker::new_default(());
    let r: Result<usize, String> = d.record_transfer(&[9, 9, 9, 9, 9], Ok(2));
    assert_eq!(r, Ok(2));
    assert_eq!(d.output(), 2);
}

#[test]
fn partial_transfer_feeds_leading_bytes_to_hasher() {
    let mut d = Checker::new_default_hasher(());
    let r: Result<usize, String> = d.record_transfer(&[1, 2, 3, 4], Ok(3));
    assert_eq!(r, Ok(3));
    let mut expected = DefaultHasher::new();
    expected.write(&[1, 2, 3]);
    assert_eq!(d.output(), expected.finish());
    let mut whole = DefaultHasher::new();
    whole.write(&[1, 2, 3, 4]);
    assert_ne!(d.output(), whole.finish());
}

#[test]
fn error_is_returned_unchanged_and_counts_nothing() {
    let mut d: Counter<()> = Checker::new_default(());
    let _: Result<usize, String> = d.record_transfer(&[1, 2, 3], Ok(3));
    let r: Result<usize, String> = d.record_transfer(&[4, 5], Err("broken pipe".to_string()));
    assert_eq!(r, Err("broken pipe".to_string()));
    assert_eq!(d.output(), 3);
}

#[test]
fn error_leaves_hasher_unchanged() {
    let mut d = Checker::new_default_hasher(());
    let before = d.output();
    let r: Result<usize, u32> = d.record_transfer(&[4, 5], Err(7));
    assert_eq!(r, Err(7));
    assert_eq!(d.output(), before);
}

#[test]
fn hasher_output_matches_direct_writes() {
    let mut d = Checker::new_default_hasher(Vec::<u8>::new());
    assert_eq!(d.output(), DefaultHasher::new().finish());
    let _: Result<usize, String> = d.record_transfer(b"hello", Ok(5));
    let _: Result<usize, String> = d.record_transfer(b" world", Ok(6));
    let mut expected = DefaultHasher::new();
    expected.write(b"hello");
    expected.write(b" world");
    assert_eq!(d.output(), expected.finish());
    assert_eq!(d.output(), d.output());
}

#[test]
fn reset_hasher_returns_old_and_starts_empty() {
    let mut d = Checker::new_default_hasher(());
    let _: Result<usize, String> = d.record_transfer(b"abc", Ok(3));
    let with_abc = d.output();
    let old = d.reset_hasher();
    assert_eq!(old.output(), with_abc);
    assert_eq!(d.output(), DefaultHasher::new().finish());
}

#[test]
fn replace_inner_keeps_accumulator() {
    let mut d = Checker::new(InnerCounter::default(), 1u32);
    let _: Result<usize, String> = d.record_transfer(&[0; 4], Ok(4));
    assert_eq!(d.replace_inner(2), 1);
    assert_eq!(d.output(), 4);
    let (_, inner) = d.into_parts();
    assert_eq!(inner, 2);
}

#[test]
fn into_parts_round_trip() {
    let mut d = Checker::new(InnerCounter::default(), vec![1u8, 2]);
    let _: Result<usize, String> = d.record_transfer(&[0; 5], Ok(5));
    let (c, inner) = d.into_parts();
    let d = Checker::new(c, inner);
    assert_eq!(d.output(), 5);
    let (_, inner) = d.into_parts();
    assert_eq!(inner, vec![1, 2]);
}

#[test]
fn rebuild_with_checker_changes_accumulator_type() {
    let mut d = Checker::new(InnerCounter::default(), 42u8);
    let _: Result<usize, String> = d.record_transfer(&[0; 3], Ok(3));
    let (d2, old) = d.rebuild_with_checker(DefaultHasher::new());
    assert_eq!(old.output(), 3);
    assert_eq!(d2.output(), DefaultHasher::new().finish());
    let (_, inner) = d2.into_parts();
    assert_eq!(inner, 42);
}

#[test]
fn rebuild_with_inner_changes_inner_type() {
    let mut d = Checker::new(InnerCounter::default(), 42u8);
    let _: Result<usize, String> = d.record_transfer(&[0; 3], Ok(3));
    let (d2, old) = d.rebuild_with_inner("text");
    assert_eq!(old, 42);
    assert_eq!(d2.output(), 3);
    let (_, inner) = d2.into_parts();
    assert_eq!(inner, "text");
}

#[test]
fn hasher_chunking_observed() {
    let mut parts = Checker::new_default_hasher(());
    let _: Result<usize, String> = parts.record_transfer(b"hel", Ok(3));
    let _: Result<usize, String> = parts.record_transfer(b"lo", Ok(2));
    let mut whole = Checker::new_default_hasher(());
    let _: Result<usize, String> = whole.record_transfer(b"hello", Ok(5));
    assert_eq!(parts.output(), whole.output());
}
