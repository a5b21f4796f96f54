//! Tests of the last-writer-wins merge order on raw register writes.

use symmetry::sync::register::{merge_write, write_wins, Entry};

fn entry(value: &str, marker: i32, writer: &[u8]) -> Entry {
    Entry { value: String::from(value), marker, writer: writer.to_vec() }
}

#[test]
fn greater_marker_wins() {
    let cur = entry("old", 1, &[9; 32]);
    let inc = entry("new", 2, &[1; 32]);
    assert!(write_wins(&inc, &cur));
    assert!(!write_wins(&cur, &inc));
}

#[test]
fn equal_marker_breaks_tie_by_writer() {
    let low = entry("low", 5, &[0x11; 32]);
    let high = entry("high", 5, &[0x22; 32]);
    assert!(write_wins(&high, &low));
    assert!(!write_wins(&low, &high));
}

#[test]
fn writer_prefix_orders_below_extension() {
    let short = entry("short", 3, &[0xab]);
    let long = entry("long", 3, &[0xab, 0x00]);
    assert!(write_wins(&long, &short));
    assert!(!write_wins(&short, &long));
}

#[test]
fn a_write_never_beats_itself() {
    let e = entry("same", 7, &[0x42; 32]);
    let twin = entry("same", 7, &[0x42; 32]);
    assert!(!write_wins(&e, &twin));
}

#[test]
fn merge_write_applies_only_winners() {
    let mut cur = entry("start", 1, &[0x11; 32]);
    merge_write(&mut cur, entry("loses", 0, &[0xff; 32]));
    assert_eq!(cur.value, "start");
    assert_eq!(cur.marker, 1);
    merge_write(&mut cur, entry("wins", 2, &[0x01; 32]));
    assert_eq!(cur.value, "wins");
    assert_eq!(cur.marker, 2);
    assert_eq!(cur.writer, vec![0x01; 32]);
}
