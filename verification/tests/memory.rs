use kazeta_ra::memory::{
    new_memory_cache, parse_memorywatcher_datagram, peek_memory, read_memory_value, MemorySize,
};

#[test]
fn test_parse_memorywatcher_datagram() {
    let mut cache = new_memory_cache();
    // Simulate a datagram: address 00801234, value 00000001
    let datagram = b"00801234\n00000001\n00805678\n00000002\n";
    parse_memorywatcher_datagram(datagram, &mut cache);

    assert_eq!(cache.get(0x00801234).unwrap(), 1);
    assert_eq!(cache.get(0x00805678).unwrap(), 2);
}

#[test]
fn test_read_memory_value_8bit() {
    let mut cache = new_memory_cache();
    cache.insert(0x00801234, 0x1234ABCD);
    assert_eq!(read_memory_value(&cache, 0x00801234, MemorySize::Bit8), 0xCD);
}

#[test]
fn test_read_memory_value_16bit() {
    let mut cache = new_memory_cache();
    cache.insert(0x00801234, 0x1234ABCD);
    assert_eq!(read_memory_value(&cache, 0x00801234, MemorySize::Bit16), 0xABCD);
}

#[test]
fn test_read_memory_value_32bit() {
    let mut cache = new_memory_cache();
    cache.insert(0x00801234, 0x1234ABCD);
    assert_eq!(read_memory_value(&cache, 0x00801234, MemorySize::Bit32), 0x1234ABCD);
}

#[test]
fn test_read_memory_value_upper16() {
    let mut cache = new_memory_cache();
    cache.insert(0x00801234, 0x1234ABCD);
    assert_eq!(read_memory_value(&cache, 0x00801234, MemorySize::Upper16), 0x1234);
}

#[test]
fn read_other_sizes_and_unaligned_addresses() {
    let mut cache = new_memory_cache();
    cache.insert(0x00801234, 0x1234ABCD);
    assert_eq!(read_memory_value(&cache, 0x00801234, MemorySize::Lower16), 0xABCD);
    // An unaligned address reads the word that holds it.
    assert_eq!(read_memory_value(&cache, 0x00801237, MemorySize::Bit32), 0x1234ABCD);
    // Bit index is addr & 7 (4..7 here) of the word: 0xCD = 0b1100_1101.
    assert_eq!(read_memory_value(&cache, 0x00801234, MemorySize::Bit0), 0);
    assert_eq!(read_memory_value(&cache, 0x00801235, MemorySize::Bit0), 0);
    assert_eq!(read_memory_value(&cache, 0x00801236, MemorySize::Bit0), 1);
    assert_eq!(read_memory_value(&cache, 0x00801237, MemorySize::Bit0), 1);
    // The neighbouring word was never reported.
    assert_eq!(read_memory_value(&cache, 0x00801232, MemorySize::Bit0), 0);
    // Nothing reported: 0.
    assert_eq!(read_memory_value(&cache, 0x00900000, MemorySize::Bit32), 0);
}

#[test]
fn peek_reads_big_endian_bytes() {
    let mut cache = new_memory_cache();
    cache.insert(0x00801234, 0x1234ABCD);
    assert_eq!(peek_memory(&cache, 0x00801234, 1), 0x12);
    assert_eq!(peek_memory(&cache, 0x00801235, 1), 0x34);
    assert_eq!(peek_memory(&cache, 0x00801236, 1), 0xAB);
    assert_eq!(peek_memory(&cache, 0x00801237, 1), 0xCD);
    assert_eq!(peek_memory(&cache, 0x00801234, 2), 0x1234);
    assert_eq!(peek_memory(&cache, 0x00801236, 2), 0xABCD);
    assert_eq!(peek_memory(&cache, 0x00801234, 4), 0x1234ABCD);
    assert_eq!(peek_memory(&cache, 0x00000000, 4), 0);
}

#[test]
fn datagram_pairs_are_read_in_order() {
    let mut cache = new_memory_cache();
    // Later pair for the same address wins; CRLF and spaces are trimmed;
    // a leading '+' is accepted; an unpaired last line is ignored.
    let datagram = b"10\r\n1\n 10 \n+ff\n20\n";
    parse_memorywatcher_datagram(datagram, &mut cache);
    assert_eq!(cache.get(0x10), Some(0xff));
    assert_eq!(cache.get(0x20), None);
    assert_eq!(cache.len(), 1);
}

#[test]
fn datagram_bad_lines_are_skipped_pairwise() {
    let mut cache = new_memory_cache();
    // The first pair has a bad address, so its value line is consumed with
    // it; the second pair overflows; the third pair is good.
    let datagram = b"zz\n1\n100000000\n2\n30\n-1\n40\n4";
    parse_memorywatcher_datagram(datagram, &mut cache);
    assert_eq!(cache.get(0x1), None);
    assert_eq!(cache.get(0x30), None);
    assert_eq!(cache.get(0x40), Some(4));
    assert_eq!(cache.len(), 1);
}

#[test]
fn datagram_with_invalid_utf8_and_unicode_space() {
    let mut cache = new_memory_cache();
    let mut data = Vec::new();
    data.extend_from_slice(b"\xff\xfe\n5\n");
    data.extend_from_slice("\u{3000}50\u{a0}\n7\n".as_bytes());
    parse_memorywatcher_datagram(&data, &mut cache);
    assert_eq!(cache.get(0x50), Some(7));
    assert_eq!(cache.len(), 1);
}
