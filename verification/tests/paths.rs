use kazeta_ra::memory::{new_memory_cache, parse_memorywatcher_datagram};
use kazeta_ra::paths::{
    bind_retry_pause_ms, join_path, locations_file_contents, locations_file_path, memorywatcher_dir,
    select_dolphin_user_dir, socket_file_path, standard_dolphin_dir,
};

#[test]
fn memorywatcher_paths() {
    assert_eq!(
        memorywatcher_dir("/home/u/.local/share/dolphin-emu"),
        "/home/u/.local/share/dolphin-emu/MemoryWatcher"
    );
    assert_eq!(locations_file_path("./User"), "./User/MemoryWatcher/Locations.txt");
    assert_eq!(socket_file_path("./User/"), "./User/MemoryWatcher/MemoryWatcher");
    assert_eq!(standard_dolphin_dir("/home/u"), "/home/u/.local/share/dolphin-emu");
    assert_eq!(join_path("", "a"), "a");
    assert_eq!(join_path("/", "a"), "/a");
    assert_eq!(join_path("/home/u", "/etc/x"), "/etc/x");
}

#[test]
fn socket_bind_retries() {
    assert_eq!(bind_retry_pause_ms(0), Some(500));
    assert_eq!(bind_retry_pause_ms(28), Some(500));
    assert_eq!(bind_retry_pause_ms(29), None);
}

#[test]
fn dolphin_user_dir_choice() {
    let std_dir = "/home/u/.local/share/dolphin-emu".to_string();
    assert_eq!(select_dolphin_user_dir(std_dir.clone(), true, true), std_dir);
    assert_eq!(select_dolphin_user_dir(std_dir.clone(), false, true), "./User");
    assert_eq!(select_dolphin_user_dir(std_dir.clone(), false, false), std_dir);
}

#[test]
fn locations_file_format() {
    assert_eq!(locations_file_contents(&[0x00801234, 0xABCDEF, 0]), "00801234\n00ABCDEF\n00000000\n");
    assert_eq!(locations_file_contents(&[]), "");
    assert_eq!(locations_file_contents(&[u32::MAX]), "FFFFFFFF\n");
}

#[test]
fn locations_lines_read_back_as_addresses() {
    let words = [0x00801234u32, 0x80000000, 7];
    let text = locations_file_contents(&words);
    // Echo each address with its index as the value, as MemoryWatcher would.
    let mut datagram = String::new();
    for (i, line) in text.lines().enumerate() {
        datagram.push_str(line);
        datagram.push('\n');
        datagram.push_str(&format!("{:x}\n", i + 1));
    }
    let mut cache = new_memory_cache();
    parse_memorywatcher_datagram(datagram.as_bytes(), &mut cache);
    for (i, w) in words.iter().enumerate() {
        assert_eq!(cache.get(*w), Some(i as u32 + 1));
    }
}
