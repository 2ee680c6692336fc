use dom5_save_scummer::archive::{archive_turn_files, restore_turn_files};
use dom5_save_scummer::copier::{plan_flat_copy, EntryInfo};
use dom5_save_scummer::error::Error;
use dom5_save_scummer::paths::{
    get_default_dom5_dir, get_file_path_from_name, get_saved_games_dir_from_config,
    last_path_component,
};

fn entry(name: &str, is_file: bool) -> EntryInfo {
    EntryInfo { name: String::from(name), is_file }
}

#[test]
fn join_inserts_separator() {
    assert_eq!(get_file_path_from_name("mygame", "/saves"), "/saves/mygame");
}

#[test]
fn join_keeps_existing_separator() {
    assert_eq!(get_file_path_from_name("mygame", "/saves/"), "/saves/mygame");
}

#[test]
fn join_under_empty_dir_is_the_name() {
    assert_eq!(get_file_path_from_name("mygame", ""), "mygame");
}

#[test]
fn default_dir_unix() {
    assert_eq!(get_default_dom5_dir("/home/u", false), "/home/u/.dominions5/savedgames");
}

#[test]
fn default_dir_windows() {
    assert_eq!(
        get_default_dom5_dir("C:/Users/u/AppData/Roaming", true),
        "C:/Users/u/AppData/Roaming/Dominions5trollololol/savedgames"
    );
}

#[test]
fn config_contents_win_over_default() {
    let dir = get_saved_games_dir_from_config(
        Some(String::from("/configured")),
        Some(String::from("/default")),
    );
    assert_eq!(dir, Ok(String::from("/configured")));
}

#[test]
fn missing_config_falls_back_to_default() {
    let dir = get_saved_games_dir_from_config(None, Some(String::from("/default")));
    assert_eq!(dir, Ok(String::from("/default")));
}

#[test]
fn no_config_and_no_default_fails() {
    assert_eq!(get_saved_games_dir_from_config(None, None), Err(Error::NotFound));
}

#[test]
fn last_component_of_plain_path() {
    assert_eq!(last_path_component("/saves/mygame"), Some(String::from("mygame")));
}

#[test]
fn last_component_ignores_trailing_separator() {
    assert_eq!(last_path_component("/saves/mygame/"), Some(String::from("mygame")));
}

#[test]
fn last_component_of_bare_name() {
    assert_eq!(last_path_component("mygame"), Some(String::from("mygame")));
}

#[test]
fn empty_path_has_no_component() {
    assert_eq!(last_path_component(""), None);
    assert_eq!(last_path_component("/"), None);
}

#[test]
fn flat_copy_takes_only_regular_files() {
    let entries = vec![entry("a", true), entry("sub", false), entry("b", true)];
    let copies = plan_flat_copy("/src", "/dst", &entries);
    assert_eq!(copies.len(), 2);
    assert_eq!(copies[0].source, "/src/a");
    assert_eq!(copies[0].dest, "/dst/a");
    assert_eq!(copies[1].source, "/src/b");
    assert_eq!(copies[1].dest, "/dst/b");
}

#[test]
fn flat_copy_of_empty_listing_is_empty() {
    let copies = plan_flat_copy("/src", "/dst", &Vec::new());
    assert!(copies.is_empty());
}

#[test]
fn archive_names_entry_after_game_and_turn() {
    let entries = vec![entry("ftherlnd", true), entry("orders.2h", true)];
    let plan = archive_turn_files("/saves/mygame", "/archive", 7, &entries).unwrap();
    assert_eq!(plan.archive_name, "mygame-7");
    assert_eq!(plan.archive_path, "/archive/mygame-7");
    assert_eq!(plan.copies.len(), 2);
    assert_eq!(plan.copies[0].source, "/saves/mygame/ftherlnd");
    assert_eq!(plan.copies[0].dest, "/archive/mygame-7/ftherlnd");
    assert_eq!(plan.copies[1].source, "/saves/mygame/orders.2h");
    assert_eq!(plan.copies[1].dest, "/archive/mygame-7/orders.2h");
}

#[test]
fn archive_reads_but_never_writes_the_save_dir() {
    let entries = vec![entry("a", true), entry("b", true)];
    let plan = archive_turn_files("/saves/mygame", "/archive", 7, &entries).unwrap();
    for copy in &plan.copies {
        assert!(copy.source.starts_with("/saves/mygame/"));
        assert!(copy.dest.starts_with("/archive/mygame-7/"));
    }
}

#[test]
fn archive_of_rootless_path_fails() {
    assert_eq!(
        archive_turn_files("", "/archive", 7, &Vec::new()).unwrap_err(),
        Error::NotFound
    );
}

#[test]
fn restore_replaces_the_live_game_dir() {
    let entries = vec![entry("ftherlnd", true), entry("turn.trn", true)];
    let plan = restore_turn_files("/archive/mygame-7", "/saves", &entries).unwrap();
    assert_eq!(plan.game_name, "mygame");
    assert_eq!(plan.restore_path, "/saves/mygame");
    assert_eq!(plan.copies.len(), 2);
    assert_eq!(plan.copies[0].source, "/archive/mygame-7/ftherlnd");
    assert_eq!(plan.copies[0].dest, "/saves/mygame/ftherlnd");
    assert_eq!(plan.copies[1].source, "/archive/mygame-7/turn.trn");
    assert_eq!(plan.copies[1].dest, "/saves/mygame/turn.trn");
}

#[test]
fn restore_keeps_embedded_hyphens_in_game_name() {
    let plan = restore_turn_files("/archive/Empire-of-Man-3", "/saves", &Vec::new()).unwrap();
    assert_eq!(plan.game_name, "Empire-of-Man");
    assert_eq!(plan.restore_path, "/saves/Empire-of-Man");
}

#[test]
fn restore_of_unstamped_entry_fails() {
    assert_eq!(
        restore_turn_files("/archive/nohyphen", "/saves", &Vec::new()).unwrap_err(),
        Error::ArchiveNameInvalid
    );
}

#[test]
fn restore_of_rootless_path_fails() {
    assert_eq!(
        restore_turn_files("", "/saves", &Vec::new()).unwrap_err(),
        Error::NotFound
    );
}
