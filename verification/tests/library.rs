use favspace::clock::{now_unix, unix_seconds};
use favspace::digest::{push_le_bytes, sha256_hex};
use favspace::library::{
    accepted_local_paths, data_url, drive_root, icon_as_data_url,
    local_candidate, local_resource_status, plan_item_metadata_update, prepare_collection,
    refreshed_icon_path, reveal_location, reveal_target, shell_image_file_name, tag_color,
    url_item_title, COLLECTION_NAME_RANGE, NOTE_TOO_LONG, TITLE_RANGE,
};
use favspace::web_url::WebUrl;
use sha2::{Digest, Sha256};

const PALETTE: [&str; 6] = ["#8b5cf6", "#dc6d67", "#4f8e72", "#c1802c", "#4c7fa8", "#a45d86"];

fn expected_tag_color(name: &str) -> &'static str {
    let hash = name.bytes().fold(0usize, |value, byte| value.wrapping_mul(31).wrapping_add(byte as usize));
    PALETTE[hash % 6]
}

#[test]
fn tag_colors_come_from_the_name_hash() {
    assert_eq!(tag_color(""), "#8b5cf6");
    assert_eq!(tag_color("a"), PALETTE[97 % 6]);
    for name in ["active", "Work", "ünïcode", "a much longer tag name that wraps the hash"] {
        assert_eq!(tag_color(name), expected_tag_color(name), "{name}");
    }
}

#[test]
fn item_edits_are_trimmed_and_limited() {
    let ids: Vec<i64> = (100..135).collect();
    let mut names: Vec<String> = vec!["  active ".into(), "   ".into(), "x".repeat(41), "Work".into()];
    names.extend((0..30).map(|i| format!("t{i}")));
    let plan = plan_item_metadata_update("  My title ", "  ", &ids, &names).unwrap();
    assert_eq!(plan.title, "My title");
    assert_eq!(plan.description, None);
    assert_eq!(plan.collections.len(), 30);
    assert_eq!(plan.collections[0], (100, 0));
    assert_eq!(plan.collections[29], (129, 29));
    let tag_names: Vec<&str> = plan.tags.iter().map(|t| t.name.as_str()).collect();
    assert_eq!(tag_names.len(), 18);
    assert_eq!(tag_names[0], "active");
    assert_eq!(tag_names[1], "Work");
    assert_eq!(tag_names[17], "t15");
    assert_eq!(plan.tags[0].color, tag_color("active"));
    let plan = plan_item_metadata_update("t", " note ", &vec![], &vec![]).unwrap();
    assert_eq!(plan.description.as_deref(), Some("note"));
}

#[test]
fn item_edits_are_refused_outside_the_limits() {
    assert_eq!(plan_item_metadata_update("   ", "", &vec![], &vec![]).err().unwrap(), TITLE_RANGE);
    assert_eq!(plan_item_metadata_update(&"ş".repeat(181), "", &vec![], &vec![]).err().unwrap(), TITLE_RANGE);
    assert!(plan_item_metadata_update(&"ş".repeat(180), "", &vec![], &vec![]).is_ok());
    assert_eq!(plan_item_metadata_update("t", &"n".repeat(1001), &vec![], &vec![]).err().unwrap(), NOTE_TOO_LONG);
    assert!(plan_item_metadata_update("t", &"n".repeat(1000), &vec![], &vec![]).is_ok());
}

#[test]
fn collections_get_defaults() {
    let c = prepare_collection("  Projects ", "#123456".into(), "layers".into()).unwrap();
    assert_eq!((c.name.as_str(), c.color.as_str(), c.icon.as_str()), ("Projects", "#123456", "layers"));
    let c = prepare_collection("P", "red".into(), "  ".into()).unwrap();
    assert_eq!((c.color.as_str(), c.icon.as_str()), ("#8b5cf6", "sparkles"));
    let c = prepare_collection("P", "#12345".into(), " x ".into()).unwrap();
    assert_eq!((c.color.as_str(), c.icon.as_str()), ("#8b5cf6", " x "));
    let c = prepare_collection("P", "#ééé".into(), "i".into()).unwrap();
    assert_eq!(c.color, "#ééé");
    assert_eq!(prepare_collection(&"k".repeat(61), "".into(), "".into()).err().unwrap(), COLLECTION_NAME_RANGE);
    assert_eq!(prepare_collection(" ", "".into(), "".into()).err().unwrap(), COLLECTION_NAME_RANGE);
}

#[test]
fn web_items_are_titled_by_page_or_host() {
    let url = WebUrl::parse("https://www.www.example.com/x").unwrap();
    assert_eq!(url_item_title(&url, None), "example.com");
    assert_eq!(url_item_title(&url, Some("Page".into())), "Page");
    let url = WebUrl::parse("https://docs.rs/").unwrap();
    assert_eq!(url_item_title(&url, None), "docs.rs");
}

#[test]
fn at_most_two_hundred_paths_are_read() {
    let paths: Vec<String> = (0..250).map(|i| format!("/p{i}")).collect();
    let kept = accepted_local_paths(paths);
    assert_eq!(kept.len(), 200);
    assert_eq!(kept[199], "/p199");
    assert_eq!(accepted_local_paths(vec!["a".into()]).len(), 1);
}

#[test]
fn local_candidates_are_named_and_normalized() {
    let c = local_candidate("C:\\Design".into(), Some("Design".into()), true, None);
    assert_eq!((c.kind, c.title.as_str(), c.location.as_str(), c.normalized.as_str()), ("folder", "Design", "C:\\Design", "c:\\design"));
    let c = local_candidate("D:\\".into(), None, true, Some("i.png".into()));
    assert_eq!((c.kind, c.title.as_str(), c.icon_path.as_deref()), ("folder", "D:\\", Some("i.png")));
    let c = local_candidate("/ÄB".into(), Some("".into()), false, None);
    assert_eq!((c.kind, c.title.as_str(), c.normalized.as_str()), ("file", "/ÄB", "/äb"));
    let c = local_candidate("/tmp/Notes/Plan.TXT".into(), Some("Plan.TXT".into()), false, None);
    assert_eq!((c.title.as_str(), c.normalized.as_str()), ("Plan.TXT", "/tmp/notes/plan.txt"));
    // A file name that is not UTF-8 reaches the library as `None`: the
    // item is titled with its (lossily converted) location.
    let c = local_candidate("/tmp/caf\u{fffd}.txt".into(), None, false, None);
    assert_eq!(c.title, c.location);
}

#[test]
fn local_status_tells_missing_from_offline() {
    assert_eq!(local_resource_status("C:\\x", true, false), "available");
    assert_eq!(local_resource_status("\\\\server\\share\\x", false, true), "offline");
    assert_eq!(local_resource_status("E:\\x", false, false), "offline");
    assert_eq!(local_resource_status("E:\\x", false, true), "missing");
    assert_eq!(local_resource_status("/home/x", false, false), "missing");
    assert_eq!(local_resource_status("E:", false, false), "missing");
    assert_eq!(drive_root("C:\\Design").as_deref(), Some("C:\\"));
    assert_eq!(drive_root("/home"), None);
    assert_eq!(drive_root("é:x"), None);
}

#[test]
fn refreshed_icons_keep_the_previous_one() {
    assert_eq!(refreshed_icon_path("available", Some("new".into()), Some("old".into())).as_deref(), Some("new"));
    assert_eq!(refreshed_icon_path("available", None, Some("old".into())).as_deref(), Some("old"));
    assert_eq!(refreshed_icon_path("missing", Some("new".into()), Some("old".into())).as_deref(), Some("old"));
}

#[test]
fn revealing_opens_the_folder_of_a_file() {
    assert_eq!(reveal_target("file", "/a/b.txt", Some("/a".into())), "/a");
    assert_eq!(reveal_target("file", "b.txt", None), "");
    assert_eq!(reveal_target("folder", "/a/b", Some("/a".into())), "/a/b");
    assert_eq!(reveal_location("file", "/a/b.txt"), "/a");
    assert_eq!(reveal_location("url", "https://x.org"), "https://x.org");
    assert_eq!(reveal_location("file", "/a/b/c.txt"), "/a/b");
    assert_eq!(reveal_location("folder", "/a/b"), "/a/b");
    assert_eq!(reveal_location("file", "/"), "");
}

#[test]
fn icons_become_data_urls() {
    assert_eq!(data_url("image/png", b"abc"), "data:image/png;base64,YWJj");
    assert_eq!(icon_as_data_url("/icons/x.png", b"ab"), "data:image/png;base64,YWI=");
    assert_eq!(icon_as_data_url("/icons/x", b""), "data:application/octet-stream;base64,");
    assert_eq!(icon_as_data_url("/icons/x.unknownext", b"a"), "data:application/octet-stream;base64,YQ==");
}

#[test]
fn shell_images_are_named_by_path_and_metadata() {
    let mut key = "c:\\docs\\a.txt".as_bytes().to_vec();
    assert_eq!(shell_image_file_name("C:\\Docs\\A.txt", None), format!("shell-{}.png", hex::encode(Sha256::digest(&key))));
    key.extend_from_slice(&42u64.to_le_bytes());
    assert_eq!(shell_image_file_name("C:\\Docs\\A.txt", Some((42, None))), format!("shell-{}.png", hex::encode(Sha256::digest(&key))));
    key.extend_from_slice(&1_700_000_000u64.to_le_bytes());
    assert_eq!(shell_image_file_name("C:\\Docs\\A.txt", Some((42, Some(1_700_000_000)))), format!("shell-{}.png", hex::encode(Sha256::digest(&key))));
}

#[test]
fn digests_and_bytes() {
    assert_eq!(sha256_hex(b"abc"), "ba7816bf8f01cfea414140de5dae2223b00361a396177a9cb410ff61f20015ad");
    let mut out = vec![9u8];
    push_le_bytes(&mut out, 0x0102030405060708);
    assert_eq!(out, vec![9, 8, 7, 6, 5, 4, 3, 2, 1]);
}

#[test]
fn the_clock_reads_seconds_since_the_epoch() {
    let now = now_unix();
    assert!(now > 1_600_000_000);
}

#[test]
fn clock_readings_map_to_signed_seconds() {
    assert_eq!(unix_seconds(None), 0);
    assert_eq!(unix_seconds(Some(0)), 0);
    assert_eq!(unix_seconds(Some(1_700_000_000)), 1_700_000_000);
    assert_eq!(unix_seconds(Some(i64::MAX as u64)), i64::MAX);
    assert_eq!(unix_seconds(Some(u64::MAX)), -1);
}

#[test]
fn data_urls_use_padded_standard_base64() {
    assert_eq!(data_url("text/plain", b""), "data:text/plain;base64,");
    assert_eq!(data_url("text/plain", b"f"), "data:text/plain;base64,Zg==");
    assert_eq!(data_url("text/plain", b"fo"), "data:text/plain;base64,Zm8=");
    assert_eq!(data_url("text/plain", b"foobar"), "data:text/plain;base64,Zm9vYmFy");
    assert_eq!(data_url("image/png", &[0xfb, 0xff, 0xfe]), "data:image/png;base64,+//+");
}
