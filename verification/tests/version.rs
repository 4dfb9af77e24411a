use intiface_core::release::{
    engine_asset_name, find_asset, platform_tag, starts_with, ReleaseAsset,
};
use intiface_core::util::Platform;
use intiface_core::version::{parse_release_tag, parse_version};

#[test]
fn versions_are_plain_decimal_numbers() {
    assert_eq!(parse_version("0"), Some(0));
    assert_eq!(parse_version("7"), Some(7));
    assert_eq!(parse_version("12"), Some(12));
    assert_eq!(parse_version("007"), Some(7));
    assert_eq!(parse_version("+7"), Some(7));
    assert_eq!(parse_version("4294967295"), Some(u32::MAX));
    assert_eq!(parse_version("0000000004294967295"), Some(u32::MAX));
}

#[test]
fn anything_else_is_no_version() {
    for text in [
        "", "+", "-", "-1", "-0", "++1", "1+", " 1", "1 ", "1\n", "1.0", "v1", "1e3", "0x10",
        "4294967296", "42949672950", "99999999999999999999999", "１２", "٣", "1_000", "+ 1",
    ] {
        assert_eq!(parse_version(text), None, "{:?}", text);
    }
}

#[test]
fn versions_read_as_the_standard_library_reads_them() {
    let alphabet = ['0', '1', '9', '+', '-', ' ', 'v', '5'];
    let mut texts = vec![String::new()];
    let mut frontier = vec![String::new()];
    for _ in 0..4 {
        let mut next = Vec::new();
        for text in frontier.iter() {
            for c in alphabet.iter() {
                let mut longer = text.clone();
                longer.push(*c);
                next.push(longer);
            }
        }
        texts.extend(next.iter().cloned());
        frontier = next;
    }
    for n in [4294967290u64, 4294967294, 4294967295, 4294967296, 4294967299, 42949672950] {
        texts.push(n.to_string());
        texts.push(format!("+{}", n));
        texts.push(format!("00{}", n));
    }
    assert!(texts.len() > 4000);
    for text in texts.iter() {
        assert_eq!(parse_version(text), text.parse::<u32>().ok(), "{:?}", text);
    }
}

#[test]
fn release_tags_carry_the_version_behind_one_character() {
    assert_eq!(parse_release_tag("v12"), Some(12));
    assert_eq!(parse_release_tag("v7"), Some(7));
    assert_eq!(parse_release_tag("V7"), Some(7));
    assert_eq!(parse_release_tag("x0"), Some(0));
    assert_eq!(parse_release_tag("77"), Some(7));
    assert_eq!(parse_release_tag("év7"), None);
    assert_eq!(parse_release_tag("é7"), Some(7));
    assert_eq!(parse_release_tag("v4294967295"), Some(u32::MAX));
}

#[test]
fn malformed_release_tags_carry_no_version() {
    for tag in ["", "v", "7", "vv7", "v7 ", "v 7", "v1.2.3", "v4294967296", "v-7", "version7"] {
        assert_eq!(parse_release_tag(tag), None, "{:?}", tag);
    }
}

#[test]
fn prefixes_are_compared_character_by_character() {
    assert!(starts_with("intiface", "inti"));
    assert!(starts_with("intiface", ""));
    assert!(starts_with("intiface", "intiface"));
    assert!(starts_with("", ""));
    assert!(!starts_with("intiface", "intifaces"));
    assert!(!starts_with("intiface", "Inti"));
    assert!(!starts_with("", "i"));
    assert!(!starts_with("xintiface", "inti"));
    assert!(starts_with("héllo wörld", "héllo"));
    assert!(!starts_with("héllo", "hello"));
    for (text, prefix) in [("abc", "ab"), ("abc", "b"), ("ab", "abc"), ("äb", "ä"), ("a", "ä")] {
        assert_eq!(starts_with(text, prefix), text.starts_with(prefix));
    }
}

#[test]
fn engine_archives_are_named_after_the_platform() {
    assert_eq!(platform_tag(Platform::Windows), "win-x64");
    assert_eq!(platform_tag(Platform::Linux), "linux-x64");
    assert_eq!(platform_tag(Platform::MacOs), "macos-x64");
    assert_eq!(engine_asset_name(Platform::Windows), "intiface-cli-rs-win-x64-Release.zip");
    assert_eq!(engine_asset_name(Platform::Linux), "intiface-cli-rs-linux-x64-Release.zip");
    assert_eq!(engine_asset_name(Platform::MacOs), "intiface-cli-rs-macos-x64-Release.zip");
}

#[test]
fn the_first_matching_asset_is_found() {
    let names = ["readme.txt", "engine-linux.zip", "engine-win.zip", "engine-linux.zip.sig"];
    let assets: Vec<ReleaseAsset> = names
        .iter()
        .map(|name| ReleaseAsset {
            name: name.to_string(),
            browser_download_url: format!("https://example.org/{}", name),
        })
        .collect();
    assert_eq!(find_asset(&assets, "engine-linux"), Some(1));
    assert_eq!(find_asset(&assets, "engine-"), Some(1));
    assert_eq!(find_asset(&assets, "engine-win"), Some(2));
    assert_eq!(find_asset(&assets, "engine-linux.zip."), Some(3));
    assert_eq!(find_asset(&assets, ""), Some(0));
    assert_eq!(find_asset(&assets, "engine-mac"), None);
    assert_eq!(find_asset(&Vec::new(), ""), None);
}
