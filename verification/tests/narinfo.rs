use harmonia::narinfo::{
    extract_filename, extract_filenames, format_narinfo_txt, narinfo_url, NarInfo, Param,
    PathInfo,
};
use std::path::Path;

const KEY: &str = "abc123abc123abc123abc123abc123ab";
const DIGEST: &str = "1b8m03r63zqhnjf7l5wnldhh7c134ap5vpj0850ymkq1iyzicy5s";

fn store_path() -> String {
    format!("/nix/store/{}-pkg", KEY)
}

fn plain_info() -> PathInfo {
    PathInfo {
        drv: None,
        narhash: format!("sha256:{}", DIGEST),
        size: 1024,
        refs: vec![],
        sigs: vec![],
        ca: None,
    }
}

fn full_record() -> NarInfo {
    NarInfo {
        store_path: store_path(),
        url: format!("nar/{}.nar?hash={}", DIGEST, KEY),
        compression: "none".to_string(),
        nar_hash: format!("sha256:{}", DIGEST),
        nar_size: 4096,
        references: vec!["1111-glibc".to_string(), "2222-zlib".to_string()],
        deriver: Some("3333-pkg.drv".to_string()),
        system: Some("x86_64-linux".to_string()),
        sigs: vec!["cache-1:AAAA".to_string(), "cache-2:BBBB".to_string()],
        ca: Some("fixed:r:sha256:abcd".to_string()),
    }
}

#[test]
fn param_json_presence_toggles_structured_output() {
    assert!(!Param { json: None }.wants_json());
    assert!(Param { json: Some("1".to_string()) }.wants_json());
    assert!(Param { json: Some(String::new()) }.wants_json());
}

#[test]
fn file_name_of_store_paths() {
    assert_eq!(
        extract_filename("/nix/store/11111111111111111111111111111111-glibc-2.37"),
        Some("11111111111111111111111111111111-glibc-2.37".to_string())
    );
    assert_eq!(extract_filename("pkg.drv"), Some("pkg.drv".to_string()));
    assert_eq!(extract_filename("/nix/store/x/"), Some("x".to_string()));
}

#[test]
fn file_name_edge_cases() {
    assert_eq!(extract_filename(""), None);
    assert_eq!(extract_filename("/"), None);
    assert_eq!(extract_filename("//"), None);
    assert_eq!(extract_filename("."), None);
    assert_eq!(extract_filename("./"), None);
    assert_eq!(extract_filename(".."), None);
    assert_eq!(extract_filename("/.."), None);
    assert_eq!(extract_filename("foo.txt/.."), None);
    assert_eq!(extract_filename("foo.txt/."), Some("foo.txt".to_string()));
    assert_eq!(extract_filename("foo.txt/.//"), Some("foo.txt".to_string()));
    assert_eq!(extract_filename("/usr/bin/"), Some("bin".to_string()));
    assert_eq!(extract_filename("tmp/foo.txt"), Some("foo.txt".to_string()));
    assert_eq!(extract_filename("a/.b"), Some(".b".to_string()));
    assert_eq!(extract_filename("a/..."), Some("...".to_string()));
    assert_eq!(extract_filename("a/b/../"), None);
}

#[test]
fn file_name_agrees_with_std_path() {
    let inputs = [
        "", "/", "//", ".", "./", "./.", "..", "../", "/..", "/.", "a", "a/", "a//", "a/.",
        "a/./", "a/..", "a/../", "a/b", "/a/b", "/a/b/", "/a/b/.", "/a/b/./.", "a/.b", "a/b.",
        "a/...", "./a", "../a", ".a", "a.", "..a", "/nix/store/abc-pkg", "/nix/store/abc-pkg.drv",
        "/nix/store//abc", "é/ü", "é/ü/", " ", "a b/c d", "/./a", "/../a/.", "a/./b/./",
    ];
    for input in inputs {
        let expected = Path::new(input)
            .file_name()
            .and_then(|name| name.to_str().map(ToOwned::to_owned));
        assert_eq!(extract_filename(input), expected, "for {:?}", input);
    }
}

#[test]
fn file_names_skip_paths_without_one() {
    let paths = vec![
        "/nix/store/1111-glibc".to_string(),
        "/".to_string(),
        "/nix/store/2222-zlib".to_string(),
        "..".to_string(),
    ];
    assert_eq!(
        extract_filenames(&paths),
        vec!["1111-glibc".to_string(), "2222-zlib".to_string()]
    );
    assert_eq!(extract_filenames(&vec![]), Vec::<String>::new());
}

#[test]
fn url_names_archive_by_digest() {
    assert_eq!(
        narinfo_url(&format!("sha256:{}", DIGEST), KEY),
        format!("nar/{}.nar?hash={}", DIGEST, KEY)
    );
    assert_eq!(narinfo_url("sha256:ab:cd", "k"), "nar/ab:cd.nar?hash=k");
    assert_eq!(narinfo_url("sha256:", "k"), "nar/.nar?hash=k");
}

#[test]
fn url_falls_back_to_key_without_digest() {
    assert_eq!(narinfo_url("nocolon", "thekey"), "nar/thekey.nar?hash=thekey");
    assert_eq!(narinfo_url("", "k"), "nar/k.nar?hash=k");
}

#[test]
fn record_carries_store_signatures_without_keys() {
    let mut info = plain_info();
    info.sigs = vec!["old-1:XXXX".to_string()];
    info.refs = vec![
        "/nix/store/1111-glibc".to_string(),
        "/nix/store/2222-zlib".to_string(),
    ];
    info.drv = Some("/nix/store/3333-pkg.drv".to_string());
    info.ca = Some("fixed:r:sha256:abcd".to_string());
    let record = NarInfo::from_path_info(
        store_path(),
        KEY,
        info,
        Some("x86_64-linux".to_string()),
        None,
    );
    assert_eq!(record.store_path, store_path());
    assert_eq!(record.url, format!("nar/{}.nar?hash={}", DIGEST, KEY));
    assert_eq!(record.compression, "none");
    assert_eq!(record.nar_hash, format!("sha256:{}", DIGEST));
    assert_eq!(record.nar_size, 1024);
    assert_eq!(record.references, vec!["1111-glibc".to_string(), "2222-zlib".to_string()]);
    assert_eq!(record.deriver, Some("3333-pkg.drv".to_string()));
    assert_eq!(record.system, Some("x86_64-linux".to_string()));
    assert_eq!(record.sigs, vec!["old-1:XXXX".to_string()]);
    assert_eq!(record.ca, Some("fixed:r:sha256:abcd".to_string()));
}

#[test]
fn record_carries_only_fresh_signatures_with_keys() {
    let mut info = plain_info();
    info.sigs = vec!["old-1:XXXX".to_string(), "old-2:YYYY".to_string()];
    let fresh = vec!["new-1:AAAA".to_string()];
    let record = NarInfo::from_path_info(store_path(), KEY, info.clone(), None, Some(fresh));
    assert_eq!(record.sigs, vec!["new-1:AAAA".to_string()]);
    let unsigned = NarInfo::from_path_info(store_path(), KEY, info, None, Some(vec![]));
    assert_eq!(unsigned.sigs, Vec::<String>::new());
}

#[test]
fn text_of_bare_record_is_exact() {
    let record = NarInfo::from_path_info(store_path(), KEY, plain_info(), None, None);
    let expected = format!(
        "StorePath: /nix/store/{key}-pkg\nURL: nar/{digest}.nar?hash={key}\nCompression: none\n\
         FileHash: sha256:{digest}\nFileSize: 1024\nNarHash: sha256:{digest}\nNarSize: 1024\n\n",
        key = KEY,
        digest = DIGEST
    );
    assert_eq!(format_narinfo_txt(&record), expected);
}

#[test]
fn text_of_full_record_has_every_line_in_order() {
    let expected = format!(
        "StorePath: /nix/store/{key}-pkg\n\
         URL: nar/{digest}.nar?hash={key}\n\
         Compression: none\n\
         FileHash: sha256:{digest}\n\
         FileSize: 4096\n\
         NarHash: sha256:{digest}\n\
         NarSize: 4096\n\
         References: 1111-glibc 2222-zlib\n\
         Deriver: 3333-pkg.drv\n\
         System: x86_64-linux\n\
         Sig: cache-1:AAAA\n\
         Sig: cache-2:BBBB\n\
         CA: fixed:r:sha256:abcd\n\n",
        key = KEY,
        digest = DIGEST
    );
    assert_eq!(format_narinfo_txt(&full_record()), expected);
}

#[test]
fn text_omits_line_of_each_absent_field() {
    let mut record = full_record();
    record.references = vec![];
    assert!(!format_narinfo_txt(&record).contains("References:"));
    assert!(format_narinfo_txt(&record).contains("\nDeriver: 3333-pkg.drv\n"));

    let mut record = full_record();
    record.deriver = None;
    assert!(!format_narinfo_txt(&record).contains("Deriver:"));

    let mut record = full_record();
    record.system = None;
    assert!(!format_narinfo_txt(&record).contains("System:"));

    let mut record = full_record();
    record.sigs = vec![];
    assert!(!format_narinfo_txt(&record).contains("Sig:"));

    let mut record = full_record();
    record.ca = None;
    assert!(!format_narinfo_txt(&record).contains("CA:"));
}

#[test]
fn text_ends_with_exactly_one_blank_line() {
    for record in [
        full_record(),
        NarInfo::from_path_info(store_path(), KEY, plain_info(), None, None),
    ] {
        let text = format_narinfo_txt(&record);
        assert!(text.ends_with("\n\n"));
        assert!(!text.ends_with("\n\n\n"));
        assert_eq!(text.matches("\n\n").count(), 1);
    }
}
