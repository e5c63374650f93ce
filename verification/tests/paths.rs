use grok_arch::paths::{
    auth_json_legacy_path, auth_json_primary_path, cwd_from_metadata, decode_cwd_dirname,
    default_arch_home, default_grok_home, encode_cwd_dirname, grok_application_in, grok_home,
    hashed_name, join_path, resolve_auth_json_path, sessions_cwd_dir, system_config_dir, writes_cwd_metadata,
    MAX_DIRNAME_BYTES,
};
use grok_arch::slug::slugify;

/// Realistic CWDs whose URL encoding exceeds a directory name component.
const LONG_CWDS: &[&str] = &[
    "/Users/dev/Documents/開発プロジェクト/機能追加/テスト環境/ソースコード/main-branch",
    "/Users/user/Library/Mobile Documents/com~apple~CloudDocs/项目文件/深层嵌套目录/更深层次的/工作区域/project",
    "/Users/user/Library/CloudStorage/OneDrive-대한민국회사/프로젝트/개발환경/소스코드/백엔드/서비스/my-app",
    "/Users/user/Documents/工作文件夹/二零二六年项目/子目录一/子目录二/子目录三/源代码/code",
];

#[test]
fn slugify_basic() {
    assert_eq!(slugify("Hello World!", 40), "hello-world");
}

#[test]
fn slugify_cjk_produces_empty() {
    assert_eq!(slugify("深层目录", 40), "");
}

#[test]
fn slugify_truncates() {
    assert_eq!(slugify(&"a".repeat(100), 10).len(), 10);
}

#[test]
fn slugify_collapses_and_trims_dashes() {
    assert_eq!(slugify("--My  Project__v2--", 40), "my-project-v2");
    assert_eq!(slugify("ÀB c", 40), "b-c");
}

#[test]
fn long_cwd_uses_hash_fallback_within_name_max() {
    let long_cwd = format!("/Users/test/{}", "中".repeat(30));
    let encoded = encode_cwd_dirname(&long_cwd);
    assert!(encoded.len() <= MAX_DIRNAME_BYTES);
    assert!(!encoded.starts_with("%2F"));
}

#[test]
fn different_long_paths_produce_different_hashes() {
    let a = format!("/Users/test/{}", "中".repeat(30));
    let b = format!("/Users/test/{}", "日".repeat(30));
    assert_ne!(encode_cwd_dirname(&a), encode_cwd_dirname(&b));
}

#[test]
fn hashed_names_are_slug_dash_hex16() {
    for cwd in LONG_CWDS {
        let name = encode_cwd_dirname(cwd);
        assert!(name.len() <= 57, "{name}");
        let (slug, hash) = name.rsplit_once('-').unwrap();
        assert_eq!(hash.len(), 16);
        assert!(hash.chars().all(|c| c.is_ascii_hexdigit() && !c.is_ascii_uppercase()));
        assert!(!slug.is_empty());
        assert!(writes_cwd_metadata(cwd));
        assert_eq!(decode_cwd_dirname(&name, false), None);
    }
    assert!(encode_cwd_dirname(LONG_CWDS[0]).starts_with("main-branch-"));
    // a CJK last component slugs to nothing and falls back to "workspace"
    let cjk = format!("/Users/test/{}", "中".repeat(30));
    assert!(encode_cwd_dirname(&cjk).starts_with("workspace-"));
}

#[test]
fn short_cwds_use_url_encoding_and_roundtrip() {
    let cases = [
        ("/Users/foo/project", "%2FUsers%2Ffoo%2Fproject"),
        ("/tmp", "%2Ftmp"),
        ("/Users/user/Documents/project-名前", "%2FUsers%2Fuser%2FDocuments%2Fproject-%E5%90%8D%E5%89%8D"),
    ];
    for (cwd, expected) in cases {
        let encoded = encode_cwd_dirname(cwd);
        assert_eq!(encoded, expected);
        assert!(!writes_cwd_metadata(cwd));
        assert_eq!(decode_cwd_dirname(&encoded, false).as_deref(), Some(cwd));
    }
}

#[test]
fn decode_needs_an_absolute_path() {
    assert_eq!(decode_cwd_dirname("some-slug-abcdef0123456789", false), None);
    assert_eq!(decode_cwd_dirname("relative%2Fdir", false), None);
    assert_eq!(decode_cwd_dirname("%FF%2F", false), None);
    assert_eq!(decode_cwd_dirname("%2Fa%zz", false).as_deref(), Some("/a%zz"));
    assert_eq!(cwd_from_metadata("  /original/long/path\n"), "/original/long/path");
}

#[test]
fn resolve_auth_json_custom_home_stays_local() {
    let custom = "/tmp/arch-test-home-xyz";
    let p = resolve_auth_json_path(custom, None, None, false, "/home/u/.arch");
    assert_eq!(p, "/tmp/arch-test-home-xyz/auth.json");
}

#[test]
fn auth_paths_follow_overrides() {
    assert_eq!(resolve_auth_json_path("/h/.grok", Some("/a.json"), Some("/g.json"), true, "/h/.arch"), "/a.json");
    assert_eq!(resolve_auth_json_path("/h/.grok", None, Some("/g.json"), false, "/h/.arch"), "/g.json");
    assert_eq!(resolve_auth_json_path("/h/.grok", None, None, true, "/h/.arch"), "/h/.arch/auth.json");
    assert_eq!(auth_json_primary_path(None, None, "/h/.arch"), "/h/.arch/auth.json");
    assert_eq!(auth_json_legacy_path(None, "/h/.grok"), "/h/.grok/auth.json");
    assert_eq!(auth_json_legacy_path(Some("/x"), "/h/.grok"), "/x");
    assert_ne!(auth_json_primary_path(None, None, "/h/.arch"), auth_json_legacy_path(None, "/h/.grok"));
}

#[test]
fn homes_binaries_and_system_paths() {
    assert_eq!(default_grok_home("/home/u"), "/home/u/.grok");
    assert_eq!(default_arch_home("/home/u/"), "/home/u/.arch");
    assert_eq!(default_grok_home("."), "./.grok");
    assert_eq!(grok_home(Some("/custom"), "/home/u/.grok"), "/custom");
    assert_eq!(grok_home(None, "/home/u/.grok"), "/home/u/.grok");
    assert_eq!(grok_application_in("/home/u/.grok", false), "/home/u/.grok/bin/grok");
    assert_eq!(system_config_dir(true).as_deref(), Some("/etc/grok"));
    assert_eq!(
        sessions_cwd_dir("/home/u/.grok", "/tmp"),
        "/home/u/.grok/sessions/%2Ftmp"
    );
    assert_eq!(join_path("/a", "/b"), "/b");
    assert_eq!(join_path("", "b"), "b");
}

#[test]
fn hashed_name_is_slug_dash_first_hex16() {
    assert_eq!(hashed_name("my app", &vec![0xab; 32]), "my-app-abababababababab");
    let digest: Vec<u8> = (0u8..32).collect();
    assert_eq!(hashed_name("深层目录", &digest), "workspace-0001020304050607");
    assert_eq!(hashed_name("--x--", &vec![0x12, 0xf0]), "x-12f0");
    assert_eq!(hashed_name(&"a".repeat(50), &vec![1; 32]), format!("{}-0101010101010101", "a".repeat(40)));
}

#[test]
fn long_cwd_name_is_hashed_name_of_leaf_and_digest() {
    for cwd in LONG_CWDS {
        let leaf = cwd.rsplit('/').next().unwrap();
        let digest = blake3::hash(cwd.as_bytes()).as_bytes().to_vec();
        assert_eq!(encode_cwd_dirname(cwd), hashed_name(&leaf.to_lowercase(), &digest));
    }
}

#[test]
fn slug_letters_are_lowercase() {
    assert_eq!(slugify("ab cd", 3), "ab-");
    let s = slugify("ÀBC Déf GHI_42", 40);
    assert_eq!(s, "bc-d-f-ghi-42");
    assert!(s.chars().all(|c| c.is_ascii_lowercase() || c.is_ascii_digit() || c == '-'));
    assert!(!s.contains("--") && !s.starts_with('-'));
}


#[test]
fn platform_specific_names() {
    assert_eq!(grok_application_in("/home/u/.grok", true), "/home/u/.grok/bin/grok.exe");
    assert_eq!(system_config_dir(false), None);
    assert_eq!(decode_cwd_dirname("C%3A%5CUsers%5Cdev", true).as_deref(), Some("C:\\Users\\dev"));
    assert_eq!(decode_cwd_dirname("C%3A%5CUsers%5Cdev", false), None);
    assert_eq!(decode_cwd_dirname("%2Ftmp", true).as_deref(), Some("/tmp"));
}

#[test]
fn long_cwd_without_leaf_is_workspace_named() {
    let cwd = "/".repeat(300);
    let name = encode_cwd_dirname(&cwd);
    let hex = blake3::hash(cwd.as_bytes()).to_hex();
    assert_eq!(name, format!("workspace-{}", &hex[..16]));
}
