use launcher_core::asset::{asset_url_text, checked_asset_url, tauri_convert_file_src, AssetBase};
use launcher_core::error::{ApiError, PathFailure};
use launcher_core::text::same_text;

const HTTP: &str = "http://asset.localhost/";
const ASSET: &str = "asset://localhost/";

fn resolve(base: AssetBase, path: &str) -> Result<String, ApiError> {
    tauri_convert_file_src(base, Ok(path.to_string()))
}

#[test]
fn resolves_a_unix_path_under_the_asset_scheme() {
    assert_eq!(
        resolve(AssetBase::AssetScheme, "/home/u/pack.mrpack"),
        Ok("asset://localhost/%2Fhome%2Fu%2Fpack.mrpack".to_string())
    );
}

#[test]
fn resolves_a_windows_path_under_http() {
    assert_eq!(
        resolve(AssetBase::HttpLocalhost, "C:\\Users\\u\\pack.mrpack"),
        Ok("http://asset.localhost/C%3A%5CUsers%5Cu%5Cpack.mrpack".to_string())
    );
}

#[test]
fn the_same_path_differs_only_in_the_prefix() {
    let a = resolve(AssetBase::AssetScheme, "/a b").unwrap();
    let h = resolve(AssetBase::HttpLocalhost, "/a b").unwrap();
    assert_eq!(a, "asset://localhost/%2Fa%20b");
    assert_eq!(h, "http://asset.localhost/%2Fa%20b");
}

#[test]
fn unreserved_characters_are_kept() {
    assert_eq!(
        asset_url_text(AssetBase::AssetScheme, "AZaz09-._~"),
        "asset://localhost/AZaz09-._~"
    );
}

#[test]
fn every_other_byte_is_escaped_in_upper_case_hex() {
    assert_eq!(
        asset_url_text(AssetBase::AssetScheme, " !\"#$%&'()*+,/:;<=>?@[\\]^`{|}"),
        "asset://localhost/%20%21%22%23%24%25%26%27%28%29%2A%2B%2C%2F%3A%3B%3C%3D%3E%3F%40%5B%5C%5D%5E%60%7B%7C%7D"
    );
    assert_eq!(asset_url_text(AssetBase::AssetScheme, "\u{0}\u{1f}\u{7f}"), "asset://localhost/%00%1F%7F");
}

#[test]
fn characters_outside_ascii_are_escaped_byte_by_byte() {
    assert_eq!(asset_url_text(AssetBase::AssetScheme, "é"), "asset://localhost/%C3%A9");
    assert_eq!(asset_url_text(AssetBase::AssetScheme, "日本"), "asset://localhost/%E6%97%A5%E6%9C%AC");
    assert_eq!(asset_url_text(AssetBase::HttpLocalhost, "🦀"), "http://asset.localhost/%F0%9F%A6%80");
}

#[test]
fn the_empty_path_gives_the_bare_prefix() {
    assert_eq!(asset_url_text(AssetBase::AssetScheme, ""), ASSET);
    assert_eq!(asset_url_text(AssetBase::HttpLocalhost, ""), HTTP);
}

#[test]
fn the_encoder_does_not_hand_its_input_back() {
    let url = asset_url_text(AssetBase::AssetScheme, "/x");
    assert_ne!(url, "asset://localhost//x");
    assert_eq!(url, "asset://localhost/%2Fx");
}

#[test]
fn prefixes_are_the_two_fixed_ones() {
    assert_eq!(AssetBase::HttpLocalhost.prefix(), HTTP);
    assert_eq!(AssetBase::AssetScheme.prefix(), ASSET);
}

#[test]
fn the_target_picks_the_prefix_family() {
    assert_eq!(AssetBase::for_target("windows"), AssetBase::HttpLocalhost);
    assert_eq!(AssetBase::for_target("android"), AssetBase::HttpLocalhost);
    assert_eq!(AssetBase::for_target("linux"), AssetBase::AssetScheme);
    assert_eq!(AssetBase::for_target("macos"), AssetBase::AssetScheme);
    assert_eq!(AssetBase::for_target("ios"), AssetBase::AssetScheme);
    assert_eq!(AssetBase::for_target(""), AssetBase::AssetScheme);
}

#[test]
fn a_missing_path_is_not_found() {
    assert_eq!(
        tauri_convert_file_src(AssetBase::AssetScheme, Err(PathFailure::NotFound)),
        Err(ApiError::NotFound)
    );
}

#[test]
fn a_refused_path_is_permission_denied() {
    assert_eq!(
        tauri_convert_file_src(AssetBase::HttpLocalhost, Err(PathFailure::PermissionDenied)),
        Err(ApiError::PermissionDenied)
    );
}

#[test]
fn any_other_failure_is_internal() {
    assert_eq!(
        tauri_convert_file_src(AssetBase::AssetScheme, Err(PathFailure::Other)),
        Err(ApiError::Internal)
    );
    assert_eq!(PathFailure::Other.into_error(), ApiError::Internal);
    assert_eq!(PathFailure::NotFound.into_error(), ApiError::NotFound);
    assert_eq!(PathFailure::PermissionDenied.into_error(), ApiError::PermissionDenied);
}

fn sample_paths() -> Vec<&'static str> {
    vec![
        "/",
        "/home/u/pack.mrpack",
        "/tmp/with space/and%percent",
        "C:\\Program Files\\x",
        "\\\\?\\C:\\long\\path",
        "/päth/ünïcode/日本語",
        "relative/../path",
        ".",
        "..",
        "/a//b///c",
        "/q?x=1#frag",
    ]
}

#[test]
fn a_url_starts_with_exactly_one_prefix_and_holds_no_separator_after_it() {
    for path in sample_paths() {
        for (base, own, other) in
            [(AssetBase::AssetScheme, ASSET, HTTP), (AssetBase::HttpLocalhost, HTTP, ASSET)]
        {
            let url = resolve(base, path).unwrap();
            assert!(url.starts_with(own));
            assert!(!url.starts_with(other));
            let rest = &url[own.len()..];
            assert!(!rest.contains('/'));
            assert!(!rest.contains('\\'));
            assert!(rest
                .chars()
                .all(|c| c.is_ascii_alphanumeric() || "-._~%".contains(c)));
        }
    }
}

#[test]
fn resolving_twice_gives_the_same_url() {
    for path in sample_paths() {
        let first = resolve(AssetBase::AssetScheme, path);
        let second = resolve(AssetBase::AssetScheme, path);
        assert_eq!(first, second);
    }
}

#[test]
fn different_paths_give_different_urls() {
    let paths = sample_paths();
    for a in &paths {
        for b in &paths {
            let ua = resolve(AssetBase::AssetScheme, a).unwrap();
            let ub = resolve(AssetBase::AssetScheme, b).unwrap();
            assert_eq!(a == b, ua == ub);
        }
    }
    assert_ne!(
        asset_url_text(AssetBase::AssetScheme, "%2F"),
        asset_url_text(AssetBase::AssetScheme, "/")
    );
}

#[test]
fn the_url_parser_reads_an_absolute_path_back_unchanged() {
    for path in ["/home/u/pack.mrpack", "C:\\Users\\u\\pack.mrpack", "/päth/日本語 x"] {
        for base in [AssetBase::AssetScheme, AssetBase::HttpLocalhost] {
            let text = resolve(base, path).unwrap();
            let parsed = url::Url::parse(&text).unwrap();
            assert_eq!(parsed.as_str(), text);
        }
    }
}

#[test]
fn the_url_undoes_to_the_path() {
    for path in sample_paths() {
        let url = asset_url_text(AssetBase::AssetScheme, path);
        let decoded = urlencoding::decode(&url[ASSET.len()..]).unwrap();
        assert_eq!(decoded, path);
    }
}

#[test]
fn same_text_compares_characters() {
    assert!(same_text("", ""));
    assert!(same_text("linux", "linux"));
    assert!(same_text("日本", "日本"));
    assert!(!same_text("linux", "linus"));
    assert!(!same_text("linux", "linu"));
    assert!(!same_text("", "a"));
    assert!(!same_text("é", "e"));
}

#[test]
fn a_text_that_the_parser_took_is_handed_on_as_it_is() {
    let text = "asset://localhost/%2Fhome%2Fu%2Fpack.mrpack".to_string();
    let parsed = url::Url::parse(&text);
    assert!(parsed.is_ok());
    assert_eq!(checked_asset_url(text.clone(), parsed), Ok(text));
}

#[test]
fn the_text_wins_over_what_the_parser_made_of_it() {
    // The parser drops a dot segment; the URL that is handed on keeps it.
    let text = asset_url_text(AssetBase::AssetScheme, ".");
    assert_eq!(text, "asset://localhost/.");
    let parsed = url::Url::parse(&text);
    assert_eq!(parsed.as_ref().map(|url| url.as_str()), Ok("asset://localhost/"));
    assert_eq!(checked_asset_url(text.clone(), parsed), Ok(text));
    assert_eq!(resolve(AssetBase::AssetScheme, "."), Ok("asset://localhost/.".to_string()));
}

#[test]
fn a_text_that_the_parser_refused_is_an_internal_error() {
    for text in ["", "no scheme here", "http://", "asset://[::1/x"] {
        let parsed = url::Url::parse(text);
        assert!(parsed.is_err());
        assert_eq!(checked_asset_url(text.to_string(), parsed), Err(ApiError::Internal));
    }
}
