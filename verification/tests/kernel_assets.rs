use clash_cli::cli::{Amd64Variant, MirrorSource};
use clash_cli::host::FaultKind;
use clash_cli::kernel::{
    download_candidates, meta_version, pick_amd64_asset, pick_asset_by_keywords,
    select_release_asset, GitHubAsset,
};

fn assets(names: &[&str]) -> Vec<GitHubAsset> {
    names
        .iter()
        .map(|name| GitHubAsset {
            name: name.to_string(),
            browser_download_url: format!("https://github.com/x/releases/download/v1/{}", name),
        })
        .collect()
}

#[test]
fn candidates_should_follow_the_mirror() {
    let url = "https://github.com/x/y.gz";
    assert_eq!(
        download_candidates(url, MirrorSource::Auto),
        vec!["https://ghfast.top/https://github.com/x/y.gz".to_string(), url.to_string()]
    );
    assert_eq!(
        download_candidates(url, MirrorSource::Ghfast),
        vec!["https://ghfast.top/https://github.com/x/y.gz".to_string()]
    );
    assert_eq!(download_candidates(url, MirrorSource::Github), vec![url.to_string()]);
    // Only addresses at GitHub get the mirror in front.
    assert_eq!(
        download_candidates("https://example.com/y.gz", MirrorSource::Auto),
        vec!["https://example.com/y.gz".to_string()]
    );
    assert_eq!(
        download_candidates("https://example.com/y.gz", MirrorSource::Ghfast),
        vec!["https://ghfast.top/https://example.com/y.gz".to_string()]
    );
}

#[test]
fn amd64_asset_should_follow_the_preference() {
    let all = assets(&[
        "mihomo-linux-amd64-compatible-v1.gz",
        "mihomo-linux-amd64-v1.gz",
        "mihomo-linux-amd64-v3-v1.gz",
    ]);
    let name = |v| pick_amd64_asset(&all, v).map(|a| a.name);
    assert_eq!(name(Amd64Variant::Auto).as_deref(), Some("mihomo-linux-amd64-compatible-v1.gz"));
    assert_eq!(name(Amd64Variant::Compatible).as_deref(), Some("mihomo-linux-amd64-compatible-v1.gz"));
    assert_eq!(name(Amd64Variant::V3).as_deref(), Some("mihomo-linux-amd64-v3-v1.gz"));

    let plain = assets(&["mihomo-linux-amd64-v1.gz", "mihomo-linux-x86_64-v1.gz"]);
    assert_eq!(
        pick_amd64_asset(&plain, Amd64Variant::V3).map(|a| a.name).as_deref(),
        Some("mihomo-linux-amd64-v1.gz")
    );
    let other = assets(&["mihomo-linux-X86_64-v1.gz"]);
    assert_eq!(
        pick_amd64_asset(&other, Amd64Variant::Auto).map(|a| a.name).as_deref(),
        Some("mihomo-linux-X86_64-v1.gz")
    );
    assert!(pick_amd64_asset(&assets(&["mihomo-linux-arm64.gz"]), Amd64Variant::Auto).is_none());
}

#[test]
fn keywords_should_be_tried_in_their_order() {
    let all = assets(&["b-armv6.gz", "a-ARMv7.gz", "c-arm.gz"]);
    let words = |w: &[&str]| w.iter().map(|s| s.to_string()).collect::<Vec<String>>();
    assert_eq!(
        pick_asset_by_keywords(&all, &words(&["armv7", "armv6", "arm"])).map(|a| a.name).as_deref(),
        Some("a-ARMv7.gz")
    );
    // The first asset that holds the word wins.
    assert_eq!(
        pick_asset_by_keywords(&all, &words(&["arm"])).map(|a| a.name).as_deref(),
        Some("b-armv6.gz")
    );
    assert!(pick_asset_by_keywords(&all, &words(&["riscv"])).is_none());
    assert!(pick_asset_by_keywords(&all, &words(&[])).is_none());
    assert!(pick_asset_by_keywords(&assets(&[]), &words(&["arm"])).is_none());
}

#[test]
fn release_asset_should_be_a_linux_archive_for_the_machine() {
    let all = assets(&[
        "mihomo-windows-amd64-v1.zip",
        "mihomo-linux-arm64-v1.gz",
        "mihomo-linux-armv7-v1.gz",
        "Mihomo-Linux-AMD64-v1.GZ",
        "mihomo-linux-amd64-v1.deb",
        "mihomo-darwin-amd64-v1.gz",
    ]);
    let pick = |arch: &str| select_release_asset(&all, arch, Amd64Variant::Auto);
    assert_eq!(pick("x86_64").unwrap().name, "Mihomo-Linux-AMD64-v1.GZ");
    assert_eq!(pick("aarch64").unwrap().name, "mihomo-linux-arm64-v1.gz");
    assert_eq!(pick("arm").unwrap().name, "mihomo-linux-armv7-v1.gz");
    let fault = pick("riscv64").unwrap_err();
    assert_eq!(fault.kind, FaultKind::UnsupportedArch);
    assert_eq!(fault.detail, "riscv64");

    let none = assets(&["mihomo-windows-amd64-v1.zip", "mihomo-linux-amd64-v1.deb"]);
    assert_eq!(
        select_release_asset(&none, "x86_64", Amd64Variant::Auto).unwrap_err().kind,
        FaultKind::NoLinuxAsset
    );
    let arm_only = assets(&["mihomo-linux-arm64-v1.gz"]);
    assert_eq!(
        select_release_asset(&arm_only, "x86_64", Amd64Variant::Auto).unwrap_err().kind,
        FaultKind::NoMatchingAsset
    );
}

#[test]
fn release_assets_should_be_tried_in_the_order_of_their_names() {
    // Both hold the word; the one whose name sorts first is taken.
    let all = assets(&["z-linux-amd64.gz", "a-linux-amd64.gz", "B-linux-amd64.gz"]);
    assert_eq!(
        select_release_asset(&all, "x86_64", Amd64Variant::Auto).unwrap().name,
        "B-linux-amd64.gz"
    );
}

#[test]
fn meta_version_should_be_the_last_version_line() {
    assert_eq!(
        meta_version("version=v1.19.0\nasset=a.gz\nsource_url=https://x\ninstalled_at=5\n").as_deref(),
        Some("v1.19.0")
    );
    assert_eq!(meta_version(" version = v2 \nversion=v3\n").as_deref(), Some("v3"));
    assert_eq!(meta_version("version=a=b\n").as_deref(), Some("a=b"));
    assert_eq!(meta_version("asset=a.gz\nversions=v1\n"), None);
    assert_eq!(meta_version("version\n").as_deref(), Some(""));
    assert_eq!(meta_version(""), None);
}
