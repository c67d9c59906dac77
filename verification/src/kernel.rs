//! The proxy kernel: which release and which of its assets to install,
//! where to download it from, and how it is put in place.

use crate::cli::{
    Amd64Variant, CoreCommand, CoreCommandView, CoreInstallArgs, CoreInstallArgsView,
    CoreUpgradeArgs, MirrorSource,
};
use crate::files::{
    bare_failure, clock, file_done, file_op, file_read, file_written, is_there, now_unix,
    path_exists, read_file, removed_if_there, remove_if_there, write_file,
};
use crate::host::{
    ask, bind, conclude, done, failed, halted, owned, ran, ran_view, record_views, text_view,
    told, Effect, EffectView, Exchange, ExchangeView, Fault, FaultKind, FaultView, FileOp, Halt,
    HaltView, HostEnv, HostEnvView, HttpMethod, HttpRequest, HttpRequestView, Ran, Replay,
    ReplyView, Step,
};
use crate::json::{json_read, read_json};
use crate::paths::{app_paths, join_path, joined, located, AppPaths, AppPathsView};
use crate::service::{ensure_linux_host, linux};
use crate::text::{
    after, before, chars_le, chars_of, concat, contains, decimal, ends_with, has_part,
    has_suffix, is_word, lines, lowercase_of, push_decimal, push_str, rows, same,
    split_at_char, split_lines, starts_with, str_starts_with, text_le, text_of, to_lowercase,
    trim, trim_chars, views,
};
use crate::yaml::{
    item_views, key_value, lemma_sequence_view, Node, NodeView,
};
use vstd::prelude::*;

verus! {

pub const GITHUB_REPO: &'static str = "MetaCubeX/mihomo";

pub const RELEASES_LATEST_API: &'static str =
    "https://api.github.com/repos/MetaCubeX/mihomo/releases/latest";

pub const RELEASES_BY_TAG_API_PREFIX: &'static str =
    "https://api.github.com/repos/MetaCubeX/mihomo/releases/tags/";

/// The mirror that is tried before GitHub itself.
pub const GHFAST_PREFIX: &'static str = "https://ghfast.top/";

/// What the tool calls itself in its requests.
pub const USER_AGENT: &'static str = "clash-cli/0.1";

/// One file of a release.
#[derive(Debug)]
pub struct GitHubAsset {
    pub name: String,
    pub browser_download_url: String,
}

pub struct GitHubAssetView {
    pub name: Seq<char>,
    pub browser_download_url: Seq<char>,
}

impl View for GitHubAsset {
    type V = GitHubAssetView;

    open spec fn view(&self) -> GitHubAssetView {
        GitHubAssetView { name: self.name@, browser_download_url: self.browser_download_url@ }
    }
}

/// A release of the kernel.
#[derive(Debug)]
pub struct GitHubRelease {
    pub tag_name: String,
    pub assets: Vec<GitHubAsset>,
}

pub struct GitHubReleaseView {
    pub tag_name: Seq<char>,
    pub assets: Seq<GitHubAssetView>,
}

/// The views of a list of assets.
pub open spec fn asset_views(v: Seq<GitHubAsset>) -> Seq<GitHubAssetView> {
    Seq::new(v.len(), |i: int| v[i]@)
}

impl View for GitHubRelease {
    type V = GitHubReleaseView;

    open spec fn view(&self) -> GitHubReleaseView {
        GitHubReleaseView { tag_name: self.tag_name@, assets: asset_views(self.assets@) }
    }
}

/// A copy of an asset.
pub fn copy_asset(a: &GitHubAsset) -> (r: GitHubAsset)
    ensures
        r@ == a@,
{
    GitHubAsset { name: a.name.clone(), browser_download_url: a.browser_download_url.clone() }
}

// ---------------------------------------------------------------------------
// Choosing an asset
// ---------------------------------------------------------------------------

/// Whether an asset is one for Linux: its name, in lowercase, holds
/// `linux` and ends in `.gz`.
pub open spec fn for_linux(a: GitHubAssetView) -> bool {
    contains(lowercase_of(a.name), "linux"@) && ends_with(lowercase_of(a.name), ".gz"@)
}

/// The assets for Linux, in the order of the release.
pub open spec fn linux_assets(assets: Seq<GitHubAssetView>) -> Seq<GitHubAssetView> {
    assets.filter(|a: GitHubAssetView| for_linux(a))
}

/// A list of assets with one more put behind the last whose name does not
/// stand after its own.
pub open spec fn placed(sorted: Seq<GitHubAssetView>, a: GitHubAssetView) -> Seq<GitHubAssetView>
    decreases sorted.len(),
{
    if sorted.len() == 0 {
        seq![a]
    } else if text_le(sorted.last().name, a.name) {
        sorted.push(a)
    } else {
        placed(sorted.drop_last(), a).push(sorted.last())
    }
}

/// The assets in the order of their names; assets of one name stay in the
/// order they had.
pub open spec fn by_name(assets: Seq<GitHubAssetView>) -> Seq<GitHubAssetView>
    decreases assets.len(),
{
    if assets.len() == 0 {
        Seq::empty()
    } else {
        placed(by_name(assets.drop_last()), assets.last())
    }
}

/// The index of the first asset whose name, in lowercase, holds `word`, or
/// the number of assets.
pub open spec fn first_with(assets: Seq<GitHubAssetView>, word: Seq<char>) -> nat
    decreases assets.len(),
{
    if assets.len() == 0 || contains(lowercase_of(assets[0].name), word) {
        0
    } else {
        1 + first_with(assets.drop_first(), word)
    }
}

/// The first asset that holds the first of the words that any asset holds.
pub open spec fn pick(assets: Seq<GitHubAssetView>, words: Seq<Seq<char>>) -> Option<
    GitHubAssetView,
>
    decreases words.len(),
{
    if words.len() == 0 {
        None
    } else if first_with(assets, words[0]) < assets.len() {
        Some(assets[first_with(assets, words[0]) as int])
    } else {
        pick(assets, words.drop_first())
    }
}

/// The words that name a build for x86_64, in the order of preference.
pub open spec fn amd64_words(variant: Amd64Variant) -> Seq<Seq<char>> {
    (match variant {
        Amd64Variant::Auto => seq!["amd64-compatible"@, "amd64-v3"@, "amd64"@],
        Amd64Variant::Compatible => seq!["amd64-compatible"@, "amd64"@],
        Amd64Variant::V3 => seq!["amd64-v3"@, "amd64-compatible"@, "amd64"@],
    }) + seq!["amd64"@, "x86_64"@]
}

/// The words that name a build for an architecture; none for one that is
/// not supported.
pub open spec fn arch_words(arch: Seq<char>, variant: Amd64Variant) -> Option<Seq<Seq<char>>> {
    if arch == "x86_64"@ {
        Some(amd64_words(variant))
    } else if arch == "aarch64"@ {
        Some(seq!["arm64"@, "aarch64"@])
    } else if arch == "arm"@ {
        Some(seq!["armv7"@, "armv6"@, "arm"@])
    } else {
        None
    }
}

/// The asset to install for an architecture.
pub open spec fn chosen_asset(
    assets: Seq<GitHubAssetView>,
    arch: Seq<char>,
    variant: Amd64Variant,
) -> Result<GitHubAssetView, FaultView> {
    if linux_assets(assets).len() == 0 {
        Err(FaultView { kind: FaultKind::NoLinuxAsset, detail: Seq::empty(), rolled_back: false })
    } else {
        match arch_words(arch, variant) {
            None => Err(
                FaultView { kind: FaultKind::UnsupportedArch, detail: arch, rolled_back: false },
            ),
            Some(words) => match pick(by_name(linux_assets(assets)), words) {
                Some(a) => Ok(a),
                None => Err(
                    FaultView {
                        kind: FaultKind::NoMatchingAsset,
                        detail: Seq::empty(),
                        rolled_back: false,
                    },
                ),
            },
        }
    }
}

proof fn lemma_first_with(assets: Seq<GitHubAssetView>, word: Seq<char>, i: int)
    requires
        0 <= i <= assets.len(),
        forall|j: int| 0 <= j < i ==> !contains(lowercase_of(assets[j].name), word),
        i == assets.len() || contains(lowercase_of(assets[i].name), word),
    ensures
        first_with(assets, word) == i,
    decreases assets.len(),
{
    if assets.len() == 0 || contains(lowercase_of(assets[0].name), word) {
    } else {
        let t = assets.drop_first();
        assert forall|j: int| 0 <= j < i - 1 implies !contains(lowercase_of(t[j].name), word) by {
            assert(t[j] == assets[j + 1]);
        }
        lemma_first_with(t, word, i - 1);
    }
}

/// The position of the first asset whose name holds `word`.
fn find_with(assets: &Vec<GitHubAsset>, word: &str) -> (i: usize)
    ensures
        i == first_with(asset_views(assets@), word@),
        i <= assets.len(),
{
    let w = chars_of(word);
    let mut i: usize = 0;
    while i < assets.len()
        invariant
            i <= assets.len(),
            w@ == word@,
            forall|j: int|
                0 <= j < i ==> !contains(lowercase_of(asset_views(assets@)[j].name), word@),
        decreases assets.len() - i,
    {
        let name = to_lowercase(assets[i].name.as_str());
        if has_part(&chars_of(name.as_str()), &w) {
            proof {
                lemma_first_with(asset_views(assets@), word@, i as int);
            }
            return i;
        }
        i = i + 1;
    }
    proof {
        lemma_first_with(asset_views(assets@), word@, i as int);
    }
    i
}

/// The view of an optional asset.
pub open spec fn asset_view(a: Option<GitHubAsset>) -> Option<GitHubAssetView> {
    match a {
        Some(x) => Some(x@),
        None => None,
    }
}

/// The first asset that holds the first of the keywords that any asset
/// holds.
pub fn pick_asset_by_keywords(assets: &Vec<GitHubAsset>, keywords: &Vec<String>) -> (r: Option<
    GitHubAsset,
>)
    ensures
        asset_view(r) == pick(asset_views(assets@), views(keywords@)),
{
    let mut k: usize = 0;
    assert(views(keywords@).skip(0) =~= views(keywords@));
    while k < keywords.len()
        invariant
            k <= keywords.len(),
            pick(asset_views(assets@), views(keywords@).skip(k as int)) == pick(
                asset_views(assets@),
                views(keywords@),
            ),
        decreases keywords.len() - k,
    {
        let ghost rest = views(keywords@).skip(k as int);
        assert(rest[0] == keywords@[k as int]@);
        assert(rest.drop_first() =~= views(keywords@).skip(k + 1));
        let i = find_with(assets, keywords[k].as_str());
        if i < assets.len() {
            return Some(copy_asset(&assets[i]));
        }
        k = k + 1;
    }
    None
}

/// A list of words.
fn words_of(a: &str, b: &str, c: &str) -> (r: Vec<String>)
    ensures
        views(r@) == (if c@.len() == 0 {
            seq![a@, b@]
        } else {
            seq![a@, b@, c@]
        }),
{
    let mut out: Vec<String> = Vec::new();
    assert(views(out@) =~= Seq::<Seq<char>>::empty());
    crate::host::push_arg(&mut out, a);
    crate::host::push_arg(&mut out, b);
    if !c.is_empty() {
        crate::host::push_arg(&mut out, c);
        assert(views(out@) =~= seq![a@, b@, c@]);
    } else {
        assert(views(out@) =~= seq![a@, b@]);
    }
    out
}

/// The asset for x86_64 that the preferred variant asks for.
pub fn pick_amd64_asset(assets: &Vec<GitHubAsset>, variant: Amd64Variant) -> (r: Option<
    GitHubAsset,
>)
    ensures
        asset_view(r) == pick(asset_views(assets@), amd64_words(variant)),
{
    proof {
        reveal_strlit("amd64");
        reveal_strlit("amd64-v3");
        reveal_strlit("");
    }
    let mut ordered = match variant {
        Amd64Variant::Auto => words_of("amd64-compatible", "amd64-v3", "amd64"),
        Amd64Variant::Compatible => words_of("amd64-compatible", "amd64", ""),
        Amd64Variant::V3 => words_of("amd64-v3", "amd64-compatible", "amd64"),
    };
    crate::host::push_arg(&mut ordered, "amd64");
    crate::host::push_arg(&mut ordered, "x86_64");
    assert(views(ordered@) =~= amd64_words(variant));
    pick_asset_by_keywords(assets, &ordered)
}

/// Puts an asset into a list that is in the order of names.
fn place(sorted: &mut Vec<GitHubAsset>, a: GitHubAsset)
    ensures
        asset_views(final(sorted)@) == placed(asset_views(old(sorted)@), a@),
{
    let ghost start = asset_views(sorted@);
    let name = chars_of(a.name.as_str());
    let mut at: usize = sorted.len();
    assert(start.subrange(0, at as int) =~= start);
    assert(start.subrange(at as int, start.len() as int) =~= Seq::<GitHubAssetView>::empty());
    assert(placed(start, a@) =~= placed(start, a@) + Seq::<GitHubAssetView>::empty());
    while at > 0 && !chars_le(&chars_of(sorted[at - 1].name.as_str()), &name)
        invariant
            at <= sorted.len(),
            sorted@ == old(sorted)@,
            start == asset_views(sorted@),
            name@ == a@.name,
            placed(start, a@) == placed(start.subrange(0, at as int), a@) + start.subrange(
                at as int,
                start.len() as int,
            ),
        decreases at,
    {
        proof {
            let head = start.subrange(0, at as int);
            assert(head.last() == start[at - 1]);
            assert(head.drop_last() =~= start.subrange(0, at - 1));
            assert(placed(head.drop_last(), a@).push(head.last()) + start.subrange(
                at as int,
                start.len() as int,
            ) =~= placed(head.drop_last(), a@) + start.subrange(at - 1, start.len() as int));
        }
        at = at - 1;
    }
    proof {
        let head = start.subrange(0, at as int);
        if at > 0 {
            assert(head.last() == start[at - 1]);
        }
        assert(placed(head, a@) == head.push(a@));
    }
    sorted.insert(at, a);
    assert(asset_views(sorted@) =~= start.subrange(0, at as int).push(a@) + start.subrange(
        at as int,
        start.len() as int,
    ));
}

/// The assets for Linux in the order of their names.
fn sorted_linux_assets(assets: &Vec<GitHubAsset>) -> (r: Vec<GitHubAsset>)
    ensures
        asset_views(r@) == by_name(linux_assets(asset_views(assets@))),
{
    let ghost all = asset_views(assets@);
    let mut out: Vec<GitHubAsset> = Vec::new();
    let mut i: usize = 0;
    assert(all.subrange(0, 0) =~= Seq::<GitHubAssetView>::empty());
    assert(asset_views(out@) =~= Seq::<GitHubAssetView>::empty());
    assert(linux_assets(Seq::<GitHubAssetView>::empty()) =~= Seq::<GitHubAssetView>::empty()) by {
        reveal(Seq::filter);
    }
    while i < assets.len()
        invariant
            i <= assets.len(),
            all == asset_views(assets@),
            asset_views(out@) == by_name(linux_assets(all.subrange(0, i as int))),
        decreases assets.len() - i,
    {
        let ghost upto = all.subrange(0, i + 1);
        proof {
            assert(upto.drop_last() =~= all.subrange(0, i as int));
            assert(upto.last() == assets@[i as int]@);
            reveal(Seq::filter);
            let kept = linux_assets(upto);
            if for_linux(upto.last()) {
                assert(kept == linux_assets(upto.drop_last()).push(upto.last()));
                assert(kept.drop_last() =~= linux_assets(upto.drop_last()));
            } else {
                assert(kept == linux_assets(upto.drop_last()));
            }
        }
        let name = chars_of(to_lowercase(assets[i].name.as_str()).as_str());
        if has_part(&name, &chars_of("linux")) && has_suffix(&name, &chars_of(".gz")) {
            place(&mut out, copy_asset(&assets[i]));
        }
        i = i + 1;
    }
    assert(all.subrange(0, assets.len() as int) =~= all);
    out
}

/// The view of a choice of an asset.
pub open spec fn choice_view(r: Result<GitHubAsset, Fault>) -> Result<GitHubAssetView, FaultView> {
    match r {
        Ok(a) => Ok(a@),
        Err(f) => Err(f@),
    }
}

/// A fault without text.
fn bare(kind: FaultKind) -> (f: Fault)
    ensures
        f@ == (FaultView { kind, detail: Seq::empty(), rolled_back: false }),
{
    Fault { kind, detail: String::new(), rolled_back: false }
}

/// The asset of a release to install on this architecture.
pub fn select_release_asset(assets: &Vec<GitHubAsset>, arch: &str, amd64_variant: Amd64Variant) -> (r:
    Result<GitHubAsset, Fault>)
    ensures
        choice_view(r) == chosen_asset(asset_views(assets@), arch@, amd64_variant),
{
    let linux = sorted_linux_assets(assets);
    proof {
        lemma_by_name_len(linux_assets(asset_views(assets@)));
    }
    if linux.len() == 0 {
        return Err(bare(FaultKind::NoLinuxAsset));
    }
    let picked = if same(arch, "x86_64") {
        pick_amd64_asset(&linux, amd64_variant)
    } else if same(arch, "aarch64") {
        pick_asset_by_keywords(&linux, &words_of("arm64", "aarch64", ""))
    } else if same(arch, "arm") {
        proof {
            reveal_strlit("arm");
        }
        pick_asset_by_keywords(&linux, &words_of("armv7", "armv6", "arm"))
    } else {
        return Err(Fault { kind: FaultKind::UnsupportedArch, detail: owned(arch), rolled_back: false });
    };
    proof {
        reveal_strlit("");
    }
    match picked {
        Some(a) => Ok(a),
        None => Err(bare(FaultKind::NoMatchingAsset)),
    }
}

/// Ordering keeps every asset.
pub proof fn lemma_by_name_len(assets: Seq<GitHubAssetView>)
    ensures
        by_name(assets).len() == assets.len(),
    decreases assets.len(),
{
    if assets.len() > 0 {
        lemma_by_name_len(assets.drop_last());
        lemma_placed_len(by_name(assets.drop_last()), assets.last());
    }
}

pub proof fn lemma_placed_len(sorted: Seq<GitHubAssetView>, a: GitHubAssetView)
    ensures
        placed(sorted, a).len() == sorted.len() + 1,
    decreases sorted.len(),
{
    if sorted.len() > 0 && !text_le(sorted.last().name, a.name) {
        lemma_placed_len(sorted.drop_last(), a);
    }
}

/// The URLs to try for a download, in order: with `auto` the mirror first
/// for a file on GitHub, then the file's own URL.
pub open spec fn candidates(original_url: Seq<char>, mirror: MirrorSource) -> Seq<Seq<char>> {
    match mirror {
        MirrorSource::Auto => if starts_with(original_url, "https://github.com/"@) {
            seq![GHFAST_PREFIX@ + original_url, original_url]
        } else {
            seq![original_url]
        },
        MirrorSource::Ghfast => seq![GHFAST_PREFIX@ + original_url],
        MirrorSource::Github => seq![original_url],
    }
}

pub fn download_candidates(original_url: &str, mirror: MirrorSource) -> (r: Vec<String>)
    ensures
        views(r@) == candidates(original_url@, mirror),
{
    let mut urls: Vec<String> = Vec::new();
    assert(views(urls@) =~= Seq::<Seq<char>>::empty());
    let ghfast_url = concat(GHFAST_PREFIX, original_url);
    match mirror {
        MirrorSource::Auto => {
            if str_starts_with(original_url, "https://github.com/") {
                crate::host::push_arg(&mut urls, ghfast_url.as_str());
            }
            crate::host::push_arg(&mut urls, original_url);
        },
        MirrorSource::Ghfast => {
            crate::host::push_arg(&mut urls, ghfast_url.as_str());
        },
        MirrorSource::Github => {
            crate::host::push_arg(&mut urls, original_url);
        },
    }
    assert(views(urls@) =~= candidates(original_url@, mirror));
    urls
}

// ---------------------------------------------------------------------------
// The release as JSON
// ---------------------------------------------------------------------------

/// The asset that a JSON object holds.
pub open spec fn asset_in(v: NodeView) -> Option<GitHubAssetView> {
    if !(v is Mapping) {
        None
    } else {
        match (v.field("name"@), v.field("browser_download_url"@)) {
            (Some(NodeView::Text(name)), Some(NodeView::Text(url))) => Some(
                GitHubAssetView { name, browser_download_url: url },
            ),
            _ => None,
        }
    }
}

/// The assets that a JSON array holds.
pub open spec fn assets_in(items: Seq<NodeView>) -> Option<Seq<GitHubAssetView>>
    decreases items.len(),
{
    if items.len() == 0 {
        Some(Seq::empty())
    } else {
        match (assets_in(items.drop_last()), asset_in(items.last())) {
            (Some(head), Some(a)) => Some(head.push(a)),
            _ => None,
        }
    }
}

/// The release that a JSON document holds.
pub open spec fn release_in(doc: NodeView) -> Option<GitHubReleaseView> {
    if !(doc is Mapping) {
        None
    } else {
        match (doc.field("tag_name"@), doc.field("assets"@)) {
            (Some(NodeView::Text(tag_name)), Some(NodeView::Sequence(items))) => match assets_in(
                items,
            ) {
                Some(assets) => Some(GitHubReleaseView { tag_name, assets }),
                None => None,
            },
            _ => None,
        }
    }
}

/// The view of an optional release.
pub open spec fn release_view(r: Option<GitHubRelease>) -> Option<GitHubReleaseView> {
    match r {
        Some(x) => Some(x@),
        None => None,
    }
}

/// The asset that a JSON object holds.
pub fn asset_of(v: &Node) -> (r: Option<GitHubAsset>)
    ensures
        asset_view(r) == asset_in(v@),
{
    match v {
        Node::Mapping(_) => {},
        _ => {
            return None;
        },
    }
    match (key_value(v, "name"), key_value(v, "browser_download_url")) {
        (Some(Node::Text(name)), Some(Node::Text(url))) => Some(
            GitHubAsset { name: name.clone(), browser_download_url: url.clone() },
        ),
        _ => None,
    }
}

proof fn lemma_assets_prefix(items: Seq<NodeView>, k: int)
    requires
        0 <= k <= items.len(),
        assets_in(items.subrange(0, k)) is None,
    ensures
        assets_in(items) is None,
    decreases items.len() - k,
{
    if k == items.len() {
        assert(items.subrange(0, k) =~= items);
    } else {
        let t = items.subrange(0, k + 1);
        assert(t.drop_last() =~= items.subrange(0, k));
        lemma_assets_prefix(items, k + 1);
    }
}

/// The release that a JSON document holds.
#[verifier::loop_isolation(false)]
pub fn release_of(doc: &Node) -> (r: Option<GitHubRelease>)
    ensures
        release_view(r) == release_in(doc@),
{
    match doc {
        Node::Mapping(_) => {},
        _ => {
            return None;
        },
    }
    let tag_name = match key_value(doc, "tag_name") {
        Some(Node::Text(t)) => t.clone(),
        _ => {
            return None;
        },
    };
    let items = match key_value(doc, "assets") {
        Some(Node::Sequence(items)) => {
            proof {
                lemma_sequence_view(*items);
            }
            items
        },
        _ => {
            return None;
        },
    };
    let mut assets: Vec<GitHubAsset> = Vec::new();
    let mut i: usize = 0;
    assert(item_views(items@).subrange(0, 0) =~= Seq::<NodeView>::empty());
    assert(asset_views(assets@) =~= Seq::<GitHubAssetView>::empty());
    while i < items.len()
        invariant
            i <= items.len(),
            assets_in(item_views(items@).subrange(0, i as int)) == Some(asset_views(assets@)),
        decreases items.len() - i,
    {
        let ghost upto = item_views(items@).subrange(0, i + 1);
        let ghost before_push = asset_views(assets@);
        proof {
            assert(upto.drop_last() =~= item_views(items@).subrange(0, i as int));
            assert(upto.last() == items@[i as int]@);
        }
        match asset_of(&items[i]) {
            Some(a) => {
                assets.push(a);
                assert(asset_views(assets@) =~= before_push.push(a@));
            },
            None => {
                proof {
                    lemma_assets_prefix(item_views(items@), i + 1);
                }
                return None;
            },
        }
        i = i + 1;
    }
    assert(item_views(items@).subrange(0, items.len() as int) =~= item_views(items@));
    Some(GitHubRelease { tag_name, assets })
}

// ---------------------------------------------------------------------------
// The kernel's record
// ---------------------------------------------------------------------------

/// What is known of the installed kernel.
#[derive(Debug)]
pub struct CoreMeta {
    pub version: String,
}

/// The text of the kernel's record.
pub open spec fn meta_text(
    version: Seq<char>,
    asset_name: Seq<char>,
    source_url: Seq<char>,
    installed_at: u64,
) -> Seq<char> {
    "version="@ + version + "\nasset="@ + asset_name + "\nsource_url="@ + source_url
        + "\ninstalled_at="@ + decimal(installed_at as nat) + "\n"@
}

/// The version in the lines of a record: the value of the last `version`
/// line.
pub open spec fn version_in(rest: Seq<Seq<char>>, found: Option<Seq<char>>) -> Option<Seq<char>>
    decreases rest.len(),
{
    if rest.len() == 0 {
        found
    } else if trim(before(rest[0], '=')) == "version"@ {
        version_in(rest.drop_first(), Some(trim(after(rest[0], '='))))
    } else {
        version_in(rest.drop_first(), found)
    }
}

/// The version that the text of a record holds.
pub fn meta_version(content: &str) -> (r: Option<String>)
    ensures
        text_view(r) == version_in(lines(content@), None),
{
    let all = split_lines(&chars_of(content));
    let mut version: Option<Vec<char>> = None;
    let mut i: usize = 0;
    assert(rows(all@).skip(0) =~= rows(all@));
    while i < all.len()
        invariant
            i <= all.len(),
            rows(all@) == lines(content@),
            version_in(
                rows(all@).skip(i as int),
                match version {
                    Some(v) => Some(v@),
                    None => None,
                },
            ) == version_in(lines(content@), None),
        decreases all.len() - i,
    {
        let ghost rest = rows(all@).skip(i as int);
        assert(rest[0] == all@[i as int]@);
        assert(rest.drop_first() =~= rows(all@).skip(i + 1));
        let (k, v) = split_at_char(&all[i], '=');
        if is_word(&trim_chars(&k), "version") {
            version = Some(trim_chars(&v));
        }
        i = i + 1;
    }
    match version {
        Some(v) => Some(text_of(&v)),
        None => None,
    }
}

// ---------------------------------------------------------------------------
// Reports
// ---------------------------------------------------------------------------

/// What a `core` command did or found.
#[allow(inconsistent_fields)]
#[derive(Debug)]
pub enum CoreReport {
    Install { version: String, asset: String, path: String, source: String, reused: bool },
    Version { version: Option<String> },
    Path { path: Option<String> },
}

#[allow(inconsistent_fields)]
pub enum CoreReportView {
    Install {
        version: Seq<char>,
        asset: Seq<char>,
        path: Seq<char>,
        source: Seq<char>,
        reused: bool,
    },
    Version { version: Option<Seq<char>> },
    Path { path: Option<Seq<char>> },
}

impl View for CoreReport {
    type V = CoreReportView;

    open spec fn view(&self) -> CoreReportView {
        match self {
            CoreReport::Install { version, asset, path, source, reused } => CoreReportView::Install {
                version: version@,
                asset: asset@,
                path: path@,
                source: source@,
                reused: *reused,
            },
            CoreReport::Version { version } => CoreReportView::Version {
                version: text_view(*version),
            },
            CoreReport::Path { path } => CoreReportView::Path { path: text_view(*path) },
        }
    }
}

/// What is to be installed.
#[derive(Debug)]
pub struct CoreInstallRequest {
    pub version: String,
    pub mirror: MirrorSource,
    pub amd64_variant: Amd64Variant,
    pub force: bool,
}

impl View for CoreInstallRequest {
    type V = CoreInstallArgsView;

    open spec fn view(&self) -> CoreInstallArgsView {
        CoreInstallArgsView {
            version: self.version@,
            mirror: self.mirror,
            amd64_variant: self.amd64_variant,
            force: self.force,
        }
    }
}

// ---------------------------------------------------------------------------
// Outcomes over a record
// ---------------------------------------------------------------------------

/// Where a release is described.
pub open spec fn release_url(version: Seq<char>) -> Seq<char> {
    if version == "latest"@ {
        RELEASES_LATEST_API@
    } else {
        RELEASES_BY_TAG_API_PREFIX@ + version
    }
}

/// The request that asks for a release.
pub open spec fn release_request(version: Seq<char>) -> HttpRequestView {
    HttpRequestView {
        method: HttpMethod::Get,
        url: release_url(version),
        bearer: None,
        body: None,
        json: true,
        agent: Some(USER_AGENT@),
        timeout_secs: 180,
        connect_timeout_secs: 20,
    }
}

/// A release is fetched.
#[verifier::opaque]
pub open spec fn release_fetched(log: Seq<ExchangeView>, at: int, version: Seq<char>) -> Ran<
    GitHubReleaseView,
> {
    bind(
        ask(log, at, EffectView::Http(release_request(version))),
        |r: ReplyView, at1: int|
            if !r.ok {
                failed(FaultKind::ReleaseFetch, r.detail, at1)
            } else {
                match json_read(r.text) {
                    Err(message) => failed(FaultKind::ReleaseFetch, message, at1),
                    Ok(doc) => match release_in(doc) {
                        Some(release) => done(release, at1),
                        None => bare_failure(FaultKind::ReleaseFetch, at1),
                    },
                }
            },
    )
}

/// The link to the current kernel is made to point at `target`.
#[verifier::opaque]
pub open spec fn current_pointed(
    log: Seq<ExchangeView>,
    at: int,
    link: Seq<char>,
    target: Seq<char>,
) -> Ran<()> {
    bind(
        removed_if_there(log, at, link),
        |u: (), at1: int|
            file_done(log, at1, FileOp::Symlink, target, link, FaultKind::InstallFailed),
    )
}

/// The kernel's record is written, with the clock's reading.
#[verifier::opaque]
pub open spec fn meta_written(
    log: Seq<ExchangeView>,
    at: int,
    path: Seq<char>,
    version: Seq<char>,
    asset_name: Seq<char>,
    source_url: Seq<char>,
) -> Ran<()> {
    bind(
        clock(log, at),
        |now: u64, at1: int|
            file_written(log, at1, path, meta_text(version, asset_name, source_url, now)),
    )
}

/// The kernel's record is loaded.
#[verifier::opaque]
pub open spec fn meta_loaded(log: Seq<ExchangeView>, at: int, path: Seq<char>) -> Ran<Seq<char>> {
    bind(
        file_read(log, at, path, FaultKind::FileRead),
        |content: Seq<char>, at1: int|
            match version_in(lines(content), None) {
                Some(v) => done(v, at1),
                None => bare_failure(FaultKind::MetaNoVersion, at1),
            },
    )
}

/// The text of failed downloads, one for each line.
pub open spec fn failure_line(url: Seq<char>, detail: Seq<char>) -> Seq<char> {
    url + " => "@ + detail + "\n"@
}

/// The URLs from `from` on are tried in order until one delivers the file;
/// the value is the URL that did. If none does, the failure names them
/// all.
pub open spec fn downloaded(
    log: Seq<ExchangeView>,
    at: int,
    urls: Seq<Seq<char>>,
    from: int,
    target: Seq<char>,
    errors: Seq<char>,
) -> Ran<Seq<char>>
    decreases urls.len() - from,
{
    if from < 0 || from >= urls.len() {
        failed(FaultKind::DownloadFailed, errors, at)
    } else {
        let tried = ask(log, at, EffectView::File(FileOp::Download, urls[from], target));
        match tried.out {
            Err(h) => halted(h, tried.at),
            Ok(reply) => if reply.ok {
                done(urls[from], tried.at)
            } else {
                downloaded(
                    log,
                    tried.at,
                    urls,
                    from + 1,
                    target,
                    errors + failure_line(urls[from], reply.detail),
                )
            },
        }
    }
}

/// The name of the file that a download goes to.
pub open spec fn download_name(tag: Seq<char>, process_id: u32) -> Seq<char> {
    "mihomo-"@ + tag + "-"@ + decimal(process_id as nat) + ".download.gz"@
}

/// The downloaded kernel is unpacked and put in the place of the old one.
#[verifier::opaque]
pub open spec fn unpacked(
    log: Seq<ExchangeView>,
    at: int,
    archive: Seq<char>,
    fresh: Seq<char>,
    binary: Seq<char>,
) -> Ran<()> {
    bind(
        file_done(log, at, FileOp::Gunzip, archive, fresh, FaultKind::UnpackFailed),
        |u: (), at1: int|
            bind(
                file_done(
                    log,
                    at1,
                    FileOp::SetExecutable,
                    fresh,
                    Seq::empty(),
                    FaultKind::InstallFailed,
                ),
                |u: (), at2: int|
                    bind(
                        is_there(log, at2, binary),
                        |old: bool, at3: int|
                            bind(
                                if old {
                                    file_done(
                                        log,
                                        at3,
                                        FileOp::Remove,
                                        binary,
                                        Seq::empty(),
                                        FaultKind::InstallFailed,
                                    )
                                } else {
                                    done((), at3)
                                },
                                |u: (), at4: int|
                                    bind(
                                        file_done(
                                            log,
                                            at4,
                                            FileOp::Rename,
                                            fresh,
                                            binary,
                                            FaultKind::InstallFailed,
                                        ),
                                        |u: (), at5: int| archive_dropped(log, at5, archive),
                                    ),
                            ),
                    ),
            ),
    )
}

/// The archive is removed if it is there; a failure to remove it does not
/// matter.
pub open spec fn archive_dropped(log: Seq<ExchangeView>, at: int, archive: Seq<char>) -> Ran<()> {
    bind(
        is_there(log, at, archive),
        |there: bool, at1: int|
            if there {
                bind(
                    ask(log, at1, EffectView::File(FileOp::Remove, archive, Seq::empty())),
                    |r: ReplyView, at2: int| done((), at2),
                )
            } else {
                done((), at1)
            },
    )
}

/// The directories of the kernel are created and the release and its asset
/// for this machine are found.
#[verifier::opaque]
pub open spec fn release_chosen(
    env: HostEnvView,
    log: Seq<ExchangeView>,
    at: int,
    request: CoreInstallArgsView,
    paths: AppPathsView,
) -> Ran<(Seq<char>, GitHubAssetView)> {
    bind(
        file_done(log, at, FileOp::CreateDir, paths.core_dir, Seq::empty(), FaultKind::DirCreate),
        |u: (), at1: int|
            bind(
                file_done(
                    log,
                    at1,
                    FileOp::CreateDir,
                    paths.core_versions_dir,
                    Seq::empty(),
                    FaultKind::DirCreate,
                ),
                |u: (), at2: int|
                    bind(
                        release_fetched(log, at2, request.version),
                        |release: GitHubReleaseView, at3: int|
                            match chosen_asset(release.assets, env.arch, request.amd64_variant) {
                                Err(f) => halted(HaltView::Fail(f), at3),
                                Ok(asset) => bind(
                                    file_done(
                                        log,
                                        at3,
                                        FileOp::CreateDir,
                                        joined(paths.core_versions_dir, release.tag_name),
                                        Seq::empty(),
                                        FaultKind::DirCreate,
                                    ),
                                    |u: (), at4: int| done((release.tag_name, asset), at4),
                                ),
                            },
                    ),
            ),
    )
}

/// A kernel is downloaded, unpacked and put in place.
#[verifier::opaque]
pub open spec fn fresh_installed(
    env: HostEnvView,
    log: Seq<ExchangeView>,
    at: int,
    request: CoreInstallArgsView,
    paths: AppPathsView,
    tag: Seq<char>,
    asset: GitHubAssetView,
) -> Ran<CoreReportView> {
    let version_dir = joined(paths.core_versions_dir, tag);
    let binary = joined(version_dir, "mihomo"@);
    let archive = joined(paths.core_dir, download_name(tag, env.process_id));
    bind(
        downloaded(
            log,
            at,
            candidates(asset.browser_download_url, request.mirror),
            0,
            archive,
            Seq::empty(),
        ),
        |source: Seq<char>, at1: int|
            bind(
                unpacked(log, at1, archive, joined(version_dir, "mihomo.new"@), binary),
                |u: (), at2: int|
                    bind(
                        current_pointed(log, at2, paths.core_current_link, binary),
                        |u: (), at3: int|
                            bind(
                                meta_written(
                                    log,
                                    at3,
                                    paths.core_meta_file,
                                    tag,
                                    asset.name,
                                    source,
                                ),
                                |u: (), at4: int|
                                    done(
                                        CoreReportView::Install {
                                            version: tag,
                                            asset: asset.name,
                                            path: binary,
                                            source,
                                            reused: false,
                                        },
                                        at4,
                                    ),
                            ),
                    ),
            ),
    )
}

/// A kernel that is there already is made the current one.
#[verifier::opaque]
pub open spec fn reused(
    log: Seq<ExchangeView>,
    at: int,
    paths: AppPathsView,
    tag: Seq<char>,
    asset: GitHubAssetView,
) -> Ran<CoreReportView> {
    let binary = joined(joined(paths.core_versions_dir, tag), "mihomo"@);
    bind(
        current_pointed(log, at, paths.core_current_link, binary),
        |u: (), at1: int|
            bind(
                meta_written(
                    log,
                    at1,
                    paths.core_meta_file,
                    tag,
                    asset.name,
                    asset.browser_download_url,
                ),
                |u: (), at2: int|
                    done(
                        CoreReportView::Install {
                            version: tag,
                            asset: asset.name,
                            path: binary,
                            source: asset.browser_download_url,
                            reused: true,
                        },
                        at2,
                    ),
            ),
    )
}

/// A kernel is installed: the one that is there is reused unless the
/// command forces a download.
pub open spec fn kernel_installed(
    env: HostEnvView,
    log: Seq<ExchangeView>,
    at: int,
    request: CoreInstallArgsView,
) -> Ran<CoreReportView> {
    bind(
        located(env, log, at),
        |paths: AppPathsView, at1: int|
            bind(
                release_chosen(env, log, at1, request, paths),
                |found: (Seq<char>, GitHubAssetView), at2: int|
                    bind(
                        is_there(
                            log,
                            at2,
                            joined(joined(paths.core_versions_dir, found.0), "mihomo"@),
                        ),
                        |there: bool, at3: int|
                            if there && !request.force {
                                reused(log, at3, paths, found.0, found.1)
                            } else {
                                fresh_installed(env, log, at3, request, paths, found.0, found.1)
                            },
                    ),
            ),
    )
}

/// `core version`.
#[verifier::opaque]
pub open spec fn version_shown(env: HostEnvView, log: Seq<ExchangeView>, at: int) -> Ran<
    CoreReportView,
> {
    bind(
        located(env, log, at),
        |paths: AppPathsView, at1: int|
            bind(
                is_there(log, at1, paths.core_meta_file),
                |there: bool, at2: int|
                    if !there {
                        done(CoreReportView::Version { version: None }, at2)
                    } else {
                        bind(
                            meta_loaded(log, at2, paths.core_meta_file),
                            |v: Seq<char>, at3: int|
                                done(CoreReportView::Version { version: Some(v) }, at3),
                        )
                    },
            ),
    )
}

/// `core path`.
#[verifier::opaque]
pub open spec fn path_shown(env: HostEnvView, log: Seq<ExchangeView>, at: int) -> Ran<
    CoreReportView,
> {
    bind(
        located(env, log, at),
        |paths: AppPathsView, at1: int|
            bind(
                is_there(log, at1, paths.core_current_link),
                |there: bool, at2: int|
                    done(
                        CoreReportView::Path {
                            path: if there {
                                Some(paths.core_current_link)
                            } else {
                                None
                            },
                        },
                        at2,
                    ),
            ),
    )
}

/// What `core upgrade` installs.
pub open spec fn upgrade_request(
    mirror: MirrorSource,
    amd64_variant: Amd64Variant,
    force: bool,
) -> CoreInstallArgsView {
    CoreInstallArgsView { version: "latest"@, mirror, amd64_variant, force }
}

/// What a `core` command comes to from a position of a record.
pub open spec fn outcome_at(
    command: CoreCommandView,
    env: HostEnvView,
    log: Seq<ExchangeView>,
    at: int,
) -> Ran<CoreReportView> {
    match command {
        CoreCommandView::Install(args) => bind(
            linux(env, at),
            |u: (), at1: int| kernel_installed(env, log, at1, args),
        ),
        CoreCommandView::Upgrade(mirror, variant, force) => bind(
            linux(env, at),
            |u: (), at1: int|
                kernel_installed(env, log, at1, upgrade_request(mirror, variant, force)),
        ),
        CoreCommandView::Version => version_shown(env, log, at),
        CoreCommandView::Path => path_shown(env, log, at),
    }
}

/// What a `core` command comes to over a record.
pub open spec fn outcome(command: CoreCommandView, env: HostEnvView, log: Seq<ExchangeView>) -> Ran<
    CoreReportView,
> {
    outcome_at(command, env, log, 0)
}

/// The view of a result over a tag and an asset.
pub open spec fn ran_chosen(r: Result<(String, GitHubAsset), Halt>, at: int) -> Ran<
    (Seq<char>, GitHubAssetView),
> {
    Ran {
        out: match r {
            Ok(f) => Ok((f.0@, f.1@)),
            Err(h) => Err(h@),
        },
        at,
    }
}

// ---------------------------------------------------------------------------
// The commands
// ---------------------------------------------------------------------------

/// Fetches the description of a release.
pub fn fetch_release(host: &mut Replay, version: &str) -> (r: Result<GitHubRelease, Halt>)
    ensures
        final(host).seen() == old(host).seen(),
        ran_view(r, final(host).pos()) == release_fetched(
            old(host).seen(),
            old(host).pos(),
            version@,
        ),
{
    proof {
        reveal(release_fetched);
    }
    let url = if same(version, "latest") {
        owned(RELEASES_LATEST_API)
    } else {
        concat(RELEASES_BY_TAG_API_PREFIX, version)
    };
    let request = HttpRequest {
        method: HttpMethod::Get,
        url,
        bearer: None,
        body: None,
        json: true,
        agent: Some(owned(USER_AGENT)),
        timeout_secs: 180,
        connect_timeout_secs: 20,
    };
    let reply = host.perform(Effect::Http(request))?;
    if !reply.ok {
        return Err(
            Halt::Fail(
                Fault { kind: FaultKind::ReleaseFetch, detail: reply.detail, rolled_back: false },
            ),
        );
    }
    match read_json(reply.text.as_str()) {
        Err(message) => Err(
            Halt::Fail(Fault { kind: FaultKind::ReleaseFetch, detail: message, rolled_back: false }),
        ),
        Ok(doc) => match release_of(&doc) {
            Some(release) => Ok(release),
            None => Err(Halt::Fail(bare(FaultKind::ReleaseFetch))),
        },
    }
}

/// Makes the link to the current kernel point at `target`.
pub fn point_current_core(host: &mut Replay, current_link: &str, target: &str) -> (r: Result<
    (),
    Halt,
>)
    ensures
        final(host).seen() == old(host).seen(),
        ran(r, final(host).pos()) == current_pointed(
            old(host).seen(),
            old(host).pos(),
            current_link@,
            target@,
        ),
{
    proof {
        reveal(current_pointed);
    }
    remove_if_there(host, current_link)?;
    file_op(host, FileOp::Symlink, target, current_link, FaultKind::InstallFailed)
}

/// Writes the kernel's record.
pub fn write_core_meta(
    host: &mut Replay,
    path: &str,
    version: &str,
    asset_name: &str,
    source_url: &str,
) -> (r: Result<(), Halt>)
    ensures
        final(host).seen() == old(host).seen(),
        ran(r, final(host).pos()) == meta_written(
            old(host).seen(),
            old(host).pos(),
            path@,
            version@,
            asset_name@,
            source_url@,
        ),
{
    proof {
        reveal(meta_written);
    }
    let installed_at = now_unix(host)?;
    let mut out: Vec<char> = Vec::new();
    assert(out@ =~= Seq::<char>::empty());
    push_str(&mut out, "version=");
    assert(out@ =~= "version="@);
    push_str(&mut out, version);
    push_str(&mut out, "\nasset=");
    push_str(&mut out, asset_name);
    push_str(&mut out, "\nsource_url=");
    push_str(&mut out, source_url);
    push_str(&mut out, "\ninstalled_at=");
    push_decimal(&mut out, installed_at);
    push_str(&mut out, "\n");
    write_file(host, path, text_of(&out))
}

/// Loads the kernel's record.
pub fn load_core_meta(host: &mut Replay, path: &str) -> (r: Result<CoreMeta, Halt>)
    ensures
        final(host).seen() == old(host).seen(),
        crate::files::ran_string(
            match r {
                Ok(m) => Ok(m.version),
                Err(h) => Err(h),
            },
            final(host).pos(),
        ) == meta_loaded(old(host).seen(), old(host).pos(), path@),
{
    proof {
        reveal(meta_loaded);
    }
    let content = read_file(host, path, FaultKind::FileRead)?;
    match meta_version(content.as_str()) {
        Some(version) => Ok(CoreMeta { version }),
        None => Err(Halt::Fail(bare(FaultKind::MetaNoVersion))),
    }
}

/// Tries the sources in order until one delivers the download.
#[verifier::loop_isolation(false)]
pub fn download_to_file(host: &mut Replay, urls: Vec<String>, output_path: &str) -> (r: Result<
    String,
    Halt,
>)
    ensures
        final(host).seen() == old(host).seen(),
        crate::files::ran_string(r, final(host).pos()) == downloaded(
            old(host).seen(),
            old(host).pos(),
            views(urls@),
            0,
            output_path@,
            Seq::empty(),
        ),
{
    let ghost log = host.seen();
    let ghost start = host.pos();
    let mut errors: Vec<char> = Vec::new();
    assert(errors@ =~= Seq::<char>::empty());
    let mut i: usize = 0;
    while i < urls.len()
        invariant
            i <= urls.len(),
            host.seen() == log,
            downloaded(log, host.pos(), views(urls@), i as int, output_path@, errors@)
                == downloaded(log, start, views(urls@), 0, output_path@, Seq::empty()),
        decreases urls.len() - i,
    {
        let ghost before = errors@;
        let reply = match host.perform(
            Effect::File(FileOp::Download, urls[i].clone(), owned(output_path)),
        ) {
            Ok(r) => r,
            Err(h) => {
                return Err(h);
            },
        };
        if reply.ok {
            return Ok(urls[i].clone());
        }
        push_str(&mut errors, urls[i].as_str());
        push_str(&mut errors, " => ");
        push_str(&mut errors, reply.detail.as_str());
        push_str(&mut errors, "\n");
        assert(errors@ =~= before + failure_line(urls@[i as int]@, reply@.detail));
        i = i + 1;
    }
    Err(
        Halt::Fail(
            Fault { kind: FaultKind::DownloadFailed, detail: text_of(&errors), rolled_back: false },
        ),
    )
}

/// Removes the archive if it is there.
fn drop_archive(host: &mut Replay, archive: &str) -> (r: Result<(), Halt>)
    ensures
        final(host).seen() == old(host).seen(),
        ran(r, final(host).pos()) == archive_dropped(old(host).seen(), old(host).pos(), archive@),
{
    if path_exists(host, archive)? {
        let _ = host.perform(Effect::File(FileOp::Remove, owned(archive), String::new()))?;
    }
    Ok(())
}

/// Unpacks the download and puts the kernel in place.
pub fn decompress_gzip_to_file(host: &mut Replay, archive: &str, fresh: &str, binary: &str) -> (r:
    Result<(), Halt>)
    ensures
        final(host).seen() == old(host).seen(),
        ran(r, final(host).pos()) == unpacked(
            old(host).seen(),
            old(host).pos(),
            archive@,
            fresh@,
            binary@,
        ),
{
    proof {
        reveal(unpacked);
    }
    let none = String::new();
    file_op(host, FileOp::Gunzip, archive, fresh, FaultKind::UnpackFailed)?;
    file_op(host, FileOp::SetExecutable, fresh, none.as_str(), FaultKind::InstallFailed)?;
    if path_exists(host, binary)? {
        file_op(host, FileOp::Remove, binary, none.as_str(), FaultKind::InstallFailed)?;
    }
    file_op(host, FileOp::Rename, fresh, binary, FaultKind::InstallFailed)?;
    drop_archive(host, archive)
}

/// Creates the kernel's directories and finds the release and its asset.
fn choose_release(
    env: &HostEnv,
    host: &mut Replay,
    request: &CoreInstallRequest,
    paths: &AppPaths,
) -> (r: Result<(String, GitHubAsset), Halt>)
    ensures
        final(host).seen() == old(host).seen(),
        ran_chosen(r, final(host).pos()) == release_chosen(
            env@,
            old(host).seen(),
            old(host).pos(),
            request@,
            paths@,
        ),
{
    proof {
        reveal(release_chosen);
    }
    let none = String::new();
    file_op(host, FileOp::CreateDir, paths.core_dir.as_str(), none.as_str(), FaultKind::DirCreate)?;
    file_op(
        host,
        FileOp::CreateDir,
        paths.core_versions_dir.as_str(),
        none.as_str(),
        FaultKind::DirCreate,
    )?;
    let release = fetch_release(host, request.version.as_str())?;
    let asset = match select_release_asset(&release.assets, env.arch.as_str(), request.amd64_variant) {
        Ok(a) => a,
        Err(f) => {
            return Err(Halt::Fail(f));
        },
    };
    let version_dir = join_path(paths.core_versions_dir.as_str(), release.tag_name.as_str());
    file_op(host, FileOp::CreateDir, version_dir.as_str(), none.as_str(), FaultKind::DirCreate)?;
    Ok((release.tag_name, asset))
}

/// Downloads, unpacks and installs a kernel.
fn install_fresh(
    env: &HostEnv,
    host: &mut Replay,
    request: &CoreInstallRequest,
    paths: &AppPaths,
    tag: String,
    asset: GitHubAsset,
) -> (r: Result<CoreReport, Halt>)
    ensures
        final(host).seen() == old(host).seen(),
        ran_view(r, final(host).pos()) == fresh_installed(
            env@,
            old(host).seen(),
            old(host).pos(),
            request@,
            paths@,
            tag@,
            asset@,
        ),
{
    proof {
        reveal(fresh_installed);
    }
    let version_dir = join_path(paths.core_versions_dir.as_str(), tag.as_str());
    let installed_binary = join_path(version_dir.as_str(), "mihomo");
    let mut name: Vec<char> = Vec::new();
    assert(name@ =~= Seq::<char>::empty());
    push_str(&mut name, "mihomo-");
    assert(name@ =~= "mihomo-"@);
    push_str(&mut name, tag.as_str());
    push_str(&mut name, "-");
    push_decimal(&mut name, env.process_id as u64);
    push_str(&mut name, ".download.gz");
    let name = text_of(&name);
    let temp_gz_path = join_path(paths.core_dir.as_str(), name.as_str());
    let temp_bin_path = join_path(version_dir.as_str(), "mihomo.new");
    let candidate_urls = download_candidates(asset.browser_download_url.as_str(), request.mirror);
    let source_url = download_to_file(host, candidate_urls, temp_gz_path.as_str())?;
    decompress_gzip_to_file(
        host,
        temp_gz_path.as_str(),
        temp_bin_path.as_str(),
        installed_binary.as_str(),
    )?;
    point_current_core(host, paths.core_current_link.as_str(), installed_binary.as_str())?;
    write_core_meta(
        host,
        paths.core_meta_file.as_str(),
        tag.as_str(),
        asset.name.as_str(),
        source_url.as_str(),
    )?;
    Ok(
        CoreReport::Install {
            version: tag,
            asset: asset.name,
            path: installed_binary,
            source: source_url,
            reused: false,
        },
    )
}

/// Makes a kernel that is there already the current one.
fn reuse_installed(host: &mut Replay, paths: &AppPaths, tag: String, asset: GitHubAsset) -> (r:
    Result<CoreReport, Halt>)
    ensures
        final(host).seen() == old(host).seen(),
        ran_view(r, final(host).pos()) == reused(
            old(host).seen(),
            old(host).pos(),
            paths@,
            tag@,
            asset@,
        ),
{
    proof {
        reveal(reused);
    }
    let version_dir = join_path(paths.core_versions_dir.as_str(), tag.as_str());
    let installed_binary = join_path(version_dir.as_str(), "mihomo");
    point_current_core(host, paths.core_current_link.as_str(), installed_binary.as_str())?;
    write_core_meta(
        host,
        paths.core_meta_file.as_str(),
        tag.as_str(),
        asset.name.as_str(),
        asset.browser_download_url.as_str(),
    )?;
    Ok(
        CoreReport::Install {
            version: tag,
            asset: asset.name,
            path: installed_binary,
            source: asset.browser_download_url,
            reused: true,
        },
    )
}

/// Installs a kernel.
pub fn install_mihomo_core(env: &HostEnv, host: &mut Replay, request: &CoreInstallRequest) -> (r:
    Result<CoreReport, Halt>)
    ensures
        final(host).seen() == old(host).seen(),
        ran_view(r, final(host).pos()) == kernel_installed(
            env@,
            old(host).seen(),
            old(host).pos(),
            request@,
        ),
{
    let paths = app_paths(env, host)?;
    let (tag, asset) = choose_release(env, host, request, &paths)?;
    let version_dir = join_path(paths.core_versions_dir.as_str(), tag.as_str());
    let installed_binary = join_path(version_dir.as_str(), "mihomo");
    if path_exists(host, installed_binary.as_str())? && !request.force {
        reuse_installed(host, &paths, tag, asset)
    } else {
        install_fresh(env, host, request, &paths, tag, asset)
    }
}

/// `core install`.
pub fn cmd_install(env: &HostEnv, host: &mut Replay, args: &CoreInstallArgs) -> (r: Result<
    CoreReport,
    Halt,
>)
    ensures
        final(host).seen() == old(host).seen(),
        ran_view(r, final(host).pos()) == outcome_at(
            CoreCommandView::Install(args@),
            env@,
            old(host).seen(),
            old(host).pos(),
        ),
{
    ensure_linux_host(env)?;
    let request = CoreInstallRequest {
        version: args.version.clone(),
        mirror: args.mirror,
        amd64_variant: args.amd64_variant,
        force: args.force,
    };
    install_mihomo_core(env, host, &request)
}

/// `core upgrade`.
pub fn cmd_upgrade(env: &HostEnv, host: &mut Replay, args: &CoreUpgradeArgs) -> (r: Result<
    CoreReport,
    Halt,
>)
    ensures
        final(host).seen() == old(host).seen(),
        ran_view(r, final(host).pos()) == outcome_at(
            CoreCommandView::Upgrade(args.mirror, args.amd64_variant, args.force),
            env@,
            old(host).seen(),
            old(host).pos(),
        ),
{
    ensure_linux_host(env)?;
    let request = CoreInstallRequest {
        version: owned("latest"),
        mirror: args.mirror,
        amd64_variant: args.amd64_variant,
        force: args.force,
    };
    install_mihomo_core(env, host, &request)
}

/// `core version`.
pub fn cmd_version(env: &HostEnv, host: &mut Replay) -> (r: Result<CoreReport, Halt>)
    ensures
        final(host).seen() == old(host).seen(),
        ran_view(r, final(host).pos()) == version_shown(env@, old(host).seen(), old(host).pos()),
{
    proof {
        reveal(version_shown);
    }
    let paths = app_paths(env, host)?;
    if !path_exists(host, paths.core_meta_file.as_str())? {
        return Ok(CoreReport::Version { version: None });
    }
    let meta = load_core_meta(host, paths.core_meta_file.as_str())?;
    Ok(CoreReport::Version { version: Some(meta.version) })
}

/// `core path`.
pub fn cmd_path(env: &HostEnv, host: &mut Replay) -> (r: Result<CoreReport, Halt>)
    ensures
        final(host).seen() == old(host).seen(),
        ran_view(r, final(host).pos()) == path_shown(env@, old(host).seen(), old(host).pos()),
{
    proof {
        reveal(path_shown);
    }
    let paths = app_paths(env, host)?;
    if !path_exists(host, paths.core_current_link.as_str())? {
        return Ok(CoreReport::Path { path: None });
    }
    Ok(CoreReport::Path { path: Some(paths.core_current_link) })
}

/// Runs a `core` command from a position of the record.
pub fn run_on(command: &CoreCommand, env: &HostEnv, host: &mut Replay) -> (r: Result<
    CoreReport,
    Halt,
>)
    ensures
        final(host).seen() == old(host).seen(),
        ran_view(r, final(host).pos()) == outcome_at(
            command@,
            env@,
            old(host).seen(),
            old(host).pos(),
        ),
{
    match command {
        CoreCommand::Install(args) => cmd_install(env, host, args),
        CoreCommand::Upgrade(args) => cmd_upgrade(env, host, args),
        CoreCommand::Version => cmd_version(env, host),
        CoreCommand::Path => cmd_path(env, host),
    }
}

/// Runs a `core` command over the record of what it asked of the machine
/// so far.
pub fn run(command: &CoreCommand, env: &HostEnv, log: &Vec<Exchange>) -> (r: Step<CoreReport>)
    ensures
        r@ == told(outcome(command@, env@, record_views(log@)), log@.len()),
{
    let mut host = Replay::new(log);
    let result = run_on(command, env, &mut host);
    conclude(result, host.at, log.len())
}

} // verus!
