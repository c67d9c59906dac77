//! Diagnostics: a fixed battery of checks of the environment and of the
//! configuration, each found out on its own and classified as pass, warn
//! or fail.

use crate::host::{
    ExchangeView, ask, bind, done, halted, owned, Effect, EffectView, FaultKind, FaultView, Halt,
    HaltView, Program, Ran, Replay, ReplyView,
};
use crate::text::{chars_of, concat, concat3, is_word, text_of, trim, trim_chars};
use crate::tun::backend::{command_exists, tool_exists};
use crate::tun::config::{load_existing, load_existing_config};
use crate::tun::guard::{cap_eff, has_bit, mask_has_bit, read_cap_eff};
use crate::yaml::{bool_at, bool_field, key_value, string_field, text_at, Node, NodeView};
use vstd::prelude::*;

verus! {

/// The device node of the TUN driver.
pub const TUN_DEVICE_PATH: &'static str = "/dev/net/tun";

/// Where the kernel says whether it forwards IPv4 packets.
pub const IP_FORWARD_PATH: &'static str = "/proc/sys/net/ipv4/ip_forward";

/// Where the kernel says how it filters by reverse path.
pub const RP_FILTER_PATH: &'static str = "/proc/sys/net/ipv4/conf/all/rp_filter";

/// How a check ended.
#[derive(Clone, Copy, Debug, PartialEq, Eq, Structural)]
pub enum CheckLevel {
    Pass,
    Warn,
    Fail,
}

/// The result of one check.
#[derive(Debug)]
pub struct CheckItem {
    pub name: String,
    pub level: CheckLevel,
    pub message: String,
    pub suggestion: Option<String>,
}

pub struct CheckItemView {
    pub name: Seq<char>,
    pub level: CheckLevel,
    pub message: Seq<char>,
    pub suggestion: Option<Seq<char>>,
}

impl View for CheckItem {
    type V = CheckItemView;

    open spec fn view(&self) -> CheckItemView {
        CheckItemView {
            name: self.name@,
            level: self.level,
            message: self.message@,
            suggestion: match self.suggestion {
                Some(s) => Some(s@),
                None => None,
            },
        }
    }
}

/// The views of a list of results.
pub open spec fn item_views(items: Seq<CheckItem>) -> Seq<CheckItemView> {
    Seq::new(items.len(), |i: int| items[i]@)
}

pub open spec fn passed(name: Seq<char>, message: Seq<char>) -> CheckItemView {
    CheckItemView { name, level: CheckLevel::Pass, message, suggestion: None }
}

pub open spec fn warned(name: Seq<char>, message: Seq<char>, suggestion: Seq<char>) -> CheckItemView {
    CheckItemView { name, level: CheckLevel::Warn, message, suggestion: Some(suggestion) }
}

pub open spec fn failing(name: Seq<char>, message: Seq<char>, suggestion: Seq<char>) -> CheckItemView {
    CheckItemView { name, level: CheckLevel::Fail, message, suggestion: Some(suggestion) }
}

/// A check that passed.
pub fn pass(name: &str, message: &str) -> (r: CheckItem)
    ensures
        r@ == passed(name@, message@),
{
    CheckItem {
        name: owned(name),
        level: CheckLevel::Pass,
        message: owned(message),
        suggestion: None,
    }
}

/// A check that found something to improve.
pub fn warn(name: &str, message: &str, suggestion: &str) -> (r: CheckItem)
    ensures
        r@ == warned(name@, message@, suggestion@),
{
    CheckItem {
        name: owned(name),
        level: CheckLevel::Warn,
        message: owned(message),
        suggestion: Some(owned(suggestion)),
    }
}

/// A check that failed.
pub fn fail(name: &str, message: &str, suggestion: &str) -> (r: CheckItem)
    ensures
        r@ == failing(name@, message@, suggestion@),
{
    CheckItem {
        name: owned(name),
        level: CheckLevel::Fail,
        message: owned(message),
        suggestion: Some(owned(suggestion)),
    }
}

impl CheckLevel {
    pub open spec fn label(self) -> Seq<char> {
        match self {
            CheckLevel::Pass => "PASS"@,
            CheckLevel::Warn => "WARN"@,
            CheckLevel::Fail => "FAIL"@,
        }
    }
}

/// The label under which a level is printed.
pub fn check_level_str(level: CheckLevel) -> (r: &'static str)
    ensures
        r@ == level.label(),
{
    match level {
        CheckLevel::Pass => "PASS",
        CheckLevel::Warn => "WARN",
        CheckLevel::Fail => "FAIL",
    }
}

/// How a switch that may be unset is printed.
pub open spec fn switch_text(v: Option<bool>) -> Seq<char> {
    match v {
        Some(true) => "true"@,
        Some(false) => "false"@,
        None => "未配置"@,
    }
}

pub fn bool_or_unset(v: Option<bool>) -> (r: &'static str)
    ensures
        r@ == switch_text(v),
{
    match v {
        Some(true) => "true",
        Some(false) => "false",
        None => "未配置",
    }
}

/// How yes and no are printed.
pub fn yes_no(v: bool) -> (r: &'static str)
    ensures
        r@ == (if v {
            "是"@
        } else {
            "否"@
        }),
{
    if v {
        "是"
    } else {
        "否"
    }
}

/// How many of the results have this level.
pub open spec fn count_level(items: Seq<CheckItemView>, level: CheckLevel) -> nat
    decreases items.len(),
{
    if items.len() == 0 {
        0
    } else {
        count_level(items.drop_last(), level) + if items.last().level == level {
            1nat
        } else {
            0nat
        }
    }
}

pub proof fn lemma_count_bound(items: Seq<CheckItemView>, level: CheckLevel)
    ensures
        count_level(items, level) <= items.len(),
    decreases items.len(),
{
    if items.len() > 0 {
        lemma_count_bound(items.drop_last(), level);
    }
}

/// The number of results that passed, warned and failed.
pub fn summarize_checks(checks: &Vec<CheckItem>) -> (r: (usize, usize, usize))
    ensures
        r.0 == count_level(item_views(checks@), CheckLevel::Pass),
        r.1 == count_level(item_views(checks@), CheckLevel::Warn),
        r.2 == count_level(item_views(checks@), CheckLevel::Fail),
        r.0 + r.1 + r.2 == checks.len(),
{
    let mut pass_count: usize = 0;
    let mut warn_count: usize = 0;
    let mut fail_count: usize = 0;
    let ghost all = item_views(checks@);
    let mut i: usize = 0;
    while i < checks.len()
        invariant
            i <= checks.len(),
            all == item_views(checks@),
            pass_count == count_level(all.subrange(0, i as int), CheckLevel::Pass),
            warn_count == count_level(all.subrange(0, i as int), CheckLevel::Warn),
            fail_count == count_level(all.subrange(0, i as int), CheckLevel::Fail),
            pass_count + warn_count + fail_count == i,
        decreases checks.len() - i,
    {
        proof {
            let next = all.subrange(0, i + 1);
            assert(next.drop_last() =~= all.subrange(0, i as int));
            assert(next.last() == checks@[i as int]@);
        }
        match checks[i].level {
            CheckLevel::Pass => {
                pass_count += 1;
            },
            CheckLevel::Warn => {
                warn_count += 1;
            },
            CheckLevel::Fail => {
                fail_count += 1;
            },
        }
        i = i + 1;
    }
    assert(all.subrange(0, checks.len() as int) =~= all);
    (pass_count, warn_count, fail_count)
}

// ---------------------------------------------------------------------------
// Checks of the configuration
// ---------------------------------------------------------------------------

/// `tun.enable` must be on.
pub open spec fn enable_finding(on: bool) -> CheckItemView {
    if on {
        passed("tun.enable"@, "已开启"@)
    } else {
        failing("tun.enable"@, "未开启"@, "请设置 tun.enable: true"@)
    }
}

/// `tun.auto-route` should be on.
pub open spec fn auto_route_finding(v: Option<bool>) -> CheckItemView {
    match v {
        Some(true) => passed("tun.auto-route"@, "已开启"@),
        Some(false) => warned(
            "tun.auto-route"@,
            "已关闭"@,
            "建议开启 auto-route，避免手工维护路由"@,
        ),
        None => warned("tun.auto-route"@, "未配置"@, "建议显式设置 tun.auto-route: true"@),
    }
}

/// `tun.auto-detect-interface` should be on.
pub open spec fn auto_detect_finding(v: Option<bool>) -> CheckItemView {
    match v {
        Some(true) => passed("tun.auto-detect-interface"@, "已开启"@),
        Some(false) => warned(
            "tun.auto-detect-interface"@,
            "已关闭"@,
            "建议开启 auto-detect-interface，减少多网卡误判"@,
        ),
        None => warned(
            "tun.auto-detect-interface"@,
            "未配置"@,
            "建议显式设置 tun.auto-detect-interface: true"@,
        ),
    }
}

/// `tun.auto-redirect` should be on, and then needs `tun.auto-route`.
pub open spec fn auto_redirect_finding(redirect: bool, route: Option<bool>) -> CheckItemView {
    if redirect {
        if route == Some(true) {
            passed("tun.auto-redirect"@, "已开启且依赖满足(auto-route=true)"@)
        } else {
            failing(
                "tun.auto-redirect"@,
                "已开启但 auto-route 未开启"@,
                "请先开启 tun.auto-route"@,
            )
        }
    } else {
        warned("tun.auto-redirect"@, "已关闭"@, "Linux 下建议开启以增强 TCP 转发性能"@)
    }
}

/// `tun.strict-route` should be set.
pub open spec fn strict_route_finding(v: Option<bool>) -> CheckItemView {
    match v {
        Some(true) => passed("tun.strict-route"@, "已开启"@),
        Some(false) => warned("tun.strict-route"@, "已关闭"@, "建议按场景评估后开启"@),
        None => warned(
            "tun.strict-route"@,
            "未配置"@,
            "建议显式配置 strict-route，避免行为不确定"@,
        ),
    }
}

/// `tun.stack` should be `mixed`.
pub open spec fn stack_finding(v: Option<Seq<char>>) -> CheckItemView {
    match v {
        Some(s) => if s == "mixed"@ {
            passed("tun.stack"@, "当前为 mixed（推荐）"@)
        } else if s == "gvisor"@ {
            warned("tun.stack"@, "当前为 gvisor"@, "文档建议优先使用 mixed"@)
        } else if s == "system"@ {
            warned(
                "tun.stack"@,
                "当前为 system"@,
                "请确认当前内核网络栈与路由策略是否匹配"@,
            )
        } else {
            warned("tun.stack"@, "当前为 "@ + s, "请确认该值受支持"@)
        },
        None => warned("tun.stack"@, "未配置"@, "建议显式设置 tun.stack: mixed"@),
    }
}

/// `dns.enable` should be on.
pub open spec fn dns_enable_finding(v: Option<bool>) -> CheckItemView {
    match v {
        Some(true) => passed("dns.enable"@, "已开启"@),
        Some(false) => warned(
            "dns.enable"@,
            "已关闭"@,
            "tun 场景建议开启 dns，避免解析绕过"@,
        ),
        None => warned("dns.enable"@, "未配置"@, "建议显式设置 dns.enable: true"@),
    }
}

/// `dns.enhanced-mode` should be `fake-ip`.
pub open spec fn dns_mode_finding(v: Option<Seq<char>>) -> CheckItemView {
    match v {
        Some(s) => if s == "fake-ip"@ {
            passed("dns.enhanced-mode"@, "当前为 fake-ip（推荐）"@)
        } else {
            warned("dns.enhanced-mode"@, "当前为 "@ + s, "tun 场景建议使用 fake-ip"@)
        },
        None => warned(
            "dns.enhanced-mode"@,
            "未配置"@,
            "建议显式设置 dns.enhanced-mode: fake-ip"@,
        ),
    }
}

/// What the checks of a configuration found, and the two switches that
/// decide whether the rules are looked at.
#[derive(Debug)]
pub struct ConfigChecks {
    pub items: Vec<CheckItem>,
    pub tun_enable: bool,
    pub auto_redirect: bool,
}

pub struct ConfigChecksView {
    pub items: Seq<CheckItemView>,
    pub tun_enable: bool,
    pub auto_redirect: bool,
}

impl View for ConfigChecks {
    type V = ConfigChecksView;

    open spec fn view(&self) -> ConfigChecksView {
        ConfigChecksView {
            items: item_views(self.items@),
            tun_enable: self.tun_enable,
            auto_redirect: self.auto_redirect,
        }
    }
}

/// The findings for a configuration, one for each field, in fixed order.
pub open spec fn config_findings(root: NodeView) -> ConfigChecksView {
    let tun = root.field("tun"@);
    let dns = root.field("dns"@);
    let tun_enable = bool_at(tun, "enable"@) == Some(true);
    let auto_route = bool_at(tun, "auto-route"@);
    let auto_redirect = bool_at(tun, "auto-redirect"@) == Some(true);
    ConfigChecksView {
        items: seq![
            enable_finding(tun_enable),
            auto_route_finding(auto_route),
            auto_detect_finding(bool_at(tun, "auto-detect-interface"@)),
            auto_redirect_finding(auto_redirect, auto_route),
            strict_route_finding(bool_at(tun, "strict-route"@)),
            stack_finding(text_at(tun, "stack"@)),
            dns_enable_finding(bool_at(dns, "enable"@)),
            dns_mode_finding(text_at(dns, "enhanced-mode"@)),
        ],
        tun_enable,
        auto_redirect,
    }
}

fn switch_item(
    v: Option<bool>,
    name: &str,
    off: &str,
    advice_off: &str,
    advice_unset: &str,
) -> (r: CheckItem)
    ensures
        r@ == (match v {
            Some(true) => passed(name@, "已开启"@),
            Some(false) => warned(name@, off@, advice_off@),
            None => warned(name@, "未配置"@, advice_unset@),
        }),
{
    match v {
        Some(true) => pass(name, "已开启"),
        Some(false) => warn(name, off, advice_off),
        None => warn(name, "未配置", advice_unset),
    }
}

fn enable_item(on: bool) -> (r: CheckItem)
    ensures
        r@ == enable_finding(on),
{
    if on {
        pass("tun.enable", "已开启")
    } else {
        fail("tun.enable", "未开启", "请设置 tun.enable: true")
    }
}

fn auto_route_item(v: Option<bool>) -> (r: CheckItem)
    ensures
        r@ == auto_route_finding(v),
{
    switch_item(
        v,
        "tun.auto-route",
        "已关闭",
        "建议开启 auto-route，避免手工维护路由",
        "建议显式设置 tun.auto-route: true",
    )
}

fn auto_detect_item(v: Option<bool>) -> (r: CheckItem)
    ensures
        r@ == auto_detect_finding(v),
{
    switch_item(
        v,
        "tun.auto-detect-interface",
        "已关闭",
        "建议开启 auto-detect-interface，减少多网卡误判",
        "建议显式设置 tun.auto-detect-interface: true",
    )
}

fn auto_redirect_item(redirect: bool, route: Option<bool>) -> (r: CheckItem)
    ensures
        r@ == auto_redirect_finding(redirect, route),
{
    if redirect {
        match route {
            Some(true) => pass("tun.auto-redirect", "已开启且依赖满足(auto-route=true)"),
            _ => fail(
                "tun.auto-redirect",
                "已开启但 auto-route 未开启",
                "请先开启 tun.auto-route",
            ),
        }
    } else {
        warn("tun.auto-redirect", "已关闭", "Linux 下建议开启以增强 TCP 转发性能")
    }
}

fn strict_route_item(v: Option<bool>) -> (r: CheckItem)
    ensures
        r@ == strict_route_finding(v),
{
    switch_item(
        v,
        "tun.strict-route",
        "已关闭",
        "建议按场景评估后开启",
        "建议显式配置 strict-route，避免行为不确定",
    )
}

fn stack_item(stack: Option<String>) -> (r: CheckItem)
    ensures
        r@ == stack_finding(crate::host::text_view(stack)),
{
    match stack {
        Some(v) => {
            let c = chars_of(v.as_str());
            if is_word(&c, "mixed") {
                pass("tun.stack", "当前为 mixed（推荐）")
            } else if is_word(&c, "gvisor") {
                warn("tun.stack", "当前为 gvisor", "文档建议优先使用 mixed")
            } else if is_word(&c, "system") {
                warn(
                    "tun.stack",
                    "当前为 system",
                    "请确认当前内核网络栈与路由策略是否匹配",
                )
            } else {
                let message = concat("当前为 ", v.as_str());
                warn("tun.stack", message.as_str(), "请确认该值受支持")
            }
        },
        None => warn("tun.stack", "未配置", "建议显式设置 tun.stack: mixed"),
    }
}

fn dns_enable_item(v: Option<bool>) -> (r: CheckItem)
    ensures
        r@ == dns_enable_finding(v),
{
    switch_item(
        v,
        "dns.enable",
        "已关闭",
        "tun 场景建议开启 dns，避免解析绕过",
        "建议显式设置 dns.enable: true",
    )
}

fn dns_mode_item(mode: Option<String>) -> (r: CheckItem)
    ensures
        r@ == dns_mode_finding(crate::host::text_view(mode)),
{
    match mode {
        Some(v) => {
            let c = chars_of(v.as_str());
            if is_word(&c, "fake-ip") {
                pass("dns.enhanced-mode", "当前为 fake-ip（推荐）")
            } else {
                let message = concat("当前为 ", v.as_str());
                warn("dns.enhanced-mode", message.as_str(), "tun 场景建议使用 fake-ip")
            }
        },
        None => warn("dns.enhanced-mode", "未配置", "建议显式设置 dns.enhanced-mode: fake-ip"),
    }
}

/// Checks the fields of a configuration.
pub fn check_config_fields(root: &Node) -> (r: ConfigChecks)
    ensures
        r@ == config_findings(root@),
{
    let tun = key_value(root, "tun");
    let dns = key_value(root, "dns");
    let tun_enable = match bool_field(tun, "enable") {
        Some(b) => b,
        None => false,
    };
    let auto_route = bool_field(tun, "auto-route");
    let auto_redirect = match bool_field(tun, "auto-redirect") {
        Some(b) => b,
        None => false,
    };
    let strict_route = bool_field(tun, "strict-route");
    let auto_detect_interface = bool_field(tun, "auto-detect-interface");
    let tun_stack = string_field(tun, "stack");
    let dns_enable = bool_field(dns, "enable");
    let dns_mode = string_field(dns, "enhanced-mode");

    let mut items: Vec<CheckItem> = Vec::new();
    items.push(enable_item(tun_enable));
    items.push(auto_route_item(auto_route));
    items.push(auto_detect_item(auto_detect_interface));
    items.push(auto_redirect_item(auto_redirect, auto_route));
    items.push(strict_route_item(strict_route));
    items.push(stack_item(tun_stack));
    items.push(dns_enable_item(dns_enable));
    items.push(dns_mode_item(dns_mode));
    assert(item_views(items@) =~= config_findings(root@).items);
    ConfigChecks { items, tun_enable, auto_redirect }
}

// ---------------------------------------------------------------------------
// Checks of the environment
// ---------------------------------------------------------------------------

/// The TUN device must exist.
pub open spec fn device_check(log: Seq<ExchangeView>, at: int) -> Ran<CheckItemView> {
    bind(
        ask(log, at, EffectView::PathExists(TUN_DEVICE_PATH@)),
        |r: ReplyView, at1: int|
            if r.ok {
                done(passed("TUN 设备(/dev/net/tun)"@, "设备节点存在"@), at1)
            } else {
                done(
                    failing(
                        "TUN 设备(/dev/net/tun)"@,
                        "未找到设备节点"@,
                        "请确认内核支持 TUN，并加载 tun 模块"@,
                    ),
                    at1,
                )
            },
    )
}

/// Why the capability mask could not be found out.
pub open spec fn cap_trouble(kind: FaultKind) -> Seq<char> {
    match kind {
        FaultKind::CapRead => "读取 /proc/self/status 失败"@,
        FaultKind::CapParse => "解析 CapEff 失败"@,
        _ => "未找到 CapEff 字段"@,
    }
}

/// The process must have the capability with this bit; where the mask
/// cannot be found out, the check only warns.
pub open spec fn capability_check(
    log: Seq<ExchangeView>,
    at: int,
    bit: u32,
    cap_name: Seq<char>,
    suggestion: Seq<char>,
) -> Ran<CheckItemView> {
    let mask = cap_eff(log, at);
    match mask.out {
        Ok(m) => if has_bit(m, bit) {
            done(passed(cap_name, "当前进程具备能力"@), mask.at)
        } else {
            done(failing(cap_name, "当前进程缺少能力"@, suggestion), mask.at)
        },
        Err(HaltView::Need(e)) => halted(HaltView::Need(e), mask.at),
        Err(HaltView::Fail(f)) => done(
            warned(
                cap_name,
                "无法检测 capability: "@ + cap_trouble(f.kind),
                "可手动检查 /proc/self/status 的 CapEff 字段"@,
            ),
            mask.at,
        ),
    }
}

/// A firewall backend must be installed: nft passes, iptables alone warns.
pub open spec fn backend_check(log: Seq<ExchangeView>, at: int) -> Ran<CheckItemView> {
    bind(
        tool_exists(log, at, Program::Nft),
        |nft: bool, at1: int|
            if nft {
                done(passed("防火墙后端"@, "检测到 nft，可优先使用 nftables"@), at1)
            } else {
                bind(
                    tool_exists(log, at1, Program::Iptables),
                    |ipt: bool, at2: int|
                        if ipt {
                            done(
                                warned(
                                    "防火墙后端"@,
                                    "未检测到 nft，回退使用 iptables"@,
                                    "建议安装 nftables，后续 tun 规则管理更稳"@,
                                ),
                                at2,
                            )
                        } else {
                            done(
                                failing(
                                    "防火墙后端"@,
                                    "未检测到 nft/iptables"@,
                                    "请安装 nftables 或 iptables"@,
                                ),
                                at2,
                            )
                        },
                )
            },
    )
}

/// A kernel setting should have the expected value.
pub open spec fn sysctl_check(
    log: Seq<ExchangeView>,
    at: int,
    path: Seq<char>,
    name: Seq<char>,
    expected: Seq<char>,
    suggestion: Seq<char>,
) -> Ran<CheckItemView> {
    bind(
        ask(log, at, EffectView::ReadFile(path)),
        |r: ReplyView, at1: int|
            if !r.ok {
                done(warned(name, "读取失败: "@ + r.detail, "请手动检查 sysctl 参数"@), at1)
            } else if trim(r.text) == expected {
                done(passed(name, "当前值="@ + trim(r.text)), at1)
            } else {
                done(
                    warned(
                        name,
                        "当前值="@ + trim(r.text) + "，期望值="@ + expected,
                        suggestion,
                    ),
                    at1,
                )
            },
    )
}

/// The reverse-path filter should be off (`0`) or loose (`2`).
pub open spec fn rp_filter_check(log: Seq<ExchangeView>, at: int) -> Ran<CheckItemView> {
    bind(
        ask(log, at, EffectView::ReadFile(RP_FILTER_PATH@)),
        |r: ReplyView, at1: int|
            if !r.ok {
                done(
                    warned(
                        "反向路径过滤(net.ipv4.conf.all.rp_filter)"@,
                        "读取失败: "@ + r.detail,
                        "请手动检查 rp_filter"@,
                    ),
                    at1,
                )
            } else if trim(r.text) == "0"@ || trim(r.text) == "2"@ {
                done(
                    passed(
                        "反向路径过滤(net.ipv4.conf.all.rp_filter)"@,
                        "当前值="@ + trim(r.text),
                    ),
                    at1,
                )
            } else {
                done(
                    warned(
                        "反向路径过滤(net.ipv4.conf.all.rp_filter)"@,
                        "当前值="@ + trim(r.text) + "，建议设置为 0 或 2"@,
                        "可执行: sudo sysctl -w net.ipv4.conf.all.rp_filter=0"@,
                    ),
                    at1,
                )
            },
    )
}

/// Why the configuration could not be loaded.
pub open spec fn load_trouble(f: FaultView, path: Seq<char>) -> Seq<char> {
    if f.kind == FaultKind::ConfigRead {
        "读取失败: 读取配置失败: "@ + path
    } else {
        "读取失败: 解析 YAML 失败: "@ + path
    }
}

/// The checks of the configuration file: a missing file warns, one that
/// cannot be loaded fails, and a loaded one has its fields checked.
#[verifier::opaque]
pub open spec fn config_check(log: Seq<ExchangeView>, at: int, path: Seq<char>) -> Ran<
    ConfigChecksView,
> {
    bind(
        ask(log, at, EffectView::PathExists(path)),
        |there: ReplyView, at1: int|
            if !there.ok {
                done(
                    ConfigChecksView {
                        items: seq![
                            warned(
                                "运行配置(runtime/config.yaml)"@,
                                "未找到配置文件: "@ + path,
                                "先执行 `clash service install` 生成模板配置"@,
                            ),
                        ],
                        tun_enable: false,
                        auto_redirect: false,
                    },
                    at1,
                )
            } else {
                let loaded = load_existing(log, at1, path);
                match loaded.out {
                    Ok(l) => done(config_findings(l.root), loaded.at),
                    Err(HaltView::Need(e)) => halted(HaltView::Need(e), loaded.at),
                    Err(HaltView::Fail(f)) => done(
                        ConfigChecksView {
                            items: seq![
                                failing(
                                    "运行配置(runtime/config.yaml)"@,
                                    load_trouble(f, path),
                                    "请检查配置文件权限与 YAML 格式"@,
                                ),
                            ],
                            tun_enable: false,
                            auto_redirect: false,
                        },
                        loaded.at,
                    ),
                }
            },
    )
}

/// The view of a result over one finding.
pub open spec fn ran_item(r: Result<CheckItem, Halt>, at: int) -> Ran<CheckItemView> {
    Ran {
        out: match r {
            Ok(i) => Ok(i@),
            Err(h) => Err(h@),
        },
        at,
    }
}

/// The view of a result over the findings of a configuration.
pub open spec fn ran_config_checks(r: Result<ConfigChecks, Halt>, at: int) -> Ran<
    ConfigChecksView,
> {
    Ran {
        out: match r {
            Ok(c) => Ok(c@),
            Err(h) => Err(h@),
        },
        at,
    }
}

/// Checks that the TUN device exists.
pub fn check_tun_device(host: &mut Replay) -> (r: Result<CheckItem, Halt>)
    ensures
        final(host).seen() == old(host).seen(),
        ran_item(r, final(host).pos()) == device_check(old(host).seen(), old(host).pos()),
{
    let reply = host.perform(Effect::PathExists(owned(TUN_DEVICE_PATH)))?;
    if !reply.ok {
        return Ok(
            fail(
                "TUN 设备(/dev/net/tun)",
                "未找到设备节点",
                "请确认内核支持 TUN，并加载 tun 模块",
            ),
        );
    }
    Ok(pass("TUN 设备(/dev/net/tun)", "设备节点存在"))
}

/// Checks that the process has the capability with this bit.
pub fn check_capability(host: &mut Replay, bit: u32, cap_name: &str, suggestion: &str) -> (r:
    Result<CheckItem, Halt>)
    requires
        bit < 64,
    ensures
        final(host).seen() == old(host).seen(),
        ran_item(r, final(host).pos()) == capability_check(
            old(host).seen(),
            old(host).pos(),
            bit,
            cap_name@,
            suggestion@,
        ),
{
    match read_cap_eff(host) {
        Ok(mask) => {
            if mask_has_bit(mask, bit) {
                Ok(pass(cap_name, "当前进程具备能力"))
            } else {
                Ok(fail(cap_name, "当前进程缺少能力", suggestion))
            }
        },
        Err(Halt::Need(e)) => Err(Halt::Need(e)),
        Err(Halt::Fail(f)) => {
            let why = match f.kind {
                FaultKind::CapRead => "读取 /proc/self/status 失败",
                FaultKind::CapParse => "解析 CapEff 失败",
                _ => "未找到 CapEff 字段",
            };
            let message = concat("无法检测 capability: ", why);
            Ok(warn(cap_name, message.as_str(), "可手动检查 /proc/self/status 的 CapEff 字段"))
        },
    }
}

/// Checks that a firewall backend is installed.
pub fn check_backend(host: &mut Replay) -> (r: Result<CheckItem, Halt>)
    ensures
        final(host).seen() == old(host).seen(),
        ran_item(r, final(host).pos()) == backend_check(old(host).seen(), old(host).pos()),
{
    if command_exists(host, Program::Nft)? {
        return Ok(pass("防火墙后端", "检测到 nft，可优先使用 nftables"));
    }
    if command_exists(host, Program::Iptables)? {
        return Ok(
            warn(
                "防火墙后端",
                "未检测到 nft，回退使用 iptables",
                "建议安装 nftables，后续 tun 规则管理更稳",
            ),
        );
    }
    Ok(fail("防火墙后端", "未检测到 nft/iptables", "请安装 nftables 或 iptables"))
}

/// Checks that a kernel setting has the expected value.
pub fn check_sysctl_value(
    host: &mut Replay,
    path: &str,
    name: &str,
    expected: &str,
    suggestion: &str,
) -> (r: Result<CheckItem, Halt>)
    ensures
        final(host).seen() == old(host).seen(),
        ran_item(r, final(host).pos()) == sysctl_check(
            old(host).seen(),
            old(host).pos(),
            path@,
            name@,
            expected@,
            suggestion@,
        ),
{
    let reply = host.perform(Effect::ReadFile(owned(path)))?;
    if !reply.ok {
        let message = concat("读取失败: ", reply.detail.as_str());
        return Ok(warn(name, message.as_str(), "请手动检查 sysctl 参数"));
    }
    let current = trim_chars(&chars_of(reply.text.as_str()));
    let shown = text_of(&current);
    if is_word(&current, expected) {
        let message = concat("当前值=", shown.as_str());
        Ok(pass(name, message.as_str()))
    } else {
        let head = concat3("当前值=", shown.as_str(), "，期望值=");
        let message = concat(head.as_str(), expected);
        Ok(warn(name, message.as_str(), suggestion))
    }
}

/// Checks the reverse-path filter.
pub fn check_rp_filter(host: &mut Replay) -> (r: Result<CheckItem, Halt>)
    ensures
        final(host).seen() == old(host).seen(),
        ran_item(r, final(host).pos()) == rp_filter_check(old(host).seen(), old(host).pos()),
{
    let reply = host.perform(Effect::ReadFile(owned(RP_FILTER_PATH)))?;
    if !reply.ok {
        let message = concat("读取失败: ", reply.detail.as_str());
        return Ok(
            warn(
                "反向路径过滤(net.ipv4.conf.all.rp_filter)",
                message.as_str(),
                "请手动检查 rp_filter",
            ),
        );
    }
    let current = trim_chars(&chars_of(reply.text.as_str()));
    let shown = text_of(&current);
    if is_word(&current, "0") || is_word(&current, "2") {
        let message = concat("当前值=", shown.as_str());
        Ok(pass("反向路径过滤(net.ipv4.conf.all.rp_filter)", message.as_str()))
    } else {
        let message = concat3("当前值=", shown.as_str(), "，建议设置为 0 或 2");
        Ok(
            warn(
                "反向路径过滤(net.ipv4.conf.all.rp_filter)",
                message.as_str(),
                "可执行: sudo sysctl -w net.ipv4.conf.all.rp_filter=0",
            ),
        )
    }
}

/// A list with one finding.
fn single(item: CheckItem) -> (r: Vec<CheckItem>)
    ensures
        item_views(r@) == seq![item@],
{
    let mut items: Vec<CheckItem> = Vec::new();
    items.push(item);
    assert(item_views(items@) =~= seq![item@]);
    items
}

/// Checks the configuration file.
pub fn check_config(host: &mut Replay, config_path: &str) -> (r: Result<ConfigChecks, Halt>)
    ensures
        final(host).seen() == old(host).seen(),
        ran_config_checks(r, final(host).pos()) == config_check(
            old(host).seen(),
            old(host).pos(),
            config_path@,
        ),
{
    proof {
        reveal(config_check);
    }
    let there = host.perform(Effect::PathExists(owned(config_path)))?;
    if !there.ok {
        let message = concat("未找到配置文件: ", config_path);
        return Ok(
            ConfigChecks {
                items: single(
                    warn(
                        "运行配置(runtime/config.yaml)",
                        message.as_str(),
                        "先执行 `clash service install` 生成模板配置",
                    ),
                ),
                tun_enable: false,
                auto_redirect: false,
            },
        );
    }
    match load_existing_config(host, config_path) {
        Ok(loaded) => Ok(check_config_fields(&loaded.root)),
        Err(Halt::Need(e)) => Err(Halt::Need(e)),
        Err(Halt::Fail(f)) => {
            let message = if f.kind == FaultKind::ConfigRead {
                concat("读取失败: 读取配置失败: ", config_path)
            } else {
                concat("读取失败: 解析 YAML 失败: ", config_path)
            };
            Ok(
                ConfigChecks {
                    items: single(
                        fail(
                            "运行配置(runtime/config.yaml)",
                            message.as_str(),
                            "请检查配置文件权限与 YAML 格式",
                        ),
                    ),
                    tun_enable: false,
                    auto_redirect: false,
                },
            )
        },
    }
}

} // verus!
