//! The words for what went wrong: the text of each kind of failure, and
//! the message of a failure with what the machine said.

use crate::cli::UnitAction;
use crate::host::{owned, Fault, FaultKind, FaultView};
use crate::setup::{Warning, WarningKind, WarningView};
use crate::text::{
    chars_of, concat3, contains, find_char, first_index, occurs_at, push_str, text_of, trim,
    trimmed,
};
use vstd::prelude::*;

verus! {

/// The capability to administer the network.
pub const CAP_NET_ADMIN_NAME: &'static str = "CAP_NET_ADMIN";

/// The capability to use raw sockets.
pub const CAP_NET_RAW_NAME: &'static str = "CAP_NET_RAW";

/// What is said where the privileges do not suffice: what is needed, root
/// or both capabilities by their names, and how to go on.
pub open spec fn privilege_text() -> Seq<char> {
    "当前权限不足：需要 root 或 "@ + CAP_NET_ADMIN_NAME@ + " + "@ + CAP_NET_RAW_NAME@
        + "。请使用 sudo 执行，例如 `sudo clash tun on`"@
}

/// The text of a kind of failure.
pub open spec fn kind_text(kind: FaultKind) -> Seq<char> {
    match kind {
        FaultKind::RecordMismatch => "内部错误：执行记录与命令不一致"@,
        FaultKind::UnsupportedPlatform => "当前仅支持 Linux 平台"@,
        FaultKind::InsufficientPrivilege => privilege_text(),
        FaultKind::CurrentExeUnknown => "获取当前可执行文件路径失败"@,
        FaultKind::ElevationFailed => "sudo 授权未通过或命令执行失败，请手动使用 sudo 重试"@,
        FaultKind::UserUnknown => "执行 `id -u` 失败"@,
        FaultKind::CapRead => "读取 /proc/self/status 失败"@,
        FaultKind::CapParse => "解析 CapEff 失败"@,
        FaultKind::CapMissing => "未找到 CapEff 字段"@,
        FaultKind::NoSystemctl => "未检测到 systemctl"@,
        FaultKind::DeviceMissing => "未找到 /dev/net/tun，请先修复系统环境"@,
        FaultKind::HomeUnknown => "无法获取 home 目录"@,
        FaultKind::ConfigDirCreate => "创建配置目录失败"@,
        FaultKind::ConfigInit => "初始化配置文件失败"@,
        FaultKind::ConfigRead => "读取配置失败"@,
        FaultKind::ConfigParse => "解析 YAML 失败"@,
        FaultKind::ConfigRender => "序列化 YAML 失败"@,
        FaultKind::ConfigWrite => "写入配置失败"@,
        FaultKind::NoBackend => "未检测到 nft/iptables，无法下发 tun 数据面规则"@,
        FaultKind::ToolMissing => "未检测到命令"@,
        FaultKind::CommandFailed => "命令执行失败"@,
        FaultKind::RulesNotVerified => "规则下发后校验失败"@,
        FaultKind::FallbackFailed => "nft 规则下发失败，回退 iptables 也失败"@,
        FaultKind::CleanupFailed => "清理数据面规则失败"@,
        FaultKind::StateDirCreate => "创建目录失败"@,
        FaultKind::StateWrite => "写入 tun 状态失败"@,
        FaultKind::StateRead => "读取 tun 状态失败"@,
        FaultKind::StatePort => "解析 tun.state.redir_port 失败"@,
        FaultKind::StateStamp => "解析 tun.state.updated_at 失败"@,
        FaultKind::StateNoEnabled => "tun.state 缺少 enabled"@,
        FaultKind::StateNoService => "tun.state 缺少 service_name"@,
        FaultKind::StateNoUserService => "tun.state 缺少 user_service"@,
        FaultKind::StateNoStamp => "tun.state 缺少 updated_at"@,
        FaultKind::ApiRequest => "请求失败"@,
        FaultKind::ProxyStateMissing => "代理尚未配置，请先执行 `clash proxy start`"@,
        FaultKind::ProxyStateRead => "读取代理状态失败"@,
        FaultKind::ProxyStatePort => "解析代理状态端口失败"@,
        FaultKind::ProxyStateField => "代理状态缺少字段"@,
        FaultKind::ShellUnknown => "无法识别当前 shell，请使用 --shell 指定 bash 或 zsh"@,
        FaultKind::FileRead => "读取文件失败"@,
        FaultKind::FileWrite => "写入文件失败"@,
        FaultKind::FileRemove => "删除失败"@,
        FaultKind::DirCreate => "创建目录失败"@,
        FaultKind::ProfileNameEmpty => "profile 名称不能为空"@,
        FaultKind::ProfileName => "profile 名称仅允许字母、数字、-、_、."@,
        FaultKind::ProfileExists => "profile 已存在"@,
        FaultKind::ProfileMissing => "profile 不存在"@,
        FaultKind::NoActiveProfile => "未指定 profile，且当前没有 active profile"@,
        FaultKind::ProfileFileMissing => "profile 文件不存在，请先执行 `clash profile fetch`"@,
        FaultKind::IndexParse => "解析 profile 索引失败"@,
        FaultKind::IndexRender => "序列化 profile 索引失败"@,
        FaultKind::FetchFailed => "请求订阅失败"@,
        FaultKind::FetchNotYaml => "订阅内容不是合法 YAML"@,
        FaultKind::YamlParse => "解析 YAML 失败"@,
        FaultKind::YamlRender => "序列化渲染结果失败"@,
        FaultKind::HomeMismatch => "配置目录不一致，已阻止继续执行"@,
        FaultKind::SystemctlFailed => "systemctl 返回非成功状态"@,
        FaultKind::JournalFailed => "journalctl 返回非成功状态"@,
        FaultKind::UnitExists => "unit 已存在，如需覆盖请加 --force"@,
        FaultKind::BinaryMissing => "未找到内核二进制，请先执行 `clash core install` 或使用 --binary 指定"@,
        FaultKind::JsonUnsupported => "该命令暂不支持 --json，请先去掉 --json 执行"@,
        FaultKind::ReleaseFetch => "请求发布信息失败"@,
        FaultKind::NoLinuxAsset => "MetaCubeX/mihomo 当前版本未找到 Linux 资产"@,
        FaultKind::UnsupportedArch => "暂不支持的架构"@,
        FaultKind::NoMatchingAsset => "未找到匹配资产"@,
        FaultKind::DownloadFailed => "下载失败，已尝试所有源"@,
        FaultKind::UnpackFailed => "解压内核失败"@,
        FaultKind::InstallFailed => "落盘新内核失败"@,
        FaultKind::MetaNoVersion => "元信息缺少 version 字段"@,
        FaultKind::NotRoot => "请使用 root 执行，例如: sudo env CLASH_CLI_HOME=/etc/clash-cli clash setup init --profile-url <URL>"@,
        FaultKind::EmptyProfileUrl => "`--profile-url` 不能为空"@,
        FaultKind::InvalidInstallPath => "无效安装路径"@,
        FaultKind::NothingToApply => "收敛后没有可用 active profile，无法 apply"@,
        FaultKind::CopyFailed => "复制 profile 文件失败"@,
    }
}

/// The message of a failure: the text of its kind, and after it what the
/// machine said, if it said anything, on a line of its own where that has
/// several lines.
pub open spec fn message_text(fault: FaultView) -> Seq<char> {
    let detail = trim(fault.detail);
    if detail.len() == 0 {
        kind_text(fault.kind)
    } else if first_index(detail, '\n') < detail.len() {
        kind_text(fault.kind) + "\n"@ + detail
    } else {
        kind_text(fault.kind) + ": "@ + detail
    }
}

/// What is said where the privileges do not suffice.
pub fn privilege_message() -> (r: String)
    ensures
        r@ == privilege_text(),
{
    let mut out: Vec<char> = Vec::new();
    push_str(&mut out, "当前权限不足：需要 root 或 ");
    push_str(&mut out, CAP_NET_ADMIN_NAME);
    push_str(&mut out, " + ");
    push_str(&mut out, CAP_NET_RAW_NAME);
    push_str(&mut out, "。请使用 sudo 执行，例如 `sudo clash tun on`");
    assert(out@ =~= privilege_text());
    text_of(&out)
}

/// The text of a kind of failure.
pub fn fault_kind_text(kind: FaultKind) -> (r: String)
    ensures
        r@ == kind_text(kind),
{
    match kind {
        FaultKind::RecordMismatch => owned("内部错误：执行记录与命令不一致"),
        FaultKind::UnsupportedPlatform => owned("当前仅支持 Linux 平台"),
        FaultKind::InsufficientPrivilege => privilege_message(),
        FaultKind::CurrentExeUnknown => owned("获取当前可执行文件路径失败"),
        FaultKind::ElevationFailed => owned("sudo 授权未通过或命令执行失败，请手动使用 sudo 重试"),
        FaultKind::UserUnknown => owned("执行 `id -u` 失败"),
        FaultKind::CapRead => owned("读取 /proc/self/status 失败"),
        FaultKind::CapParse => owned("解析 CapEff 失败"),
        FaultKind::CapMissing => owned("未找到 CapEff 字段"),
        FaultKind::NoSystemctl => owned("未检测到 systemctl"),
        FaultKind::DeviceMissing => owned("未找到 /dev/net/tun，请先修复系统环境"),
        FaultKind::HomeUnknown => owned("无法获取 home 目录"),
        FaultKind::ConfigDirCreate => owned("创建配置目录失败"),
        FaultKind::ConfigInit => owned("初始化配置文件失败"),
        FaultKind::ConfigRead => owned("读取配置失败"),
        FaultKind::ConfigParse => owned("解析 YAML 失败"),
        FaultKind::ConfigRender => owned("序列化 YAML 失败"),
        FaultKind::ConfigWrite => owned("写入配置失败"),
        FaultKind::NoBackend => owned("未检测到 nft/iptables，无法下发 tun 数据面规则"),
        FaultKind::ToolMissing => owned("未检测到命令"),
        FaultKind::CommandFailed => owned("命令执行失败"),
        FaultKind::RulesNotVerified => owned("规则下发后校验失败"),
        FaultKind::FallbackFailed => owned("nft 规则下发失败，回退 iptables 也失败"),
        FaultKind::CleanupFailed => owned("清理数据面规则失败"),
        FaultKind::StateDirCreate => owned("创建目录失败"),
        FaultKind::StateWrite => owned("写入 tun 状态失败"),
        FaultKind::StateRead => owned("读取 tun 状态失败"),
        FaultKind::StatePort => owned("解析 tun.state.redir_port 失败"),
        FaultKind::StateStamp => owned("解析 tun.state.updated_at 失败"),
        FaultKind::StateNoEnabled => owned("tun.state 缺少 enabled"),
        FaultKind::StateNoService => owned("tun.state 缺少 service_name"),
        FaultKind::StateNoUserService => owned("tun.state 缺少 user_service"),
        FaultKind::StateNoStamp => owned("tun.state 缺少 updated_at"),
        FaultKind::ApiRequest => owned("请求失败"),
        FaultKind::ProxyStateMissing => owned("代理尚未配置，请先执行 `clash proxy start`"),
        FaultKind::ProxyStateRead => owned("读取代理状态失败"),
        FaultKind::ProxyStatePort => owned("解析代理状态端口失败"),
        FaultKind::ProxyStateField => owned("代理状态缺少字段"),
        FaultKind::ShellUnknown => owned("无法识别当前 shell，请使用 --shell 指定 bash 或 zsh"),
        FaultKind::FileRead => owned("读取文件失败"),
        FaultKind::FileWrite => owned("写入文件失败"),
        FaultKind::FileRemove => owned("删除失败"),
        FaultKind::DirCreate => owned("创建目录失败"),
        FaultKind::ProfileNameEmpty => owned("profile 名称不能为空"),
        FaultKind::ProfileName => owned("profile 名称仅允许字母、数字、-、_、."),
        FaultKind::ProfileExists => owned("profile 已存在"),
        FaultKind::ProfileMissing => owned("profile 不存在"),
        FaultKind::NoActiveProfile => owned("未指定 profile，且当前没有 active profile"),
        FaultKind::ProfileFileMissing => owned("profile 文件不存在，请先执行 `clash profile fetch`"),
        FaultKind::IndexParse => owned("解析 profile 索引失败"),
        FaultKind::IndexRender => owned("序列化 profile 索引失败"),
        FaultKind::FetchFailed => owned("请求订阅失败"),
        FaultKind::FetchNotYaml => owned("订阅内容不是合法 YAML"),
        FaultKind::YamlParse => owned("解析 YAML 失败"),
        FaultKind::YamlRender => owned("序列化渲染结果失败"),
        FaultKind::HomeMismatch => owned("配置目录不一致，已阻止继续执行"),
        FaultKind::SystemctlFailed => owned("systemctl 返回非成功状态"),
        FaultKind::JournalFailed => owned("journalctl 返回非成功状态"),
        FaultKind::UnitExists => owned("unit 已存在，如需覆盖请加 --force"),
        FaultKind::BinaryMissing => owned("未找到内核二进制，请先执行 `clash core install` 或使用 --binary 指定"),
        FaultKind::JsonUnsupported => owned("该命令暂不支持 --json，请先去掉 --json 执行"),
        FaultKind::ReleaseFetch => owned("请求发布信息失败"),
        FaultKind::NoLinuxAsset => owned("MetaCubeX/mihomo 当前版本未找到 Linux 资产"),
        FaultKind::UnsupportedArch => owned("暂不支持的架构"),
        FaultKind::NoMatchingAsset => owned("未找到匹配资产"),
        FaultKind::DownloadFailed => owned("下载失败，已尝试所有源"),
        FaultKind::UnpackFailed => owned("解压内核失败"),
        FaultKind::InstallFailed => owned("落盘新内核失败"),
        FaultKind::MetaNoVersion => owned("元信息缺少 version 字段"),
        FaultKind::NotRoot => owned("请使用 root 执行，例如: sudo env CLASH_CLI_HOME=/etc/clash-cli clash setup init --profile-url <URL>"),
        FaultKind::EmptyProfileUrl => owned("`--profile-url` 不能为空"),
        FaultKind::InvalidInstallPath => owned("无效安装路径"),
        FaultKind::NothingToApply => owned("收敛后没有可用 active profile，无法 apply"),
        FaultKind::CopyFailed => owned("复制 profile 文件失败"),
    }
}

/// The message of a failure.
pub fn fault_message(fault: &Fault) -> (r: String)
    ensures
        r@ == message_text(fault@),
{
    let head = fault_kind_text(fault.kind);
    let detail = trimmed(fault.detail.as_str());
    let chars = chars_of(detail.as_str());
    assert(chars@.subrange(0, chars.len() as int) =~= chars@);
    if chars.len() == 0 {
        head
    } else if find_char(&chars, 0, '\n') < chars.len() {
        concat3(head.as_str(), "\n", detail.as_str())
    } else {
        concat3(head.as_str(), ": ", detail.as_str())
    }
}

/// The text of a kind of warning of `setup unify`.
pub open spec fn warning_kind_text(kind: WarningKind) -> Seq<char> {
    match kind {
        WarningKind::MissingFile => "来源 profile 缺少文件，已跳过"@,
        WarningKind::Conflict => "profile 名称冲突且 URL 不同，保留目标配置"@,
        WarningKind::ReadLink => "读取软链接目标失败，准备重建"@,
        WarningKind::BackupFailed => "目录替换失败（无法备份），已跳过"@,
        WarningKind::LinkFailed => "创建软链接失败，已回滚"@,
    }
}

/// The message of a warning: the text of its kind, what it is about and,
/// in brackets, what the machine said, if it said anything.
pub open spec fn warning_text(warning: WarningView) -> Seq<char> {
    if warning.detail.len() == 0 {
        warning_kind_text(warning.kind) + ": "@ + warning.subject
    } else {
        warning_kind_text(warning.kind) + ": "@ + warning.subject + " ("@ + warning.detail + ")"@
    }
}

/// The word for a service action that was carried out.
pub open spec fn action_text(action: UnitAction) -> Seq<char> {
    match action {
        UnitAction::Enable => "已启用"@,
        UnitAction::Disable => "已禁用"@,
        UnitAction::Start => "已启动"@,
        UnitAction::Stop => "已停止"@,
        UnitAction::Restart => "已重启"@,
    }
}

/// The message of a warning.
pub fn warning_message(warning: &Warning) -> (r: String)
    ensures
        r@ == warning_text(warning@),
{
    let head = match warning.kind {
        WarningKind::MissingFile => "来源 profile 缺少文件，已跳过",
        WarningKind::Conflict => "profile 名称冲突且 URL 不同，保留目标配置",
        WarningKind::ReadLink => "读取软链接目标失败，准备重建",
        WarningKind::BackupFailed => "目录替换失败（无法备份），已跳过",
        WarningKind::LinkFailed => "创建软链接失败，已回滚",
    };
    let mut out: Vec<char> = Vec::new();
    push_str(&mut out, head);
    push_str(&mut out, ": ");
    push_str(&mut out, warning.subject.as_str());
    let detail = chars_of(warning.detail.as_str());
    if detail.len() > 0 {
        push_str(&mut out, " (");
        push_str(&mut out, warning.detail.as_str());
        push_str(&mut out, ")");
    }
    assert(out@ =~= warning_text(warning@));
    text_of(&out)
}

/// The word for a service action that was carried out.
pub fn action_done(action: UnitAction) -> (r: &'static str)
    ensures
        r@ == action_text(action),
{
    match action {
        UnitAction::Enable => "已启用",
        UnitAction::Disable => "已禁用",
        UnitAction::Start => "已启动",
        UnitAction::Stop => "已停止",
        UnitAction::Restart => "已重启",
    }
}

/// The failure for want of privileges names both capabilities that are
/// needed, whatever else the message holds.
pub proof fn lemma_privilege_failure_names_capabilities(fault: FaultView)
    requires
        fault.kind == FaultKind::InsufficientPrivilege,
    ensures
        contains(message_text(fault), CAP_NET_ADMIN_NAME@),
        contains(message_text(fault), CAP_NET_RAW_NAME@),
{
    let a = "当前权限不足：需要 root 或 "@;
    let b = " + "@;
    let text = message_text(fault);
    let admin = CAP_NET_ADMIN_NAME@;
    let raw = CAP_NET_RAW_NAME@;
    let first = a.len() as int;
    assert(text.subrange(first, first + admin.len()) =~= admin);
    assert(occurs_at(text, admin, first));
    let second = first + admin.len() + b.len();
    assert(text.subrange(second, second + raw.len()) =~= raw);
    assert(occurs_at(text, raw, second));
}

} // verus!
