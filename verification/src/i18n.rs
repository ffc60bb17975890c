//! User-interface texts in English and Simplified Chinese.

use vstd::prelude::*;
use crate::text::str_eq;

verus! {

/// The languages the interface is offered in.
#[derive(Debug, Clone, Copy, PartialEq, Eq, Structural)]
pub enum Language {
    En,
    Zh,
}

impl Default for Language {
    fn default() -> (r: Self)
        ensures
            r == Language::En,
    {
        Language::En
    }
}

/// The language a stored language code selects: `zh` selects Chinese, any other code English.
pub open spec fn spec_language_of(s: Seq<char>) -> Language {
    if s == "zh"@ {
        Language::Zh
    } else {
        Language::En
    }
}

/// The code under which a language is stored.
pub open spec fn spec_language_code(l: Language) -> Seq<char> {
    match l {
        Language::En => "en"@,
        Language::Zh => "zh"@,
    }
}

impl Language {
    /// The language a stored code selects.
    pub fn from_str(s: &str) -> (r: Self)
        ensures
            r == spec_language_of(s@),
    {
        if str_eq(s, "zh") {
            Language::Zh
        } else {
            Language::En
        }
    }

    /// The code under which this language is stored.
    pub fn to_str(&self) -> (r: &'static str)
        ensures
            r@ == spec_language_code(*self),
    {
        match self {
            Language::En => "en",
            Language::Zh => "zh",
        }
    }
}

/// Reading back the stored code of a language gives that language.
pub proof fn lemma_language_code_roundtrip(l: Language)
    ensures
        spec_language_of(spec_language_code(l)) == l,
{
    reveal_strlit("en");
    reveal_strlit("zh");
    assert("en"@ != "zh"@) by {
        assert("en"@[0] != "zh"@[0]);
    }
}

/// The English text of a key, when the key has one.
pub open spec fn spec_english(key: Seq<char>) -> Option<Seq<char>> {
    if key == "tab_profiles"@ {
        Some("Profiles"@)
    } else     if key == "tab_settings"@ {
        Some("Settings"@)
    } else     if key == "btn_start"@ {
        Some("Start"@)
    } else     if key == "btn_stop"@ {
        Some("Stop"@)
    } else     if key == "btn_add_profile"@ {
        Some("Add Profile"@)
    } else     if key == "btn_update_now"@ {
        Some("Update Now"@)
    } else     if key == "no_profiles"@ {
        Some("No profiles configured. Click 'Add Profile' to get started."@)
    } else     if key == "log_panel_title"@ {
        Some("Operation Logs"@)
    } else     if key == "btn_clear"@ {
        Some("Clear"@)
    } else     if key == "no_logs"@ {
        Some("No logs yet. Logs will appear here when profiles are updated."@)
    } else     if key == "edit_profile"@ {
        Some("Edit Profile"@)
    } else     if key == "add_profile"@ {
        Some("Add Profile"@)
    } else     if key == "name"@ {
        Some("Name:"@)
    } else     if key == "domain"@ {
        Some("Domain:"@)
    } else     if key == "provider"@ {
        Some("Provider:"@)
    } else     if key == "enable_ipv4"@ {
        Some("Enable IPv4 (A)"@)
    } else     if key == "enable_ipv6"@ {
        Some("Enable IPv6 (AAAA)"@)
    } else     if key == "api_token"@ {
        Some("API Token:"@)
    } else     if key == "zone_name"@ {
        Some("Zone Name (optional):"@)
    } else     if key == "url_template"@ {
        Some("URL Template:"@)
    } else     if key == "method"@ {
        Some("Method:"@)
    } else     if key == "body_template"@ {
        Some("Body Template (JSON):"@)
    } else     if key == "custom_headers"@ {
        Some("Custom Headers (JSON):"@)
    } else     if key == "placeholders"@ {
        Some("Placeholders: {domain}, {ipv4}, {ipv6}"@)
    } else     if key == "btn_save"@ {
        Some("Save"@)
    } else     if key == "btn_cancel"@ {
        Some("Cancel"@)
    } else     if key == "btn_delete"@ {
        Some("Delete"@)
    } else     if key == "btn_edit"@ {
        Some("Edit"@)
    } else     if key == "settings_check_interval"@ {
        Some("Check Interval (minutes):"@)
    } else     if key == "settings_start_on_boot"@ {
        Some("Start on boot"@)
    } else     if key == "settings_ipv4_sources"@ {
        Some("IPv4 Probe Sources"@)
    } else     if key == "settings_ipv6_sources"@ {
        Some("IPv6 Probe Sources"@)
    } else     if key == "cloudflare_config"@ {
        Some("Cloudflare Configuration"@)
    } else     if key == "generic_http_config"@ {
        Some("Generic HTTP Configuration"@)
    } else     if key == "settings_interfaces"@ {
        Some("Network Interfaces"@)
    } else     if key == "btn_add"@ {
        Some("Add"@)
    } else     if key == "language"@ {
        Some("Language:"@)
    } else     if key == "backup_restore"@ {
        Some("Backup & Restore"@)
    } else     if key == "btn_export"@ {
        Some("Export Config"@)
    } else     if key == "btn_import"@ {
        Some("Import Config"@)
    } else     if key == "lang_en"@ {
        Some("English"@)
    } else     if key == "lang_zh"@ {
        Some("Simplified Chinese"@)
    } else {
        None
    }
}

/// The Chinese text of a key, when the key has one.
pub open spec fn spec_chinese(key: Seq<char>) -> Option<Seq<char>> {
    if key == "tab_profiles"@ {
        Some("配置列表"@)
    } else     if key == "tab_settings"@ {
        Some("软件设置"@)
    } else     if key == "btn_start"@ {
        Some("启动服务"@)
    } else     if key == "btn_stop"@ {
        Some("停止运行"@)
    } else     if key == "btn_add_profile"@ {
        Some("添加配置"@)
    } else     if key == "btn_update_now"@ {
        Some("立即更新"@)
    } else     if key == "no_profiles"@ {
        Some("暂无配置资料。点击「添加配置」开始使用。"@)
    } else     if key == "log_panel_title"@ {
        Some("操作日志"@)
    } else     if key == "btn_clear"@ {
        Some("清空"@)
    } else     if key == "no_logs"@ {
        Some("暂无日志，配置更新时日志会显示在这里。"@)
    } else     if key == "edit_profile"@ {
        Some("编辑配置"@)
    } else     if key == "add_profile"@ {
        Some("添加配置"@)
    } else     if key == "name"@ {
        Some("配置名称:"@)
    } else     if key == "domain"@ {
        Some("域名:"@)
    } else     if key == "provider"@ {
        Some("服务商:"@)
    } else     if key == "enable_ipv4"@ {
        Some("启用 IPv4 (A 记录)"@)
    } else     if key == "enable_ipv6"@ {
        Some("启用 IPv6 (AAAA 记录)"@)
    } else     if key == "api_token"@ {
        Some("API Token:"@)
    } else     if key == "zone_name"@ {
        Some("Zone名称 (可选):"@)
    } else     if key == "url_template"@ {
        Some("URL 模板:"@)
    } else     if key == "method"@ {
        Some("请求方法:"@)
    } else     if key == "body_template"@ {
        Some("请求体 (JSON模板):"@)
    } else     if key == "custom_headers"@ {
        Some("自定义 Headers (JSON):"@)
    } else     if key == "placeholders"@ {
        Some("可用变量: {domain}, {ipv4}, {ipv6}"@)
    } else     if key == "btn_save"@ {
        Some("保存"@)
    } else     if key == "btn_cancel"@ {
        Some("取消"@)
    } else     if key == "btn_delete"@ {
        Some("删除"@)
    } else     if key == "btn_edit"@ {
        Some("编辑"@)
    } else     if key == "settings_check_interval"@ {
        Some("检查间隔 (分钟):"@)
    } else     if key == "settings_start_on_boot"@ {
        Some("开机自启"@)
    } else     if key == "settings_ipv4_sources"@ {
        Some("IPv4 获取接口"@)
    } else     if key == "settings_ipv6_sources"@ {
        Some("IPv6 获取接口"@)
    } else     if key == "cloudflare_config"@ {
        Some("Cloudflare 配置"@)
    } else     if key == "generic_http_config"@ {
        Some("通用 HTTP 配置"@)
    } else     if key == "settings_interfaces"@ {
        Some("通过网卡获取 (Network Interfaces)"@)
    } else     if key == "btn_add"@ {
        Some("添加"@)
    } else     if key == "language"@ {
        Some("界面语言:"@)
    } else     if key == "backup_restore"@ {
        Some("备份与恢复"@)
    } else     if key == "btn_export"@ {
        Some("导出配置"@)
    } else     if key == "btn_import"@ {
        Some("导入配置"@)
    } else     if key == "lang_en"@ {
        Some("English"@)
    } else     if key == "lang_zh"@ {
        Some("简体中文"@)
    } else {
        None
    }
}

/// The text shown for `key` in `lang`: its translation, or the key itself
/// when the key has none.
pub open spec fn spec_translate(lang: Language, key: Seq<char>) -> Seq<char> {
    let t = match lang {
        Language::En => spec_english(key),
        Language::Zh => spec_chinese(key),
    };
    match t {
        Some(s) => s,
        None => key,
    }
}

/// Both languages translate exactly the same keys, and a translated key is
/// never shown as the key itself: a key is shown as is in English exactly
/// when it is shown as is in Chinese.
pub proof fn law_languages_translate_same_keys(key: Seq<char>)
    ensures
        spec_english(key) is Some <==> spec_chinese(key) is Some,
        (spec_translate(Language::En, key) == key) <==> (spec_translate(Language::Zh, key) == key),
{
    if key == "tab_profiles"@ {
        reveal_strlit("tab_profiles");
        reveal_strlit("Profiles");
        reveal_strlit("配置列表");
        assert(spec_english(key) == Some("Profiles"@));
        assert(spec_chinese(key) == Some("配置列表"@));
        assert(key.len() == 12);
        assert("Profiles"@.len() == 8);
        assert("配置列表"@.len() == 4);
    } else if key == "tab_settings"@ {
        reveal_strlit("tab_settings");
        reveal_strlit("Settings");
        reveal_strlit("软件设置");
        assert(spec_english(key) == Some("Settings"@));
        assert(spec_chinese(key) == Some("软件设置"@));
        assert(key.len() == 12);
        assert("Settings"@.len() == 8);
        assert("软件设置"@.len() == 4);
    } else if key == "btn_start"@ {
        reveal_strlit("btn_start");
        reveal_strlit("Start");
        reveal_strlit("启动服务");
        assert(spec_english(key) == Some("Start"@));
        assert(spec_chinese(key) == Some("启动服务"@));
        assert(key.len() == 9);
        assert("Start"@.len() == 5);
        assert("启动服务"@.len() == 4);
    } else if key == "btn_stop"@ {
        reveal_strlit("btn_stop");
        reveal_strlit("Stop");
        reveal_strlit("停止运行");
        assert(spec_english(key) == Some("Stop"@));
        assert(spec_chinese(key) == Some("停止运行"@));
        assert(key.len() == 8);
        assert("Stop"@.len() == 4);
        assert("停止运行"@.len() == 4);
    } else if key == "btn_add_profile"@ {
        reveal_strlit("btn_add_profile");
        reveal_strlit("Add Profile");
        reveal_strlit("添加配置");
        assert(spec_english(key) == Some("Add Profile"@));
        assert(spec_chinese(key) == Some("添加配置"@));
        assert(key.len() == 15);
        assert("Add Profile"@.len() == 11);
        assert("添加配置"@.len() == 4);
    } else if key == "btn_update_now"@ {
        reveal_strlit("btn_update_now");
        reveal_strlit("Update Now");
        reveal_strlit("立即更新");
        assert(spec_english(key) == Some("Update Now"@));
        assert(spec_chinese(key) == Some("立即更新"@));
        assert(key.len() == 14);
        assert("Update Now"@.len() == 10);
        assert("立即更新"@.len() == 4);
    } else if key == "no_profiles"@ {
        reveal_strlit("no_profiles");
        reveal_strlit("No profiles configured. Click 'Add Profile' to get started.");
        reveal_strlit("暂无配置资料。点击「添加配置」开始使用。");
        assert(spec_english(key) == Some("No profiles configured. Click 'Add Profile' to get started."@));
        assert(spec_chinese(key) == Some("暂无配置资料。点击「添加配置」开始使用。"@));
        assert(key.len() == 11);
        assert("No profiles configured. Click 'Add Profile' to get started."@.len() == 59);
        assert("暂无配置资料。点击「添加配置」开始使用。"@.len() == 20);
    } else if key == "log_panel_title"@ {
        reveal_strlit("log_panel_title");
        reveal_strlit("Operation Logs");
        reveal_strlit("操作日志");
        assert(spec_english(key) == Some("Operation Logs"@));
        assert(spec_chinese(key) == Some("操作日志"@));
        assert(key.len() == 15);
        assert("Operation Logs"@.len() == 14);
        assert("操作日志"@.len() == 4);
    } else if key == "btn_clear"@ {
        reveal_strlit("btn_clear");
        reveal_strlit("Clear");
        reveal_strlit("清空");
        assert(spec_english(key) == Some("Clear"@));
        assert(spec_chinese(key) == Some("清空"@));
        assert(key.len() == 9);
        assert("Clear"@.len() == 5);
        assert("清空"@.len() == 2);
    } else if key == "no_logs"@ {
        reveal_strlit("no_logs");
        reveal_strlit("No logs yet. Logs will appear here when profiles are updated.");
        reveal_strlit("暂无日志，配置更新时日志会显示在这里。");
        assert(spec_english(key) == Some("No logs yet. Logs will appear here when profiles are updated."@));
        assert(spec_chinese(key) == Some("暂无日志，配置更新时日志会显示在这里。"@));
        assert(key.len() == 7);
        assert("No logs yet. Logs will appear here when profiles are updated."@.len() == 61);
        assert("暂无日志，配置更新时日志会显示在这里。"@.len() == 19);
    } else if key == "edit_profile"@ {
        reveal_strlit("edit_profile");
        reveal_strlit("Edit Profile");
        reveal_strlit("编辑配置");
        assert(spec_english(key) == Some("Edit Profile"@));
        assert(spec_chinese(key) == Some("编辑配置"@));
        assert(key.len() == 12);
        assert(key[0] != "Edit Profile"@[0]);
        assert("编辑配置"@.len() == 4);
    } else if key == "add_profile"@ {
        reveal_strlit("add_profile");
        reveal_strlit("Add Profile");
        reveal_strlit("添加配置");
        assert(spec_english(key) == Some("Add Profile"@));
        assert(spec_chinese(key) == Some("添加配置"@));
        assert(key.len() == 11);
        assert(key[0] != "Add Profile"@[0]);
        assert("添加配置"@.len() == 4);
    } else if key == "name"@ {
        reveal_strlit("name");
        reveal_strlit("Name:");
        reveal_strlit("配置名称:");
        assert(spec_english(key) == Some("Name:"@));
        assert(spec_chinese(key) == Some("配置名称:"@));
        assert(key.len() == 4);
        assert("Name:"@.len() == 5);
        assert("配置名称:"@.len() == 5);
    } else if key == "domain"@ {
        reveal_strlit("domain");
        reveal_strlit("Domain:");
        reveal_strlit("域名:");
        assert(spec_english(key) == Some("Domain:"@));
        assert(spec_chinese(key) == Some("域名:"@));
        assert(key.len() == 6);
        assert("Domain:"@.len() == 7);
        assert("域名:"@.len() == 3);
    } else if key == "provider"@ {
        reveal_strlit("provider");
        reveal_strlit("Provider:");
        reveal_strlit("服务商:");
        assert(spec_english(key) == Some("Provider:"@));
        assert(spec_chinese(key) == Some("服务商:"@));
        assert(key.len() == 8);
        assert("Provider:"@.len() == 9);
        assert("服务商:"@.len() == 4);
    } else if key == "enable_ipv4"@ {
        reveal_strlit("enable_ipv4");
        reveal_strlit("Enable IPv4 (A)");
        reveal_strlit("启用 IPv4 (A 记录)");
        assert(spec_english(key) == Some("Enable IPv4 (A)"@));
        assert(spec_chinese(key) == Some("启用 IPv4 (A 记录)"@));
        assert(key.len() == 11);
        assert("Enable IPv4 (A)"@.len() == 15);
        assert("启用 IPv4 (A 记录)"@.len() == 14);
    } else if key == "enable_ipv6"@ {
        reveal_strlit("enable_ipv6");
        reveal_strlit("Enable IPv6 (AAAA)");
        reveal_strlit("启用 IPv6 (AAAA 记录)");
        assert(spec_english(key) == Some("Enable IPv6 (AAAA)"@));
        assert(spec_chinese(key) == Some("启用 IPv6 (AAAA 记录)"@));
        assert(key.len() == 11);
        assert("Enable IPv6 (AAAA)"@.len() == 18);
        assert("启用 IPv6 (AAAA 记录)"@.len() == 17);
    } else if key == "api_token"@ {
        reveal_strlit("api_token");
        reveal_strlit("API Token:");
        assert(spec_english(key) == Some("API Token:"@));
        assert(spec_chinese(key) == Some("API Token:"@));
        assert(key.len() == 9);
        assert("API Token:"@.len() == 10);
    } else if key == "zone_name"@ {
        reveal_strlit("zone_name");
        reveal_strlit("Zone Name (optional):");
        reveal_strlit("Zone名称 (可选):");
        assert(spec_english(key) == Some("Zone Name (optional):"@));
        assert(spec_chinese(key) == Some("Zone名称 (可选):"@));
        assert(key.len() == 9);
        assert("Zone Name (optional):"@.len() == 21);
        assert("Zone名称 (可选):"@.len() == 12);
    } else if key == "url_template"@ {
        reveal_strlit("url_template");
        reveal_strlit("URL Template:");
        reveal_strlit("URL 模板:");
        assert(spec_english(key) == Some("URL Template:"@));
        assert(spec_chinese(key) == Some("URL 模板:"@));
        assert(key.len() == 12);
        assert("URL Template:"@.len() == 13);
        assert("URL 模板:"@.len() == 7);
    } else if key == "method"@ {
        reveal_strlit("method");
        reveal_strlit("Method:");
        reveal_strlit("请求方法:");
        assert(spec_english(key) == Some("Method:"@));
        assert(spec_chinese(key) == Some("请求方法:"@));
        assert(key.len() == 6);
        assert("Method:"@.len() == 7);
        assert("请求方法:"@.len() == 5);
    } else if key == "body_template"@ {
        reveal_strlit("body_template");
        reveal_strlit("Body Template (JSON):");
        reveal_strlit("请求体 (JSON模板):");
        assert(spec_english(key) == Some("Body Template (JSON):"@));
        assert(spec_chinese(key) == Some("请求体 (JSON模板):"@));
        assert(key.len() == 13);
        assert("Body Template (JSON):"@.len() == 21);
        assert(key[0] != "请求体 (JSON模板):"@[0]);
    } else if key == "custom_headers"@ {
        reveal_strlit("custom_headers");
        reveal_strlit("Custom Headers (JSON):");
        reveal_strlit("自定义 Headers (JSON):");
        assert(spec_english(key) == Some("Custom Headers (JSON):"@));
        assert(spec_chinese(key) == Some("自定义 Headers (JSON):"@));
        assert(key.len() == 14);
        assert("Custom Headers (JSON):"@.len() == 22);
        assert("自定义 Headers (JSON):"@.len() == 19);
    } else if key == "placeholders"@ {
        reveal_strlit("placeholders");
        reveal_strlit("Placeholders: {domain}, {ipv4}, {ipv6}");
        reveal_strlit("可用变量: {domain}, {ipv4}, {ipv6}");
        assert(spec_english(key) == Some("Placeholders: {domain}, {ipv4}, {ipv6}"@));
        assert(spec_chinese(key) == Some("可用变量: {domain}, {ipv4}, {ipv6}"@));
        assert(key.len() == 12);
        assert("Placeholders: {domain}, {ipv4}, {ipv6}"@.len() == 38);
        assert("可用变量: {domain}, {ipv4}, {ipv6}"@.len() == 30);
    } else if key == "btn_save"@ {
        reveal_strlit("btn_save");
        reveal_strlit("Save");
        reveal_strlit("保存");
        assert(spec_english(key) == Some("Save"@));
        assert(spec_chinese(key) == Some("保存"@));
        assert(key.len() == 8);
        assert("Save"@.len() == 4);
        assert("保存"@.len() == 2);
    } else if key == "btn_cancel"@ {
        reveal_strlit("btn_cancel");
        reveal_strlit("Cancel");
        reveal_strlit("取消");
        assert(spec_english(key) == Some("Cancel"@));
        assert(spec_chinese(key) == Some("取消"@));
        assert(key.len() == 10);
        assert("Cancel"@.len() == 6);
        assert("取消"@.len() == 2);
    } else if key == "btn_delete"@ {
        reveal_strlit("btn_delete");
        reveal_strlit("Delete");
        reveal_strlit("删除");
        assert(spec_english(key) == Some("Delete"@));
        assert(spec_chinese(key) == Some("删除"@));
        assert(key.len() == 10);
        assert("Delete"@.len() == 6);
        assert("删除"@.len() == 2);
    } else if key == "btn_edit"@ {
        reveal_strlit("btn_edit");
        reveal_strlit("Edit");
        reveal_strlit("编辑");
        assert(spec_english(key) == Some("Edit"@));
        assert(spec_chinese(key) == Some("编辑"@));
        assert(key.len() == 8);
        assert("Edit"@.len() == 4);
        assert("编辑"@.len() == 2);
    } else if key == "settings_check_interval"@ {
        reveal_strlit("settings_check_interval");
        reveal_strlit("Check Interval (minutes):");
        reveal_strlit("检查间隔 (分钟):");
        assert(spec_english(key) == Some("Check Interval (minutes):"@));
        assert(spec_chinese(key) == Some("检查间隔 (分钟):"@));
        assert(key.len() == 23);
        assert("Check Interval (minutes):"@.len() == 25);
        assert("检查间隔 (分钟):"@.len() == 10);
    } else if key == "settings_start_on_boot"@ {
        reveal_strlit("settings_start_on_boot");
        reveal_strlit("Start on boot");
        reveal_strlit("开机自启");
        assert(spec_english(key) == Some("Start on boot"@));
        assert(spec_chinese(key) == Some("开机自启"@));
        assert(key.len() == 22);
        assert("Start on boot"@.len() == 13);
        assert("开机自启"@.len() == 4);
    } else if key == "settings_ipv4_sources"@ {
        reveal_strlit("settings_ipv4_sources");
        reveal_strlit("IPv4 Probe Sources");
        reveal_strlit("IPv4 获取接口");
        assert(spec_english(key) == Some("IPv4 Probe Sources"@));
        assert(spec_chinese(key) == Some("IPv4 获取接口"@));
        assert(key.len() == 21);
        assert("IPv4 Probe Sources"@.len() == 18);
        assert("IPv4 获取接口"@.len() == 9);
    } else if key == "settings_ipv6_sources"@ {
        reveal_strlit("settings_ipv6_sources");
        reveal_strlit("IPv6 Probe Sources");
        reveal_strlit("IPv6 获取接口");
        assert(spec_english(key) == Some("IPv6 Probe Sources"@));
        assert(spec_chinese(key) == Some("IPv6 获取接口"@));
        assert(key.len() == 21);
        assert("IPv6 Probe Sources"@.len() == 18);
        assert("IPv6 获取接口"@.len() == 9);
    } else if key == "cloudflare_config"@ {
        reveal_strlit("cloudflare_config");
        reveal_strlit("Cloudflare Configuration");
        reveal_strlit("Cloudflare 配置");
        assert(spec_english(key) == Some("Cloudflare Configuration"@));
        assert(spec_chinese(key) == Some("Cloudflare 配置"@));
        assert(key.len() == 17);
        assert("Cloudflare Configuration"@.len() == 24);
        assert("Cloudflare 配置"@.len() == 13);
    } else if key == "generic_http_config"@ {
        reveal_strlit("generic_http_config");
        reveal_strlit("Generic HTTP Configuration");
        reveal_strlit("通用 HTTP 配置");
        assert(spec_english(key) == Some("Generic HTTP Configuration"@));
        assert(spec_chinese(key) == Some("通用 HTTP 配置"@));
        assert(key.len() == 19);
        assert("Generic HTTP Configuration"@.len() == 26);
        assert("通用 HTTP 配置"@.len() == 10);
    } else if key == "settings_interfaces"@ {
        reveal_strlit("settings_interfaces");
        reveal_strlit("Network Interfaces");
        reveal_strlit("通过网卡获取 (Network Interfaces)");
        assert(spec_english(key) == Some("Network Interfaces"@));
        assert(spec_chinese(key) == Some("通过网卡获取 (Network Interfaces)"@));
        assert(key.len() == 19);
        assert("Network Interfaces"@.len() == 18);
        assert("通过网卡获取 (Network Interfaces)"@.len() == 27);
    } else if key == "btn_add"@ {
        reveal_strlit("btn_add");
        reveal_strlit("Add");
        reveal_strlit("添加");
        assert(spec_english(key) == Some("Add"@));
        assert(spec_chinese(key) == Some("添加"@));
        assert(key.len() == 7);
        assert("Add"@.len() == 3);
        assert("添加"@.len() == 2);
    } else if key == "language"@ {
        reveal_strlit("language");
        reveal_strlit("Language:");
        reveal_strlit("界面语言:");
        assert(spec_english(key) == Some("Language:"@));
        assert(spec_chinese(key) == Some("界面语言:"@));
        assert(key.len() == 8);
        assert("Language:"@.len() == 9);
        assert("界面语言:"@.len() == 5);
    } else if key == "backup_restore"@ {
        reveal_strlit("backup_restore");
        reveal_strlit("Backup & Restore");
        reveal_strlit("备份与恢复");
        assert(spec_english(key) == Some("Backup & Restore"@));
        assert(spec_chinese(key) == Some("备份与恢复"@));
        assert(key.len() == 14);
        assert("Backup & Restore"@.len() == 16);
        assert("备份与恢复"@.len() == 5);
    } else if key == "btn_export"@ {
        reveal_strlit("btn_export");
        reveal_strlit("Export Config");
        reveal_strlit("导出配置");
        assert(spec_english(key) == Some("Export Config"@));
        assert(spec_chinese(key) == Some("导出配置"@));
        assert(key.len() == 10);
        assert("Export Config"@.len() == 13);
        assert("导出配置"@.len() == 4);
    } else if key == "btn_import"@ {
        reveal_strlit("btn_import");
        reveal_strlit("Import Config");
        reveal_strlit("导入配置");
        assert(spec_english(key) == Some("Import Config"@));
        assert(spec_chinese(key) == Some("导入配置"@));
        assert(key.len() == 10);
        assert("Import Config"@.len() == 13);
        assert("导入配置"@.len() == 4);
    } else if key == "lang_en"@ {
        reveal_strlit("lang_en");
        reveal_strlit("English");
        assert(spec_english(key) == Some("English"@));
        assert(spec_chinese(key) == Some("English"@));
        assert(key.len() == 7);
        assert(key[0] != "English"@[0]);
    } else if key == "lang_zh"@ {
        reveal_strlit("lang_zh");
        reveal_strlit("Simplified Chinese");
        reveal_strlit("简体中文");
        assert(spec_english(key) == Some("Simplified Chinese"@));
        assert(spec_chinese(key) == Some("简体中文"@));
        assert(key.len() == 7);
        assert("Simplified Chinese"@.len() == 18);
        assert("简体中文"@.len() == 4);
    }
}

fn english(key: &str) -> (r: Option<&'static str>)
    ensures
        r is Some == spec_english(key@) is Some,
        r matches Some(s) ==> spec_english(key@) == Some(s@),
{
    if str_eq(key, "tab_profiles") {
        return Some("Profiles");
    }
    if str_eq(key, "tab_settings") {
        return Some("Settings");
    }
    if str_eq(key, "btn_start") {
        return Some("Start");
    }
    if str_eq(key, "btn_stop") {
        return Some("Stop");
    }
    if str_eq(key, "btn_add_profile") {
        return Some("Add Profile");
    }
    if str_eq(key, "btn_update_now") {
        return Some("Update Now");
    }
    if str_eq(key, "no_profiles") {
        return Some("No profiles configured. Click 'Add Profile' to get started.");
    }
    if str_eq(key, "log_panel_title") {
        return Some("Operation Logs");
    }
    if str_eq(key, "btn_clear") {
        return Some("Clear");
    }
    if str_eq(key, "no_logs") {
        return Some("No logs yet. Logs will appear here when profiles are updated.");
    }
    if str_eq(key, "edit_profile") {
        return Some("Edit Profile");
    }
    if str_eq(key, "add_profile") {
        return Some("Add Profile");
    }
    if str_eq(key, "name") {
        return Some("Name:");
    }
    if str_eq(key, "domain") {
        return Some("Domain:");
    }
    if str_eq(key, "provider") {
        return Some("Provider:");
    }
    if str_eq(key, "enable_ipv4") {
        return Some("Enable IPv4 (A)");
    }
    if str_eq(key, "enable_ipv6") {
        return Some("Enable IPv6 (AAAA)");
    }
    if str_eq(key, "api_token") {
        return Some("API Token:");
    }
    if str_eq(key, "zone_name") {
        return Some("Zone Name (optional):");
    }
    if str_eq(key, "url_template") {
        return Some("URL Template:");
    }
    if str_eq(key, "method") {
        return Some("Method:");
    }
    if str_eq(key, "body_template") {
        return Some("Body Template (JSON):");
    }
    if str_eq(key, "custom_headers") {
        return Some("Custom Headers (JSON):");
    }
    if str_eq(key, "placeholders") {
        return Some("Placeholders: {domain}, {ipv4}, {ipv6}");
    }
    if str_eq(key, "btn_save") {
        return Some("Save");
    }
    if str_eq(key, "btn_cancel") {
        return Some("Cancel");
    }
    if str_eq(key, "btn_delete") {
        return Some("Delete");
    }
    if str_eq(key, "btn_edit") {
        return Some("Edit");
    }
    if str_eq(key, "settings_check_interval") {
        return Some("Check Interval (minutes):");
    }
    if str_eq(key, "settings_start_on_boot") {
        return Some("Start on boot");
    }
    if str_eq(key, "settings_ipv4_sources") {
        return Some("IPv4 Probe Sources");
    }
    if str_eq(key, "settings_ipv6_sources") {
        return Some("IPv6 Probe Sources");
    }
    if str_eq(key, "cloudflare_config") {
        return Some("Cloudflare Configuration");
    }
    if str_eq(key, "generic_http_config") {
        return Some("Generic HTTP Configuration");
    }
    if str_eq(key, "settings_interfaces") {
        return Some("Network Interfaces");
    }
    if str_eq(key, "btn_add") {
        return Some("Add");
    }
    if str_eq(key, "language") {
        return Some("Language:");
    }
    if str_eq(key, "backup_restore") {
        return Some("Backup & Restore");
    }
    if str_eq(key, "btn_export") {
        return Some("Export Config");
    }
    if str_eq(key, "btn_import") {
        return Some("Import Config");
    }
    if str_eq(key, "lang_en") {
        return Some("English");
    }
    if str_eq(key, "lang_zh") {
        return Some("Simplified Chinese");
    }
    None
}

fn chinese(key: &str) -> (r: Option<&'static str>)
    ensures
        r is Some == spec_chinese(key@) is Some,
        r matches Some(s) ==> spec_chinese(key@) == Some(s@),
{
    if str_eq(key, "tab_profiles") {
        return Some("配置列表");
    }
    if str_eq(key, "tab_settings") {
        return Some("软件设置");
    }
    if str_eq(key, "btn_start") {
        return Some("启动服务");
    }
    if str_eq(key, "btn_stop") {
        return Some("停止运行");
    }
    if str_eq(key, "btn_add_profile") {
        return Some("添加配置");
    }
    if str_eq(key, "btn_update_now") {
        return Some("立即更新");
    }
    if str_eq(key, "no_profiles") {
        return Some("暂无配置资料。点击「添加配置」开始使用。");
    }
    if str_eq(key, "log_panel_title") {
        return Some("操作日志");
    }
    if str_eq(key, "btn_clear") {
        return Some("清空");
    }
    if str_eq(key, "no_logs") {
        return Some("暂无日志，配置更新时日志会显示在这里。");
    }
    if str_eq(key, "edit_profile") {
        return Some("编辑配置");
    }
    if str_eq(key, "add_profile") {
        return Some("添加配置");
    }
    if str_eq(key, "name") {
        return Some("配置名称:");
    }
    if str_eq(key, "domain") {
        return Some("域名:");
    }
    if str_eq(key, "provider") {
        return Some("服务商:");
    }
    if str_eq(key, "enable_ipv4") {
        return Some("启用 IPv4 (A 记录)");
    }
    if str_eq(key, "enable_ipv6") {
        return Some("启用 IPv6 (AAAA 记录)");
    }
    if str_eq(key, "api_token") {
        return Some("API Token:");
    }
    if str_eq(key, "zone_name") {
        return Some("Zone名称 (可选):");
    }
    if str_eq(key, "url_template") {
        return Some("URL 模板:");
    }
    if str_eq(key, "method") {
        return Some("请求方法:");
    }
    if str_eq(key, "body_template") {
        return Some("请求体 (JSON模板):");
    }
    if str_eq(key, "custom_headers") {
        return Some("自定义 Headers (JSON):");
    }
    if str_eq(key, "placeholders") {
        return Some("可用变量: {domain}, {ipv4}, {ipv6}");
    }
    if str_eq(key, "btn_save") {
        return Some("保存");
    }
    if str_eq(key, "btn_cancel") {
        return Some("取消");
    }
    if str_eq(key, "btn_delete") {
        return Some("删除");
    }
    if str_eq(key, "btn_edit") {
        return Some("编辑");
    }
    if str_eq(key, "settings_check_interval") {
        return Some("检查间隔 (分钟):");
    }
    if str_eq(key, "settings_start_on_boot") {
        return Some("开机自启");
    }
    if str_eq(key, "settings_ipv4_sources") {
        return Some("IPv4 获取接口");
    }
    if str_eq(key, "settings_ipv6_sources") {
        return Some("IPv6 获取接口");
    }
    if str_eq(key, "cloudflare_config") {
        return Some("Cloudflare 配置");
    }
    if str_eq(key, "generic_http_config") {
        return Some("通用 HTTP 配置");
    }
    if str_eq(key, "settings_interfaces") {
        return Some("通过网卡获取 (Network Interfaces)");
    }
    if str_eq(key, "btn_add") {
        return Some("添加");
    }
    if str_eq(key, "language") {
        return Some("界面语言:");
    }
    if str_eq(key, "backup_restore") {
        return Some("备份与恢复");
    }
    if str_eq(key, "btn_export") {
        return Some("导出配置");
    }
    if str_eq(key, "btn_import") {
        return Some("导入配置");
    }
    if str_eq(key, "lang_en") {
        return Some("English");
    }
    if str_eq(key, "lang_zh") {
        return Some("简体中文");
    }
    None
}

/// The interface text table.
pub struct I18n;

impl I18n {
    /// The text shown for `key` in `lang`; a key without a translation is shown as is.
    pub fn t<'a>(lang: Language, key: &'a str) -> (r: &'a str)
        ensures
            r@ == spec_translate(lang, key@),
    {
        let found = match lang {
            Language::En => english(key),
            Language::Zh => chinese(key),
        };
        match found {
            Some(s) => s,
            None => key,
        }
    }
}

} // verus!
