//! Application configuration, validated from the raw environment values.
use vstd::prelude::*;
use vstd::string::*;
use crate::codec::utf8_decode;
use crate::decimal::{parse_i64, spec_parse_i64};
use crate::epay::{spec_trim_end_slash, trim_end_slash};
use crate::net::{IpNetwork, all_wf, parse_ip_network, spec_parse_ip_network};
use crate::text::{byte_len_below, spec_split, spec_trim, split_char, starts_with, strings_view, trim};

verus! {

/// Settings of the shop, read once at start-up. It has no `Debug` form here, since the
/// Telegram bot token must never be printed.
#[derive(Clone)]
pub struct AppConfig {
    /// The socket address to listen on, as written (`host:port`).
    pub listen_addr: String,
    pub database_url: String,
    pub public_base_url: String,
    pub web_return_url: String,
    pub web_dist_dir: String,
    pub shop_name: String,
    pub shop_logo_file: String,
    pub admin_key: String,
    pub order_password_pepper: String,
    /// Only direct connections from these networks may name the client in
    /// `X-Forwarded-For`; when empty the TCP peer address is always used, so that public
    /// requests cannot forge proxy headers to escape rate limiting.
    pub rate_limit_trusted_proxy_cidrs: Vec<IpNetwork>,
    /// End of official WeChat Pay Native payments. ePay reserves stock for a fixed three
    /// minutes instead; the two never share this setting.
    pub wechatpay_expire_minutes: i64,
    pub epay: Option<EpayConfig>,
    pub wechatpay: Option<WechatPayConfig>,
    pub telegram: Option<TelegramConfig>,
}

/// ePay gateway settings; ePay is enabled only when all three are configured.
#[derive(Debug, Clone)]
pub struct EpayConfig {
    pub gateway: String,
    pub pid: String,
    pub key: String,
}

/// Official WeChat Pay API v3 settings.
#[derive(Debug, Clone)]
pub struct WechatPayConfig {
    pub app_id: String,
    pub mch_id: String,
    pub merchant_serial_no: String,
    pub merchant_private_key_file: String,
    pub api_v3_key: String,
    pub public_key_id: String,
    pub public_key_file: String,
    pub notify_url: String,
}

/// Telegram notification settings. The bot token is a production secret; the
/// application's debug output redacts it.
#[derive(Clone)]
pub struct TelegramConfig {
    pub bot_token: String,
    pub chat_id: String,
}

/// Reasons why the configuration is refused at start-up.
#[derive(Debug)]
pub enum ConfigError {
    MissingVar(String),
    InvalidListenAddr(String),
    InvalidPositiveInteger(String),
    InvalidTrustedProxyCidr(String),
    InvalidShopName,
    UnsupportedShopLogo(String),
    UnreadableShopLogo { file: String, source: String },
    IncompletePaymentConfig(String),
    WechatPayRequiresHttps,
    IncompleteTelegramConfig,
}

impl ConfigError {
    /// The text that describes this error.
    pub fn to_string(&self) -> (s: String)
        ensures
            s@ == (match *self {
                ConfigError::MissingVar(v) => "missing required environment variable: "@ + v@,
                ConfigError::InvalidListenAddr(v) => "invalid LISTEN_ADDR: "@ + v@,
                ConfigError::InvalidPositiveInteger(v) => "invalid positive integer environment variable: "@ + v@,
                ConfigError::InvalidTrustedProxyCidr(v) => "invalid CIDR in RATE_LIMIT_TRUSTED_PROXY_CIDRS: "@ + v@,
                ConfigError::InvalidShopName => "SHOP_NAME must contain between 1 and 100 characters"@,
                ConfigError::UnsupportedShopLogo(v) => "SHOP_LOGO_FILE must contain a valid SVG image: "@ + v@,
                ConfigError::UnreadableShopLogo { file, source } => "cannot read SHOP_LOGO_FILE "@ + file@ + ": "@ + source@,
                ConfigError::IncompletePaymentConfig(v) => "incomplete payment configuration: "@ + v@,
                ConfigError::WechatPayRequiresHttps => "PUBLIC_BASE_URL must use https when official WeChat Pay is enabled"@,
                ConfigError::IncompleteTelegramConfig => "incomplete Telegram configuration: TELEGRAM_BOT_TOKEN and TELEGRAM_NOTIFY_CHAT_ID must be configured together"@,
            }),
    {
        let (prefix, value): (&str, Option<&String>) = match self {
            ConfigError::MissingVar(v) => ("missing required environment variable: ", Some(v)),
            ConfigError::InvalidListenAddr(v) => ("invalid LISTEN_ADDR: ", Some(v)),
            ConfigError::InvalidPositiveInteger(v) => ("invalid positive integer environment variable: ", Some(v)),
            ConfigError::InvalidTrustedProxyCidr(v) => ("invalid CIDR in RATE_LIMIT_TRUSTED_PROXY_CIDRS: ", Some(v)),
            ConfigError::InvalidShopName => ("SHOP_NAME must contain between 1 and 100 characters", None),
            ConfigError::UnsupportedShopLogo(v) => ("SHOP_LOGO_FILE must contain a valid SVG image: ", Some(v)),
            ConfigError::UnreadableShopLogo { file, source } => {
                let mut s = String::from_str("cannot read SHOP_LOGO_FILE ");
                s.append(file.as_str());
                s.append(": ");
                s.append(source.as_str());
                return s;
            },
            ConfigError::IncompletePaymentConfig(v) => ("incomplete payment configuration: ", Some(v)),
            ConfigError::WechatPayRequiresHttps => ("PUBLIC_BASE_URL must use https when official WeChat Pay is enabled", None),
            ConfigError::IncompleteTelegramConfig => ("incomplete Telegram configuration: TELEGRAM_BOT_TOKEN and TELEGRAM_NOTIFY_CHAT_ID must be configured together", None),
        };
        let mut s = String::from_str(prefix);
        match value {
            Some(v) => s.append(v.as_str()),
            None => {},
        }
        s
    }
}

/// The trimmed value, when present and not blank.
pub open spec fn spec_nonempty(value: Option<Seq<char>>) -> Option<Seq<char>> {
    match value {
        Some(v) => if spec_trim(v).len() > 0 { Some(spec_trim(v)) } else { None },
        None => None,
    }
}

/// View of an optional string.
pub open spec fn opt_view(value: Option<String>) -> Option<Seq<char>> {
    match value {
        Some(v) => Some(v@),
        None => None,
    }
}

/// Trims an optional value and treats a blank value as absent.
pub fn optional_nonempty_value(value: Option<String>) -> (res: Option<String>)
    ensures
        opt_view(res) == spec_nonempty(opt_view(value)),
{
    match value {
        Some(v) => {
            let t = trim(v.as_str());
            if t.unicode_len() == 0 {
                None
            } else {
                Some(String::from_str(t))
            }
        },
        None => None,
    }
}

/// Telegram notifications are configured when both the bot token and the chat id are
/// given (after trimming), disabled when neither is, and refused when only one is.
pub fn telegram_config_from_values(bot_token: Option<String>, chat_id: Option<String>) -> (res:
    Result<Option<TelegramConfig>, ConfigError>)
    ensures
        ({
            let t = spec_nonempty(opt_view(bot_token));
            let c = spec_nonempty(opt_view(chat_id));
            &&& (res matches Ok(None)) <==> (t is None && c is None)
            &&& res matches Ok(Some(tc)) ==> (t == Some(tc.bot_token@) && c == Some(
                tc.chat_id@,
            ))
            &&& (res is Ok && !(res matches Ok(None))) <==> (t is Some && c is Some)
            &&& res matches Err(e) ==> e is IncompleteTelegramConfig
        }),
{
    match (optional_nonempty_value(bot_token), optional_nonempty_value(chat_id)) {
        (None, None) => Ok(None),
        (Some(bot_token), Some(chat_id)) => Ok(Some(TelegramConfig { bot_token, chat_id })),
        _ => Err(ConfigError::IncompleteTelegramConfig),
    }
}

/// The trimmed, non-blank pieces of a comma-separated list, in order.
pub open spec fn spec_list_items(pieces: Seq<Seq<char>>) -> Seq<Seq<char>>
    decreases pieces.len(),
{
    if pieces.len() == 0 {
        Seq::empty()
    } else {
        let prev = spec_list_items(pieces.drop_last());
        let t = spec_trim(pieces.last());
        if t.len() > 0 {
            prev.push(t)
        } else {
            prev
        }
    }
}

/// Every item is CIDR notation.
pub open spec fn spec_all_cidrs(items: Seq<Seq<char>>) -> bool {
    forall|i: int| 0 <= i < items.len() ==> (#[trigger] spec_parse_ip_network(items[i])) is Some
}

/// Item `k` is the first that is not CIDR notation.
pub open spec fn spec_is_first_bad_cidr(items: Seq<Seq<char>>, k: int) -> bool {
    &&& 0 <= k < items.len()
    &&& spec_parse_ip_network(items[k]) is None
    &&& forall|j: int| 0 <= j < k ==> (#[trigger] spec_parse_ip_network(items[j])) is Some
}

/// The index of the first item that is not CIDR notation.
pub open spec fn spec_first_bad_cidr(items: Seq<Seq<char>>) -> int {
    choose|k: int| spec_is_first_bad_cidr(items, k)
}

/// The networks of `RATE_LIMIT_TRUSTED_PROXY_CIDRS`: every non-blank item of the
/// comma-separated list, trimmed, must be CIDR notation; the first that is not is named
/// in the error.
pub open spec fn spec_trusted_proxy_cidrs(value: Option<Seq<char>>) -> Result<
    Seq<IpNetwork>,
    Seq<char>,
> {
    let items = spec_list_items(spec_split(value.unwrap_or(Seq::empty()), ','));
    if spec_all_cidrs(items) {
        Ok(Seq::new(items.len(), |i: int| spec_parse_ip_network(items[i]).unwrap()))
    } else {
        Err(items[spec_first_bad_cidr(items)])
    }
}

/// Reads the trusted proxy networks from the raw setting (absent means none).
pub fn parse_trusted_proxy_cidrs(value: Option<&str>) -> (res: Result<Vec<IpNetwork>, ConfigError>)
    ensures
        match spec_trusted_proxy_cidrs(match value { Some(v) => Some(v@), None => None }) {
            Ok(nets) => res matches Ok(r) && r@ == nets && all_wf(r@),
            Err(item) => res matches Err(ConfigError::InvalidTrustedProxyCidr(m)) && m@ == item,
        },
{
    let ghost raw: Seq<char> = match value {
        Some(v) => v@,
        None => Seq::empty(),
    };
    let pieces = match value {
        Some(v) => split_char(v, ','),
        None => split_char("", ','),
    };
    proof {
        if value is None {
            reveal_strlit("");
            assert(""@ =~= raw);
        }
    }
    let ghost pv = strings_view(pieces@);
    let mut items: Vec<String> = Vec::new();
    let mut i: usize = 0;
    assert(pv.take(0) =~= Seq::<Seq<char>>::empty());
    while i < pieces.len()
        invariant
            i <= pieces@.len(),
            pv == strings_view(pieces@),
            strings_view(items@) == spec_list_items(pv.take(i as int)),
        decreases pieces.len() - i,
    {
        let t = trim(pieces[i].as_str());
        proof {
            assert(pv.take(i + 1).drop_last() =~= pv.take(i as int));
            assert(pv.take(i + 1).last() == pieces@[i as int]@);
        }
        if t.unicode_len() > 0 {
            items.push(String::from_str(t));
            assert(strings_view(items@) =~= spec_list_items(pv.take(i + 1)));
        } else {
            assert(strings_view(items@) =~= spec_list_items(pv.take(i + 1)));
        }
        i = i + 1;
    }
    assert(pv.take(pieces@.len() as int) =~= pv);
    assert(pv == spec_split(raw, ','));
    let ghost iv = strings_view(items@);
    let mut nets: Vec<IpNetwork> = Vec::new();
    let mut k: usize = 0;
    while k < items.len()
        invariant
            k <= items@.len(),
            iv == strings_view(items@),
            iv == spec_list_items(spec_split(raw, ',')),
            raw == (match value {
                Some(v) => v@,
                None => Seq::<char>::empty(),
            }),
            nets@.len() == k,
            all_wf(nets@),
            forall|j: int| 0 <= j < k ==> (#[trigger] spec_parse_ip_network(iv[j])) == Some(nets@[j]),
        decreases items.len() - k,
    {
        assert(iv[k as int] == items@[k as int]@);
        match parse_ip_network(items[k].as_str()) {
            Some(n) => {
                nets.push(n);
            },
            None => {
                proof {
                    assert(spec_parse_ip_network(iv[k as int]) is None);
                    assert(spec_is_first_bad_cidr(iv, k as int));
                    let f = spec_first_bad_cidr(iv);
                    assert(spec_is_first_bad_cidr(iv, f));
                    if f != k {
                        if f < k {
                            assert(spec_parse_ip_network(iv[f]) is Some);
                        } else {
                            assert(spec_parse_ip_network(iv[k as int]) is Some);
                        }
                    }
                }
                let bad = items[k].clone();
                proof {
                    let opt: Option<Seq<char>> = match value {
                        Some(v) => Some(v@),
                        None => None,
                    };
                    assert(opt.unwrap_or(Seq::empty()) == raw);
                    assert(!spec_all_cidrs(iv));
                }
                return Err(ConfigError::InvalidTrustedProxyCidr(bad));
            },
        }
        k = k + 1;
    }
    proof {
        let expected = Seq::new(iv.len(), |j: int| spec_parse_ip_network(iv[j]).unwrap());
        assert(nets@ =~= expected);
    }
    Ok(nets)
}

/// The name of an SVG document's root element and its namespace, when the text is well
/// formed XML (`roxmltree::Document::parse`, then the root element's tag name).
pub uninterp spec fn spec_xml_root_tag(xml: Seq<char>) -> Option<(Seq<char>, Option<Seq<char>>)>;

/// Parses XML and returns the root element's local name and namespace
/// (`roxmltree::Document::parse`); `None` when the text is not well formed XML.
#[verifier::external_body]
fn xml_root_tag(xml: &str) -> (res: Option<(String, Option<String>)>)
    ensures
        match res {
            Some((n, ns)) => spec_xml_root_tag(xml@) == Some((n@, match ns {
                Some(v) => Some(v@),
                None => None,
            })),
            None => spec_xml_root_tag(xml@) is None,
        },
{
    let document = roxmltree::Document::parse(xml).ok()?;
    let tag = document.root_element().tag_name();
    Some((tag.name().to_string(), tag.namespace().map(|ns| ns.to_string())))
}

/// The SVG namespace.
pub const SVG_NAMESPACE: &'static str = "http://www.w3.org/2000/svg";

/// Whether bytes are an SVG image: UTF-8 text, well formed XML, and a root element
/// `svg` with no namespace or the SVG namespace. The content decides, not the file name.
pub open spec fn spec_is_svg(bytes: Seq<u8>) -> bool {
    vstd::utf8::valid_utf8(bytes) && match spec_xml_root_tag(vstd::utf8::decode_utf8(bytes)) {
        Some((name, ns)) => name == "svg"@ && (ns is None || ns == Some(SVG_NAMESPACE@)),
        None => false,
    }
}

/// Checks that bytes are an SVG image.
pub fn is_svg(bytes: &[u8]) -> (res: bool)
    ensures
        res == spec_is_svg(bytes@),
{
    let xml = match utf8_decode(bytes) {
        Some(x) => x,
        None => return false,
    };
    match xml_root_tag(xml.as_str()) {
        Some((name, ns)) => {
            str_eq_plain(name.as_str(), "svg") && match &ns {
                None => true,
                Some(v) => str_eq_plain(v.as_str(), SVG_NAMESPACE),
            }
        },
        None => false,
    }
}

fn str_eq_plain(a: &str, b: &str) -> (res: bool)
    ensures
        res == (a@ == b@),
{
    crate::text::str_eq(a, b)
}

/// The raw environment of the process, each variable absent when unset or not Unicode.
#[derive(Debug, Clone, Default)]
pub struct EnvVars {
    pub listen_addr: Option<String>,
    pub database_url: Option<String>,
    pub public_base_url: Option<String>,
    pub web_return_url: Option<String>,
    pub web_dist_dir: Option<String>,
    pub shop_name: Option<String>,
    pub shop_logo_file: Option<String>,
    pub admin_key: Option<String>,
    pub order_password_pepper: Option<String>,
    pub rate_limit_trusted_proxy_cidrs: Option<String>,
    pub wxpay_expire_minutes: Option<String>,
    pub epay_gateway: Option<String>,
    pub epay_pid: Option<String>,
    pub epay_key: Option<String>,
    pub wxpay_app_id: Option<String>,
    pub wxpay_mch_id: Option<String>,
    pub wxpay_merchant_serial_no: Option<String>,
    pub wxpay_api_v3_key: Option<String>,
    pub wxpay_public_key_id: Option<String>,
    pub wxpay_merchant_private_key_file: Option<String>,
    pub wxpay_public_key_file: Option<String>,
    pub telegram_bot_token: Option<String>,
    pub telegram_notify_chat_id: Option<String>,
}

/// The value of a variable, or `default` when it is unset.
pub open spec fn spec_or(value: Option<String>, default: Seq<char>) -> Seq<char> {
    match value {
        Some(v) => v@,
        None => default,
    }
}

fn var_or(value: &Option<String>, default: &str) -> (r: String)
    ensures
        r@ == spec_or(*value, default@),
{
    match value {
        Some(v) => v.clone(),
        None => String::from_str(default),
    }
}

fn required(value: &Option<String>, name: &str) -> (r: Result<String, ConfigError>)
    ensures
        match value {
            Some(v) => r matches Ok(x) && x@ == v@,
            None => r matches Err(ConfigError::MissingVar(n)) && n@ == name@,
        },
{
    match value {
        Some(v) => Ok(v.clone()),
        None => Err(ConfigError::MissingVar(String::from_str(name))),
    }
}

/// The address to listen on: `LISTEN_ADDR`, or every interface on port 3000.
pub fn listen_addr_text(vars: &EnvVars) -> (r: String)
    ensures
        r@ == spec_or(vars.listen_addr, "0.0.0.0:3000"@),
{
    var_or(&vars.listen_addr, "0.0.0.0:3000")
}

/// Model of a configuration error: its kind and what it names.
pub enum ConfigErrorView {
    MissingVar(Seq<char>),
    InvalidListenAddr(Seq<char>),
    InvalidPositiveInteger(Seq<char>),
    InvalidTrustedProxyCidr(Seq<char>),
    InvalidShopName,
    UnsupportedShopLogo(Seq<char>),
    UnreadableShopLogo(Seq<char>, Seq<char>),
    IncompletePaymentConfig(Seq<char>),
    WechatPayRequiresHttps,
    IncompleteTelegramConfig,
}

impl View for ConfigError {
    type V = ConfigErrorView;

    open spec fn view(&self) -> ConfigErrorView {
        match self {
            ConfigError::MissingVar(v) => ConfigErrorView::MissingVar(v@),
            ConfigError::InvalidListenAddr(v) => ConfigErrorView::InvalidListenAddr(v@),
            ConfigError::InvalidPositiveInteger(v) => ConfigErrorView::InvalidPositiveInteger(v@),
            ConfigError::InvalidTrustedProxyCidr(v) => ConfigErrorView::InvalidTrustedProxyCidr(v@),
            ConfigError::InvalidShopName => ConfigErrorView::InvalidShopName,
            ConfigError::UnsupportedShopLogo(v) => ConfigErrorView::UnsupportedShopLogo(v@),
            ConfigError::UnreadableShopLogo { file, source } => ConfigErrorView::UnreadableShopLogo(
                file@,
                source@,
            ),
            ConfigError::IncompletePaymentConfig(v) => ConfigErrorView::IncompletePaymentConfig(v@),
            ConfigError::WechatPayRequiresHttps => ConfigErrorView::WechatPayRequiresHttps,
            ConfigError::IncompleteTelegramConfig => ConfigErrorView::IncompleteTelegramConfig,
        }
    }
}

/// Number of the WeChat Pay credentials that are configured.
pub open spec fn spec_wechatpay_count(vars: EnvVars) -> int {
    (if spec_nonempty(opt_view(vars.wxpay_app_id)) is Some { 1int } else { 0 }) + (if spec_nonempty(
        opt_view(vars.wxpay_mch_id),
    ) is Some {
        1int
    } else {
        0
    }) + (if spec_nonempty(opt_view(vars.wxpay_merchant_serial_no)) is Some {
        1int
    } else {
        0
    }) + (if spec_nonempty(opt_view(vars.wxpay_api_v3_key)) is Some {
        1int
    } else {
        0
    }) + (if spec_nonempty(opt_view(vars.wxpay_public_key_id)) is Some {
        1int
    } else {
        0
    })
}

/// The WeChat Pay notification address of a shop.
pub open spec fn spec_wechatpay_notify_url(public_base_url: Seq<char>) -> Seq<char> {
    spec_trim_end_slash(public_base_url) + "/api/payments/wechatpay/notify"@
}

/// The configuration error of an environment, checked in order, or none. The listen
/// address has been parsed by the caller (`listen_addr_error`); `shop_logo` is the
/// content of the logo file, or why it could not be read.
pub open spec fn spec_config_error(
    vars: EnvVars,
    listen_addr_error: Option<Seq<char>>,
    shop_logo: Result<Seq<u8>, Seq<char>>,
) -> Option<ConfigErrorView> {
    let base = spec_or(vars.public_base_url, "http://localhost:3000"@);
    if listen_addr_error is Some {
        Some(ConfigErrorView::InvalidListenAddr(listen_addr_error->0))
    } else if vars.database_url is None {
        Some(ConfigErrorView::MissingVar("DATABASE_URL"@))
    } else if vars.web_dist_dir is None {
        Some(ConfigErrorView::MissingVar("WEB_DIST_DIR"@))
    } else if vars.shop_name is None {
        Some(ConfigErrorView::MissingVar("SHOP_NAME"@))
    } else if !(1 <= spec_trim(vars.shop_name->0@).len() <= 100) {
        Some(ConfigErrorView::InvalidShopName)
    } else if vars.shop_logo_file is None {
        Some(ConfigErrorView::MissingVar("SHOP_LOGO_FILE"@))
    } else if shop_logo is Err {
        Some(ConfigErrorView::UnreadableShopLogo(vars.shop_logo_file->0@, shop_logo->Err_0))
    } else if !spec_is_svg(shop_logo->Ok_0) {
        Some(ConfigErrorView::UnsupportedShopLogo(vars.shop_logo_file->0@))
    } else if vars.admin_key is None {
        Some(ConfigErrorView::MissingVar("ADMIN_KEY"@))
    } else if spec_trusted_proxy_cidrs(opt_view(vars.rate_limit_trusted_proxy_cidrs)) is Err {
        Some(
            ConfigErrorView::InvalidTrustedProxyCidr(
                spec_trusted_proxy_cidrs(opt_view(vars.rate_limit_trusted_proxy_cidrs))->Err_0,
            ),
        )
    } else if !(match spec_parse_i64(spec_or(vars.wxpay_expire_minutes, "15"@)) {
        Some(m) => 1 <= m <= 120,
        None => false,
    }) {
        Some(ConfigErrorView::InvalidPositiveInteger("WXPAY_EXPIRE_MINUTES"@))
    } else if spec_wechatpay_count(vars) != 0 && spec_wechatpay_count(vars) != 5 {
        Some(
            ConfigErrorView::IncompletePaymentConfig(
                "all WXPAY credential values must be configured together"@,
            ),
        )
    } else if spec_wechatpay_count(vars) == 5 && !(base.len() >= 8 && base.take(8) == "https://"@) {
        Some(ConfigErrorView::WechatPayRequiresHttps)
    } else if spec_wechatpay_count(vars) == 5 && spec_nonempty(
        opt_view(vars.wxpay_merchant_private_key_file),
    ) is None {
        Some(
            ConfigErrorView::IncompletePaymentConfig(
                "WXPAY_MERCHANT_PRIVATE_KEY_FILE is required when WeChat Pay is enabled"@,
            ),
        )
    } else if spec_wechatpay_count(vars) == 5 && spec_nonempty(opt_view(vars.wxpay_public_key_file))
        is None {
        Some(
            ConfigErrorView::IncompletePaymentConfig(
                "WXPAY_PUBLIC_KEY_FILE is required when WeChat Pay is enabled"@,
            ),
        )
    } else if spec_wechatpay_count(vars) == 5 && vstd::utf8::encode_utf8(
        spec_nonempty(opt_view(vars.wxpay_api_v3_key))->0,
    ).len() != 32 {
        Some(ConfigErrorView::IncompletePaymentConfig("WXPAY_API_V3_KEY must contain exactly 32 bytes"@))
    } else {
        let t = spec_nonempty(opt_view(vars.telegram_bot_token));
        let c = spec_nonempty(opt_view(vars.telegram_notify_chat_id));
        if t is Some != c is Some {
            Some(ConfigErrorView::IncompleteTelegramConfig)
        } else {
            None
        }
    }
}

/// The settings a valid environment gives.
pub open spec fn spec_config_values(vars: EnvVars, c: AppConfig) -> bool {
    let base = spec_or(vars.public_base_url, "http://localhost:3000"@);
    &&& c.listen_addr@ == spec_or(vars.listen_addr, "0.0.0.0:3000"@)
    &&& Some(c.database_url@) == opt_view(vars.database_url)
    &&& c.public_base_url@ == base
    &&& c.web_return_url@ == spec_or(vars.web_return_url, "http://localhost:5173/orders"@)
    &&& Some(c.web_dist_dir@) == opt_view(vars.web_dist_dir)
    &&& c.shop_name@ == spec_trim(vars.shop_name->0@)
    &&& Some(c.shop_logo_file@) == opt_view(vars.shop_logo_file)
    &&& Some(c.admin_key@) == opt_view(vars.admin_key)
    &&& c.order_password_pepper@ == spec_or(vars.order_password_pepper, "dev-insecure-change-me"@)
    &&& Ok::<Seq<IpNetwork>, Seq<char>>(c.rate_limit_trusted_proxy_cidrs@) == spec_trusted_proxy_cidrs(
        opt_view(vars.rate_limit_trusted_proxy_cidrs),
    )
    &&& Some(c.wechatpay_expire_minutes as int) == spec_parse_i64(
        spec_or(vars.wxpay_expire_minutes, "15"@),
    )
    &&& match c.epay {
        Some(e) => spec_nonempty(opt_view(vars.epay_gateway)) == Some(e.gateway@) && spec_nonempty(
            opt_view(vars.epay_pid),
        ) == Some(e.pid@) && spec_nonempty(opt_view(vars.epay_key)) == Some(e.key@),
        None => spec_nonempty(opt_view(vars.epay_gateway)) is None || spec_nonempty(
            opt_view(vars.epay_pid),
        ) is None || spec_nonempty(opt_view(vars.epay_key)) is None,
    }
    &&& match c.wechatpay {
        Some(w) => {
            &&& spec_wechatpay_count(vars) == 5
            &&& spec_nonempty(opt_view(vars.wxpay_app_id)) == Some(w.app_id@)
            &&& spec_nonempty(opt_view(vars.wxpay_mch_id)) == Some(w.mch_id@)
            &&& spec_nonempty(opt_view(vars.wxpay_merchant_serial_no)) == Some(w.merchant_serial_no@)
            &&& spec_nonempty(opt_view(vars.wxpay_api_v3_key)) == Some(w.api_v3_key@)
            &&& spec_nonempty(opt_view(vars.wxpay_public_key_id)) == Some(w.public_key_id@)
            &&& spec_nonempty(opt_view(vars.wxpay_merchant_private_key_file)) == Some(
                w.merchant_private_key_file@,
            )
            &&& spec_nonempty(opt_view(vars.wxpay_public_key_file)) == Some(w.public_key_file@)
            &&& w.notify_url@ == spec_wechatpay_notify_url(base)
        },
        None => spec_wechatpay_count(vars) == 0,
    }
    &&& match c.telegram {
        Some(t) => spec_nonempty(opt_view(vars.telegram_bot_token)) == Some(t.bot_token@)
            && spec_nonempty(opt_view(vars.telegram_notify_chat_id)) == Some(t.chat_id@),
        None => spec_nonempty(opt_view(vars.telegram_bot_token)) is None && spec_nonempty(
            opt_view(vars.telegram_notify_chat_id),
        ) is None,
    }
}

fn count_if(value: &Option<String>) -> (r: (Option<String>, usize))
    ensures
        opt_view(r.0) == spec_nonempty(opt_view(*value)),
        r.1 == (if spec_nonempty(opt_view(*value)) is Some { 1usize } else { 0usize }),
{
    let v = optional_nonempty_value(value.clone());
    let n: usize = if v.is_some() { 1 } else { 0 };
    (v, n)
}

impl AppConfig {
    /// Reads the configuration from the raw environment. The caller has parsed the
    /// listen address (`listen_addr_text`) and read the file named by `SHOP_LOGO_FILE`
    /// (any value when it is unset; it is then not consulted). Each check runs in a
    /// fixed order and the first failure is reported.
    ///
    /// Whether a payment provider is enabled depends only on its business credentials:
    /// key file locations are required only once all five WeChat Pay credentials are
    /// set, so an ePay-only deployment needs no key files.
    pub fn from_values(
        vars: &EnvVars,
        listen_addr_error: Option<String>,
        shop_logo: Result<Vec<u8>, String>,
    ) -> (res: Result<AppConfig, ConfigError>)
        ensures
            ({
                let err = spec_config_error(
                    *vars,
                    opt_view(listen_addr_error),
                    match shop_logo {
                        Ok(b) => Ok(b@),
                        Err(m) => Err(m@),
                    },
                );
                match err {
                    Some(e) => res matches Err(r) && r@ == e,
                    None => res matches Ok(c) && spec_config_values(*vars, c) && all_wf(
                        c.rate_limit_trusted_proxy_cidrs@,
                    ),
                }
            }),
    {
        let listen_addr = listen_addr_text(vars);
        match listen_addr_error {
            Some(e) => return Err(ConfigError::InvalidListenAddr(e)),
            None => {},
        }
        let database_url = required(&vars.database_url, "DATABASE_URL")?;
        let public_base_url = var_or(&vars.public_base_url, "http://localhost:3000");
        let web_return_url = var_or(&vars.web_return_url, "http://localhost:5173/orders");
        let web_dist_dir = required(&vars.web_dist_dir, "WEB_DIST_DIR")?;
        let raw_shop_name = required(&vars.shop_name, "SHOP_NAME")?;
        let shop_name = String::from_str(trim(raw_shop_name.as_str()));
        let name_chars = shop_name.as_str().unicode_len();
        if !(1 <= name_chars && name_chars <= 100) {
            return Err(ConfigError::InvalidShopName);
        }
        let shop_logo_file = required(&vars.shop_logo_file, "SHOP_LOGO_FILE")?;
        let logo_bytes = match shop_logo {
            Ok(b) => b,
            Err(source) => return Err(
                ConfigError::UnreadableShopLogo { file: shop_logo_file, source },
            ),
        };
        if !is_svg(logo_bytes.as_slice()) {
            return Err(ConfigError::UnsupportedShopLogo(shop_logo_file));
        }
        let admin_key = required(&vars.admin_key, "ADMIN_KEY")?;
        let order_password_pepper = var_or(&vars.order_password_pepper, "dev-insecure-change-me");
        let cidr_value: Option<&str> = match &vars.rate_limit_trusted_proxy_cidrs {
            Some(v) => Some(v.as_str()),
            None => None,
        };
        let rate_limit_trusted_proxy_cidrs = parse_trusted_proxy_cidrs(cidr_value)?;
        let minutes_text = var_or(&vars.wxpay_expire_minutes, "15");
        let wechatpay_expire_minutes = match parse_i64(minutes_text.as_str()) {
            Some(m) => {
                if 1 <= m && m <= 120 {
                    m
                } else {
                    return Err(
                        ConfigError::InvalidPositiveInteger(String::from_str("WXPAY_EXPIRE_MINUTES")),
                    );
                }
            },
            None => return Err(
                ConfigError::InvalidPositiveInteger(String::from_str("WXPAY_EXPIRE_MINUTES")),
            ),
        };
        let epay = match (
            optional_nonempty_value(vars.epay_gateway.clone()),
            optional_nonempty_value(vars.epay_pid.clone()),
            optional_nonempty_value(vars.epay_key.clone()),
        ) {
            (Some(gateway), Some(pid), Some(key)) => Some(EpayConfig { gateway, pid, key }),
            _ => None,
        };
        let (app_id, c1) = count_if(&vars.wxpay_app_id);
        let (mch_id, c2) = count_if(&vars.wxpay_mch_id);
        let (merchant_serial_no, c3) = count_if(&vars.wxpay_merchant_serial_no);
        let (api_v3_key, c4) = count_if(&vars.wxpay_api_v3_key);
        let (public_key_id, c5) = count_if(&vars.wxpay_public_key_id);
        let configured = c1 + c2 + c3 + c4 + c5;
        let wechatpay = if configured == 0 {
            None
        } else if configured != 5 {
            return Err(
                ConfigError::IncompletePaymentConfig(
                    String::from_str("all WXPAY credential values must be configured together"),
                ),
            );
        } else {
            if !starts_with(public_base_url.as_str(), "https://") {
                proof {
                    reveal_strlit("https://");
                }
                return Err(ConfigError::WechatPayRequiresHttps);
            }
            proof {
                reveal_strlit("https://");
            }
            let merchant_private_key_file = match optional_nonempty_value(
                vars.wxpay_merchant_private_key_file.clone(),
            ) {
                Some(f) => f,
                None => return Err(
                    ConfigError::IncompletePaymentConfig(
                        String::from_str(
                            "WXPAY_MERCHANT_PRIVATE_KEY_FILE is required when WeChat Pay is enabled",
                        ),
                    ),
                ),
            };
            let public_key_file = match optional_nonempty_value(vars.wxpay_public_key_file.clone()) {
                Some(f) => f,
                None => return Err(
                    ConfigError::IncompletePaymentConfig(
                        String::from_str("WXPAY_PUBLIC_KEY_FILE is required when WeChat Pay is enabled"),
                    ),
                ),
            };
            let api_v3_key = match api_v3_key {
                Some(k) => k,
                None => {
                    proof {
                        assert(false);
                    }
                    String::new()
                },
            };
            let bytes_ok = !byte_len_below(api_v3_key.as_str(), 32) && byte_len_below(
                api_v3_key.as_str(),
                33,
            );
            if !bytes_ok {
                return Err(
                    ConfigError::IncompletePaymentConfig(
                        String::from_str("WXPAY_API_V3_KEY must contain exactly 32 bytes"),
                    ),
                );
            }
            let mut notify_url = String::from_str(trim_end_slash(public_base_url.as_str()));
            notify_url.append("/api/payments/wechatpay/notify");
            match (app_id, mch_id, merchant_serial_no, public_key_id) {
                (Some(app_id), Some(mch_id), Some(merchant_serial_no), Some(public_key_id)) => Some(
                    WechatPayConfig {
                        app_id,
                        mch_id,
                        merchant_serial_no,
                        merchant_private_key_file,
                        api_v3_key,
                        public_key_id,
                        public_key_file,
                        notify_url,
                    },
                ),
                _ => {
                    proof {
                        assert(false);
                    }
                    None
                },
            }
        };
        let telegram = telegram_config_from_values(
            vars.telegram_bot_token.clone(),
            vars.telegram_notify_chat_id.clone(),
        )?;
        Ok(
            AppConfig {
                listen_addr,
                database_url,
                public_base_url,
                web_return_url,
                web_dist_dir,
                shop_name,
                shop_logo_file,
                admin_key,
                order_password_pepper,
                rate_limit_trusted_proxy_cidrs,
                wechatpay_expire_minutes,
                epay,
                wechatpay,
                telegram,
            },
        )
    }
}

} // verus!
