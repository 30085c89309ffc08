//! Credentials of connectors as they are kept in a configuration file, and
//! the kind of credentials that each entry of the file amounts to.
//!
//! An entry is a table of keys. Which of the keys `api_key`, `key1`,
//! `api_secret` and `key2` it holds decides the kind; a table of keys by
//! currency under `auth_key_map` is a kind of its own.

use vstd::prelude::*;
use vstd::std_specs::convert::FromSpecImpl;

use crate::connectors::types::{ConnectorAuthType, ConnectorAuthView};
use crate::currency::{currency_of_code, Currency};
use crate::secret::Secret;

verus! {

/// A single key.
pub struct HeaderKey {
    pub api_key: Secret,
}

/// Two keys.
pub struct BodyKey {
    pub api_key: Secret,
    pub key1: Secret,
}

/// Two keys and a secret.
pub struct SignatureKey {
    pub api_key: Secret,
    pub key1: Secret,
    pub api_secret: Secret,
}

/// Three keys and a secret.
pub struct MultiAuthKey {
    pub api_key: Secret,
    pub key1: Secret,
    pub api_secret: Secret,
    pub key2: Secret,
}

/// Keys by currency: the name of each entry with its key as the file
/// format writes it.
#[derive(Debug)]
pub struct CurrencyAuthKey {
    pub auth_key_map: Vec<(String, String)>,
}

/// No key at all.
#[derive(Debug, Clone, Copy, Default)]
pub struct NoKey {}

/// The settings of the browser automation.
#[derive(Debug, Clone)]
pub struct AutomationConfigs {
    pub hs_base_url: Option<String>,
    pub hs_api_key: Option<String>,
    pub hs_api_keys: Option<String>,
    pub hs_webhook_url: Option<String>,
    pub hs_test_env: Option<String>,
    pub hs_test_browser: Option<String>,
    pub chrome_profile_path: Option<String>,
    pub firefox_profile_path: Option<String>,
    pub pypl_email: Option<String>,
    pub pypl_pass: Option<String>,
    pub gmail_email: Option<String>,
    pub gmail_pass: Option<String>,
    pub clearpay_email: Option<String>,
    pub clearpay_pass: Option<String>,
    pub configs_url: Option<String>,
    pub stripe_pub_key: Option<String>,
    pub testcases_path: Option<String>,
    pub bluesnap_gateway_merchant_id: Option<String>,
    pub globalpay_gateway_merchant_id: Option<String>,
    pub authorizedotnet_gateway_merchant_id: Option<String>,
    pub run_minimum_steps: Option<bool>,
    pub airwallex_merchant_name: Option<String>,
    pub adyen_bancontact_username: Option<String>,
    pub adyen_bancontact_pass: Option<String>,
}

/// The users of the user flows.
#[derive(Debug, Clone)]
pub struct UsersConfigs {
    pub user_email: String,
    pub user_password: String,
    pub wrong_password: String,
    pub user_base_email_for_signup: String,
    pub user_domain_for_signup: String,
}

/// A value of a configuration table.
#[derive(Debug)]
pub enum ConfigValue {
    /// A string.
    Text(String),
    /// A table: the name of each entry with its value as the file format
    /// writes it.
    Table(Vec<(String, String)>),
    /// Anything else.
    Other,
}

/// What the table of a connector holds under the keys that matter.
#[derive(Debug)]
pub struct AuthTable {
    pub auth_key_map: Option<ConfigValue>,
    pub api_key: Option<ConfigValue>,
    pub key1: Option<ConfigValue>,
    pub api_secret: Option<ConfigValue>,
    pub key2: Option<ConfigValue>,
}

/// The entry of a connector: a table, or anything else.
#[derive(Debug)]
pub enum ConnectorConfig {
    Table(AuthTable),
    Other,
}

/// The credentials of connectors, by name.
pub struct ConnectorAuthenticationMap(pub Vec<(String, ConnectorAuthType)>);

/// The text of a key: the string where the value is one, and the empty text
/// for any other value.
pub open spec fn key_text(value: ConfigValue) -> Seq<char> {
    match value {
        ConfigValue::Text(text) => text@,
        _ => Seq::empty(),
    }
}

/// The keys by currency of a list of entries: the entries whose names are
/// currency codes, in order.
pub open spec fn currency_keys(entries: Seq<(String, String)>) -> Seq<(Currency, Seq<char>)>
    decreases entries.len(),
{
    if entries.len() == 0 {
        Seq::empty()
    } else {
        let rest = currency_keys(entries.drop_last());
        match currency_of_code(entries.last().0@) {
            Some(currency) => rest.push((currency, entries.last().1@)),
            None => rest,
        }
    }
}

/// The kind of credentials that a table amounts to by the four keys: one
/// key alone is a header key, two are a body key, three a signature key and
/// four a multi key. The keys count in this order only; any other
/// combination is no key.
pub open spec fn auth_of_keys(
    api_key: Option<ConfigValue>,
    key1: Option<ConfigValue>,
    api_secret: Option<ConfigValue>,
    key2: Option<ConfigValue>,
) -> ConnectorAuthView {
    match (api_key, key1, api_secret, key2) {
        (Some(a), None, None, None) => ConnectorAuthView::HeaderKey { api_key: key_text(a) },
        (Some(a), Some(k), None, None) => ConnectorAuthView::BodyKey {
            api_key: key_text(a),
            key1: key_text(k),
        },
        (Some(a), Some(k), Some(s), None) => ConnectorAuthView::SignatureKey {
            api_key: key_text(a),
            key1: key_text(k),
            api_secret: key_text(s),
        },
        (Some(a), Some(k), Some(s), Some(m)) => ConnectorAuthView::MultiAuthKey {
            api_key: key_text(a),
            key1: key_text(k),
            api_secret: key_text(s),
            key2: key_text(m),
        },
        _ => ConnectorAuthView::NoKey,
    }
}

/// The kind of credentials that an entry amounts to. A table with keys by
/// currency is a currency key whatever else it holds, provided the keys are
/// a table themselves; an entry that is no table is no key.
pub open spec fn auth_of_config(config: ConnectorConfig) -> ConnectorAuthView {
    match config {
        ConnectorConfig::Table(table) => match table.auth_key_map {
            Some(ConfigValue::Table(entries)) => ConnectorAuthView::CurrencyAuthKey {
                auth_key_map: currency_keys(entries@),
            },
            Some(_) => ConnectorAuthView::NoKey,
            None => auth_of_keys(table.api_key, table.key1, table.api_secret, table.key2),
        },
        ConnectorConfig::Other => ConnectorAuthView::NoKey,
    }
}

impl From<HeaderKey> for ConnectorAuthType {
    fn from(key: HeaderKey) -> (res: Self) {
        ConnectorAuthType::HeaderKey { api_key: key.api_key }
    }
}

impl FromSpecImpl<HeaderKey> for ConnectorAuthType {
    open spec fn obeys_from_spec() -> bool {
        true
    }

    open spec fn from_spec(key: HeaderKey) -> Self {
        ConnectorAuthType::HeaderKey { api_key: key.api_key }
    }
}

impl From<BodyKey> for ConnectorAuthType {
    fn from(key: BodyKey) -> (res: Self) {
        ConnectorAuthType::BodyKey { api_key: key.api_key, key1: key.key1 }
    }
}

impl FromSpecImpl<BodyKey> for ConnectorAuthType {
    open spec fn obeys_from_spec() -> bool {
        true
    }

    open spec fn from_spec(key: BodyKey) -> Self {
        ConnectorAuthType::BodyKey { api_key: key.api_key, key1: key.key1 }
    }
}

impl From<SignatureKey> for ConnectorAuthType {
    fn from(key: SignatureKey) -> (res: Self) {
        ConnectorAuthType::SignatureKey {
            api_key: key.api_key,
            key1: key.key1,
            api_secret: key.api_secret,
        }
    }
}

impl FromSpecImpl<SignatureKey> for ConnectorAuthType {
    open spec fn obeys_from_spec() -> bool {
        true
    }

    open spec fn from_spec(key: SignatureKey) -> Self {
        ConnectorAuthType::SignatureKey {
            api_key: key.api_key,
            key1: key.key1,
            api_secret: key.api_secret,
        }
    }
}

impl From<MultiAuthKey> for ConnectorAuthType {
    fn from(key: MultiAuthKey) -> (res: Self) {
        ConnectorAuthType::MultiAuthKey {
            api_key: key.api_key,
            key1: key.key1,
            api_secret: key.api_secret,
            key2: key.key2,
        }
    }
}

impl FromSpecImpl<MultiAuthKey> for ConnectorAuthType {
    open spec fn obeys_from_spec() -> bool {
        true
    }

    open spec fn from_spec(key: MultiAuthKey) -> Self {
        ConnectorAuthType::MultiAuthKey {
            api_key: key.api_key,
            key1: key.key1,
            api_secret: key.api_secret,
            key2: key.key2,
        }
    }
}

impl From<CurrencyAuthKey> for ConnectorAuthType {
    /// The keys of the entries whose names are currency codes, in order.
    fn from(key: CurrencyAuthKey) -> (res: Self)
        ensures
            res@ == (ConnectorAuthView::CurrencyAuthKey {
                auth_key_map: currency_keys(key.auth_key_map@),
            }),
    {
        ConnectorAuthType::CurrencyAuthKey { auth_key_map: currency_secrets(&key.auth_key_map) }
    }
}

impl FromSpecImpl<CurrencyAuthKey> for ConnectorAuthType {
    /// The conversion makes new secrets, so what it gives is stated by the
    /// contract of `from` over the texts of the secrets, and not here.
    open spec fn obeys_from_spec() -> bool {
        false
    }

    /// Not claimed of the conversion; see `obeys_from_spec`.
    open spec fn from_spec(key: CurrencyAuthKey) -> Self {
        ConnectorAuthType::NoKey
    }
}

fn key_secret(value: &ConfigValue) -> (res: Secret)
    ensures
        res@ == key_text(*value),
{
    match value {
        ConfigValue::Text(text) => Secret::new(text.clone()),
        _ => Secret::new(String::new()),
    }
}

fn currency_secrets(entries: &Vec<(String, String)>) -> (res: Vec<(Currency, Secret)>)
    ensures
        Seq::new(res@.len(), |i: int| (res@[i].0, res@[i].1@)) == currency_keys(entries@),
{
    let mut out: Vec<(Currency, Secret)> = Vec::new();
    let mut i: usize = 0;
    assert(entries@.subrange(0, 0) =~= Seq::empty());
    while i < entries.len()
        invariant
            i <= entries.len(),
            Seq::new(out@.len(), |k: int| (out@[k].0, out@[k].1@)) == currency_keys(
                entries@.subrange(0, i as int),
            ),
        decreases entries.len() - i,
    {
        let ghost next = entries@.subrange(0, i as int + 1);
        let ghost before = Seq::new(out@.len(), |k: int| (out@[k].0, out@[k].1@));
        assert(next.drop_last() =~= entries@.subrange(0, i as int));
        assert(next.last() == entries@[i as int]);
        match Currency::from_code(entries[i].0.as_str()) {
            Some(currency) => {
                out.push((currency, Secret::new(entries[i].1.clone())));
                assert(Seq::new(out@.len(), |k: int| (out@[k].0, out@[k].1@)) =~= before.push(
                    (currency, entries@[i as int].1@),
                ));
            },
            None => {},
        }
        i += 1;
    }
    assert(entries@.subrange(0, entries@.len() as int) =~= entries@);
    out
}

/// The kind of credentials that an entry of the file amounts to.
pub fn auth_type_of_config(config: &ConnectorConfig) -> (res: ConnectorAuthType)
    ensures
        res@ == auth_of_config(*config),
{
    match config {
        ConnectorConfig::Table(table) => {
            match &table.auth_key_map {
                Some(ConfigValue::Table(entries)) => ConnectorAuthType::CurrencyAuthKey {
                    auth_key_map: currency_secrets(entries),
                },
                Some(_) => ConnectorAuthType::NoKey,
                None => {
                    match (&table.api_key, &table.key1, &table.api_secret, &table.key2) {
                        (Some(api_key), None, None, None) => ConnectorAuthType::HeaderKey {
                            api_key: key_secret(api_key),
                        },
                        (Some(api_key), Some(key1), None, None) => ConnectorAuthType::BodyKey {
                            api_key: key_secret(api_key),
                            key1: key_secret(key1),
                        },
                        (
                            Some(api_key),
                            Some(key1),
                            Some(api_secret),
                            None,
                        ) => ConnectorAuthType::SignatureKey {
                            api_key: key_secret(api_key),
                            key1: key_secret(key1),
                            api_secret: key_secret(api_secret),
                        },
                        (
                            Some(api_key),
                            Some(key1),
                            Some(api_secret),
                            Some(key2),
                        ) => ConnectorAuthType::MultiAuthKey {
                            api_key: key_secret(api_key),
                            key1: key_secret(key1),
                            api_secret: key_secret(api_secret),
                            key2: key_secret(key2),
                        },
                        _ => ConnectorAuthType::NoKey,
                    }
                },
            }
        },
        ConnectorConfig::Other => ConnectorAuthType::NoKey,
    }
}

impl ConnectorAuthenticationMap {
    /// The credentials by name.
    pub fn inner(&self) -> (res: &Vec<(String, ConnectorAuthType)>)
        ensures
            *res == self.0,
    {
        &self.0
    }

    /// The credentials of the entries of a file: each name with the kind of
    /// credentials that its entry amounts to.
    pub fn from_configs(configs: &Vec<(String, ConnectorConfig)>) -> (res: Self)
        ensures
            res.0@.len() == configs@.len(),
            forall|i: int|
                0 <= i < configs@.len() ==> (#[trigger] res.0@[i]).0@ == configs@[i].0@
                    && res.0@[i].1@ == auth_of_config(configs@[i].1),
    {
        let mut out: Vec<(String, ConnectorAuthType)> = Vec::new();
        let mut i: usize = 0;
        while i < configs.len()
            invariant
                i <= configs.len(),
                out@.len() == i,
                forall|k: int|
                    0 <= k < i ==> (#[trigger] out@[k]).0@ == configs@[k].0@ && out@[k].1@
                        == auth_of_config(configs@[k].1),
            decreases configs.len() - i,
        {
            out.push((configs[i].0.clone(), auth_type_of_config(&configs[i].1)));
            i += 1;
        }
        ConnectorAuthenticationMap(out)
    }
}

/// Without the API key there is no key, whatever else a table holds, and a
/// gap in the order of the keys is no key either.
pub proof fn lemma_keys_count_in_order(
    api_key: Option<ConfigValue>,
    key1: Option<ConfigValue>,
    api_secret: Option<ConfigValue>,
    key2: Option<ConfigValue>,
)
    ensures
        api_key is None ==> auth_of_keys(api_key, key1, api_secret, key2)
            == ConnectorAuthView::NoKey,
        key1 is None && (api_secret is Some || key2 is Some) ==> auth_of_keys(
            api_key,
            key1,
            api_secret,
            key2,
        ) == ConnectorAuthView::NoKey,
        api_secret is None && key2 is Some ==> auth_of_keys(api_key, key1, api_secret, key2)
            == ConnectorAuthView::NoKey,
{
}

} // verus!
