//! What the gateway to the wallet needs to know: where the wallet is, and the
//! account of the authority in it.
use vstd::prelude::*;
use vstd::string::*;
use crate::config::{CoreApplicationConfig, WalletConfig};
use crate::errors::{ErrorKind, Errors, Reason};
use crate::json::{lemma_array_view, lemma_object_view, Json, JsonView, Member, MemberView};
use crate::text::copy_opt;
use crate::types::host::HostConfig;

verus! {

/// The configuration of the gateway to the wallet.
#[derive(Clone, Debug, PartialEq, Eq)]
pub struct WaltIdConfig {
    pub host: HostConfig,
    pub ssi_wallet_config: WalletConfig,
    pub keys_path: String,
}

/// The body with which the authority registers in the wallet.
pub open spec fn register_json(wallet: WalletConfig) -> JsonView {
    JsonView::Object(
        seq![
            MemberView { name: "type"@, value: JsonView::Text(wallet.kind@) },
            MemberView { name: "name"@, value: JsonView::Text(wallet.name@) },
            MemberView { name: "email"@, value: JsonView::Text(wallet.email@) },
            MemberView { name: "password"@, value: JsonView::Text(wallet.password@) },
        ],
    )
}

/// The body with which the authority logs into the wallet.
pub open spec fn login_json(wallet: WalletConfig) -> JsonView {
    JsonView::Object(
        seq![
            MemberView { name: "type"@, value: JsonView::Text(wallet.kind@) },
            MemberView { name: "email"@, value: JsonView::Text(wallet.email@) },
            MemberView { name: "password"@, value: JsonView::Text(wallet.password@) },
        ],
    )
}

/// The string under `key` of `node`, or why there is none.
pub open spec fn field_of(node: Option<JsonView>, key: Seq<char>) -> Result<Seq<char>, Reason> {
    match node {
        None => Err(Reason::MissingField),
        Some(value) => match value.get(key) {
            None => Err(Reason::MissingField),
            Some(found) => match found.text() {
                Some(text) => Ok(text),
                None => Err(Reason::NotAString),
            },
        },
    }
}

/// The outcome of reading a string from an answer of the wallet: the string,
/// or a `Consumer` failure with the reason why there is none.
pub open spec fn read_as(r: Result<String, Errors>, expected: Result<Seq<char>, Reason>) -> bool {
    match expected {
        Ok(text) => r matches Ok(found) && found@ == text,
        Err(why) => r matches Err(e) && e.kind == ErrorKind::Consumer && e.reason == why
            && e.http_code.is_none(),
    }
}

/// The string under `key` of `node`; a failure is of the class `Consumer`.
fn field(node: Option<&Json>, key: &str) -> (r: Result<String, Errors>)
    ensures
        read_as(
            r,
            field_of(
                match node {
                    Some(value) => Some(value@),
                    None => None,
                },
                key@,
            ),
        ),
{
    let found = match node {
        Some(value) => value.get(key),
        None => None,
    };
    match found {
        Some(value) => match value.as_text() {
            Some(text) => Ok(text.clone()),
            None => Err(Errors::new(ErrorKind::Consumer, Reason::NotAString, key)),
        },
        None => Err(Errors::new(ErrorKind::Consumer, Reason::MissingField, key)),
    }
}

/// The session token in the answer to a login: its member `token`.
pub fn session_token(answer: &Json) -> (r: Result<String, Errors>)
    ensures
        read_as(r, field_of(Some(answer@), "token"@)),
{
    field(Some(answer), "token")
}

/// The id of the wallet of the account, in the answer that lists its
/// wallets: the member `id` of the first element of the member `wallets`.
pub fn first_wallet_id(answer: &Json) -> (r: Result<String, Errors>)
    ensures
        read_as(
            r,
            field_of(
                match answer@.get("wallets"@) {
                    Some(list) => list.item(0),
                    None => None,
                },
                "id"@,
            ),
        ),
{
    let first = match answer.get("wallets") {
        Some(list) => list.item(0),
        None => None,
    };
    field(first, "id")
}

/// The DID of the authority, in the answer that lists the DIDs of its
/// wallet: the member `did` of the first element.
pub fn first_did(answer: &Json) -> (r: Result<String, Errors>)
    ensures
        read_as(r, field_of(answer@.item(0), "did"@)),
{
    field(answer.item(0), "did")
}

/// The key set that publishes one key: its member `keys` lists the key.
pub open spec fn jwks_json(jwk: JsonView) -> JsonView {
    JsonView::Object(seq![MemberView { name: "keys"@, value: JsonView::Array(seq![jwk]) }])
}

/// The key set under which the authority publishes its key.
pub fn jwks_of(jwk: Json) -> (r: Json)
    ensures
        r@ == jwks_json(jwk@),
{
    let ghost key = jwk@;
    let mut keys: Vec<Json> = Vec::new();
    keys.push(jwk);
    let list = Json::Array(keys);
    proof {
        lemma_array_view(list);
        assert(list@->Array_0 =~= seq![key]);
    }
    let mut members: Vec<Member> = Vec::new();
    members.push(Member::new("keys", list));
    let r = Json::Object(members);
    proof {
        lemma_object_view(r);
        assert(r@->Object_0 =~= jwks_json(key)->Object_0);
    }
    r
}

/// Whether the wallet took a call to `url` that it answered with `status`:
/// it did with 200 and with 201; any other status is a `Consumer` failure
/// that carries it.
pub fn accepted(url: &str, status: u16) -> (r: Result<(), Errors>)
    ensures
        match r {
            Ok(_) => status == 200 || status == 201,
            Err(e) => status != 200 && status != 201 && e.kind == ErrorKind::Consumer && e.reason
                == Reason::CallbackRefused && e.detail@ == url@ && e.http_code == Some(status),
        },
{
    if status == 200 || status == 201 {
        Ok(())
    } else {
        Err(Errors::consumer_new(url, Some(status)))
    }
}

impl WaltIdConfig {
    /// The configuration of the gateway of a server.
    pub fn from_config(config: &CoreApplicationConfig) -> (r: WaltIdConfig)
        ensures
            r.host.spec_url() == config.host.spec_url(),
            r.keys_path@ == config.keys_path@,
            r.ssi_wallet_config.api_protocol@ == config.ssi_wallet_config.api_protocol@,
            r.ssi_wallet_config.api_url@ == config.ssi_wallet_config.api_url@,
            r.ssi_wallet_config.kind@ == config.ssi_wallet_config.kind@,
            r.ssi_wallet_config.name@ == config.ssi_wallet_config.name@,
            r.ssi_wallet_config.email@ == config.ssi_wallet_config.email@,
            r.ssi_wallet_config.password@ == config.ssi_wallet_config.password@,
    {
        let wallet = &config.ssi_wallet_config;
        WaltIdConfig {
            host: config.host.duplicate(),
            ssi_wallet_config: WalletConfig {
                api_protocol: wallet.api_protocol.clone(),
                api_url: wallet.api_url.clone(),
                api_port: copy_opt(&wallet.api_port),
                kind: wallet.kind.clone(),
                name: wallet.name.clone(),
                email: wallet.email.clone(),
                password: wallet.password.clone(),
                id: copy_opt(&wallet.id),
            },
            keys_path: config.keys_path.clone(),
        }
    }

    /// The address of the wallet: protocol, host name and, where there is
    /// one, port.
    pub open spec fn spec_wallet_api_url(&self) -> Seq<char> {
        let wallet = self.ssi_wallet_config;
        match wallet.api_port {
            Some(port) => wallet.api_protocol@ + "://"@ + wallet.api_url@ + ":"@ + port@,
            None => wallet.api_protocol@ + "://"@ + wallet.api_url@,
        }
    }

    /// The address of the wallet.
    pub fn get_wallet_api_url(&self) -> (r: String)
        ensures
            r@ == self.spec_wallet_api_url(),
    {
        let wallet = &self.ssi_wallet_config;
        let mut url = wallet.api_protocol.clone();
        url.append("://");
        url.append(wallet.api_url.as_str());
        match &wallet.api_port {
            Some(port) => {
                url.append(":");
                url.append(port.as_str());
            },
            None => {},
        }
        url
    }

    /// Where the authority registers in the wallet.
    pub fn get_register_url(&self) -> (r: String)
        ensures
            r@ == self.spec_wallet_api_url() + "/wallet-api/auth/register"@,
    {
        let mut url = self.get_wallet_api_url();
        url.append("/wallet-api/auth/register");
        url
    }

    /// Where the authority logs into the wallet.
    pub fn get_login_url(&self) -> (r: String)
        ensures
            r@ == self.spec_wallet_api_url() + "/wallet-api/auth/login"@,
    {
        let mut url = self.get_wallet_api_url();
        url.append("/wallet-api/auth/login");
        url
    }

    /// Where the wallets of the account are listed.
    pub fn get_wallets_url(&self) -> (r: String)
        ensures
            r@ == self.spec_wallet_api_url() + "/wallet-api/wallet/accounts/wallets"@,
    {
        let mut url = self.get_wallet_api_url();
        url.append("/wallet-api/wallet/accounts/wallets");
        url
    }

    /// Where the DIDs of the wallet `wallet_id` are listed.
    pub fn get_dids_url(&self, wallet_id: &str) -> (r: String)
        ensures
            r@ == self.spec_wallet_api_url() + "/wallet-api/wallet/"@ + wallet_id@ + "/dids"@,
    {
        let mut url = self.get_wallet_api_url();
        url.append("/wallet-api/wallet/");
        url.append(wallet_id);
        url.append("/dids");
        url
    }

    /// The body with which the authority registers in the wallet: type, name,
    /// email and password of its account.
    pub fn get_wallet_register_data(&self) -> (r: Json)
        ensures
            r@ == register_json(self.ssi_wallet_config),
    {
        let wallet = &self.ssi_wallet_config;
        let mut members: Vec<Member> = Vec::new();
        members.push(Member::new("type", Json::text(wallet.kind.as_str())));
        members.push(Member::new("name", Json::text(wallet.name.as_str())));
        members.push(Member::new("email", Json::text(wallet.email.as_str())));
        members.push(Member::new("password", Json::text(wallet.password.as_str())));
        let r = Json::Object(members);
        proof {
            lemma_object_view(r);
            assert(r@->Object_0 =~= register_json(self.ssi_wallet_config)->Object_0);
        }
        r
    }

    /// The body with which the authority logs into the wallet: type, email
    /// and password of its account.
    pub fn get_wallet_login_data(&self) -> (r: Json)
        ensures
            r@ == login_json(self.ssi_wallet_config),
    {
        let wallet = &self.ssi_wallet_config;
        let mut members: Vec<Member> = Vec::new();
        members.push(Member::new("type", Json::text(wallet.kind.as_str())));
        members.push(Member::new("email", Json::text(wallet.email.as_str())));
        members.push(Member::new("password", Json::text(wallet.password.as_str())));
        let r = Json::Object(members);
        proof {
            lemma_object_view(r);
            assert(r@->Object_0 =~= login_json(self.ssi_wallet_config)->Object_0);
        }
        r
    }

    /// Where the certificate of the authority lies.
    pub fn get_cert_path(&self) -> (r: String)
        ensures
            r@ == self.keys_path@ + "/cert.pem"@,
    {
        let mut path = self.keys_path.clone();
        path.append("/cert.pem");
        path
    }

    /// Where the private key of the authority lies.
    pub fn get_priv_key_path(&self) -> (r: String)
        ensures
            r@ == self.keys_path@ + "/private_key.pem"@,
    {
        let mut path = self.keys_path.clone();
        path.append("/private_key.pem");
        path
    }

    /// Where the public key of the authority lies.
    pub fn get_pub_key_path(&self) -> (r: String)
        ensures
            r@ == self.keys_path@ + "/public_key.pem"@,
    {
        let mut path = self.keys_path.clone();
        path.append("/public_key.pem");
        path
    }

    /// The address of the server.
    pub fn get_host(&self) -> (r: String)
        ensures
            r@ == self.host.spec_url(),
    {
        self.host.url()
    }
}

} // verus!
