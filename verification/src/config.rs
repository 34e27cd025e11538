//! The configuration of the server: its defaults, and what the environment
//! puts in their place.
use vstd::prelude::*;
use vstd::string::*;
use crate::errors::{ErrorKind, Errors, Reason};
use crate::services::basic_issuer::BasicIssuerConfig;
use crate::services::basic_verifier::BasicVerifierConfig;
use crate::services::gnap::GnapConfig;
use crate::text::{copy_opt, opt_text, str_eq};
use crate::types::host::HostConfig;

verus! {

/// The kind of database behind the server.
#[derive(Clone, Copy, Debug, PartialEq, Eq, Structural)]
pub enum DbType {
    Postgres,
    Mysql,
    Sqlite,
    Memory,
}

impl DbType {
    /// The name of the kind, which is also the scheme of its URLs.
    pub open spec fn spec_name(self) -> Seq<char> {
        match self {
            DbType::Postgres => "postgres"@,
            DbType::Mysql => "mysql"@,
            DbType::Sqlite => "sqlite"@,
            DbType::Memory => "memory"@,
        }
    }

    /// The kind that `name` stands for, if it names one.
    pub open spec fn spec_from(name: Seq<char>) -> Option<DbType> {
        if name == "postgres"@ {
            Some(DbType::Postgres)
        } else if name == "mysql"@ {
            Some(DbType::Mysql)
        } else if name == "sqlite"@ {
            Some(DbType::Sqlite)
        } else if name == "memory"@ {
            Some(DbType::Memory)
        } else {
            None
        }
    }

    /// The name of the kind, which is also the scheme of its URLs.
    pub fn name(&self) -> (r: &'static str)
        ensures
            r@ == self.spec_name(),
    {
        match self {
            DbType::Postgres => "postgres",
            DbType::Mysql => "mysql",
            DbType::Sqlite => "sqlite",
            DbType::Memory => "memory",
        }
    }

    /// The kind that `name` stands for, if it names one.
    pub fn from_name(name: &str) -> (r: Option<DbType>)
        ensures
            r == DbType::spec_from(name@),
    {
        if str_eq(name, "postgres") {
            Some(DbType::Postgres)
        } else if str_eq(name, "mysql") {
            Some(DbType::Mysql)
        } else if str_eq(name, "sqlite") {
            Some(DbType::Sqlite)
        } else if str_eq(name, "memory") {
            Some(DbType::Memory)
        } else {
            None
        }
    }
}

/// Where the database is reached.
#[derive(Clone, Debug, PartialEq, Eq)]
pub struct DatabaseConfig {
    pub db_type: DbType,
    pub url: String,
    pub port: String,
    pub user: String,
    pub password: String,
    pub name: String,
}

/// Where the wallet is reached, and the account of the authority in it.
#[derive(Clone, Debug, PartialEq, Eq)]
pub struct WalletConfig {
    pub api_protocol: String,
    pub api_url: String,
    pub api_port: Option<String>,
    pub kind: String,
    pub name: String,
    pub email: String,
    pub password: String,
    pub id: Option<String>,
}

/// The configuration of the server.
#[derive(Clone, Debug, PartialEq, Eq)]
pub struct CoreApplicationConfig {
    pub host: HostConfig,
    pub is_local: bool,
    pub database_config: DatabaseConfig,
    pub ssi_wallet_config: WalletConfig,
    pub keys_path: String,
    pub openapi_path: String,
    pub api_version: String,
}

/// What the environment says, variable by variable; nothing where a variable
/// is not set.
#[derive(Clone, Debug, PartialEq, Eq)]
pub struct EnvValues {
    pub host_protocol: Option<String>,
    pub host_url: Option<String>,
    pub host_port: Option<String>,
    pub db_type: Option<String>,
    pub db_url: Option<String>,
    pub db_port: Option<String>,
    pub db_user: Option<String>,
    pub db_password: Option<String>,
    pub db_database: Option<String>,
    pub wallet_api_protocol: Option<String>,
    pub wallet_api_url: Option<String>,
    pub wallet_api_port: Option<String>,
    pub wallet_type: Option<String>,
    pub wallet_name: Option<String>,
    pub wallet_email: Option<String>,
    pub wallet_password: Option<String>,
    pub keys_path: Option<String>,
    pub is_local: Option<String>,
    pub openapi_path: Option<String>,
    pub api_version: Option<String>,
}

/// The value of a variable, or the default where it is not set.
pub open spec fn or_default(value: Option<String>, default: Seq<char>) -> Seq<char> {
    match value {
        Some(v) => v@,
        None => default,
    }
}

/// The value of a variable, or the default where it is not set.
pub fn extract_env(value: &Option<String>, default: &str) -> (r: String)
    ensures
        r@ == or_default(*value, default@),
{
    match value {
        Some(v) => v.clone(),
        None => String::from_str(default),
    }
}

/// What `IS_LOCAL` says: true where it is not set.
pub open spec fn spec_is_local(value: Option<String>) -> Option<bool> {
    match value {
        None => Some(true),
        Some(v) => if v@ == "true"@ {
            Some(true)
        } else if v@ == "false"@ {
            Some(false)
        } else {
            None
        },
    }
}

/// What `DB_TYPE` says: postgres where it is not set.
pub open spec fn spec_db_type(value: Option<String>) -> Option<DbType> {
    match value {
        None => Some(DbType::Postgres),
        Some(v) => DbType::spec_from(v@),
    }
}

impl Default for CoreApplicationConfig {
    /// The configuration of a local server on port 1500, with a postgres
    /// database on port 1450 and a wallet on port 7001.
    fn default() -> (r: Self)
        ensures
            r.host.protocol@ == "http"@,
            r.host.url@ == "127.0.0.1"@,
            opt_text(r.host.port) == Some("1500"@),
            r.is_local,
            r.database_config.db_type == DbType::Postgres,
            r.database_config.url@ == "127.0.0.1"@,
            r.database_config.port@ == "1450"@,
            r.database_config.user@ == "ds_authority"@,
            r.database_config.password@ == "ds_authority"@,
            r.database_config.name@ == "ds_authority"@,
            r.ssi_wallet_config.api_protocol@ == "http"@,
            r.ssi_wallet_config.api_url@ == "127.0.0.1"@,
            opt_text(r.ssi_wallet_config.api_port) == Some("7001"@),
            r.ssi_wallet_config.kind@ == "email"@,
            r.ssi_wallet_config.name@ == "RainbowAuthority"@,
            r.ssi_wallet_config.email@ == "RainbowAuthority@rainbow.com"@,
            r.ssi_wallet_config.password@ == "rainbow"@,
            r.ssi_wallet_config.id.is_none(),
            r.keys_path@ == "static/certificates/"@,
            r.openapi_path@ == "static/specs/openapi/openapi.json"@,
            r.api_version@ == "v1"@,
    {
        CoreApplicationConfig {
            host: HostConfig {
                protocol: "http".to_string(),
                url: "127.0.0.1".to_string(),
                port: Some("1500".to_string()),
            },
            database_config: DatabaseConfig {
                db_type: DbType::Postgres,
                url: "127.0.0.1".to_string(),
                port: "1450".to_string(),
                user: "ds_authority".to_string(),
                password: "ds_authority".to_string(),
                name: "ds_authority".to_string(),
            },
            ssi_wallet_config: WalletConfig {
                api_protocol: "http".to_string(),
                api_url: "127.0.0.1".to_string(),
                api_port: Some("7001".to_string()),
                kind: "email".to_string(),
                name: "RainbowAuthority".to_string(),
                email: "RainbowAuthority@rainbow.com".to_string(),
                password: "rainbow".to_string(),
                id: None,
            },
            is_local: true,
            keys_path: "static/certificates/".to_string(),
            openapi_path: "static/specs/openapi/openapi.json".to_string(),
            api_version: "v1".to_string(),
        }
    }
}

impl CoreApplicationConfig {
    /// The configuration that the environment asks for: each value is that of
    /// its variable, or the default where the variable is not set; the wallet
    /// port has no default. A `DB_TYPE` that names no kind of database and an
    /// `IS_LOCAL` that is neither `true` nor `false` are refused as
    /// `BadFormat`.
    pub fn merge_dotenv_configuration(env: &EnvValues) -> (r: Result<Self, Errors>)
        ensures
            match (spec_db_type(env.db_type), spec_is_local(env.is_local)) {
                (Some(db_type), Some(is_local)) => {
                    &&& r matches Ok(c)
                    &&& c.host.protocol@ == or_default(env.host_protocol, "http"@)
                    &&& c.host.url@ == or_default(env.host_url, "127.0.0.1"@)
                    &&& opt_text(c.host.port) == Some(or_default(env.host_port, "1500"@))
                    &&& c.is_local == is_local
                    &&& c.database_config.db_type == db_type
                    &&& c.database_config.url@ == or_default(env.db_url, "127.0.0.1"@)
                    &&& c.database_config.port@ == or_default(env.db_port, "1450"@)
                    &&& c.database_config.user@ == or_default(env.db_user, "ds_authority"@)
                    &&& c.database_config.password@ == or_default(
                        env.db_password,
                        "ds_authority"@,
                    )
                    &&& c.database_config.name@ == or_default(env.db_database, "ds_authority"@)
                    &&& c.ssi_wallet_config.api_protocol@ == or_default(
                        env.wallet_api_protocol,
                        "http"@,
                    )
                    &&& c.ssi_wallet_config.api_url@ == or_default(
                        env.wallet_api_url,
                        "127.0.0.1"@,
                    )
                    &&& opt_text(c.ssi_wallet_config.api_port) == opt_text(env.wallet_api_port)
                    &&& c.ssi_wallet_config.kind@ == or_default(env.wallet_type, "email"@)
                    &&& c.ssi_wallet_config.name@ == or_default(
                        env.wallet_name,
                        "RainbowAuthority"@,
                    )
                    &&& c.ssi_wallet_config.email@ == or_default(
                        env.wallet_email,
                        "RainbowAuthority@rainbow.com"@,
                    )
                    &&& c.ssi_wallet_config.password@ == or_default(
                        env.wallet_password,
                        "rainbow"@,
                    )
                    &&& c.ssi_wallet_config.id.is_none()
                    &&& c.keys_path@ == or_default(env.keys_path, "static/certificates/"@)
                    &&& c.openapi_path@ == or_default(
                        env.openapi_path,
                        "static/specs/openapi/openapi.json"@,
                    )
                    &&& c.api_version@ == or_default(env.api_version, "v1"@)
                },
                _ => r matches Err(e) && e.kind == ErrorKind::BadFormat && e.reason
                    == Reason::InvalidSetting && e.http_code.is_none(),
            },
    {
        let db_type = match &env.db_type {
            Some(name) => match DbType::from_name(name.as_str()) {
                Some(kind) => kind,
                None => {
                    return Err(Errors::format_new(Reason::InvalidSetting, "DB_TYPE"));
                },
            },
            None => DbType::Postgres,
        };
        let is_local = match &env.is_local {
            Some(value) => if str_eq(value.as_str(), "true") {
                true
            } else if str_eq(value.as_str(), "false") {
                false
            } else {
                return Err(Errors::format_new(Reason::InvalidSetting, "IS_LOCAL"));
            },
            None => true,
        };
        Ok(
            CoreApplicationConfig {
                host: HostConfig {
                    protocol: extract_env(&env.host_protocol, "http"),
                    url: extract_env(&env.host_url, "127.0.0.1"),
                    port: Some(extract_env(&env.host_port, "1500")),
                },
                database_config: DatabaseConfig {
                    db_type,
                    url: extract_env(&env.db_url, "127.0.0.1"),
                    port: extract_env(&env.db_port, "1450"),
                    user: extract_env(&env.db_user, "ds_authority"),
                    password: extract_env(&env.db_password, "ds_authority"),
                    name: extract_env(&env.db_database, "ds_authority"),
                },
                ssi_wallet_config: WalletConfig {
                    api_protocol: extract_env(&env.wallet_api_protocol, "http"),
                    api_url: extract_env(&env.wallet_api_url, "127.0.0.1"),
                    api_port: copy_opt(&env.wallet_api_port),
                    kind: extract_env(&env.wallet_type, "email"),
                    name: extract_env(&env.wallet_name, "RainbowAuthority"),
                    email: extract_env(&env.wallet_email, "RainbowAuthority@rainbow.com"),
                    password: extract_env(&env.wallet_password, "rainbow"),
                    id: None,
                },
                is_local,
                keys_path: extract_env(&env.keys_path, "static/certificates/"),
                openapi_path: extract_env(&env.openapi_path, "static/specs/openapi/openapi.json"),
                api_version: extract_env(&env.api_version, "v1"),
            },
        )
    }

    /// The URL of the database: `:memory:` for a database in memory, else the
    /// kind as scheme, then user and password, host and port, and the name.
    pub open spec fn spec_full_db_url(&self) -> Seq<char> {
        let db = self.database_config;
        match db.db_type {
            DbType::Memory => ":memory:"@,
            _ => db.db_type.spec_name() + "://"@ + db.user@ + ":"@ + db.password@ + "@"@ + db.url@
                + ":"@ + db.port@ + "/"@ + db.name@,
        }
    }

    /// The URL of the database.
    pub fn get_full_db_url(&self) -> (r: String)
        ensures
            r@ == self.spec_full_db_url(),
    {
        let db = &self.database_config;
        match db.db_type {
            DbType::Memory => ":memory:".to_string(),
            _ => {
                let mut url = String::from_str(db.db_type.name());
                url.append("://");
                url.append(db.user.as_str());
                url.append(":");
                url.append(db.password.as_str());
                url.append("@");
                url.append(db.url.as_str());
                url.append(":");
                url.append(db.port.as_str());
                url.append("/");
                url.append(db.name.as_str());
                url
            },
        }
    }

    /// Where the database is reached.
    pub fn get_raw_database_config(&self) -> (r: &DatabaseConfig)
        ensures
            *r == self.database_config,
    {
        &self.database_config
    }

    /// The address of the server: protocol, host name and port.
    pub fn get_host(&self) -> (r: String)
        ensures
            r@ == self.host.spec_url(),
    {
        self.host.url()
    }

    /// Whether the server runs in local mode.
    pub fn is_local(&self) -> (r: bool)
        ensures
            r == self.is_local,
    {
        self.is_local
    }

    /// A colon and the server port, or nothing where it has none.
    pub fn get_weird_port(&self) -> (r: String)
        ensures
            r@ == self.host.spec_port_suffix(),
    {
        self.host.port_suffix()
    }

    /// Where the description of the API lies.
    pub fn get_openapi_path(&self) -> (r: String)
        ensures
            r@ == self.openapi_path@,
    {
        self.openapi_path.clone()
    }

    /// The prefix of every endpoint: `/api/` and the version.
    pub fn get_api_path(&self) -> (r: String)
        ensures
            r@ == "/api/"@ + self.api_version@,
    {
        let mut path = String::from_str("/api/");
        path.append(self.api_version.as_str());
        path
    }

    /// The address at which the server listens: the loopback address in local
    /// mode, else every address, with the server port.
    pub fn get_bind_address(&self) -> (r: String)
        ensures
            r@ == if self.is_local {
                "127.0.0.1"@
            } else {
                "0.0.0.0"@
            } + self.host.spec_port_suffix(),
    {
        let mut address = if self.is_local {
            "127.0.0.1".to_string()
        } else {
            "0.0.0.0".to_string()
        };
        address.append(self.host.port_suffix().as_str());
        address
    }

    /// The configuration of the gatekeeper of this server.
    pub fn gnap_config(&self) -> (r: GnapConfig)
        ensures
            r.host.spec_url() == self.host.spec_url(),
            r.host.spec_authority() == self.host.spec_authority(),
            r.api_path@ == "/api/"@ + self.api_version@,
    {
        GnapConfig { host: self.host.duplicate(), api_path: self.get_api_path() }
    }

    /// The configuration of the issuer of this server.
    pub fn issuer_config(&self) -> (r: BasicIssuerConfig)
        ensures
            r.host.spec_url() == self.host.spec_url(),
            r.host.spec_authority() == self.host.spec_authority(),
            r.is_local == self.is_local,
            r.keys_path@ == self.keys_path@,
            r.api_path@ == "/api/"@ + self.api_version@,
    {
        BasicIssuerConfig {
            host: self.host.duplicate(),
            is_local: self.is_local,
            keys_path: self.keys_path.clone(),
            api_path: self.get_api_path(),
        }
    }

    /// The configuration of the verifier of this server.
    pub fn verifier_config(&self) -> (r: BasicVerifierConfig)
        ensures
            r.host.spec_url() == self.host.spec_url(),
            r.is_local == self.is_local,
            r.api_path@ == "/api/"@ + self.api_version@,
    {
        BasicVerifierConfig {
            host: self.host.duplicate(),
            is_local: self.is_local,
            api_path: self.get_api_path(),
        }
    }
}

} // verus!
