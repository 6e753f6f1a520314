//! Configuration values: server address, database, connection pool, password
//! hashing cost and session lifetimes.
use vstd::prelude::*;

use vstd::string::StringExecFns;

verus! {

/// Address the HTTP server binds to.
#[derive(Debug, Default)]
pub struct HttpServerConfig {
    pub port: Option<u16>,
    pub host: Option<String>,
}

/// Database connection settings.
#[derive(Debug)]
pub struct DbConfig {
    pub host: String,
    pub database: String,
    pub user: String,
    pub password: String,
}

/// The connection URL for the given settings:
/// `postgres://<user>:<password>@<host>/<database>`.
pub open spec fn postgres_url(user: Seq<char>, password: Seq<char>, host: Seq<char>, database: Seq<char>) -> Seq<char> {
    seq!['p', 'o', 's', 't', 'g', 'r', 'e', 's', ':', '/', '/'] + user + seq![':'] + password + seq!['@']
        + host + seq!['/'] + database
}

impl DbConfig {
    pub fn new(host: String, database: String, user: String, password: String) -> (r: DbConfig)
        ensures
            r.host@ == host@,
            r.database@ == database@,
            r.user@ == user@,
            r.password@ == password@,
    {
        DbConfig { host, database, user, password }
    }

    /// The PostgreSQL connection URL of these settings.
    pub fn get_postgres_url(&self) -> (r: String)
        ensures
            r@ == postgres_url(self.user@, self.password@, self.host@, self.database@),
    {
        let mut url = String::new();
        url.append("postgres://");
        url.append(self.user.as_str());
        url.append(":");
        url.append(self.password.as_str());
        url.append("@");
        url.append(self.host.as_str());
        url.append("/");
        url.append(self.database.as_str());
        proof {
            reveal_strlit("postgres://");
            reveal_strlit(":");
            reveal_strlit("@");
            reveal_strlit("/");
            assert(url@ =~= postgres_url(self.user@, self.password@, self.host@, self.database@));
        }
        url
    }
}

/// Connection pool settings; an absent value keeps the pool's own default.
#[derive(Debug, Default)]
pub struct PoolConfig {
    pub max_size: Option<u32>,
    pub connection_timeout: Option<u64>,
    pub idle_timeout: Option<u64>,
    pub max_lifetime: Option<u64>,
    pub min_idle: Option<u32>,
}

impl PoolConfig {
    pub fn new(
        max_size: Option<u32>,
        connection_timeout: Option<u64>,
        idle_timeout: Option<u64>,
        max_lifetime: Option<u64>,
        min_idle: Option<u32>,
    ) -> (r: PoolConfig)
        ensures
            r.max_size == max_size,
            r.connection_timeout == connection_timeout,
            r.idle_timeout == idle_timeout,
            r.max_lifetime == max_lifetime,
            r.min_idle == min_idle,
    {
        PoolConfig { max_size, connection_timeout, idle_timeout, max_lifetime, min_idle }
    }

    pub fn max_size(&self) -> (r: Option<u32>)
        ensures
            r == self.max_size,
    {
        self.max_size
    }

    pub fn connection_timeout(&self) -> (r: Option<u64>)
        ensures
            r == self.connection_timeout,
    {
        self.connection_timeout
    }

    pub fn idle_timeout(&self) -> (r: Option<u64>)
        ensures
            r == self.idle_timeout,
    {
        self.idle_timeout
    }

    pub fn max_lifetime(&self) -> (r: Option<u64>)
        ensures
            r == self.max_lifetime,
    {
        self.max_lifetime
    }

    pub fn min_idle(&self) -> (r: Option<u32>)
        ensures
            r == self.min_idle,
    {
        self.min_idle
    }
}

/// Work factors of the memory-hard password hash: the log2 of the cost `N`,
/// the block size `r` and the parallelism `p`.
#[derive(Debug, Clone, Copy)]
pub struct ScryptConfig {
    pub log_n: u8,
    pub r: u32,
    pub p: u32,
}

impl ScryptConfig {
    pub fn new(log_n: u8, r: u32, p: u32) -> (c: ScryptConfig)
        ensures
            c.log_n == log_n,
            c.r == r,
            c.p == p,
    {
        ScryptConfig { log_n, r, p }
    }

    pub fn log_n(&self) -> (v: u8)
        ensures
            v == self.log_n,
    {
        self.log_n
    }

    pub fn r(&self) -> (v: u32)
        ensures
            v == self.r,
    {
        self.r
    }

    pub fn p(&self) -> (v: u32)
        ensures
            v == self.p,
    {
        self.p
    }
}

/// Session lifetimes in seconds; an absent value takes the default.
#[derive(Debug, Default, Clone, Copy)]
pub struct SessionConfig {
    pub access_lifetime: Option<u32>,
    pub offline_lifetime: Option<u32>,
}

impl SessionConfig {
    pub fn new(access_lifetime: Option<u32>, offline_lifetime: Option<u32>) -> (c: SessionConfig)
        ensures
            c.access_lifetime == access_lifetime,
            c.offline_lifetime == offline_lifetime,
    {
        SessionConfig { access_lifetime, offline_lifetime }
    }

    pub fn access_lifetime(&self) -> (v: Option<u32>)
        ensures
            v == self.access_lifetime,
    {
        self.access_lifetime
    }

    pub fn offline_lifetime(&self) -> (v: Option<u32>)
        ensures
            v == self.offline_lifetime,
    {
        self.offline_lifetime
    }
}

/// The whole configuration.
#[derive(Debug)]
pub struct Config {
    pub server: HttpServerConfig,
    pub db: DbConfig,
    pub pool: PoolConfig,
    pub scrypt: Option<ScryptConfig>,
    pub session: SessionConfig,
}

} // verus!
