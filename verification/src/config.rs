//! The configuration the service is started with: listen address, database
//! location, and the default-product policy merged into product creation.
//! Reading and parsing the configuration file is I/O and lives with the
//! embedding program; this module holds the shapes and their defaults.

use vstd::prelude::*;
use crate::models::DefaultProduct;

verus! {

/// Why a configuration file could not be loaded.
#[derive(Debug)]
pub enum ConfigError {
    IoError(String),
    Parser(String),
}

/// Where the HTTP server listens, as `host:port`.
#[derive(Debug)]
pub struct HttpConfig {
    pub listen: String,
}

/// The connection string of the backing store.
#[derive(Debug)]
pub struct StorageConfig {
    pub database: String,
}

/// Defaults applied to product-creation requests with absent fields.
#[derive(Debug)]
pub struct DefaultProductConfig {
    pub price: i32,
    pub package_size: Option<String>,
    pub caffeine: Option<i32>,
    pub alcohol: Option<i32>,
    pub energy: Option<i32>,
    pub sugar: Option<i32>,
    pub active: bool,
}

impl Clone for DefaultProductConfig {
    fn clone(&self) -> (r: Self)
        ensures
            r == *self,
    {
        DefaultProductConfig {
            price: self.price,
            package_size: match &self.package_size {
                Some(s) => Some(s.clone()),
                None => None,
            },
            caffeine: self.caffeine,
            alcohol: self.alcohol,
            energy: self.energy,
            sugar: self.sugar,
            active: self.active,
        }
    }
}

/// The whole configuration, loaded once at startup.
#[derive(Debug)]
pub struct Config {
    pub http: HttpConfig,
    pub storage: StorageConfig,
    pub default_product: DefaultProductConfig,
}

/// The listen address used when the configuration names none.
pub fn default_listen() -> (r: String)
    ensures
        r@ == "0.0.0.0:3000"@,
{
    "0.0.0.0:3000".to_owned()
}

/// The connection string used when the configuration names none.
pub fn default_database() -> (r: String)
    ensures
        r@ == "sqlite://database.sqlite"@,
{
    "sqlite://database.sqlite".to_owned()
}

/// The product price used when neither request nor configuration gives one.
pub fn default_price() -> (r: i32)
    ensures
        r == 150,
{
    150
}

/// Whether a product is active when neither request nor configuration says.
pub fn default_active() -> (r: bool)
    ensures
        r,
{
    true
}

impl Default for HttpConfig {
    fn default() -> (r: Self)
        ensures
            r.listen@ == "0.0.0.0:3000"@,
    {
        HttpConfig { listen: default_listen() }
    }
}

impl Default for StorageConfig {
    fn default() -> (r: Self)
        ensures
            r.database@ == "sqlite://database.sqlite"@,
    {
        StorageConfig { database: default_database() }
    }
}

impl Default for DefaultProductConfig {
    fn default() -> (r: Self)
        ensures
            r.price == 150,
            r.active,
            r.package_size is None,
            r.caffeine is None,
            r.alcohol is None,
            r.energy is None,
            r.sugar is None,
    {
        DefaultProductConfig {
            price: default_price(),
            package_size: None,
            caffeine: None,
            alcohol: None,
            energy: None,
            sugar: None,
            active: default_active(),
        }
    }
}

impl Default for Config {
    fn default() -> (r: Self)
        ensures
            r.http.listen@ == "0.0.0.0:3000"@,
            r.storage.database@ == "sqlite://database.sqlite"@,
            r.default_product.price == 150,
            r.default_product.active,
            r.default_product.package_size is None,
            r.default_product.caffeine is None,
            r.default_product.alcohol is None,
            r.default_product.energy is None,
            r.default_product.sugar is None,
    {
        Config {
            http: HttpConfig::default(),
            storage: StorageConfig::default(),
            default_product: DefaultProductConfig::default(),
        }
    }
}

impl From<DefaultProductConfig> for DefaultProduct {
    fn from(config: DefaultProductConfig) -> (r: Self) {
        DefaultProduct {
            price: config.price,
            package_size: config.package_size,
            caffine: config.caffeine,
            alcohol: config.alcohol,
            energy: config.energy,
            sugar: config.sugar,
            active: config.active,
        }
    }
}

impl vstd::std_specs::convert::FromSpecImpl<DefaultProductConfig> for DefaultProduct {
    open spec fn obeys_from_spec() -> bool {
        true
    }

    open spec fn from_spec(config: DefaultProductConfig) -> Self {
        DefaultProduct {
            price: config.price,
            package_size: config.package_size,
            caffine: config.caffeine,
            alcohol: config.alcohol,
            energy: config.energy,
            sugar: config.sugar,
            active: config.active,
        }
    }
}

} // verus!
