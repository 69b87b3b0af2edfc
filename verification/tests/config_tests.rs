use mate_ledger::config::{
    Config, DefaultProductConfig, HttpConfig, StorageConfig, default_active, default_database,
    default_listen, default_price,
};
use mate_ledger::models::{DefaultProduct, Product, ServerInfo, User, default_true};
use mate_ledger::patch::FieldPatch;
use mate_ledger::patch::{apply_copy, or_copy, override_copy};
use mate_ledger::settings::{Settings, is_kiosk_mode, set_kiosk_mode};

#[test]
fn configuration_defaults_match_the_documented_policy() {
    assert_eq!(default_price(), 150);
    assert!(default_active());
    assert!(default_true());
    assert_eq!(default_database(), "sqlite://database.sqlite");
    assert_eq!(default_listen(), "0.0.0.0:3000");

    let c = Config::default();
    assert_eq!(c.http.listen, "0.0.0.0:3000");
    assert_eq!(c.storage.database, "sqlite://database.sqlite");
    assert_eq!(c.default_product.price, 150);
    assert!(c.default_product.active);
    assert_eq!(c.default_product.caffeine, None);

    assert_eq!(HttpConfig::default().listen, "0.0.0.0:3000");
    assert_eq!(StorageConfig::default().database, "sqlite://database.sqlite");
}

#[test]
fn default_values_match_default_config_file() {
    let default_config = "[http]\n\
                          listen = \"0.0.0.0:3000\"\n\
                          \n\
                          [storage]\n\
                          database = \"sqlite://database.sqlite\"\n\
                          \n\
                          [\"\"]\n\
                          price = 150\n\
                          active = true\n";
    let parsed: toml::Value =
        toml::from_str(default_config).expect("unable to parse default config");
    let c = Config::default();
    assert_eq!(parsed["http"]["listen"].as_str(), Some(c.http.listen.as_str()));
    assert_eq!(
        parsed["storage"]["database"].as_str(),
        Some(c.storage.database.as_str())
    );
    assert_eq!(
        parsed[""]["price"].as_integer(),
        Some(c.default_product.price as i64)
    );
    assert_eq!(parsed[""]["active"].as_bool(), Some(c.default_product.active));
}

#[test]
fn default_product_mirrors_the_config() {
    let cfg = DefaultProductConfig {
        price: 99,
        package_size: Some("0.33l".to_owned()),
        caffeine: Some(10),
        alcohol: Some(500),
        energy: Some(180),
        sugar: Some(90),
        active: false,
    };
    let d = DefaultProduct::from(cfg);
    assert_eq!(d.price, 99);
    assert_eq!(d.package_size.as_deref(), Some("0.33l"));
    assert_eq!(d.caffine, Some(10));
    assert_eq!(d.alcohol, Some(500));
    assert_eq!(d.energy, Some(180));
    assert_eq!(d.sugar, Some(90));
    assert!(!d.active);
}

#[test]
fn server_info_default_values() {
    let info = ServerInfo::default();
    assert_eq!(info.version, "3.0.0");
    assert_eq!(info.currency, "\u{20ac}");
    assert_eq!(info.energy, "kcal");
    assert_eq!(info.decimal_seperator.as_deref(), Some(","));
    assert_eq!(info.global_credit_limit, None);
    assert!(!info.currency_before);
    let d = DefaultProduct::default();
    assert_eq!(d.price, 0);
    assert!(!d.active);
    assert_eq!(d.package_size, None);
}

#[test]
fn field_patch_three_states() {
    assert_eq!(apply_copy(&FieldPatch::Absent, Some(5)), Some(5));
    assert_eq!(apply_copy(&FieldPatch::Absent, None::<i32>), None);
    assert_eq!(apply_copy(&FieldPatch::Null, Some(5)), None);
    assert_eq!(apply_copy(&FieldPatch::Value(9), Some(5)), Some(9));
    assert_eq!(apply_copy(&FieldPatch::Value(9), None), Some(9));
    assert_eq!(override_copy(&Some(3), 7), 3);
    assert_eq!(override_copy(&None, 7), 7);
    assert_eq!(or_copy(&Some(3), Some(7)), Some(3));
    assert_eq!(or_copy(&None, Some(7)), Some(7));
    assert_eq!(or_copy(&None::<i32>, None), None);
}

#[test]
fn blank_records_use_the_documented_defaults() {
    let p = Product::default();
    assert_eq!(p.id, 0);
    assert_eq!(p.name, "");
    assert_eq!(p.price, 150);
    assert!(p.active);
    assert_eq!(p.caffeine, None);
    // the blank record is stamped with the wall clock
    assert!(p.created_at > 1_600_000_000_000);
    assert_eq!(p.created_at, p.updated_at);

    let u = User::default();
    assert_eq!(u.id, 0);
    assert_eq!(u.balance, 0);
    assert!(u.active);
    assert!(!u.audit);
    assert!(u.redirect);
    assert_eq!(u.email, None);
}

#[test]
fn records_clone_and_compare_by_value() {
    let mut p = Product::default();
    p.name = "mate".to_owned();
    p.caffeine = Some(20);
    let q = p.clone();
    assert!(p == q);
    let mut r = p.clone();
    r.price += 1;
    assert!(p != r);

    let mut u = User::default();
    u.name = "alice".to_owned();
    u.email = Some("alice@example.org".to_owned());
    let v = u.clone();
    assert!(u == v);
    let mut w = u.clone();
    w.email = None;
    assert!(u != w);
}

#[test]
fn kiosk_mode_round_trips() {
    let mut s = Settings::default();
    assert!(!is_kiosk_mode(&s));
    set_kiosk_mode(&mut s, true);
    assert!(is_kiosk_mode(&s));
    set_kiosk_mode(&mut s, false);
    assert!(!is_kiosk_mode(&s));
}
