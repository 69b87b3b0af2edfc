use mate_ledger::api::{buy_request, modify_balance_request, parse_i32, parse_operation, server_info};
use mate_ledger::config::DefaultProductConfig;
use mate_ledger::error::AppError;
use mate_ledger::models::{Operation, ProductCreateRequest, UserCreateRequest};
use mate_ledger::store::Store;

#[test]
fn parse_i32_reads_plain_numbers() {
    assert_eq!(parse_i32("0").unwrap(), 0);
    assert_eq!(parse_i32("42").unwrap(), 42);
    assert_eq!(parse_i32("-7").unwrap(), -7);
    assert_eq!(parse_i32("+13").unwrap(), 13);
    assert_eq!(parse_i32("007").unwrap(), 7);
}

#[test]
fn parse_i32_covers_the_whole_range() {
    assert_eq!(parse_i32("2147483647").unwrap(), i32::MAX);
    assert_eq!(parse_i32("-2147483648").unwrap(), i32::MIN);
    assert!(matches!(parse_i32("2147483648"), Err(AppError::BadRequest)));
    assert!(matches!(
        parse_i32("-2147483649"),
        Err(AppError::BadRequest)
    ));
    assert!(matches!(
        parse_i32("99999999999999999999"),
        Err(AppError::BadRequest)
    ));
}

#[test]
fn parse_i32_rejects_junk() {
    assert!(matches!(parse_i32(""), Err(AppError::BadRequest)));
    assert!(matches!(parse_i32("-"), Err(AppError::BadRequest)));
    assert!(matches!(parse_i32("+"), Err(AppError::BadRequest)));
    assert!(matches!(parse_i32("12a"), Err(AppError::BadRequest)));
    assert!(matches!(parse_i32(" 12"), Err(AppError::BadRequest)));
    assert!(matches!(parse_i32("1 2"), Err(AppError::BadRequest)));
    assert!(matches!(parse_i32("--5"), Err(AppError::BadRequest)));
}

#[test]
fn parse_operation_knows_both_names() {
    assert!(matches!(parse_operation("spend"), Ok(Operation::Spend)));
    assert!(matches!(parse_operation("deposit"), Ok(Operation::Deposit)));
    assert!(matches!(
        parse_operation("withdraw"),
        Err(AppError::BadRequest)
    ));
    assert!(matches!(parse_operation(""), Err(AppError::BadRequest)));
    assert!(matches!(parse_operation("Spend"), Err(AppError::BadRequest)));
}

#[test]
fn errors_map_to_their_status_codes() {
    assert_eq!(AppError::NotFound.status_code(), 404);
    assert_eq!(AppError::Conflict.status_code(), 409);
    assert_eq!(AppError::BadRequest.status_code(), 400);
    assert_eq!(AppError::StoreError.status_code(), 500);
    assert_eq!(AppError::ValidationError.status_code(), 400);
    assert_eq!(AppError::NotFound.message(), "not found");
    assert_eq!(AppError::Conflict.message(), "already exists");
}

fn store_with_alice(balance: i32) -> (Store, i32) {
    let mut st = Store::new(DefaultProductConfig::default());
    let u = st
        .create_user(
            UserCreateRequest {
                name: "alice".to_owned(),
                email: None,
                balance: Some(balance),
                active: None,
                audit: None,
                redirect: None,
                avatar: None,
            },
            0,
        )
        .unwrap();
    (st, u.id)
}

#[test]
fn modify_balance_route_parses_and_applies() {
    let (mut st, id) = store_with_alice(100);
    let after = modify_balance_request(&mut st, id, "deposit", "40").unwrap();
    assert_eq!(after.balance, 140);
    // the save is stamped with the wall clock, not the test's logical times
    assert!(after.updated_at > 1_600_000_000_000);
    let after2 = modify_balance_request(&mut st, id, "spend", "90").unwrap();
    assert_eq!(after2.balance, 50);
}

#[test]
fn modify_balance_route_rejects_bad_input() {
    let (mut st, id) = store_with_alice(100);
    assert!(matches!(
        modify_balance_request(&mut st, id, "withdraw", "40"),
        Err(AppError::BadRequest)
    ));
    assert!(matches!(
        modify_balance_request(&mut st, id, "deposit", "forty"),
        Err(AppError::BadRequest)
    ));
    assert!(matches!(
        modify_balance_request(&mut st, 99, "deposit", "40"),
        Err(AppError::NotFound)
    ));
    // nothing was applied along the way
    assert_eq!(st.get_user(id).unwrap().balance, 100);
}

#[test]
fn buy_route_parses_the_product_id() {
    let (mut st, id) = store_with_alice(500);
    let p = st
        .create_product(
            ProductCreateRequest {
                name: "mate".to_owned(),
                caffeine: None,
                alcohol: None,
                energy: None,
                sugar: None,
                price: Some(150),
                active: None,
                image: None,
            },
            0,
        )
        .unwrap();
    let body = p.id.to_string();
    let after = buy_request(&mut st, id, &body).unwrap();
    assert_eq!(after.balance, 350);
    assert!(matches!(
        buy_request(&mut st, id, "no-number"),
        Err(AppError::BadRequest)
    ));
    assert!(matches!(
        buy_request(&mut st, id, "99"),
        Err(AppError::NotFound)
    ));
}

#[test]
fn server_info_reports_the_policy_in_force() {
    let defaults = DefaultProductConfig {
        price: 120,
        package_size: Some("0.5l".to_owned()),
        caffeine: Some(32),
        alcohol: None,
        energy: None,
        sugar: None,
        active: true,
    };
    let info = server_info(&defaults);
    assert_eq!(info.version, "3.0.0");
    assert_eq!(info.currency, "\u{20ac}");
    assert!(!info.currency_before);
    assert_eq!(info.decimal_seperator.as_deref(), Some(","));
    assert_eq!(info.energy, "kJ");
    assert_eq!(info.global_credit_limit, None);
    assert_eq!(info.default_product.price, 120);
    assert_eq!(info.default_product.package_size.as_deref(), Some("0.5l"));
    assert_eq!(info.default_product.caffine, Some(32));
    assert!(info.default_product.active);
}
