use mate_ledger::config::DefaultProductConfig;
use mate_ledger::error::AppError;
use mate_ledger::models::{
    FundsTransferRequest, Operation, ProductCreateRequest, ProductEditRequest,
    UserCreateRequest, UserEditRequest,
};
use mate_ledger::patch::FieldPatch;
use mate_ledger::store::Store;

fn product_req(name: &str) -> ProductCreateRequest {
    ProductCreateRequest {
        name: name.to_owned(),
        caffeine: None,
        alcohol: None,
        energy: None,
        sugar: None,
        price: None,
        active: None,
        image: None,
    }
}

fn user_req(name: &str) -> UserCreateRequest {
    UserCreateRequest {
        name: name.to_owned(),
        email: None,
        balance: None,
        active: None,
        audit: None,
        redirect: None,
        avatar: None,
    }
}

fn empty_product_edit() -> ProductEditRequest {
    ProductEditRequest {
        name: None,
        caffeine: FieldPatch::Absent,
        alcohol: FieldPatch::Absent,
        energy: FieldPatch::Absent,
        sugar: FieldPatch::Absent,
        price: None,
        active: None,
        image: FieldPatch::Absent,
    }
}

fn empty_user_edit() -> UserEditRequest {
    UserEditRequest {
        name: None,
        email: FieldPatch::Absent,
        balance: None,
        active: None,
        audit: None,
        redirect: None,
        avatar: FieldPatch::Absent,
    }
}

#[test]
fn create_assigns_id_and_defaults() {
    let mut st = Store::new(DefaultProductConfig::default());
    let p = st.create_product(product_req("mate"), 10).unwrap();
    assert_eq!(p.id, 1);
    assert_eq!(p.price, 150);
    assert!(p.active);
    assert_eq!(p.caffeine, None);
    assert_eq!(p.created_at, 10);
    assert_eq!(p.updated_at, 10);

    let u = st.create_user(user_req("alice"), 11).unwrap();
    assert_eq!(u.id, 1);
    assert_eq!(u.balance, 0);
    assert!(u.active);
    assert!(!u.audit);
    assert!(u.redirect);
    assert_eq!(u.created_at, 11);
    assert_eq!(u.updated_at, 11);
}

#[test]
fn create_uses_configured_defaults() {
    let defaults = DefaultProductConfig {
        price: 200,
        package_size: None,
        caffeine: Some(32),
        alcohol: None,
        energy: Some(45),
        sugar: Some(110),
        active: false,
    };
    let mut st = Store::new(defaults);
    let p = st.create_product(product_req("cola"), 0).unwrap();
    assert_eq!(p.price, 200);
    assert_eq!(p.caffeine, Some(32));
    assert_eq!(p.energy, Some(45));
    assert_eq!(p.sugar, Some(110));
    assert!(!p.active);

    let mut req = product_req("mate");
    req.price = Some(120);
    req.caffeine = Some(20);
    req.active = Some(true);
    let p2 = st.create_product(req, 0).unwrap();
    assert_eq!(p2.price, 120);
    assert_eq!(p2.caffeine, Some(20));
    assert!(p2.active);
}

#[test]
fn create_then_get_returns_created() {
    let mut st = Store::new(DefaultProductConfig::default());
    let created = st.create_product(product_req("mate"), 5).unwrap();
    let got = st.get_product(created.id).unwrap();
    assert!(got == created);

    let mut req = user_req("bob");
    req.balance = Some(250);
    req.email = Some("bob@example.org".to_owned());
    let created_u = st.create_user(req, 6).unwrap();
    let got_u = st.get_user(created_u.id).unwrap();
    assert!(got_u == created_u);
}

#[test]
fn duplicate_name_conflicts_and_first_is_unchanged() {
    let mut st = Store::new(DefaultProductConfig::default());
    let first = st.create_product(product_req("mate"), 1).unwrap();
    let second = st.create_product(product_req("mate"), 2);
    assert!(matches!(second, Err(AppError::Conflict)));
    let got = st.get_product(first.id).unwrap();
    assert!(got == first);

    let first_u = st.create_user(user_req("alice"), 3).unwrap();
    let second_u = st.create_user(user_req("alice"), 4);
    assert!(matches!(second_u, Err(AppError::Conflict)));
    let got_u = st.get_user(first_u.id).unwrap();
    assert!(got_u == first_u);
}

#[test]
fn save_advances_updated_at() {
    let mut st = Store::new(DefaultProductConfig::default());
    let p = st.create_product(product_req("mate"), 100).unwrap();
    // a save with an earlier wall-clock reading must not move updated_at back
    let e1 = st.edit_product(p.id, &empty_product_edit(), 40).unwrap();
    assert!(e1.updated_at >= p.updated_at);
    assert_eq!(e1.updated_at, 100);
    // and a later reading moves it forward, even with no visible change
    let e2 = st.edit_product(p.id, &empty_product_edit(), 130).unwrap();
    assert!(e2.updated_at >= e1.updated_at);
    assert_eq!(e2.updated_at, 130);
    assert_eq!(e2.created_at, 100);
}

#[test]
fn edit_merges_only_present_fields() {
    let mut st = Store::new(DefaultProductConfig::default());
    let mut req = product_req("mate");
    req.caffeine = Some(20);
    req.sugar = Some(50);
    let p = st.create_product(req, 1).unwrap();

    let mut patch = empty_product_edit();
    patch.price = Some(180);
    patch.caffeine = FieldPatch::Null;
    patch.energy = FieldPatch::Value(90);
    let edited = st.edit_product(p.id, &patch, 2).unwrap();
    assert_eq!(edited.price, 180); // present value replaces
    assert_eq!(edited.caffeine, None); // explicit null clears
    assert_eq!(edited.energy, Some(90)); // value fills an empty field
    assert_eq!(edited.sugar, Some(50)); // absent leaves untouched
    assert_eq!(edited.name, "mate"); // absent leaves untouched
    assert_eq!(edited.id, p.id);
}

#[test]
fn edit_user_merges_and_clears_email() {
    let mut st = Store::new(DefaultProductConfig::default());
    let mut req = user_req("carol");
    req.email = Some("carol@example.org".to_owned());
    req.balance = Some(10);
    let u = st.create_user(req, 1).unwrap();

    let mut patch = empty_user_edit();
    patch.email = FieldPatch::Null;
    patch.audit = Some(true);
    let edited = st.edit_user(u.id, &patch, 2).unwrap();
    assert_eq!(edited.email, None);
    assert!(edited.audit);
    assert_eq!(edited.balance, 10);
    assert_eq!(edited.name, "carol");

    let mut patch2 = empty_user_edit();
    patch2.email = FieldPatch::Value("c@example.org".to_owned());
    patch2.name = Some("carola".to_owned());
    let edited2 = st.edit_user(u.id, &patch2, 3).unwrap();
    assert_eq!(edited2.email.as_deref(), Some("c@example.org"));
    assert_eq!(edited2.name, "carola");
}

#[test]
fn edit_rename_conflicts_with_other_row_only() {
    let mut st = Store::new(DefaultProductConfig::default());
    let a = st.create_product(product_req("mate"), 1).unwrap();
    let _b = st.create_product(product_req("cola"), 2).unwrap();

    let mut patch = empty_product_edit();
    patch.name = Some("cola".to_owned());
    let r = st.edit_product(a.id, &patch, 3);
    assert!(matches!(r, Err(AppError::Conflict)));

    // renaming a row to its own name is no conflict
    let mut own = empty_product_edit();
    own.name = Some("mate".to_owned());
    let ok = st.edit_product(a.id, &own, 4).unwrap();
    assert_eq!(ok.name, "mate");
}

#[test]
fn edit_missing_id_is_not_found() {
    let mut st = Store::new(DefaultProductConfig::default());
    let r = st.edit_product(9, &empty_product_edit(), 1);
    assert!(matches!(r, Err(AppError::NotFound)));
    let ru = st.edit_user(9, &empty_user_edit(), 1);
    assert!(matches!(ru, Err(AppError::NotFound)));
}

#[test]
fn delete_then_get_is_not_found() {
    let mut st = Store::new(DefaultProductConfig::default());
    let p = st.create_product(product_req("mate"), 1).unwrap();
    st.delete_product(p.id).unwrap();
    assert!(matches!(st.get_product(p.id), Err(AppError::NotFound)));

    let u = st.create_user(user_req("alice"), 2).unwrap();
    st.delete_user(u.id).unwrap();
    assert!(matches!(st.get_user(u.id), Err(AppError::NotFound)));

    assert!(matches!(st.delete_product(p.id), Err(AppError::NotFound)));
    assert!(matches!(st.delete_user(u.id), Err(AppError::NotFound)));
}

#[test]
fn deleted_name_can_be_reused() {
    let mut st = Store::new(DefaultProductConfig::default());
    let p = st.create_product(product_req("mate"), 1).unwrap();
    st.delete_product(p.id).unwrap();
    let again = st.create_product(product_req("mate"), 2).unwrap();
    assert_eq!(again.id, 2);
    assert_eq!(again.name, "mate");
}

#[test]
fn list_keeps_store_order() {
    let mut st = Store::new(DefaultProductConfig::default());
    assert!(st.list_products().is_empty());
    assert!(st.list_users().is_empty());
    st.create_product(product_req("mate"), 1).unwrap();
    st.create_product(product_req("cola"), 2).unwrap();
    let names: Vec<String> = st.list_products().into_iter().map(|p| p.name).collect();
    assert_eq!(names, vec!["mate".to_owned(), "cola".to_owned()]);
}

#[test]
fn deposit_and_spend_move_the_balance() {
    let mut st = Store::new(DefaultProductConfig::default());
    let mut req = user_req("alice");
    req.balance = Some(100);
    let u = st.create_user(req, 1).unwrap();

    let after = st
        .modify_balance(u.id, Operation::Deposit, 40, 2)
        .unwrap();
    assert_eq!(after.balance, 140);
    let after2 = st.modify_balance(u.id, Operation::Spend, 200, 3).unwrap();
    assert_eq!(after2.balance, -60); // overdraft is allowed
    assert!(matches!(
        st.modify_balance(9, Operation::Deposit, 1, 4),
        Err(AppError::NotFound)
    ));
}

#[test]
fn purchase_debits_the_price() {
    let mut st = Store::new(DefaultProductConfig::default());
    let mut preq = product_req("mate");
    preq.price = Some(150);
    let p = st.create_product(preq, 1).unwrap();
    let mut ureq = user_req("alice");
    ureq.balance = Some(500);
    let u = st.create_user(ureq, 2).unwrap();

    let after = st.buy(u.id, p.id, 3).unwrap();
    assert_eq!(after.balance, 350);

    assert!(matches!(st.buy(u.id, 99, 4), Err(AppError::NotFound)));
    assert!(matches!(st.buy(99, p.id, 5), Err(AppError::NotFound)));
    // failed purchases leave the balance alone
    assert_eq!(st.get_user(u.id).unwrap().balance, 350);
}

#[test]
fn transfer_moves_funds_atomically() {
    let mut st = Store::new(DefaultProductConfig::default());
    let mut a = user_req("alice");
    a.balance = Some(100);
    let alice = st.create_user(a, 1).unwrap();
    let mut b = user_req("bob");
    b.balance = Some(50);
    let bob = st.create_user(b, 2).unwrap();

    st.transfer(
        alice.id,
        FundsTransferRequest {
            amount: 30,
            receiver: bob.id,
        },
        3,
    )
    .unwrap();
    assert_eq!(st.get_user(alice.id).unwrap().balance, 70);
    assert_eq!(st.get_user(bob.id).unwrap().balance, 80);
}

#[test]
fn transfer_to_missing_receiver_debits_nothing() {
    let mut st = Store::new(DefaultProductConfig::default());
    let mut a = user_req("alice");
    a.balance = Some(100);
    let alice = st.create_user(a, 1).unwrap();

    let r = st.transfer(
        alice.id,
        FundsTransferRequest {
            amount: 30,
            receiver: 99,
        },
        2,
    );
    assert!(matches!(r, Err(AppError::NotFound)));
    assert_eq!(st.get_user(alice.id).unwrap().balance, 100);

    let r2 = st.transfer(
        99,
        FundsTransferRequest {
            amount: 30,
            receiver: alice.id,
        },
        3,
    );
    assert!(matches!(r2, Err(AppError::NotFound)));
    assert_eq!(st.get_user(alice.id).unwrap().balance, 100);
}

#[test]
fn stats_counts_users_and_sums_balances() {
    let mut st = Store::new(DefaultProductConfig::default());
    let empty = st.stats();
    assert_eq!(empty.user_count, 0);
    assert_eq!(empty.active_count, 0);
    assert_eq!(empty.balance_sum, 0);

    let mut a = user_req("alice");
    a.balance = Some(100);
    a.active = Some(true);
    st.create_user(a, 1).unwrap();
    let mut b = user_req("bob");
    b.balance = Some(-20);
    b.active = Some(false);
    st.create_user(b, 2).unwrap();

    let stats = st.stats();
    assert_eq!(stats.user_count, 2);
    assert_eq!(stats.active_count, 1);
    assert_eq!(stats.balance_sum, 80);
    assert_eq!(st.balance_total(), 80);
}
