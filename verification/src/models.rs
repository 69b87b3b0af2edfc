//! The record types the ledger stores and the request shapes that mutate
//! them, together with the partial-update merge.

use vstd::prelude::*;
use crate::patch::{FieldPatch, overridden, apply_copy, override_copy};

verus! {

/// A stored product row. `id`, `created_at` and `updated_at` are assigned by
/// the store; timestamps are milliseconds since the Unix epoch. `price` is in
/// currency minor units. The nutrition fields are fixed-point integers:
/// `energy` has no decimal place, `sugar` one.
#[derive(Debug)]
pub struct Product {
    pub id: i32,
    pub name: String,
    pub caffeine: Option<i32>,
    pub alcohol: Option<i32>,
    pub energy: Option<i32>,
    pub sugar: Option<i32>,
    pub price: i32,
    pub created_at: i64,
    pub updated_at: i64,
    pub active: bool,
    pub image: Option<i32>,
}

/// A stored user row. `balance` is in currency minor units and may go
/// negative: no floor or ceiling is enforced here.
#[derive(Debug)]
pub struct User {
    pub id: i32,
    pub name: String,
    pub email: Option<String>,
    pub created_at: i64,
    pub updated_at: i64,
    pub balance: i32,
    pub active: bool,
    pub audit: bool,
    pub redirect: bool,
    pub avatar: Option<i32>,
}

/// A request to create a product; absent fields fall back to the configured
/// default-product policy.
#[derive(Debug)]
pub struct ProductCreateRequest {
    pub name: String,
    pub caffeine: Option<i32>,
    pub alcohol: Option<i32>,
    pub energy: Option<i32>,
    pub sugar: Option<i32>,
    pub price: Option<i32>,
    pub active: Option<bool>,
    pub image: Option<i32>,
}

/// A sparse edit of a product: required fields carry `Option` (present value
/// overrides), optional fields carry `FieldPatch` so an explicit null is
/// told apart from an omitted key.
#[derive(Debug)]
pub struct ProductEditRequest {
    pub name: Option<String>,
    pub caffeine: FieldPatch<i32>,
    pub alcohol: FieldPatch<i32>,
    pub energy: FieldPatch<i32>,
    pub sugar: FieldPatch<i32>,
    pub price: Option<i32>,
    pub active: Option<bool>,
    pub image: FieldPatch<i32>,
}

/// A request to create a user; absent fields take the documented defaults
/// (balance 0, active true, audit false, redirect true).
#[derive(Debug)]
pub struct UserCreateRequest {
    pub name: String,
    pub email: Option<String>,
    pub balance: Option<i32>,
    pub active: Option<bool>,
    pub audit: Option<bool>,
    pub redirect: Option<bool>,
    pub avatar: Option<i32>,
}

/// A sparse edit of a user, in the same shape as [`ProductEditRequest`].
#[derive(Debug)]
pub struct UserEditRequest {
    pub name: Option<String>,
    pub email: FieldPatch<String>,
    pub balance: Option<i32>,
    pub active: Option<bool>,
    pub audit: Option<bool>,
    pub redirect: Option<bool>,
    pub avatar: FieldPatch<i32>,
}

/// The body of a funds transfer: debit the sender by `amount`, credit
/// `receiver` by the same amount.
#[derive(Debug, Clone, Copy)]
pub struct FundsTransferRequest {
    pub amount: i32,
    pub receiver: i32,
}

/// The two direct balance mutations a client can ask for by name.
#[derive(Debug, Clone, Copy, PartialEq, Eq, Structural)]
pub enum Operation {
    Spend,
    Deposit,
}

/// The balance that `operation` by `amount` leaves, as an unbounded integer:
/// a deposit adds, a spend subtracts, and no overdraft check is applied.
pub open spec fn balance_after(balance: i32, operation: Operation, amount: i32) -> int {
    match operation {
        Operation::Deposit => balance + amount,
        Operation::Spend => balance - amount,
    }
}

/// The aggregate returned by the user statistics route.
#[derive(Debug, Clone, Copy, PartialEq, Eq, Structural)]
pub struct UsersStatsResponce {
    pub user_count: i32,
    pub active_count: i32,
    pub balance_sum: i32,
}

/// The default-product policy snapshot as clients see it.
#[derive(Debug)]
pub struct DefaultProduct {
    /// default price in minor currency units
    pub price: i32,
    /// default package size
    pub package_size: Option<String>,
    /// default caffeine contents in mg per 100ml/g
    pub caffine: Option<i32>,
    /// default volume percent of alcohol, with two decimal places
    pub alcohol: Option<i32>,
    /// default energy per 100g / 100ml without decimal places
    pub energy: Option<i32>,
    pub sugar: Option<i32>,
    pub active: bool,
}

impl Default for DefaultProduct {
    fn default() -> (r: Self)
        ensures
            r.price == 0,
            r.package_size is None,
            r.caffine is None,
            r.alcohol is None,
            r.energy is None,
            r.sugar is None,
            !r.active,
    {
        DefaultProduct {
            price: 0,
            package_size: None,
            caffine: None,
            alcohol: None,
            energy: None,
            sugar: None,
            active: false,
        }
    }
}

/// Static server metadata: version, currency presentation, and the
/// default-product policy in force.
#[derive(Debug)]
pub struct ServerInfo {
    pub version: String,
    /// global credit limit in minor currency units; None disables the limit
    pub global_credit_limit: Option<i32>,
    pub currency: String,
    /// whether the currency symbol is shown before the sum
    pub currency_before: bool,
    /// None means the currency uses no subdivision and no decimal separator
    pub decimal_seperator: Option<String>,
    /// unit of energy, e.g. kcal or kJ
    pub energy: String,
    pub default_product: DefaultProduct,
}

impl Default for ServerInfo {
    fn default() -> (r: Self)
        ensures
            r.version@ == "3.0.0"@,
            r.global_credit_limit is None,
            r.currency@ == "\u{20ac}"@,
            !r.currency_before,
            (r.decimal_seperator matches Some(s) && s@ == ","@),
            r.energy@ == "kcal"@,
            r.default_product.price == 0,
            !r.default_product.active,
    {
        ServerInfo {
            version: "3.0.0".to_owned(),
            global_credit_limit: None,
            currency: "\u{20ac}".to_owned(),
            currency_before: false,
            decimal_seperator: Some(",".to_owned()),
            energy: "kcal".to_owned(),
            default_product: DefaultProduct::default(),
        }
    }
}

/// The serde default used for `active` and `redirect` on incoming users.
pub fn default_true() -> (b: bool)
    ensures
        b,
{
    true
}

/// Structural equality of two optional strings, by their character content.
pub open spec fn opt_str_eq(a: Option<String>, b: Option<String>) -> bool {
    match (a, b) {
        (Some(x), Some(y)) => x@ == y@,
        (None, None) => true,
        _ => false,
    }
}

/// Clones an optional string field.
pub fn clone_opt_string(o: &Option<String>) -> (r: Option<String>)
    ensures
        r == *o,
{
    match o {
        Some(s) => Some(s.clone()),
        None => None,
    }
}

impl Clone for Product {
    fn clone(&self) -> (r: Self)
        ensures
            r == *self,
    {
        Product {
            id: self.id,
            name: self.name.clone(),
            caffeine: self.caffeine,
            alcohol: self.alcohol,
            energy: self.energy,
            sugar: self.sugar,
            price: self.price,
            created_at: self.created_at,
            updated_at: self.updated_at,
            active: self.active,
            image: self.image,
        }
    }
}

impl Clone for User {
    fn clone(&self) -> (r: Self)
        ensures
            r == *self,
    {
        User {
            id: self.id,
            name: self.name.clone(),
            email: clone_opt_string(&self.email),
            created_at: self.created_at,
            updated_at: self.updated_at,
            balance: self.balance,
            active: self.active,
            audit: self.audit,
            redirect: self.redirect,
            avatar: self.avatar,
        }
    }
}

impl Default for Product {
    /// A blank product: both timestamps read from the wall clock, the
    /// documented default price, active, and everything else empty.
    fn default() -> (r: Self)
        ensures
            r.id == 0,
            r.name@.len() == 0,
            r.caffeine is None,
            r.alcohol is None,
            r.energy is None,
            r.sugar is None,
            r.price == 150,
            r.active,
            r.image is None,
    {
        let now = crate::clock::now_millis();
        Product {
            id: 0,
            name: String::new(),
            caffeine: None,
            alcohol: None,
            energy: None,
            sugar: None,
            price: 150,
            created_at: now,
            updated_at: now,
            active: true,
            image: None,
        }
    }
}

impl Default for User {
    /// A blank user: both timestamps read from the wall clock, active and
    /// redirecting by default, and everything else empty.
    fn default() -> (r: Self)
        ensures
            r.id == 0,
            r.name@.len() == 0,
            r.email is None,
            r.balance == 0,
            r.active,
            !r.audit,
            r.redirect,
            r.avatar is None,
    {
        let now = crate::clock::now_millis();
        User {
            id: 0,
            name: String::new(),
            email: None,
            created_at: now,
            updated_at: now,
            balance: 0,
            active: true,
            audit: false,
            redirect: true,
            avatar: None,
        }
    }
}

/// Equality of two optional strings, by their character content.
pub fn opt_string_eq(a: &Option<String>, b: &Option<String>) -> (r: bool)
    ensures
        r == opt_str_eq(*a, *b),
{
    match (a, b) {
        (Some(x), Some(y)) => *x == *y,
        (None, None) => true,
        _ => false,
    }
}

impl PartialEq for Product {
    fn eq(&self, other: &Self) -> (r: bool) {
        self.id == other.id && self.name == other.name && self.caffeine == other.caffeine
            && self.alcohol == other.alcohol && self.energy == other.energy
            && self.sugar == other.sugar && self.price == other.price
            && self.created_at == other.created_at && self.updated_at == other.updated_at
            && self.active == other.active && self.image == other.image
    }
}

impl vstd::std_specs::cmp::PartialEqSpecImpl for Product {
    open spec fn obeys_eq_spec() -> bool {
        true
    }

    open spec fn eq_spec(&self, other: &Self) -> bool {
        &&& self.id == other.id
        &&& self.name@ == other.name@
        &&& self.caffeine == other.caffeine
        &&& self.alcohol == other.alcohol
        &&& self.energy == other.energy
        &&& self.sugar == other.sugar
        &&& self.price == other.price
        &&& self.created_at == other.created_at
        &&& self.updated_at == other.updated_at
        &&& self.active == other.active
        &&& self.image == other.image
    }
}

impl PartialEq for User {
    fn eq(&self, other: &Self) -> (r: bool) {
        self.id == other.id && self.name == other.name
            && opt_string_eq(&self.email, &other.email) && self.created_at == other.created_at
            && self.updated_at == other.updated_at && self.balance == other.balance
            && self.active == other.active && self.audit == other.audit
            && self.redirect == other.redirect && self.avatar == other.avatar
    }
}

impl vstd::std_specs::cmp::PartialEqSpecImpl for User {
    open spec fn obeys_eq_spec() -> bool {
        true
    }

    open spec fn eq_spec(&self, other: &Self) -> bool {
        &&& self.id == other.id
        &&& self.name@ == other.name@
        &&& opt_str_eq(self.email, other.email)
        &&& self.created_at == other.created_at
        &&& self.updated_at == other.updated_at
        &&& self.balance == other.balance
        &&& self.active == other.active
        &&& self.audit == other.audit
        &&& self.redirect == other.redirect
        &&& self.avatar == other.avatar
    }
}

impl Product {
    /// The row after the sparse edit `p`, timestamps untouched: the store
    /// rewrites `updated_at` itself on every save.
    pub open spec fn spec_patched(self, p: ProductEditRequest) -> Product {
        Product {
            id: self.id,
            name: overridden(p.name, self.name),
            caffeine: p.caffeine.applied(self.caffeine),
            alcohol: p.alcohol.applied(self.alcohol),
            energy: p.energy.applied(self.energy),
            sugar: p.sugar.applied(self.sugar),
            price: overridden(p.price, self.price),
            active: overridden(p.active, self.active),
            image: p.image.applied(self.image),
            created_at: self.created_at,
            updated_at: self.updated_at,
        }
    }

    /// Merges the sparse edit `p` into this row: only present fields change.
    pub fn patched(&self, p: &ProductEditRequest) -> (r: Product)
        ensures
            r == self.spec_patched(*p),
    {
        Product {
            id: self.id,
            name: match &p.name {
                Some(n) => n.clone(),
                None => self.name.clone(),
            },
            caffeine: apply_copy(&p.caffeine, self.caffeine),
            alcohol: apply_copy(&p.alcohol, self.alcohol),
            energy: apply_copy(&p.energy, self.energy),
            sugar: apply_copy(&p.sugar, self.sugar),
            price: override_copy(&p.price, self.price),
            active: override_copy(&p.active, self.active),
            image: apply_copy(&p.image, self.image),
            created_at: self.created_at,
            updated_at: self.updated_at,
        }
    }
}

impl User {
    /// The row after the sparse edit `p`, timestamps untouched.
    pub open spec fn spec_patched(self, p: UserEditRequest) -> User {
        User {
            id: self.id,
            name: overridden(p.name, self.name),
            email: p.email.applied(self.email),
            balance: overridden(p.balance, self.balance),
            active: overridden(p.active, self.active),
            audit: overridden(p.audit, self.audit),
            redirect: overridden(p.redirect, self.redirect),
            avatar: p.avatar.applied(self.avatar),
            created_at: self.created_at,
            updated_at: self.updated_at,
        }
    }

    /// Merges the sparse edit `p` into this row: only present fields change.
    pub fn patched(&self, p: &UserEditRequest) -> (r: User)
        ensures
            r == self.spec_patched(*p),
    {
        User {
            id: self.id,
            name: match &p.name {
                Some(n) => n.clone(),
                None => self.name.clone(),
            },
            email: match &p.email {
                FieldPatch::Absent => clone_opt_string(&self.email),
                FieldPatch::Null => None,
                FieldPatch::Value(s) => Some(s.clone()),
            },
            balance: override_copy(&p.balance, self.balance),
            active: override_copy(&p.active, self.active),
            audit: override_copy(&p.audit, self.audit),
            redirect: override_copy(&p.redirect, self.redirect),
            avatar: apply_copy(&p.avatar, self.avatar),
            created_at: self.created_at,
            updated_at: self.updated_at,
        }
    }
}

/// Law: the product merge leaves every field absent from the patch
/// unchanged, clears an optional field that the patch holds as an explicit
/// null, and replaces a field the patch holds with a value.
pub proof fn lemma_product_patch(r: Product, p: ProductEditRequest)
    ensures
        p.name is None ==> r.spec_patched(p).name == r.name,
        p.price is None ==> r.spec_patched(p).price == r.price,
        p.active is None ==> r.spec_patched(p).active == r.active,
        p.caffeine is Absent ==> r.spec_patched(p).caffeine == r.caffeine,
        p.alcohol is Absent ==> r.spec_patched(p).alcohol == r.alcohol,
        p.energy is Absent ==> r.spec_patched(p).energy == r.energy,
        p.sugar is Absent ==> r.spec_patched(p).sugar == r.sugar,
        p.image is Absent ==> r.spec_patched(p).image == r.image,
        p.caffeine is Null ==> r.spec_patched(p).caffeine is None,
        p.alcohol is Null ==> r.spec_patched(p).alcohol is None,
        p.energy is Null ==> r.spec_patched(p).energy is None,
        p.sugar is Null ==> r.spec_patched(p).sugar is None,
        p.image is Null ==> r.spec_patched(p).image is None,
        forall|v: i32| p.caffeine == FieldPatch::Value(v) ==> r.spec_patched(p).caffeine == Some(v),
        forall|v: String| p.name == Some(v) ==> r.spec_patched(p).name == v,
        r.spec_patched(p).id == r.id,
        r.spec_patched(p).created_at == r.created_at,
        r.spec_patched(p).updated_at == r.updated_at,
{
}

/// Law: the user merge behaves exactly as the product merge does, field for
/// field: absent leaves, null clears, value replaces.
pub proof fn lemma_user_patch(r: User, p: UserEditRequest)
    ensures
        p.name is None ==> r.spec_patched(p).name == r.name,
        p.balance is None ==> r.spec_patched(p).balance == r.balance,
        p.active is None ==> r.spec_patched(p).active == r.active,
        p.audit is None ==> r.spec_patched(p).audit == r.audit,
        p.redirect is None ==> r.spec_patched(p).redirect == r.redirect,
        p.email is Absent ==> r.spec_patched(p).email == r.email,
        p.avatar is Absent ==> r.spec_patched(p).avatar == r.avatar,
        p.email is Null ==> r.spec_patched(p).email is None,
        p.avatar is Null ==> r.spec_patched(p).avatar is None,
        forall|v: i32| p.balance == Some(v) ==> r.spec_patched(p).balance == v,
        forall|v: String| p.email == FieldPatch::Value(v) ==> r.spec_patched(p).email == Some(v),
        r.spec_patched(p).id == r.id,
        r.spec_patched(p).created_at == r.created_at,
        r.spec_patched(p).updated_at == r.updated_at,
{
}

} // verus!
