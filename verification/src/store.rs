//! The entity store and the balance transaction engine: Product and User
//! rows with server-assigned ids and timestamps, name uniqueness, partial
//! updates, and all-or-nothing balance mutations.
//!
//! The store is a single-owner in-memory value; the embedding program is
//! responsible for durability and for serialising access to it. Because
//! every mutation here takes `&mut self` and either completes or leaves the
//! store untouched, a half-applied transfer can never be observed.

use vstd::prelude::*;
use crate::config::DefaultProductConfig;
use crate::error::AppError;
use crate::models::{
    FundsTransferRequest, Operation, Product, ProductCreateRequest, ProductEditRequest, User,
    UserCreateRequest, UserEditRequest, UsersStatsResponce, balance_after,
};
use crate::patch::{or_opt, or_copy, overridden, override_copy};

verus! {

/// No two rows share an id.
pub open spec fn product_ids_unique(s: Seq<Product>) -> bool {
    forall|i: int, j: int| 0 <= i < j < s.len() ==> s[i].id != s[j].id
}

/// No two rows share a name.
pub open spec fn product_names_unique(s: Seq<Product>) -> bool {
    forall|i: int, j: int| 0 <= i < j < s.len() ==> s[i].name@ != s[j].name@
}

/// Some row carries `id`.
pub open spec fn has_product_id(s: Seq<Product>, id: i32) -> bool {
    exists|i: int| 0 <= i < s.len() && s[i].id == id
}

/// The position of the row carrying `id`; meaningful when ids are unique
/// and some row carries `id`.
pub open spec fn product_id_index(s: Seq<Product>, id: i32) -> int {
    choose|i: int| 0 <= i < s.len() && s[i].id == id
}

/// The row carrying `id`.
pub open spec fn product_by_id(s: Seq<Product>, id: i32) -> Product {
    s[product_id_index(s, id)]
}

/// Some row is named `name`.
pub open spec fn has_product_name(s: Seq<Product>, name: Seq<char>) -> bool {
    exists|i: int| 0 <= i < s.len() && s[i].name@ == name
}

/// Some row other than the one carrying `id` is named `name`.
pub open spec fn product_name_elsewhere(s: Seq<Product>, id: i32, name: Seq<char>) -> bool {
    exists|i: int| 0 <= i < s.len() && s[i].id != id && s[i].name@ == name
}

/// Whether the sparse edit `body` renames the row carrying `id` to a name
/// some other row already carries: the one way an edit can conflict.
pub open spec fn product_rename_conflict(s: Seq<Product>, id: i32, body: ProductEditRequest) -> bool {
    body.name matches Some(n) && product_name_elsewhere(s, id, n@)
}

/// Every row's timestamps lie at or before `clock`.
pub open spec fn product_times_bounded(s: Seq<Product>, clock: i64) -> bool {
    forall|i: int|
        0 <= i < s.len() ==> (#[trigger] s[i]).created_at <= clock && s[i].updated_at <= clock
}

/// No two rows share an id.
pub open spec fn user_ids_unique(s: Seq<User>) -> bool {
    forall|i: int, j: int| 0 <= i < j < s.len() ==> s[i].id != s[j].id
}

/// No two rows share a name.
pub open spec fn user_names_unique(s: Seq<User>) -> bool {
    forall|i: int, j: int| 0 <= i < j < s.len() ==> s[i].name@ != s[j].name@
}

/// Some row carries `id`.
pub open spec fn has_user_id(s: Seq<User>, id: i32) -> bool {
    exists|i: int| 0 <= i < s.len() && s[i].id == id
}

/// The position of the row carrying `id`; meaningful when ids are unique
/// and some row carries `id`.
pub open spec fn user_id_index(s: Seq<User>, id: i32) -> int {
    choose|i: int| 0 <= i < s.len() && s[i].id == id
}

/// The row carrying `id`.
pub open spec fn user_by_id(s: Seq<User>, id: i32) -> User {
    s[user_id_index(s, id)]
}

/// Some row is named `name`.
pub open spec fn has_user_name(s: Seq<User>, name: Seq<char>) -> bool {
    exists|i: int| 0 <= i < s.len() && s[i].name@ == name
}

/// Some row other than the one carrying `id` is named `name`.
pub open spec fn user_name_elsewhere(s: Seq<User>, id: i32, name: Seq<char>) -> bool {
    exists|i: int| 0 <= i < s.len() && s[i].id != id && s[i].name@ == name
}

/// Whether the sparse edit `body` renames the row carrying `id` to a name
/// some other row already carries: the one way an edit can conflict.
pub open spec fn user_rename_conflict(s: Seq<User>, id: i32, body: UserEditRequest) -> bool {
    body.name matches Some(n) && user_name_elsewhere(s, id, n@)
}

/// Every row's timestamps lie at or before `clock`.
pub open spec fn user_times_bounded(s: Seq<User>, clock: i64) -> bool {
    forall|i: int|
        0 <= i < s.len() ==> (#[trigger] s[i]).created_at <= clock && s[i].updated_at <= clock
}

/// The store's clock after it has seen the wall-clock reading `now`: the
/// clock never moves backwards, so a save's timestamp is never below an
/// earlier one.
pub open spec fn clock_after(clock: i64, now: i64) -> i64 {
    if now > clock {
        now
    } else {
        clock
    }
}

/// The store: all Product and User rows, the next id each table assigns,
/// and the latest timestamp ever written.
pub struct Store {
    products: Vec<Product>,
    users: Vec<User>,
    next_product_id: i32,
    next_user_id: i32,
    clock: i64,
    defaults: DefaultProductConfig,
}

impl Store {
    /// All product rows, oldest first.
    pub closed spec fn spec_products(self) -> Seq<Product> {
        self.products@
    }

    /// All user rows, oldest first.
    pub closed spec fn spec_users(self) -> Seq<User> {
        self.users@
    }

    /// The id the next created product gets.
    pub closed spec fn spec_next_product_id(self) -> i32 {
        self.next_product_id
    }

    /// The id the next created user gets.
    pub closed spec fn spec_next_user_id(self) -> i32 {
        self.next_user_id
    }

    /// The latest timestamp the store has written.
    pub closed spec fn spec_clock(self) -> i64 {
        self.clock
    }

    /// The default-product policy injected at construction.
    pub closed spec fn spec_defaults(self) -> DefaultProductConfig {
        self.defaults
    }

    /// The store's invariant: unique ids below the next free one, unique
    /// names, and no timestamp beyond the clock. Every operation preserves
    /// it.
    pub open spec fn wf(self) -> bool {
        &&& product_ids_unique(self.spec_products())
        &&& product_names_unique(self.spec_products())
        &&& forall|i: int|
            0 <= i < self.spec_products().len() ==> 1 <= (
            #[trigger] self.spec_products()[i]).id < self.spec_next_product_id()
        &&& product_times_bounded(self.spec_products(), self.spec_clock())
        &&& self.spec_products().len() < self.spec_next_product_id()
        &&& user_ids_unique(self.spec_users())
        &&& user_names_unique(self.spec_users())
        &&& forall|i: int|
            0 <= i < self.spec_users().len() ==> 1 <= (
            #[trigger] self.spec_users()[i]).id < self.spec_next_user_id()
        &&& user_times_bounded(self.spec_users(), self.spec_clock())
        &&& self.spec_users().len() < self.spec_next_user_id()
        &&& 0 <= self.spec_clock()
    }

    /// An empty store over the given default-product policy.
    pub fn new(defaults: DefaultProductConfig) -> (s: Store)
        ensures
            s.wf(),
            s.spec_products().len() == 0,
            s.spec_users().len() == 0,
            s.spec_next_product_id() == 1,
            s.spec_next_user_id() == 1,
            s.spec_clock() == 0,
            s.spec_defaults() == defaults,
    {
        Store {
            products: Vec::new(),
            users: Vec::new(),
            next_product_id: 1,
            next_user_id: 1,
            clock: 0,
            defaults,
        }
    }

    /// The id the next created product would get: lets a caller test the
    /// id-space bound that creation requires.
    pub fn next_product_id(&self) -> (r: i32)
        ensures
            r == self.spec_next_product_id(),
    {
        self.next_product_id
    }

    /// The id the next created user would get.
    pub fn next_user_id(&self) -> (r: i32)
        ensures
            r == self.spec_next_user_id(),
    {
        self.next_user_id
    }

    /// The position of the product row carrying `id`, if any.
    fn find_product(&self, id: i32) -> (r: Option<usize>)
        ensures
            match r {
                Some(i) => i < self.spec_products().len() && self.spec_products()[i as int].id
                    == id,
                None => !has_product_id(self.spec_products(), id),
            },
    {
        let mut i: usize = 0;
        while i < self.products.len()
            invariant
                i <= self.products@.len(),
                forall|j: int| 0 <= j < i ==> self.products@[j].id != id,
            decreases self.products@.len() - i,
        {
            if self.products[i].id == id {
                return Some(i);
            }
            i += 1;
        }
        None
    }

    /// The position of the user row carrying `id`, if any.
    fn find_user(&self, id: i32) -> (r: Option<usize>)
        ensures
            match r {
                Some(i) => i < self.spec_users().len() && self.spec_users()[i as int].id == id,
                None => !has_user_id(self.spec_users(), id),
            },
    {
        let mut i: usize = 0;
        while i < self.users.len()
            invariant
                i <= self.users@.len(),
                forall|j: int| 0 <= j < i ==> self.users@[j].id != id,
            decreases self.users@.len() - i,
        {
            if self.users[i].id == id {
                return Some(i);
            }
            i += 1;
        }
        None
    }

    /// All products, in store order.
    pub fn list_products(&self) -> (r: Vec<Product>)
        ensures
            r@ == self.spec_products(),
    {
        let mut r: Vec<Product> = Vec::new();
        let mut i: usize = 0;
        while i < self.products.len()
            invariant
                i <= self.products@.len(),
                r@ == self.products@.subrange(0, i as int),
            decreases self.products@.len() - i,
        {
            r.push(self.products[i].clone());
            assert(r@ =~= self.products@.subrange(0, i + 1 as int));
            i += 1;
        }
        assert(r@ =~= self.products@);
        r
    }

    /// All users, in store order.
    pub fn list_users(&self) -> (r: Vec<User>)
        ensures
            r@ == self.spec_users(),
    {
        let mut r: Vec<User> = Vec::new();
        let mut i: usize = 0;
        while i < self.users.len()
            invariant
                i <= self.users@.len(),
                r@ == self.users@.subrange(0, i as int),
            decreases self.users@.len() - i,
        {
            r.push(self.users[i].clone());
            assert(r@ =~= self.users@.subrange(0, i + 1 as int));
            i += 1;
        }
        assert(r@ =~= self.users@);
        r
    }

    /// Whether some product other than the one carrying `exclude_id` is
    /// named `name`; pass an id no row carries to scan every row.
    fn product_name_taken(&self, name: &String, exclude_id: i32) -> (r: bool)
        ensures
            r == product_name_elsewhere(self.spec_products(), exclude_id, name@),
    {
        let mut i: usize = 0;
        while i < self.products.len()
            invariant
                i <= self.products@.len(),
                forall|j: int|
                    0 <= j < i ==> !((#[trigger] self.products@[j]).id != exclude_id
                        && self.products@[j].name@ == name@),
            decreases self.products@.len() - i,
        {
            if self.products[i].id != exclude_id && self.products[i].name == *name {
                return true;
            }
            i += 1;
        }
        false
    }

    /// Whether some user other than the one carrying `exclude_id` is named
    /// `name`; pass an id no row carries to scan every row.
    fn user_name_taken(&self, name: &String, exclude_id: i32) -> (r: bool)
        ensures
            r == user_name_elsewhere(self.spec_users(), exclude_id, name@),
    {
        let mut i: usize = 0;
        while i < self.users.len()
            invariant
                i <= self.users@.len(),
                forall|j: int|
                    0 <= j < i ==> !((#[trigger] self.users@[j]).id != exclude_id
                        && self.users@[j].name@ == name@),
            decreases self.users@.len() - i,
        {
            if self.users[i].id != exclude_id && self.users[i].name == *name {
                return true;
            }
            i += 1;
        }
        false
    }

    /// Creates a product from `req`, filling absent fields from the
    /// default-product policy, assigning the next id and stamping both
    /// timestamps with the clock advanced to `now`. Fails with `Conflict`,
    /// leaving the store untouched, exactly when the name is already taken.
    pub fn create_product(&mut self, req: ProductCreateRequest, now: i64) -> (r: Result<
        Product,
        AppError,
    >)
        requires
            old(self).wf(),
            old(self).spec_next_product_id() < i32::MAX,
        ensures
            final(self).wf(),
            final(self).spec_users() == old(self).spec_users(),
            final(self).spec_next_user_id() == old(self).spec_next_user_id(),
            final(self).spec_defaults() == old(self).spec_defaults(),
            match r {
                Ok(p) => {
                    &&& !has_product_name(old(self).spec_products(), req.name@)
                    &&& p.id == old(self).spec_next_product_id()
                    &&& p.name == req.name
                    &&& p.caffeine == or_opt(req.caffeine, old(self).spec_defaults().caffeine)
                    &&& p.alcohol == or_opt(req.alcohol, old(self).spec_defaults().alcohol)
                    &&& p.energy == or_opt(req.energy, old(self).spec_defaults().energy)
                    &&& p.sugar == or_opt(req.sugar, old(self).spec_defaults().sugar)
                    &&& p.price == overridden(req.price, old(self).spec_defaults().price)
                    &&& p.active == overridden(req.active, old(self).spec_defaults().active)
                    &&& p.image == req.image
                    &&& p.created_at == clock_after(old(self).spec_clock(), now)
                    &&& p.updated_at == p.created_at
                    &&& final(self).spec_products() == old(self).spec_products().push(p)
                    &&& final(self).spec_next_product_id() == old(self).spec_next_product_id()
                        + 1
                    &&& final(self).spec_clock() == clock_after(old(self).spec_clock(), now)
                },
                Err(e) => {
                    &&& e == AppError::Conflict
                    &&& has_product_name(old(self).spec_products(), req.name@)
                    &&& *final(self) == *old(self)
                },
            },
    {
        if self.product_name_taken(&req.name, 0) {
            proof {
                lemma_product_name_scan(self.spec_products(), req.name@);
            }
            return Err(AppError::Conflict);
        }
        proof {
            lemma_product_name_scan(self.spec_products(), req.name@);
        }
        let t = advance_clock(self.clock, now);
        let p = Product {
            id: self.next_product_id,
            name: req.name,
            caffeine: or_copy(&req.caffeine, self.defaults.caffeine),
            alcohol: or_copy(&req.alcohol, self.defaults.alcohol),
            energy: or_copy(&req.energy, self.defaults.energy),
            sugar: or_copy(&req.sugar, self.defaults.sugar),
            price: override_copy(&req.price, self.defaults.price),
            active: override_copy(&req.active, self.defaults.active),
            image: req.image,
            created_at: t,
            updated_at: t,
        };
        let out = p.clone();
        self.products.push(p);
        self.next_product_id = self.next_product_id + 1;
        self.clock = t;
        Ok(out)
    }

    /// Creates a user from `req` with the documented defaults: balance 0,
    /// active true, audit false, redirect true. Fails with `Conflict`,
    /// leaving the store untouched, exactly when the name is already taken.
    pub fn create_user(&mut self, req: UserCreateRequest, now: i64) -> (r: Result<User, AppError>)
        requires
            old(self).wf(),
            old(self).spec_next_user_id() < i32::MAX,
        ensures
            final(self).wf(),
            final(self).spec_products() == old(self).spec_products(),
            final(self).spec_next_product_id() == old(self).spec_next_product_id(),
            final(self).spec_defaults() == old(self).spec_defaults(),
            match r {
                Ok(u) => {
                    &&& !has_user_name(old(self).spec_users(), req.name@)
                    &&& u.id == old(self).spec_next_user_id()
                    &&& u.name == req.name
                    &&& u.email == req.email
                    &&& u.balance == overridden(req.balance, 0)
                    &&& u.active == overridden(req.active, true)
                    &&& u.audit == overridden(req.audit, false)
                    &&& u.redirect == overridden(req.redirect, true)
                    &&& u.avatar == req.avatar
                    &&& u.created_at == clock_after(old(self).spec_clock(), now)
                    &&& u.updated_at == u.created_at
                    &&& final(self).spec_users() == old(self).spec_users().push(u)
                    &&& final(self).spec_next_user_id() == old(self).spec_next_user_id() + 1
                    &&& final(self).spec_clock() == clock_after(old(self).spec_clock(), now)
                },
                Err(e) => {
                    &&& e == AppError::Conflict
                    &&& has_user_name(old(self).spec_users(), req.name@)
                    &&& *final(self) == *old(self)
                },
            },
    {
        if self.user_name_taken(&req.name, 0) {
            proof {
                lemma_user_name_scan(self.spec_users(), req.name@);
            }
            return Err(AppError::Conflict);
        }
        proof {
            lemma_user_name_scan(self.spec_users(), req.name@);
        }
        let t = advance_clock(self.clock, now);
        let u = User {
            id: self.next_user_id,
            name: req.name,
            email: req.email,
            balance: override_copy(&req.balance, 0),
            active: override_copy(&req.active, true),
            audit: override_copy(&req.audit, false),
            redirect: override_copy(&req.redirect, true),
            avatar: req.avatar,
            created_at: t,
            updated_at: t,
        };
        let out = u.clone();
        self.users.push(u);
        self.next_user_id = self.next_user_id + 1;
        self.clock = t;
        Ok(out)
    }

    /// The product carrying `id`, or `NotFound`.
    pub fn get_product(&self, id: i32) -> (r: Result<Product, AppError>)
        requires
            self.wf(),
        ensures
            match r {
                Ok(p) => {
                    &&& has_product_id(self.spec_products(), id)
                    &&& p == product_by_id(self.spec_products(), id)
                    &&& p.id == id
                },
                Err(e) => {
                    &&& e == AppError::NotFound
                    &&& !has_product_id(self.spec_products(), id)
                },
            },
    {
        match self.find_product(id) {
            Some(i) => {
                proof {
                    lemma_product_index_is(self.spec_products(), id, i as int);
                }
                Ok(self.products[i].clone())
            },
            None => Err(AppError::NotFound),
        }
    }

    /// Merges the sparse edit `body` into the product carrying `id` and
    /// rewrites `updated_at` with the clock advanced to `now`, whether or
    /// not any visible field changed. Fails with `NotFound` when the id is
    /// absent and with `Conflict` when the patch renames the row to a name
    /// some other row carries; on failure the store is untouched.
    pub fn edit_product(&mut self, id: i32, body: &ProductEditRequest, now: i64) -> (r: Result<
        Product,
        AppError,
    >)
        requires
            old(self).wf(),
        ensures
            final(self).wf(),
            final(self).spec_users() == old(self).spec_users(),
            final(self).spec_next_product_id() == old(self).spec_next_product_id(),
            final(self).spec_next_user_id() == old(self).spec_next_user_id(),
            final(self).spec_defaults() == old(self).spec_defaults(),
            match r {
                Ok(p) => ({
                    let s0 = old(self).spec_products();
                    let prev = product_by_id(s0, id);
                    let t = clock_after(old(self).spec_clock(), now);
                    &&& has_product_id(s0, id)
                    &&& !product_rename_conflict(s0, id, *body)
                    &&& p == (Product { updated_at: t, ..prev.spec_patched(*body) })
                    &&& p.updated_at >= prev.updated_at
                    &&& final(self).spec_products() == s0.update(product_id_index(s0, id), p)
                    &&& final(self).spec_clock() == t
                }),
                Err(e) => {
                    &&& *final(self) == *old(self)
                    &&& (e == AppError::NotFound <==> !has_product_id(
                        old(self).spec_products(),
                        id,
                    ))
                    &&& (e == AppError::Conflict <==> (has_product_id(
                        old(self).spec_products(),
                        id,
                    ) && product_rename_conflict(old(self).spec_products(), id, *body)))
                    &&& (e == AppError::NotFound || e == AppError::Conflict)
                },
            },
    {
        let idx = match self.find_product(id) {
            Some(i) => i,
            None => {
                return Err(AppError::NotFound);
            },
        };
        proof {
            lemma_product_index_is(self.spec_products(), id, idx as int);
        }
        if let Some(n) = &body.name {
            if self.product_name_taken(n, id) {
                return Err(AppError::Conflict);
            }
        }
        let t = advance_clock(self.clock, now);
        let mut p = self.products[idx].patched(body);
        p.updated_at = t;
        let out = p.clone();
        let ghost s0 = self.products@;
        let ghost clock0 = self.clock;
        self.products.set(idx, p);
        self.clock = t;
        proof {
            let s1 = self.products@;
            assert(s0[idx as int].updated_at <= clock0);
            assert forall|a: int, b: int| 0 <= a < b < s1.len() implies s1[a].name@
                != s1[b].name@ by {
                if a != idx && b != idx {
                    assert(s1[a] == s0[a] && s1[b] == s0[b]);
                }
            }
            assert forall|i: int|
                0 <= i < s1.len() implies (#[trigger] s1[i]).created_at <= self.clock
                && s1[i].updated_at <= self.clock by {
                if i != idx {
                    assert(s1[i] == s0[i]);
                }
            }
        }
        Ok(out)
    }

    /// Merges the sparse edit `body` into the user carrying `id`, rewriting
    /// `updated_at` as [`Store::edit_product`] does, with the same error
    /// behaviour.
    pub fn edit_user(&mut self, id: i32, body: &UserEditRequest, now: i64) -> (r: Result<
        User,
        AppError,
    >)
        requires
            old(self).wf(),
        ensures
            final(self).wf(),
            final(self).spec_products() == old(self).spec_products(),
            final(self).spec_next_product_id() == old(self).spec_next_product_id(),
            final(self).spec_next_user_id() == old(self).spec_next_user_id(),
            final(self).spec_defaults() == old(self).spec_defaults(),
            match r {
                Ok(u) => ({
                    let s0 = old(self).spec_users();
                    let prev = user_by_id(s0, id);
                    let t = clock_after(old(self).spec_clock(), now);
                    &&& has_user_id(s0, id)
                    &&& !user_rename_conflict(s0, id, *body)
                    &&& u == (User { updated_at: t, ..prev.spec_patched(*body) })
                    &&& u.updated_at >= prev.updated_at
                    &&& final(self).spec_users() == s0.update(user_id_index(s0, id), u)
                    &&& final(self).spec_clock() == t
                }),
                Err(e) => {
                    &&& *final(self) == *old(self)
                    &&& (e == AppError::NotFound <==> !has_user_id(old(self).spec_users(), id))
                    &&& (e == AppError::Conflict <==> (has_user_id(old(self).spec_users(), id)
                        && user_rename_conflict(old(self).spec_users(), id, *body)))
                    &&& (e == AppError::NotFound || e == AppError::Conflict)
                },
            },
    {
        let idx = match self.find_user(id) {
            Some(i) => i,
            None => {
                return Err(AppError::NotFound);
            },
        };
        proof {
            lemma_user_index_is(self.spec_users(), id, idx as int);
        }
        if let Some(n) = &body.name {
            if self.user_name_taken(n, id) {
                return Err(AppError::Conflict);
            }
        }
        let t = advance_clock(self.clock, now);
        let mut u = self.users[idx].patched(body);
        u.updated_at = t;
        let out = u.clone();
        let ghost s0 = self.users@;
        let ghost clock0 = self.clock;
        self.users.set(idx, u);
        self.clock = t;
        proof {
            let s1 = self.users@;
            assert(s0[idx as int].updated_at <= clock0);
            assert forall|a: int, b: int| 0 <= a < b < s1.len() implies s1[a].name@
                != s1[b].name@ by {
                if a != idx && b != idx {
                    assert(s1[a] == s0[a] && s1[b] == s0[b]);
                }
            }
            assert forall|i: int|
                0 <= i < s1.len() implies (#[trigger] s1[i]).created_at <= self.clock
                && s1[i].updated_at <= self.clock by {
                if i != idx {
                    assert(s1[i] == s0[i]);
                }
            }
        }
        Ok(out)
    }

    /// Removes the product carrying `id`; `NotFound`, leaving the store
    /// untouched, when the id is absent.
    pub fn delete_product(&mut self, id: i32) -> (r: Result<(), AppError>)
        requires
            old(self).wf(),
        ensures
            final(self).wf(),
            final(self).spec_users() == old(self).spec_users(),
            final(self).spec_next_product_id() == old(self).spec_next_product_id(),
            final(self).spec_next_user_id() == old(self).spec_next_user_id(),
            final(self).spec_defaults() == old(self).spec_defaults(),
            final(self).spec_clock() == old(self).spec_clock(),
            match r {
                Ok(_) => {
                    &&& has_product_id(old(self).spec_products(), id)
                    &&& final(self).spec_products() == old(self).spec_products().remove(
                        product_id_index(old(self).spec_products(), id),
                    )
                    &&& !has_product_id(final(self).spec_products(), id)
                },
                Err(e) => {
                    &&& e == AppError::NotFound
                    &&& !has_product_id(old(self).spec_products(), id)
                    &&& *final(self) == *old(self)
                },
            },
    {
        let idx = match self.find_product(id) {
            Some(i) => i,
            None => {
                return Err(AppError::NotFound);
            },
        };
        proof {
            lemma_product_index_is(self.spec_products(), id, idx as int);
        }
        proof {
            lemma_removed_product_id_absent(self.products@, id);
        }
        self.products.remove(idx);
        Ok(())
    }

    /// Removes the user carrying `id`; `NotFound`, leaving the store
    /// untouched, when the id is absent.
    pub fn delete_user(&mut self, id: i32) -> (r: Result<(), AppError>)
        requires
            old(self).wf(),
        ensures
            final(self).wf(),
            final(self).spec_products() == old(self).spec_products(),
            final(self).spec_next_product_id() == old(self).spec_next_product_id(),
            final(self).spec_next_user_id() == old(self).spec_next_user_id(),
            final(self).spec_defaults() == old(self).spec_defaults(),
            final(self).spec_clock() == old(self).spec_clock(),
            match r {
                Ok(_) => {
                    &&& has_user_id(old(self).spec_users(), id)
                    &&& final(self).spec_users() == old(self).spec_users().remove(
                        user_id_index(old(self).spec_users(), id),
                    )
                    &&& !has_user_id(final(self).spec_users(), id)
                },
                Err(e) => {
                    &&& e == AppError::NotFound
                    &&& !has_user_id(old(self).spec_users(), id)
                    &&& *final(self) == *old(self)
                },
            },
    {
        let idx = match self.find_user(id) {
            Some(i) => i,
            None => {
                return Err(AppError::NotFound);
            },
        };
        proof {
            lemma_user_index_is(self.spec_users(), id, idx as int);
        }
        proof {
            lemma_removed_user_id_absent(self.users@, id);
        }
        self.users.remove(idx);
        Ok(())
    }

    /// Applies a named balance operation to the user carrying `id`: a
    /// deposit adds `amount`, a spend subtracts it, with no overdraft
    /// check. Rewrites `updated_at` and returns the saved row. This is a
    /// read-then-write; against this single-owner store no other request
    /// can interleave with it, which is more than a shared backing store
    /// would promise for this route.
    pub fn modify_balance(&mut self, id: i32, operation: Operation, amount: i32, now: i64) -> (r:
        Result<User, AppError>)
        requires
            old(self).wf(),
            has_user_id(old(self).spec_users(), id) ==> (i32::MIN <= balance_after(
                user_by_id(old(self).spec_users(), id).balance,
                operation,
                amount,
            ) <= i32::MAX),
        ensures
            final(self).wf(),
            final(self).spec_products() == old(self).spec_products(),
            final(self).spec_next_product_id() == old(self).spec_next_product_id(),
            final(self).spec_next_user_id() == old(self).spec_next_user_id(),
            final(self).spec_defaults() == old(self).spec_defaults(),
            match r {
                Ok(u) => ({
                    let s0 = old(self).spec_users();
                    let prev = user_by_id(s0, id);
                    let t = clock_after(old(self).spec_clock(), now);
                    &&& has_user_id(s0, id)
                    &&& u == (User {
                        balance: balance_after(prev.balance, operation, amount) as i32,
                        updated_at: t,
                        ..prev
                    })
                    &&& u.updated_at >= prev.updated_at
                    &&& final(self).spec_users() == s0.update(user_id_index(s0, id), u)
                    &&& final(self).spec_clock() == t
                }),
                Err(e) => {
                    &&& e == AppError::NotFound
                    &&& !has_user_id(old(self).spec_users(), id)
                    &&& *final(self) == *old(self)
                },
            },
    {
        let idx = match self.find_user(id) {
            Some(i) => i,
            None => {
                return Err(AppError::NotFound);
            },
        };
        proof {
            lemma_user_index_is(self.spec_users(), id, idx as int);
        }
        let t = advance_clock(self.clock, now);
        let b = self.users[idx].balance;
        let nb: i32 = match operation {
            Operation::Deposit => b + amount,
            Operation::Spend => b - amount,
        };
        let mut u = self.users[idx].clone();
        u.balance = nb;
        u.updated_at = t;
        let out = u.clone();
        let ghost s0 = self.users@;
        let ghost clock0 = self.clock;
        self.users.set(idx, u);
        self.clock = t;
        proof {
            let s1 = self.users@;
            assert(s0[idx as int].updated_at <= clock0);
            assert forall|a: int, b: int| 0 <= a < b < s1.len() implies s1[a].name@
                != s1[b].name@ by {
                if a != idx && b != idx {
                    assert(s1[a] == s0[a] && s1[b] == s0[b]);
                }
            }
            assert forall|i: int|
                0 <= i < s1.len() implies (#[trigger] s1[i]).created_at <= self.clock
                && s1[i].updated_at <= self.clock by {
                if i != idx {
                    assert(s1[i] == s0[i]);
                }
            }
        }
        Ok(out)
    }

    /// Buys the product carrying `product_id` for the user carrying
    /// `user_id`: reads the product's price and debits it from the user's
    /// balance as one operation. Fails with `NotFound`, leaving the store
    /// untouched, when either id is absent.
    pub fn buy(&mut self, user_id: i32, product_id: i32, now: i64) -> (r: Result<User, AppError>)
        requires
            old(self).wf(),
            (has_product_id(old(self).spec_products(), product_id) && has_user_id(
                old(self).spec_users(),
                user_id,
            )) ==> (i32::MIN <= user_by_id(old(self).spec_users(), user_id).balance
                - product_by_id(old(self).spec_products(), product_id).price <= i32::MAX),
        ensures
            final(self).wf(),
            final(self).spec_products() == old(self).spec_products(),
            final(self).spec_next_product_id() == old(self).spec_next_product_id(),
            final(self).spec_next_user_id() == old(self).spec_next_user_id(),
            final(self).spec_defaults() == old(self).spec_defaults(),
            match r {
                Ok(u) => ({
                    let s0 = old(self).spec_users();
                    let prev = user_by_id(s0, user_id);
                    let price = product_by_id(old(self).spec_products(), product_id).price;
                    let t = clock_after(old(self).spec_clock(), now);
                    &&& has_product_id(old(self).spec_products(), product_id)
                    &&& has_user_id(s0, user_id)
                    &&& u == (User { balance: (prev.balance - price) as i32, updated_at: t, ..prev })
                    &&& u.updated_at >= prev.updated_at
                    &&& final(self).spec_users() == s0.update(user_id_index(s0, user_id), u)
                    &&& final(self).spec_clock() == t
                }),
                Err(e) => {
                    &&& e == AppError::NotFound
                    &&& !(has_product_id(old(self).spec_products(), product_id) && has_user_id(
                        old(self).spec_users(),
                        user_id,
                    ))
                    &&& *final(self) == *old(self)
                },
            },
    {
        let pidx = match self.find_product(product_id) {
            Some(i) => i,
            None => {
                return Err(AppError::NotFound);
            },
        };
        proof {
            lemma_product_index_is(self.spec_products(), product_id, pidx as int);
        }
        let idx = match self.find_user(user_id) {
            Some(i) => i,
            None => {
                return Err(AppError::NotFound);
            },
        };
        proof {
            lemma_user_index_is(self.spec_users(), user_id, idx as int);
        }
        let t = advance_clock(self.clock, now);
        let price = self.products[pidx].price;
        let b = self.users[idx].balance;
        let mut u = self.users[idx].clone();
        u.balance = b - price;
        u.updated_at = t;
        let out = u.clone();
        let ghost s0 = self.users@;
        let ghost clock0 = self.clock;
        self.users.set(idx, u);
        self.clock = t;
        proof {
            let s1 = self.users@;
            assert(s0[idx as int].updated_at <= clock0);
            assert forall|a: int, b: int| 0 <= a < b < s1.len() implies s1[a].name@
                != s1[b].name@ by {
                if a != idx && b != idx {
                    assert(s1[a] == s0[a] && s1[b] == s0[b]);
                }
            }
            assert forall|i: int|
                0 <= i < s1.len() implies (#[trigger] s1[i]).created_at <= self.clock
                && s1[i].updated_at <= self.clock by {
                if i != idx {
                    assert(s1[i] == s0[i]);
                }
            }
        }
        Ok(out)
    }

    /// Transfers `request.amount` from the user carrying `sender` to the
    /// one carrying `request.receiver`: both balances are read first, then
    /// the debited sender row and the credited receiver row are written, in
    /// that order, as one all-or-nothing operation. If either lookup fails
    /// nothing is written. Both writes are computed from the balances as
    /// first read, so when sender and receiver are the same row the later
    /// write wins and that row ends credited.
    pub fn transfer(&mut self, sender: i32, request: FundsTransferRequest, now: i64) -> (r: Result<
        (),
        AppError,
    >)
        requires
            old(self).wf(),
            (has_user_id(old(self).spec_users(), sender) && has_user_id(
                old(self).spec_users(),
                request.receiver,
            )) ==> ({
                let s0 = old(self).spec_users();
                &&& i32::MIN <= user_by_id(s0, sender).balance - request.amount <= i32::MAX
                &&& i32::MIN <= user_by_id(s0, request.receiver).balance + request.amount
                    <= i32::MAX
            }),
        ensures
            final(self).wf(),
            final(self).spec_products() == old(self).spec_products(),
            final(self).spec_next_product_id() == old(self).spec_next_product_id(),
            final(self).spec_next_user_id() == old(self).spec_next_user_id(),
            final(self).spec_defaults() == old(self).spec_defaults(),
            match r {
                Ok(_) => ({
                    let s0 = old(self).spec_users();
                    let si = user_id_index(s0, sender);
                    let ri = user_id_index(s0, request.receiver);
                    let t = clock_after(old(self).spec_clock(), now);
                    let debited = (User {
                        balance: (s0[si].balance - request.amount) as i32,
                        updated_at: t,
                        ..s0[si]
                    });
                    let credited = (User {
                        balance: (s0[ri].balance + request.amount) as i32,
                        updated_at: t,
                        ..s0[ri]
                    });
                    &&& has_user_id(s0, sender)
                    &&& has_user_id(s0, request.receiver)
                    &&& final(self).spec_users() == s0.update(si, debited).update(ri, credited)
                    &&& final(self).spec_clock() == t
                }),
                Err(e) => {
                    &&& e == AppError::NotFound
                    &&& !(has_user_id(old(self).spec_users(), sender) && has_user_id(
                        old(self).spec_users(),
                        request.receiver,
                    ))
                    &&& *final(self) == *old(self)
                },
            },
    {
        let si = match self.find_user(sender) {
            Some(i) => i,
            None => {
                return Err(AppError::NotFound);
            },
        };
        proof {
            lemma_user_index_is(self.spec_users(), sender, si as int);
        }
        let ri = match self.find_user(request.receiver) {
            Some(i) => i,
            None => {
                return Err(AppError::NotFound);
            },
        };
        proof {
            lemma_user_index_is(self.spec_users(), request.receiver, ri as int);
        }
        let t = advance_clock(self.clock, now);
        let sb = self.users[si].balance;
        let rb = self.users[ri].balance;
        let ghost s0 = self.users@;
        let ghost clock0 = self.clock;
        let mut d = self.users[si].clone();
        d.balance = sb - request.amount;
        d.updated_at = t;
        self.users.set(si, d);
        let mut c = self.users[ri].clone();
        c.balance = rb + request.amount;
        c.updated_at = t;
        self.users.set(ri, c);
        self.clock = t;
        proof {
            let s1 = self.users@;
            assert forall|a: int, b: int| 0 <= a < b < s1.len() implies s1[a].id != s1[b].id
                && s1[a].name@ != s1[b].name@ by {
                assert(s1[a].id == s0[a].id && s1[a].name@ == s0[a].name@);
                assert(s1[b].id == s0[b].id && s1[b].name@ == s0[b].name@);
            }
            assert forall|i: int|
                0 <= i < s1.len() implies 1 <= (#[trigger] s1[i]).id < self.next_user_id
                && s1[i].created_at <= self.clock && s1[i].updated_at <= self.clock by {
                assert(s1[i].id == s0[i].id);
                if i != si && i != ri {
                    assert(s1[i] == s0[i]);
                }
            }
        }
        Ok(())
    }

    /// The sum of every balance, as a 64-bit integer that cannot overflow:
    /// lets a caller test whether the 32-bit statistics aggregate is
    /// representable before asking for it.
    pub fn balance_total(&self) -> (total: i64)
        requires
            self.wf(),
        ensures
            total == spec_balance_sum(self.spec_users()),
    {
        let ghost s = self.users@;
        let mut total: i64 = 0;
        let mut i: usize = 0;
        while i < self.users.len()
            invariant
                self.wf(),
                s == self.users@,
                i <= s.len(),
                total == spec_balance_sum(s.subrange(0, i as int)),
                -0x8000_0000 * (i as int) <= total <= 0x7fff_ffff * (i as int),
            decreases s.len() - i,
        {
            proof {
                assert(s.len() < 0x8000_0000);
            }
            total = total + (self.users[i].balance as i64);
            proof {
                assert(s.subrange(0, (i + 1) as int).drop_last() =~= s.subrange(0, i as int));
                assert(s.subrange(0, (i + 1) as int).last() == s[i as int]);
            }
            i += 1;
        }
        proof {
            assert(s.subrange(0, s.len() as int) =~= s);
        }
        total
    }

    /// The statistics aggregate over the full user set: how many users
    /// there are, how many are active, and the sum of all balances.
    pub fn stats(&self) -> (r: UsersStatsResponce)
        requires
            self.wf(),
            i32::MIN <= spec_balance_sum(self.spec_users()) <= i32::MAX,
        ensures
            r.user_count == self.spec_users().len(),
            r.active_count == spec_active_count(self.spec_users()),
            r.balance_sum == spec_balance_sum(self.spec_users()),
    {
        let total = self.balance_total();
        let ghost s = self.users@;
        let mut active: i32 = 0;
        let mut i: usize = 0;
        while i < self.users.len()
            invariant
                self.wf(),
                s == self.users@,
                i <= s.len(),
                active == spec_active_count(s.subrange(0, i as int)),
                0 <= active <= i,
            decreases s.len() - i,
        {
            proof {
                assert(s.len() < 0x8000_0000);
            }
            if self.users[i].active {
                active = active + 1;
            }
            proof {
                assert(s.subrange(0, (i + 1) as int).drop_last() =~= s.subrange(0, i as int));
                assert(s.subrange(0, (i + 1) as int).last() == s[i as int]);
            }
            i += 1;
        }
        proof {
            assert(s.subrange(0, s.len() as int) =~= s);
            assert(s.len() < 0x8000_0000);
        }
        UsersStatsResponce {
            user_count: self.users.len() as i32,
            active_count: active,
            balance_sum: total as i32,
        }
    }

    /// The user carrying `id`, or `NotFound`.
    pub fn get_user(&self, id: i32) -> (r: Result<User, AppError>)
        requires
            self.wf(),
        ensures
            match r {
                Ok(u) => {
                    &&& has_user_id(self.spec_users(), id)
                    &&& u == user_by_id(self.spec_users(), id)
                    &&& u.id == id
                },
                Err(e) => {
                    &&& e == AppError::NotFound
                    &&& !has_user_id(self.spec_users(), id)
                },
            },
    {
        match self.find_user(id) {
            Some(i) => {
                proof {
                    lemma_user_index_is(self.spec_users(), id, i as int);
                }
                Ok(self.users[i].clone())
            },
            None => Err(AppError::NotFound),
        }
    }
}

/// The sum of all balances, oldest row first, as an unbounded integer.
pub open spec fn spec_balance_sum(s: Seq<User>) -> int
    decreases s.len(),
{
    if s.len() == 0 {
        0
    } else {
        spec_balance_sum(s.drop_last()) + s.last().balance
    }
}

/// How many rows are active.
pub open spec fn spec_active_count(s: Seq<User>) -> int
    decreases s.len(),
{
    if s.len() == 0 {
        0
    } else {
        spec_active_count(s.drop_last()) + (if s.last().active {
            1int
        } else {
            0int
        })
    }
}

/// The clock after the wall-clock reading `now`: never backwards.
fn advance_clock(clock: i64, now: i64) -> (t: i64)
    ensures
        t == clock_after(clock, now),
{
    if now > clock {
        now
    } else {
        clock
    }
}

/// When every id is at least 1, a scan that excludes id 0 excludes no row:
/// it finds a name exactly when some row carries it.
proof fn lemma_product_name_scan(s: Seq<Product>, name: Seq<char>)
    requires
        forall|i: int| 0 <= i < s.len() ==> 1 <= (#[trigger] s[i]).id,
    ensures
        product_name_elsewhere(s, 0, name) == has_product_name(s, name),
{
    if has_product_name(s, name) {
        let i = choose|i: int| 0 <= i < s.len() && s[i].name@ == name;
        assert(s[i].id != 0);
        assert(product_name_elsewhere(s, 0, name));
    }
    if product_name_elsewhere(s, 0, name) {
        let i = choose|i: int| 0 <= i < s.len() && s[i].id != 0 && s[i].name@ == name;
        assert(has_product_name(s, name));
    }
}

/// When every id is at least 1, a scan that excludes id 0 excludes no row:
/// it finds a name exactly when some row carries it.
proof fn lemma_user_name_scan(s: Seq<User>, name: Seq<char>)
    requires
        forall|i: int| 0 <= i < s.len() ==> 1 <= (#[trigger] s[i]).id,
    ensures
        user_name_elsewhere(s, 0, name) == has_user_name(s, name),
{
    if has_user_name(s, name) {
        let i = choose|i: int| 0 <= i < s.len() && s[i].name@ == name;
        assert(s[i].id != 0);
        assert(user_name_elsewhere(s, 0, name));
    }
    if user_name_elsewhere(s, 0, name) {
        let i = choose|i: int| 0 <= i < s.len() && s[i].id != 0 && s[i].name@ == name;
        assert(has_user_name(s, name));
    }
}

/// Law: a row just created is retrievable by its id, equal to what the
/// creation returned: pushing `p` onto the table makes `p` the row its id
/// denotes.
pub proof fn lemma_created_product_retrievable(s: Seq<Product>, p: Product)
    requires
        product_ids_unique(s.push(p)),
    ensures
        has_product_id(s.push(p), p.id),
        product_by_id(s.push(p), p.id) == p,
{
    lemma_product_index_is(s.push(p), p.id, s.len() as int);
}

/// Law: a row just created is retrievable by its id, equal to what the
/// creation returned.
pub proof fn lemma_created_user_retrievable(s: Seq<User>, u: User)
    requires
        user_ids_unique(s.push(u)),
    ensures
        has_user_id(s.push(u), u.id),
        user_by_id(s.push(u), u.id) == u,
{
    lemma_user_index_is(s.push(u), u.id, s.len() as int);
}

/// Law: once a product is created its name is taken, so a second creation
/// under the same name reports `Conflict` and leaves the store untouched
/// (the creation's own contract says so whenever the name is taken).
pub proof fn lemma_created_product_name_taken(s: Seq<Product>, p: Product)
    ensures
        has_product_name(s.push(p), p.name@),
{
    assert(s.push(p)[s.len() as int] == p);
}

/// Law: once a user is created its name is taken, so a second creation
/// under the same name reports `Conflict` and leaves the store untouched.
pub proof fn lemma_created_user_name_taken(s: Seq<User>, u: User)
    ensures
        has_user_name(s.push(u), u.name@),
{
    assert(s.push(u)[s.len() as int] == u);
}

/// Law: after a delete, a get of the same id reports `NotFound`: removing
/// the one row that carries `id` leaves no row carrying it.
pub proof fn lemma_removed_product_id_absent(s: Seq<Product>, id: i32)
    requires
        product_ids_unique(s),
        has_product_id(s, id),
    ensures
        !has_product_id(s.remove(product_id_index(s, id)), id),
{
    let idx = product_id_index(s, id);
    assert(0 <= idx < s.len() && s[idx].id == id);
    let s1 = s.remove(idx);
    assert forall|j: int| 0 <= j < s1.len() implies (#[trigger] s1[j]).id != id by {
        if j < idx {
            assert(s1[j] == s[j]);
            assert(s[j].id != s[idx].id);
        } else {
            assert(s1[j] == s[j + 1]);
            assert(s[idx].id != s[j + 1].id);
        }
    }
}

/// Law: after a delete, a get of the same id reports `NotFound`.
pub proof fn lemma_removed_user_id_absent(s: Seq<User>, id: i32)
    requires
        user_ids_unique(s),
        has_user_id(s, id),
    ensures
        !has_user_id(s.remove(user_id_index(s, id)), id),
{
    let idx = user_id_index(s, id);
    assert(0 <= idx < s.len() && s[idx].id == id);
    let s1 = s.remove(idx);
    assert forall|j: int| 0 <= j < s1.len() implies (#[trigger] s1[j]).id != id by {
        if j < idx {
            assert(s1[j] == s[j]);
            assert(s[j].id != s[idx].id);
        } else {
            assert(s1[j] == s[j + 1]);
            assert(s[idx].id != s[j + 1].id);
        }
    }
}

/// Law: a committed transfer between two distinct users debits the sender
/// by exactly the amount, credits the receiver by exactly the amount, and
/// touches no other row. The two updated rows are the ones the transfer's
/// contract writes.
pub proof fn lemma_transfer_balances(s: Seq<User>, sender: i32, receiver: i32, amount: i32, t: i64)
    requires
        user_ids_unique(s),
        has_user_id(s, sender),
        has_user_id(s, receiver),
        sender != receiver,
        i32::MIN <= user_by_id(s, sender).balance - amount <= i32::MAX,
        i32::MIN <= user_by_id(s, receiver).balance + amount <= i32::MAX,
    ensures
        ({
            let si = user_id_index(s, sender);
            let ri = user_id_index(s, receiver);
            let debited = (User {
                balance: (s[si].balance - amount) as i32,
                updated_at: t,
                ..s[si]
            });
            let credited = (User {
                balance: (s[ri].balance + amount) as i32,
                updated_at: t,
                ..s[ri]
            });
            let s1 = s.update(si, debited).update(ri, credited);
            &&& has_user_id(s1, sender)
            &&& has_user_id(s1, receiver)
            &&& user_by_id(s1, sender).balance == user_by_id(s, sender).balance - amount
            &&& user_by_id(s1, receiver).balance == user_by_id(s, receiver).balance + amount
            &&& forall|x: i32|
                x != sender && x != receiver && has_user_id(s, x) ==> user_by_id(s1, x)
                    == user_by_id(s, x) && has_user_id(s1, x)
        }),
{
    let si = user_id_index(s, sender);
    let ri = user_id_index(s, receiver);
    assert(0 <= si < s.len() && s[si].id == sender);
    assert(0 <= ri < s.len() && s[ri].id == receiver);
    let debited = (User { balance: (s[si].balance - amount) as i32, updated_at: t, ..s[si] });
    let credited = (User { balance: (s[ri].balance + amount) as i32, updated_at: t, ..s[ri] });
    let s1 = s.update(si, debited).update(ri, credited);
    assert(si != ri);
    assert forall|a: int, b: int| 0 <= a < b < s1.len() implies s1[a].id != s1[b].id by {
        assert(s1[a].id == s[a].id && s1[b].id == s[b].id);
    }
    lemma_user_index_is(s1, sender, si);
    lemma_user_index_is(s1, receiver, ri);
    assert forall|x: i32|
        x != sender && x != receiver && has_user_id(s, x) implies user_by_id(s1, x) == user_by_id(
        s,
        x,
    ) && has_user_id(s1, x) by {
        let i = user_id_index(s, x);
        assert(0 <= i < s.len() && s[i].id == x);
        assert(i != si && i != ri);
        assert(s1[i] == s[i]);
        lemma_user_index_is(s1, x, i);
        lemma_user_index_is(s, x, i);
    }
}

/// With unique ids, any position whose row carries `id` is the position
/// `product_id_index` denotes.
pub proof fn lemma_product_index_is(s: Seq<Product>, id: i32, i: int)
    requires
        product_ids_unique(s),
        0 <= i < s.len(),
        s[i].id == id,
    ensures
        has_product_id(s, id),
        product_id_index(s, id) == i,
        product_by_id(s, id) == s[i],
{
    assert(has_product_id(s, id));
    let k = product_id_index(s, id);
    assert(0 <= k < s.len() && s[k].id == id);
    if k < i {
        assert(s[k].id != s[i].id);
    } else if i < k {
        assert(s[i].id != s[k].id);
    }
}

/// With unique ids, any position whose row carries `id` is the position
/// `user_id_index` denotes.
pub proof fn lemma_user_index_is(s: Seq<User>, id: i32, i: int)
    requires
        user_ids_unique(s),
        0 <= i < s.len(),
        s[i].id == id,
    ensures
        has_user_id(s, id),
        user_id_index(s, id) == i,
        user_by_id(s, id) == s[i],
{
    assert(has_user_id(s, id));
    let k = user_id_index(s, id);
    assert(0 <= k < s.len() && s[k].id == id);
    if k < i {
        assert(s[k].id != s[i].id);
    } else if i < k {
        assert(s[i].id != s[k].id);
    }
}

} // verus!
