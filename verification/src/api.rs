//! Request-level logic: parsing the numeric bodies and the operation path
//! segment, the balance routes composed end to end, and the static server
//! information.

use vstd::prelude::*;
use crate::clock::now_millis;
use crate::config::DefaultProductConfig;
use crate::error::AppError;
use crate::models::{DefaultProduct, Operation, ServerInfo, User, balance_after};
use crate::store::{
    Store, has_product_id, has_user_id, product_by_id, user_by_id, user_id_index,
};

verus! {

/// Whether `c` is a decimal digit.
pub open spec fn is_dec_digit(c: char) -> bool {
    48 <= c as int <= 57
}

/// The value of the decimal digit `c`.
pub open spec fn digit_val(c: char) -> int {
    c as int - 48
}

/// Whether `s` is one or more decimal digits.
pub open spec fn digits_valid(s: Seq<char>) -> bool {
    s.len() > 0 && forall|i: int| 0 <= i < s.len() ==> is_dec_digit(#[trigger] s[i])
}

/// The number the digit string `s` denotes, most significant digit first.
pub open spec fn digits_value(s: Seq<char>) -> int
    decreases s.len(),
{
    if s.len() == 0 {
        0
    } else {
        digits_value(s.drop_last()) * 10 + digit_val(s.last())
    }
}

/// Whether `s` is an integer literal as `str::parse` reads one: an optional
/// sign followed by one or more decimal digits, nothing else.
pub open spec fn int_literal_valid(s: Seq<char>) -> bool {
    if s.len() > 0 && (s[0] == '+' || s[0] == '-') {
        digits_valid(s.subrange(1, s.len() as int))
    } else {
        digits_valid(s)
    }
}

/// The integer the literal `s` denotes.
pub open spec fn int_literal_value(s: Seq<char>) -> int {
    if s.len() > 0 && s[0] == '-' {
        -digits_value(s.subrange(1, s.len() as int))
    } else if s.len() > 0 && s[0] == '+' {
        digits_value(s.subrange(1, s.len() as int))
    } else {
        digits_value(s)
    }
}

/// A digit string denotes a number that is not negative.
proof fn lemma_digits_nonneg(s: Seq<char>)
    requires
        forall|i: int| 0 <= i < s.len() ==> is_dec_digit(#[trigger] s[i]),
    ensures
        digits_value(s) >= 0,
    decreases s.len(),
{
    if s.len() > 0 {
        lemma_digits_nonneg(s.drop_last());
    }
}

/// Reading more digits never shrinks the number: the value of a prefix is
/// at most the value of the whole digit string.
proof fn lemma_digits_prefix(s: Seq<char>, i: int)
    requires
        0 <= i <= s.len(),
        forall|j: int| 0 <= j < s.len() ==> is_dec_digit(#[trigger] s[j]),
    ensures
        digits_value(s.subrange(0, i)) <= digits_value(s),
    decreases s.len() - i,
{
    if i == s.len() {
        assert(s.subrange(0, i) =~= s);
    } else {
        lemma_digits_prefix(s, i + 1);
        assert(s.subrange(0, i + 1).drop_last() =~= s.subrange(0, i));
        assert(s.subrange(0, i + 1).last() == s[i]);
        lemma_digits_nonneg(s.subrange(0, i));
    }
}

/// Parses a 32-bit integer from `s` exactly as `str::parse` does: an
/// optional sign, then digits; anything else, or a value outside the
/// 32-bit range, is a `BadRequest`.
pub fn parse_i32(s: &str) -> (r: Result<i32, AppError>)
    ensures
        match r {
            Ok(v) => {
                &&& int_literal_valid(s@)
                &&& i32::MIN <= int_literal_value(s@) <= i32::MAX
                &&& v == int_literal_value(s@)
            },
            Err(e) => {
                &&& e == AppError::BadRequest
                &&& !(int_literal_valid(s@) && i32::MIN <= int_literal_value(s@) <= i32::MAX)
            },
        },
{
    let len = s.unicode_len();
    if len == 0 {
        return Err(AppError::BadRequest);
    }
    let first = s.get_char(0);
    let neg: bool = first == '-';
    let start: usize = if first == '-' || first == '+' {
        1
    } else {
        0
    };
    if start >= len {
        return Err(AppError::BadRequest);
    }
    let ghost digits = s@.subrange(start as int, len as int);
    let mut acc: i64 = 0;
    let mut i: usize = start;
    while i < len
        invariant
            start <= i <= len,
            len == s@.len(),
            start == 0 || start == 1,
            start == 1 ==> (s@[0] == '+' || s@[0] == '-'),
            start == 0 ==> !(s@[0] == '+' || s@[0] == '-'),
            neg == (s@[0] == '-'),
            digits == s@.subrange(start as int, len as int),
            forall|j: int| start <= j < i ==> is_dec_digit(#[trigger] s@[j]),
            acc == digits_value(s@.subrange(start as int, i as int)),
            0 <= acc <= 0x8000_0000,
        decreases len - i,
    {
        let c = s.get_char(i);
        let d: u32 = c as u32;
        if d < 48 || 57 < d {
            assert(!is_dec_digit(s@[i as int]));
            assert(!int_literal_valid(s@)) by {
                if int_literal_valid(s@) {
                    assert(digits_valid(digits));
                    assert(is_dec_digit(digits[i - start as int]));
                }
            }
            return Err(AppError::BadRequest);
        }
        acc = acc * 10 + ((d - 48) as i64);
        proof {
            let prefix = s@.subrange(start as int, (i + 1) as int);
            assert(prefix.drop_last() =~= s@.subrange(start as int, i as int));
            assert(prefix.last() == s@[i as int]);
        }
        i += 1;
        if acc > 0x8000_0000 {
            assert(!(int_literal_valid(s@) && i32::MIN <= int_literal_value(s@) <= i32::MAX))
                by {
                if int_literal_valid(s@) {
                    assert(digits_valid(digits));
                    assert(s@.subrange(start as int, i as int) =~= digits.subrange(
                        0,
                        i - start as int,
                    ));
                    lemma_digits_prefix(digits, i - start as int);
                    assert(digits_value(digits) > 0x8000_0000);
                    if start == 0 {
                        assert(digits =~= s@);
                    }
                    if neg {
                        assert(int_literal_value(s@) == -digits_value(digits));
                    } else {
                        assert(int_literal_value(s@) == digits_value(digits));
                    }
                }
            }
            return Err(AppError::BadRequest);
        }
    }
    proof {
        assert(s@.subrange(start as int, i as int) =~= digits);
        if start == 0 {
            assert(digits =~= s@);
        }
        assert(int_literal_valid(s@));
        if neg {
            assert(int_literal_value(s@) == -digits_value(digits));
        } else {
            assert(int_literal_value(s@) == digits_value(digits));
        }
    }
    if neg {
        Ok((-acc) as i32)
    } else {
        if acc > 0x7fff_ffff {
            assert(int_literal_value(s@) > i32::MAX);
            return Err(AppError::BadRequest);
        }
        Ok(acc as i32)
    }
}

/// Relies on str's `PartialEq`: two string slices compare equal exactly
/// when they hold the same characters.
#[verifier::external_body]
fn str_eq(a: &str, b: &str) -> (r: bool)
    ensures
        r == (a@ == b@),
{
    a == b
}

/// Which balance operation the path segment `s` names, if any.
pub open spec fn spec_operation_of(s: Seq<char>) -> Option<Operation> {
    if s == "spend"@ {
        Some(Operation::Spend)
    } else if s == "deposit"@ {
        Some(Operation::Deposit)
    } else {
        None
    }
}

/// Reads the balance operation named by a path segment; anything but
/// `spend` or `deposit` is a `BadRequest`.
pub fn parse_operation(s: &str) -> (r: Result<Operation, AppError>)
    ensures
        match r {
            Ok(op) => spec_operation_of(s@) == Some(op),
            Err(e) => {
                &&& e == AppError::BadRequest
                &&& spec_operation_of(s@) is None
            },
        },
{
    if str_eq(s, "spend") {
        Ok(Operation::Spend)
    } else if str_eq(s, "deposit") {
        Ok(Operation::Deposit)
    } else {
        Err(AppError::BadRequest)
    }
}

/// Whether the balance that the route `POST /users/{id}/{operation}` would
/// write stays representable; trivially true when the request does not
/// parse or the user is absent, since nothing is written then.
pub open spec fn modify_request_in_range(
    users: Seq<User>,
    id: i32,
    operation: Seq<char>,
    body: Seq<char>,
) -> bool {
    match spec_operation_of(operation) {
        Some(op) => (has_user_id(users, id) && int_literal_valid(body) && i32::MIN
            <= int_literal_value(body) <= i32::MAX) ==> (i32::MIN <= balance_after(
            user_by_id(users, id).balance,
            op,
            int_literal_value(body) as i32,
        ) <= i32::MAX),
        None => true,
    }
}

/// The route `POST /users/{id}/{operation}`: reads the operation from the
/// path and the amount from the body, then applies the balance change,
/// stamping the save with the wall clock. `BadRequest` if either part does
/// not parse, `NotFound` if the user is absent; the store is untouched on
/// every failure.
pub fn modify_balance_request(
    store: &mut Store,
    id: i32,
    operation: &str,
    body: &str,
) -> (r: Result<User, AppError>)
    requires
        old(store).wf(),
        modify_request_in_range(old(store).spec_users(), id, operation@, body@),
    ensures
        final(store).wf(),
        final(store).spec_products() == old(store).spec_products(),
        final(store).spec_next_product_id() == old(store).spec_next_product_id(),
        final(store).spec_next_user_id() == old(store).spec_next_user_id(),
        final(store).spec_defaults() == old(store).spec_defaults(),
        match r {
            Ok(u) => ({
                let s0 = old(store).spec_users();
                let prev = user_by_id(s0, id);
                let amount = int_literal_value(body@) as i32;
                &&& spec_operation_of(operation@) matches Some(op) && u.balance == balance_after(
                    prev.balance,
                    op,
                    amount,
                )
                &&& int_literal_valid(body@)
                &&& i32::MIN <= int_literal_value(body@) <= i32::MAX
                &&& has_user_id(s0, id)
                &&& u == (User {
                    balance: u.balance,
                    updated_at: final(store).spec_clock(),
                    ..prev
                })
                &&& u.updated_at >= prev.updated_at
                &&& final(store).spec_clock() >= old(store).spec_clock()
                &&& final(store).spec_users() == s0.update(user_id_index(s0, id), u)
            }),
            Err(e) => {
                &&& *final(store) == *old(store)
                &&& (e == AppError::BadRequest <==> (spec_operation_of(operation@) is None
                    || !int_literal_valid(body@) || !(i32::MIN <= int_literal_value(body@)
                    <= i32::MAX)))
                &&& (e == AppError::NotFound ==> !has_user_id(old(store).spec_users(), id))
                &&& (e == AppError::BadRequest || e == AppError::NotFound)
            },
        },
{
    let op = match parse_operation(operation) {
        Ok(op) => op,
        Err(e) => {
            return Err(e);
        },
    };
    let amount = match parse_i32(body) {
        Ok(v) => v,
        Err(e) => {
            return Err(e);
        },
    };
    let now = now_millis();
    store.modify_balance(id, op, amount, now)
}

/// Whether the balance that the route `POST /users/{id}/buy` would write
/// stays representable; trivially true when the body does not parse or
/// either id is absent.
pub open spec fn buy_request_in_range(
    products: Seq<crate::models::Product>,
    users: Seq<User>,
    user_id: i32,
    body: Seq<char>,
) -> bool {
    (int_literal_valid(body) && i32::MIN <= int_literal_value(body) <= i32::MAX
        && has_product_id(products, int_literal_value(body) as i32) && has_user_id(
        users,
        user_id,
    )) ==> (i32::MIN <= user_by_id(users, user_id).balance - product_by_id(
        products,
        int_literal_value(body) as i32,
    ).price <= i32::MAX)
}

/// The route `POST /users/{id}/buy`: reads the product id from the body and
/// debits that product's price from the user, stamping the save with the
/// wall clock. `BadRequest` if the body does not parse, `NotFound` if
/// either id is absent; the store is untouched on every failure.
pub fn buy_request(store: &mut Store, user_id: i32, body: &str) -> (r: Result<User, AppError>)
    requires
        old(store).wf(),
        buy_request_in_range(old(store).spec_products(), old(store).spec_users(), user_id, body@),
    ensures
        final(store).wf(),
        final(store).spec_products() == old(store).spec_products(),
        final(store).spec_next_product_id() == old(store).spec_next_product_id(),
        final(store).spec_next_user_id() == old(store).spec_next_user_id(),
        final(store).spec_defaults() == old(store).spec_defaults(),
        match r {
            Ok(u) => ({
                let s0 = old(store).spec_users();
                let prev = user_by_id(s0, user_id);
                let product_id = int_literal_value(body@) as i32;
                let price = product_by_id(old(store).spec_products(), product_id).price;
                &&& int_literal_valid(body@)
                &&& i32::MIN <= int_literal_value(body@) <= i32::MAX
                &&& has_product_id(old(store).spec_products(), product_id)
                &&& has_user_id(s0, user_id)
                &&& u == (User {
                    balance: (prev.balance - price) as i32,
                    updated_at: final(store).spec_clock(),
                    ..prev
                })
                &&& u.updated_at >= prev.updated_at
                &&& final(store).spec_clock() >= old(store).spec_clock()
                &&& final(store).spec_users() == s0.update(user_id_index(s0, user_id), u)
            }),
            Err(e) => {
                &&& *final(store) == *old(store)
                &&& (e == AppError::BadRequest <==> (!int_literal_valid(body@) || !(i32::MIN
                    <= int_literal_value(body@) <= i32::MAX)))
                &&& (e == AppError::NotFound ==> !(has_product_id(
                    old(store).spec_products(),
                    int_literal_value(body@) as i32,
                ) && has_user_id(old(store).spec_users(), user_id)))
                &&& (e == AppError::BadRequest || e == AppError::NotFound)
            },
        },
{
    let product_id = match parse_i32(body) {
        Ok(v) => v,
        Err(e) => {
            return Err(e);
        },
    };
    let now = now_millis();
    store.buy(user_id, product_id, now)
}

/// The static server information, with the default-product policy in force.
pub fn server_info(defaults: &DefaultProductConfig) -> (r: ServerInfo)
    ensures
        r.version@ == "3.0.0"@,
        r.global_credit_limit is None,
        r.currency@ == "\u{20ac}"@,
        !r.currency_before,
        (r.decimal_seperator matches Some(s) && s@ == ","@),
        r.energy@ == "kJ"@,
        r.default_product.price == defaults.price,
        r.default_product.package_size == defaults.package_size,
        r.default_product.caffine == defaults.caffeine,
        r.default_product.alcohol == defaults.alcohol,
        r.default_product.energy == defaults.energy,
        r.default_product.sugar == defaults.sugar,
        r.default_product.active == defaults.active,
{
    ServerInfo {
        version: "3.0.0".to_owned(),
        global_credit_limit: None,
        currency: "\u{20ac}".to_owned(),
        currency_before: false,
        decimal_seperator: Some(",".to_owned()),
        energy: "kJ".to_owned(),
        default_product: DefaultProduct::from(defaults.clone()),
    }
}

} // verus!
