//! Text for stop reasons and log lines.

use crate::amount::{decimal_text, option_view, Amount, Dec};
use vstd::prelude::*;

verus! {

/// The character sequences of a list of strings, in order.
pub open spec fn string_views(strings: Seq<String>) -> Seq<Seq<char>> {
    Seq::new(strings.len(), |i: int| strings[i]@)
}

/// The parts written one after another with `sep` between neighbours.
pub open spec fn joined(parts: Seq<Seq<char>>, sep: Seq<char>) -> Seq<char>
    decreases parts.len(),
{
    if parts.len() == 0 {
        Seq::empty()
    } else if parts.len() == 1 {
        parts[0]
    } else {
        joined(parts.drop_last(), sep) + sep + parts.last()
    }
}

/// Writes the parts one after another with `sep` between neighbours.
pub fn join(parts: &Vec<String>, sep: &str) -> (s: String)
    ensures
        s@ == joined(string_views(parts@), sep@),
{
    let mut s = String::new();
    let mut i: usize = 0;
    while i < parts.len()
        invariant
            i <= parts.len(),
            s@ == joined(string_views(parts@).take(i as int), sep@),
        decreases parts.len() - i,
    {
        let ghost before = string_views(parts@).take(i as int);
        let ghost after = string_views(parts@).take(i + 1);
        proof {
            assert(after.drop_last() == before);
            assert(after.last() == parts@[i as int]@);
        }
        if i > 0 {
            s.append(sep);
        } else {
            assert(before.len() == 0);
            assert(s@ + parts@[i as int]@ == parts@[i as int]@);
        }
        s.append(parts[i].as_str());
        i = i + 1;
    }
    proof {
        assert(string_views(parts@).take(parts@.len() as int) == string_views(parts@));
    }
    s
}

/// `head` followed by `tail`.
pub fn followed_by(head: &str, tail: &str) -> (s: String)
    ensures
        s@ == head@ + tail@,
{
    let mut s = String::from_str(head);
    s.append(tail);
    s
}

/// A price that may be absent, in `bot_core`'s debugging notation: the
/// number as `rust_decimal` prints it inside `Some(Price(..))`, or `None`.
pub open spec fn price_debug_text(price: Option<Dec>) -> Seq<char> {
    match price {
        Some(p) => "Some(Price("@ + decimal_text(p) + "))"@,
        None => "None"@,
    }
}

/// What `bot_core` prints, in its debugging notation, for an order
/// identifier that may be absent.
pub uninterp spec fn order_id_debug_text(id: Option<Seq<char>>) -> Seq<char>;

/// A price that may be absent, in debugging notation.
pub fn price_debug(price: &Option<Amount>) -> (s: String)
    ensures
        s@ == price_debug_text(option_view(*price)),
{
    format_price_debug(price)
}

/// An order identifier that may be absent, in debugging notation.
pub fn order_id_debug(id: &Option<String>) -> (s: String)
    ensures
        s@ == order_id_debug_text(
            match *id {
                Some(i) => Some(i@),
                None => None,
            },
        ),
{
    format_order_id_debug(id)
}

/// Formats an `Option<bot_core::Price>` with `{:?}`. The notation is
/// derived: `Some(Price(..))` around the number, which `rust_decimal` prints
/// for debugging as it prints it otherwise, or `None`.
#[verifier::external_body]
fn format_price_debug(price: &Option<Amount>) -> (s: String)
    ensures
        s@ == price_debug_text(option_view(*price)),
{
    let p = match price {
        Some(a) => Some(
            bot_core::Price::new(rust_decimal::Decimal::from_i128_with_scale(a.mantissa(), a.scale())),
        ),
        None => None,
    };
    format!("{:?}", p)
}

/// Formats an `Option<bot_core::ClientOrderId>` with `{:?}`. The contract
/// only names the text.
#[verifier::external_body]
fn format_order_id_debug(id: &Option<String>) -> (s: String)
    ensures
        s@ == order_id_debug_text(
            match *id {
                Some(i) => Some(i@),
                None => None,
            },
        ),
{
    let i = match id {
        Some(text) => Some(bot_core::ClientOrderId::new(text.clone())),
        None => None,
    };
    format!("{:?}", i)
}

} // verus!
