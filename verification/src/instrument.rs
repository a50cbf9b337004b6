//! Instrument metadata and the rounding it prescribes.
//!
//! Prices are rounded to a whole number of ticks and then cut to five
//! significant figures; quantities are rounded to the nearest whole number
//! of lots when buying and cut down to one when selling. The arithmetic is
//! `bot_core`'s, which works on `rust_decimal` numbers and stops the program
//! where a result does not fit one. The functions here never let it come to
//! that. For a positive tick or lot they answer only for a value below
//! `10^28` in magnitude that holds at most `10^28` ticks or lots
//! ([`Dec::countable_in`]), and they cut to significant figures only a price
//! whose whole part is at most 18 digits longer than the figures kept. For
//! anything else they answer `None`. These bounds are simple rather than
//! tight: they also leave out some operands that `bot_core` would take, such
//! as a quantity of `2 * 10^28` in lots of one.

use crate::amount::{dec, option_view, Amount, Dec};
use vstd::prelude::*;

verus! {

/// The number of significant figures that a price keeps.
pub const PRICE_SIG_FIGS: u32 = 5;

/// The largest whole part, in digits, that can be cut to `digits`
/// significant figures is `digits + SIG_FIG_HEADROOM` digits long.
pub const SIG_FIG_HEADROOM: u32 = 18;

/// What `bot_core` rounds `price` to for a tick of `tick` greater than zero.
pub uninterp spec fn rounded_to_tick(price: Dec, tick: Dec) -> Dec;

/// What `bot_core` cuts `price` to when it keeps `digits` significant figures.
pub uninterp spec fn trimmed_to_sig_figs(price: Dec, digits: u32) -> Dec;

/// What `bot_core` rounds `qty` to for a lot of `lot` greater than zero.
pub uninterp spec fn rounded_to_lot(qty: Dec, lot: Dec) -> Dec;

/// What `bot_core` cuts `qty` down to for a lot of `lot` greater than zero.
pub uninterp spec fn truncated_to_lot(qty: Dec, lot: Dec) -> Dec;

/// `price` rounded to a whole number of ticks: the price itself for a tick
/// that is not positive, and nothing where the price cannot be counted in
/// ticks.
pub open spec fn tick_rounding(price: Dec, tick: Dec) -> Option<Dec> {
    if tick.mantissa <= 0 {
        Some(price)
    } else if price.countable_in(tick) {
        Some(rounded_to_tick(price, tick))
    } else {
        None
    }
}

/// `price` cut to `digits` significant figures, where its whole part is
/// short enough for that.
pub open spec fn sig_fig_trimming(price: Dec, digits: u32) -> Option<Dec> {
    if price.whole_digits_at_most((digits + SIG_FIG_HEADROOM) as nat) {
        Some(trimmed_to_sig_figs(price, digits))
    } else {
        None
    }
}

/// `qty` rounded to the nearest whole number of lots: the quantity itself
/// for a lot that is not positive, and nothing where the quantity cannot be
/// counted in lots.
pub open spec fn lot_rounding(qty: Dec, lot: Dec) -> Option<Dec> {
    if lot.mantissa <= 0 {
        Some(qty)
    } else if qty.countable_in(lot) {
        Some(rounded_to_lot(qty, lot))
    } else {
        None
    }
}

/// `qty` cut down to a whole number of lots: the quantity itself for a lot
/// that is not positive, and nothing where the quantity cannot be counted
/// in lots.
pub open spec fn lot_truncation(qty: Dec, lot: Dec) -> Option<Dec> {
    if lot.mantissa <= 0 {
        Some(qty)
    } else if qty.countable_in(lot) {
        Some(truncated_to_lot(qty, lot))
    } else {
        None
    }
}

/// Rounds `price` to a whole number of ticks.
pub fn round_to_tick(price: &Amount, tick: &Amount) -> (r: Option<Amount>)
    ensures
        option_view(r) == tick_rounding(price@, tick@),
{
    if price.countable_in(tick) {
        let raw = price_round_to_tick(price, tick);
        Amount::new(raw.0, raw.1)
    } else {
        None
    }
}

/// Cuts `price` to `digits` significant figures.
pub fn trim_to_sig_figs(price: &Amount, digits: u32) -> (r: Option<Amount>)
    ensures
        option_view(r) == sig_fig_trimming(price@, digits),
{
    let short_enough = price.whole_digits_at_most(digits as u64 + SIG_FIG_HEADROOM as u64);
    if short_enough {
        let raw = price_trim_to_sig_figs(price, digits);
        Amount::new(raw.0, raw.1)
    } else {
        None
    }
}

/// Rounds `qty` to the nearest whole number of lots.
pub fn round_to_lot(qty: &Amount, lot: &Amount) -> (r: Option<Amount>)
    ensures
        option_view(r) == lot_rounding(qty@, lot@),
{
    if qty.countable_in(lot) {
        let raw = qty_round_to_lot(qty, lot);
        Amount::new(raw.0, raw.1)
    } else {
        None
    }
}

/// Cuts `qty` down to a whole number of lots.
///
/// A quantity that is not negative is never cut down to more than
/// [`round_to_lot`] rounds it to.
pub fn trunc_to_lot(qty: &Amount, lot: &Amount) -> (r: Option<Amount>)
    ensures
        option_view(r) == lot_truncation(qty@, lot@),
        r is Some && qty@.mantissa >= 0 ==> r->0@.le(lot_rounding(qty@, lot@)->0),
{
    if qty.countable_in(lot) {
        let raw = qty_trunc_to_lot(qty, lot);
        Amount::new(raw.0, raw.1)
    } else {
        None
    }
}

/// The rounding rules of one instrument.
#[derive(Clone, Copy, Debug, PartialEq, Eq)]
pub struct InstrumentMeta {
    /// The smallest step between two prices.
    pub tick_size: Amount,
    /// The smallest step between two quantities.
    pub lot_size: Amount,
}

/// What contracts see of an [`InstrumentMeta`].
pub struct InstrumentMetaView {
    pub tick_size: Dec,
    pub lot_size: Dec,
}

impl View for InstrumentMeta {
    type V = InstrumentMetaView;

    open spec fn view(&self) -> InstrumentMetaView {
        InstrumentMetaView { tick_size: self.tick_size@, lot_size: self.lot_size@ }
    }
}

/// What contracts see of rounding rules that may be absent.
pub open spec fn option_meta_view(meta: Option<InstrumentMeta>) -> Option<InstrumentMetaView> {
    match meta {
        Some(m) => Some(m@),
        None => None,
    }
}

impl InstrumentMetaView {
    /// The price an order is quoted at: `price` rounded to the tick size and
    /// then cut to five significant figures.
    pub open spec fn round_price(self, price: Dec) -> Option<Dec> {
        match tick_rounding(price, self.tick_size) {
            Some(rounded) => sig_fig_trimming(rounded, PRICE_SIG_FIGS),
            None => None,
        }
    }

    /// The quantity a buy order is sized at.
    pub open spec fn round_qty(self, qty: Dec) -> Option<Dec> {
        lot_rounding(qty, self.lot_size)
    }

    /// The quantity a sell order is sized at.
    pub open spec fn trunc_qty(self, qty: Dec) -> Option<Dec> {
        lot_truncation(qty, self.lot_size)
    }
}

impl InstrumentMeta {
    /// Rounds a price to the tick size and cuts it to five significant
    /// figures.
    pub fn round_price(&self, price: &Amount) -> (r: Option<Amount>)
        ensures
            option_view(r) == self@.round_price(price@),
    {
        match round_to_tick(price, &self.tick_size) {
            Some(rounded) => trim_to_sig_figs(&rounded, PRICE_SIG_FIGS),
            None => None,
        }
    }

    /// Rounds a quantity to the nearest whole number of lots.
    pub fn round_qty(&self, qty: &Amount) -> (r: Option<Amount>)
        ensures
            option_view(r) == self@.round_qty(qty@),
    {
        round_to_lot(qty, &self.lot_size)
    }

    /// Cuts a quantity down to a whole number of lots, so that a sale never
    /// asks for more than was bought.
    pub fn trunc_qty(&self, qty: &Amount) -> (r: Option<Amount>)
        ensures
            option_view(r) == self@.trunc_qty(qty@),
            r is Some && qty@.mantissa >= 0 ==> r->0@.le(self@.round_qty(qty@)->0),
    {
        trunc_to_lot(qty, &self.lot_size)
    }
}

/// Calls `bot_core::Price::round_to_tick`, which divides the price by the
/// tick, rounds the quotient to a whole number and multiplies it by the tick
/// again (or hands the price back for a tick that is not positive).
///
/// The contract names the result for a positive tick, says that it is the
/// price for any other, and that it is a decimal: a mantissa of 96 bits and
/// a scale of at most 28. It asks for a price that can be counted in ticks.
/// For a positive tick the price is then below `10^28` and the quotient at
/// most `10^28`. The product is zero where the quotient rounds to zero;
/// otherwise the tick is at most about twice the price, and the product,
/// within half a tick of the price, at most about twice the price as well.
/// So neither the division nor the multiplication leaves what a decimal can
/// hold (just under `8 * 10^28`), which is where they would stop the
/// program. Every amount fits a decimal, so the conversions cannot fail.
#[verifier::external_body]
fn price_round_to_tick(price: &Amount, tick: &Amount) -> (r: (i128, u32))
    requires
        price@.countable_in(tick@),
    ensures
        dec(r.0 as int, r.1 as nat).representable(),
        tick@.mantissa > 0 ==> dec(r.0 as int, r.1 as nat) == rounded_to_tick(price@, tick@),
        tick@.mantissa <= 0 ==> dec(r.0 as int, r.1 as nat) == price@,
{
    let p = rust_decimal::Decimal::from_i128_with_scale(price.mantissa(), price.scale());
    let t = rust_decimal::Decimal::from_i128_with_scale(tick.mantissa(), tick.scale());
    let rounded = bot_core::Price::new(p).round_to_tick(t).value();
    (rounded.mantissa(), rounded.scale())
}

/// Calls `bot_core::Price::trim_to_sig_figs`, which keeps `digits`
/// significant figures of the price: it cuts the whole part where that alone
/// has as many digits, and rounds the decimal places otherwise.
///
/// The contract names the result and says that it is a decimal. It asks for
/// a whole part of at most `digits + 18` digits: the function cuts a longer
/// one by a power of ten that it computes in 64 bits, which would overflow.
#[verifier::external_body]
fn price_trim_to_sig_figs(price: &Amount, digits: u32) -> (r: (i128, u32))
    requires
        price@.whole_digits_at_most((digits + SIG_FIG_HEADROOM) as nat),
    ensures
        dec(r.0 as int, r.1 as nat).representable(),
        dec(r.0 as int, r.1 as nat) == trimmed_to_sig_figs(price@, digits),
{
    let p = rust_decimal::Decimal::from_i128_with_scale(price.mantissa(), price.scale());
    let trimmed = bot_core::Price::new(p).trim_to_sig_figs(digits).value();
    (trimmed.mantissa(), trimmed.scale())
}

/// Calls `bot_core::Qty::round_to_lot`, which divides the quantity by the
/// lot, rounds the quotient to a whole number and multiplies it by the lot
/// again (or hands the quantity back for a lot that is not positive).
///
/// The contract names the result for a positive lot, says that it is the
/// quantity for any other, and that it is a decimal. It asks for a quantity
/// that can be counted in lots, for the reason given at
/// `price_round_to_tick`.
#[verifier::external_body]
fn qty_round_to_lot(qty: &Amount, lot: &Amount) -> (r: (i128, u32))
    requires
        qty@.countable_in(lot@),
    ensures
        dec(r.0 as int, r.1 as nat).representable(),
        lot@.mantissa > 0 ==> dec(r.0 as int, r.1 as nat) == rounded_to_lot(qty@, lot@),
        lot@.mantissa <= 0 ==> dec(r.0 as int, r.1 as nat) == qty@,
{
    let q = rust_decimal::Decimal::from_i128_with_scale(qty.mantissa(), qty.scale());
    let l = rust_decimal::Decimal::from_i128_with_scale(lot.mantissa(), lot.scale());
    let rounded = bot_core::Qty::new(q).round_to_lot(l).value();
    (rounded.mantissa(), rounded.scale())
}

/// Calls `bot_core::Qty::trunc_to_lot`, which divides the quantity by the
/// lot, drops the decimal places of the quotient and multiplies it by the lot
/// again (or hands the quantity back for a lot that is not positive).
///
/// The contract names the result for a positive lot, says that it is the
/// quantity for any other, and that it is a decimal. It asks for a quantity
/// that can be counted in lots, for the reason given at
/// `price_round_to_tick`. It adds that, for a positive lot, the result is at
/// most what `round_to_lot` gives for a quantity that is not negative: both
/// multiply the lot by a whole number taken from the same quotient, and
/// dropping the decimal places of a quotient that is not negative never gives
/// more than rounding it.
#[verifier::external_body]
fn qty_trunc_to_lot(qty: &Amount, lot: &Amount) -> (r: (i128, u32))
    requires
        qty@.countable_in(lot@),
    ensures
        dec(r.0 as int, r.1 as nat).representable(),
        lot@.mantissa > 0 ==> dec(r.0 as int, r.1 as nat) == truncated_to_lot(qty@, lot@),
        lot@.mantissa <= 0 ==> dec(r.0 as int, r.1 as nat) == qty@,
        lot@.mantissa > 0 && qty@.mantissa >= 0 ==> dec(r.0 as int, r.1 as nat).le(
            rounded_to_lot(qty@, lot@),
        ),
{
    let q = rust_decimal::Decimal::from_i128_with_scale(qty.mantissa(), qty.scale());
    let l = rust_decimal::Decimal::from_i128_with_scale(lot.mantissa(), lot.scale());
    let cut = bot_core::Qty::new(q).trunc_to_lot(l).value();
    (cut.mantissa(), cut.scale())
}

} // verus!
