//! Monetary values and the way they are rendered.

pub mod currency;

pub use currency::{usd, Currency, CurrencyFormat};
