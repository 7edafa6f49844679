//! Budget-driven generation of trading-card definitions.
//!
//! A card is made from a designer's choices: rarity, efficiency, points
//! allocated to priority, range and effect. The rarity rolls a power, and
//! each choice then takes its price from the budget that the power gives.
//! What is left of the choices is a cast cost and a priority. A deck is five
//! such cards on a rarity curve.
//!
//! Every factor is an exact ratio, and every product is cut toward zero as
//! soon as it is formed.

pub mod multiplier;
pub mod text;
pub mod choices;
pub mod random;
pub mod config;
pub mod card;
pub mod generators;
pub mod input;
pub mod laws;
