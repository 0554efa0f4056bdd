//! Generators of star systems and their mainworlds, driven by dice.
//!
//! [`generators::worldgen::generate_mainworld`] derives the attributes of a mainworld
//! from the dice of a [`dice::Rollable`] source, one after the other, each by a rule
//! over those derived before it. [`generators::generate_system`] sets the mainworld
//! among stars, asteroid belts and gas giants. What is generated is a function of
//! the faces that the dice show: the contracts say which.
pub mod dice;
pub mod generators;
pub mod world;
