//! The building blocks of a touch-screen user interface for a small security
//! device: gesture recognition, paged content, and the two keyboards on which
//! a PIN and a passphrase are entered.
//!
//! Nothing here draws or reads a touch panel. A component takes events as
//! values and answers with a message; it paints by appending commands to a
//! [`display::Display`], which the owner of the real screen carries out.

pub mod geometry;
pub mod theme;
pub mod display;
pub mod event;
pub mod trace;
pub mod component;
pub mod swipe;
pub mod scroll;
pub mod button;
pub mod page;
pub mod keyboard;
