//! The handlers behind the bot's triggers: each turns a structured intent
//! from the dispatcher into at most one reply, reading and writing the
//! content store.

pub mod blague;
pub mod buzz;
pub mod connerie;
pub mod eight_ball;
pub mod episodes;
pub mod google;
pub mod google_image;
pub mod horoscope;
pub mod meme;
pub mod quote;
pub mod skandite;
pub mod youtube;
