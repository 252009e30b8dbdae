//! Music-taste matchmaking: the rules of a dating backend that pairs users by
//! their listening histories.
//!
//! The crate holds the parts that can be stated and proved: how two ranked
//! artist lists are laid out as weight vectors over a shared universe of
//! names (`scoring`), how a like turns into a match and who may delete a
//! match (`matching`), and the smaller rules around them: cache keys, e-mail
//! normalisation, settings, passwords and tokens, upload checks, challenges,
//! achievements, notifications and live chat.
//!
//! Storage, transport and the arithmetic on real numbers are the caller's.
//! Where a rule needs an answer from outside, it is a function from what
//! came back to what is done next.
pub mod achievement_service;
pub mod auth_service;
pub mod captcha_service;
pub mod config;
pub mod discover;
pub mod email_normalization;
pub mod errors;
pub mod event_service;
pub mod fresh;
pub mod keys;
pub mod lastfm_service;
pub mod lex;
pub mod matching;
pub mod models;
pub mod notification_service;
pub mod numbers;
pub mod photo_service;
pub mod rate_limit;
pub mod scoring;
pub mod text;
pub mod users;
pub mod websocket_service;
