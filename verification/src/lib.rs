//! Verified admission and reconnect authority for the game-server foundation.
pub mod admission;
pub mod journal;
pub mod bytes;
pub mod ids;
pub mod laws;
pub mod text;
pub mod durability;
pub mod budget;
pub mod flows;
pub mod control_loss;
pub mod facade;
pub mod recovery_laws;
pub mod fresh_evidence;
pub mod publication;
pub mod publication_laws;
pub mod complete_reconnect;
pub mod complete_reconnect_laws;
pub mod post_grace;
pub mod post_grace_laws;
pub mod complete_operation;
pub mod post_grace_operation;
