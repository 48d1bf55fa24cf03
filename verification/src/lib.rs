//! Size bounds on client-supplied game-action payloads, checked before an
//! action reaches the game engine.

pub mod decimal;
pub mod game_action_payload_guard;
pub mod types;
pub mod laws;
