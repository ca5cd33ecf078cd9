//! The logic of a connector that stands between a game client, a chain
//! node, a content-addressed store and a lobby server: the framing of
//! messages, the lobby's wire protocol, the decisions of the three backend
//! clients, and the orchestrator that sequences their work.

pub mod codec;
pub mod gear_client;
pub mod ipfs_client;
pub mod lobby;
pub mod logic;
pub mod text;
