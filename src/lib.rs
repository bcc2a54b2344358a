//! Gameplay-state core of a command-driven text role-playing game:
//! character progression, equipment bonuses, an inventory of fixed slots,
//! and an event router that carries intents and notifications between them.

pub mod text;
pub mod items;
pub mod character;
pub mod inventory;
pub mod equipment;
pub mod events;
pub mod command;
pub mod game;
