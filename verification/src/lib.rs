pub mod bootstrap;
pub mod builder;
pub mod command;
pub mod context;
pub mod cycle;
pub mod data;
pub mod demo;
pub mod dispatch;
pub mod error;
pub mod layout;
pub mod ledger;
pub mod shader;
pub mod transfer;
mod vulkan;
