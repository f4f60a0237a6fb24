pub mod api;
pub mod rpc;
pub mod web;
