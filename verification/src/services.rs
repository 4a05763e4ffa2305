//! Handlers bound to one backend each.

pub mod friendship_service;
