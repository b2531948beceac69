//! Trading-platform core: the plugin registry, the plugin blob store, the
//! subscription bookkeeping of the exchange interactor, the exchange message
//! decoding rules and the end-to-end strategies' state machines.

pub mod domain;
pub mod text;
pub mod registry_model;
pub mod registry;
pub mod registry_service;
pub mod blob_storage;
pub mod registry_dto;
pub mod registry_api;
pub mod facade;
pub mod id_set;
pub mod subscriptions;
pub mod subscription_manager;
pub mod logging;
pub mod interactor_config;
pub mod service_config;
pub mod e2e_plugin;
pub mod strategies;
pub mod okx;
pub mod sockets;
pub mod bybit;
pub mod urls;
pub mod interactor_api;
pub mod okx_service;
