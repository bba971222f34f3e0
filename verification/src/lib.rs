pub mod attestation_scheduler;
pub mod message_broadcaster;
pub mod message_consumer;
pub mod message_generator;
pub mod price_provider;
pub mod signature_provider;
pub mod slot;
