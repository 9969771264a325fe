//! Data types shared by the policy engine, the controllers and the webhook.

pub mod policy;
pub mod webhook;
pub mod crd;
pub mod helmrelease;
pub mod helmrepository;
pub mod update;
