//! Inventory and lifecycle decisions for a user's SSH key store.
//!
//! The functions here take what the file system, the environment and the
//! key tools reported, as plain values, and decide what is listed, created,
//! removed or reported.
mod agent;
mod create;
mod remove;
mod scan;
mod text;
mod tool;

pub use agent::{get_loaded_ssh_agent_keys, is_ssh_agent_running, AgentError};
pub use text::is_blank_text;
pub use tool::ToolOutcome;
pub use create::{
    generator_passphrase, key_creation_result, key_filename, plan_ssh_key, CreateError,
    KeyCreationRequest, KeyGeneration,
};
pub use remove::{
    check_key_removal, key_removal_report, private_key_removed, PublicKeyRemoval, RemovalReport,
    RemoveError,
};
pub use scan::{
    get_ssh_keys, key_info, lemma_failure_leaves_other_entries, KeyInfo, KeyInfoReport,
    KeyInventoryEntry, lemma_listing_counts_public_files, lemma_other_files_not_listed, public_key_stem,
    public_keys_in_listing, select_public_keys, PublicKeyFile, StoreError,
};
