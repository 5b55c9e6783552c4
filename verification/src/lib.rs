//! Directory and messaging metadata store: contacts, pairwise conversations
//! and role-gated groups, kept as records at deterministically derived
//! addresses, each with an explicitly computed storage footprint.
//!
//! The modules, leaves first: `address` derives record addresses, `size`
//! computes footprints, `records` holds the four record kinds, `store` keeps
//! them, `auth` decides who may change what, and `operations` composes these
//! into the nine operations. `layout`, `consistency` and `laws` state and
//! prove what holds of them.

pub mod address;
pub mod auth;
pub mod capability;
pub mod consistency;
pub mod error;
pub mod laws;
pub mod layout;
pub mod operations;
pub mod records;
pub mod size;
pub mod store;

pub use address::Address;
pub use capability::{Allocation, Signer};
pub use error::{ErrorCategory, ErrorCode};
pub use operations::{
    create_contact, create_group, create_group_contact, edit_group, send_direct_message,
    set_group_contact_preference, set_group_contact_role, start_direct_conversation,
    update_contact, CreateContact, CreateGroup, CreateGroupContact, EditGroup, SendDirectMessage,
    SetGroupContactPreference, SetGroupContactRole, StartDirectConversation, UpdateContact,
};
pub use records::{Contact, DirectConversation, Group, GroupContact, Record, RecordKind};
pub use store::{Mutation, RecordHandle, RecordStore};
