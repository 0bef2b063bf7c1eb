pub mod change_desrip;
pub mod identity;
pub mod len;
pub mod mutate_info;
pub mod mutator;
pub mod notify_hook;
pub mod orig;
pub mod processor;
pub mod retrieve;
pub mod seq_edit;
pub mod transform;
