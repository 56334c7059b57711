pub mod capability;
