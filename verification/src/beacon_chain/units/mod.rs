pub mod slot;
