pub mod command;
pub mod out_path;
pub mod privilege;
pub mod rebuild;
pub mod specialisation;
pub mod text;
pub mod update;
pub mod version;
