pub mod processing;
