pub mod keyword;
