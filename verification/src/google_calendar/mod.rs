pub mod formatting;
