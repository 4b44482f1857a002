pub mod census_formatting;
pub mod icons;
