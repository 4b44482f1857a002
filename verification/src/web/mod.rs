pub mod census_api;
