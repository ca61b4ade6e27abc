pub mod views;
