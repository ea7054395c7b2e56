pub mod uploads;
