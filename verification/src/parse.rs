pub mod obsolete;
