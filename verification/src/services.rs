//! What is asked of the outside world: catalog searches and downloads.

pub mod youtube;
