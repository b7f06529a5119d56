pub mod archive;
pub mod batch;
pub mod detection;
pub mod document;
pub mod extraction;
pub mod markup;
pub mod models;
pub mod presentation;
pub mod strings;
