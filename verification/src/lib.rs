//! Turns the rows of an ontology query into a renderer-ready graph model,
//! together with the vocabulary, query text and session rules around it.

pub mod budget;
pub mod buffer;
pub mod buffer_text;
pub mod display;
pub mod edge;
pub mod element;
pub mod errors;
pub mod filter;
pub mod hydration;
pub mod iri;
pub mod model;
pub mod queries;
pub mod serializer;
pub mod store;
pub mod table;
pub mod term;
pub mod text;
pub mod triple;
pub mod vocab;
pub mod web;
