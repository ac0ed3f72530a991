//! Retrieval augmentation in front of a chat model: search providers and
//! their result parsers, document chunking, similarity retrieval and the
//! merge of retrieved context into a conversation.

pub mod adapter;
pub mod chunker;
pub mod error;
pub mod flow;
pub mod indexer;
pub mod json;
pub mod merger;
pub mod provider;
pub mod retrieval;
pub mod search;
pub mod startup;
pub mod template;
pub mod text;
