//! What a server checks of its arguments before it starts.

use vstd::prelude::*;
use crate::error::{ConfigError, ConfigErrorView};

verus! {

/// Retrieval augmentation was asked of a server that was built without it.
pub const RAG_NOT_BUILT: &'static str =
    "'--enable_rag' argument provided without the feature. Please enable the feature.";

/// Retrieval augmentation was asked for without a chat and an embedding
/// model.
pub const RAG_NEEDS_TWO_MODELS: &'static str =
    "Enabling RAG functiionality with the LlamaEdge Search API server requires a chat model and an embedding model.";

/// No model was named, or more than two.
pub const BAD_MODEL_NAMES: &'static str =
    "Invalid setting for model name. For running chat or embedding model, please specify a single model name. For running both chat and embedding models, please specify two model names: the first one for chat model, the other for embedding model.";

/// The models were not given two aliases.
pub const NEEDS_TWO_ALIASES: &'static str =
    "LlamaEdge RAG API server requires two model aliases: one for chat model, one for embedding model.";

/// The models were not given two context sizes.
pub const NEEDS_TWO_CONTEXT_SIZES: &'static str =
    "LlamaEdge RAG API server requires two context sizes: one for chat model, one for embedding model.";

/// The models were not given two batch sizes.
pub const NEEDS_TWO_BATCH_SIZES: &'static str =
    "LlamaEdge RAG API server requires two batch sizes: one for chat model, one for embedding model.";

/// The models were not given two prompt templates.
pub const NEEDS_TWO_TEMPLATES: &'static str =
    "LlamaEdge RAG API server requires two prompt templates: one for chat model, one for embedding model.";

/// How many values each list argument of the server was given, and what
/// was asked of retrieval augmentation.
#[derive(Clone, Copy, Debug, PartialEq, Eq, Structural)]
pub struct Arguments {
    /// Whether retrieval augmentation was asked for.
    pub enable_rag: bool,
    /// Whether the server was built with retrieval augmentation.
    pub rag_built: bool,
    pub model_names: usize,
    pub model_aliases: usize,
    pub context_sizes: usize,
    pub batch_sizes: usize,
    pub prompt_templates: usize,
}

/// What is wrong with the number of models, if anything is.
pub open spec fn model_fault(arguments: Arguments) -> Option<Seq<char>> {
    if arguments.enable_rag && !arguments.rag_built {
        Some(RAG_NOT_BUILT@)
    } else if arguments.enable_rag && arguments.model_names != 2 {
        Some(RAG_NEEDS_TWO_MODELS@)
    } else if !arguments.enable_rag && (arguments.model_names == 0 || arguments.model_names > 2) {
        Some(BAD_MODEL_NAMES@)
    } else {
        None
    }
}

/// What is wrong with a list that must hold one value for the chat model
/// and one for the embedding model: `reason`, unless it holds two.
pub open spec fn pair_fault(count: usize, reason: Seq<char>) -> Option<Seq<char>> {
    if count != 2 {
        Some(reason)
    } else {
        None
    }
}

/// What is wrong with the arguments, if anything is: the first of the
/// faults in the order in which a server checks them.
pub open spec fn argument_fault(arguments: Arguments) -> Option<Seq<char>> {
    if model_fault(arguments) is Some {
        model_fault(arguments)
    } else if arguments.model_aliases != 2 {
        Some(NEEDS_TWO_ALIASES@)
    } else if arguments.context_sizes != 2 {
        Some(NEEDS_TWO_CONTEXT_SIZES@)
    } else if arguments.batch_sizes != 2 {
        Some(NEEDS_TWO_BATCH_SIZES@)
    } else if arguments.prompt_templates != 2 {
        Some(NEEDS_TWO_TEMPLATES@)
    } else {
        None
    }
}

/// Whether a check ended as the fault says: refused with the reason, or
/// passed where there is none.
pub open spec fn checked_as(checked: Result<(), ConfigError>, fault: Option<Seq<char>>) -> bool {
    match fault {
        Some(reason) => checked matches Err(error) && error@ == ConfigErrorView::Arguments(reason),
        None => checked is Ok,
    }
}

fn fault(reason: &str) -> (refused: Result<(), ConfigError>)
    ensures
        refused matches Err(error) && error@ == ConfigErrorView::Arguments(reason@),
{
    Err(ConfigError::Arguments(reason.to_string()))
}

fn check_pair(count: usize, reason: &str) -> (checked: Result<(), ConfigError>)
    ensures
        checked_as(checked, pair_fault(count, reason@)),
{
    if count != 2 {
        fault(reason)
    } else {
        Ok(())
    }
}

/// Checks the number of models: with retrieval augmentation a chat and an
/// embedding model, without it one model or both.
pub fn check_models(arguments: &Arguments) -> (checked: Result<(), ConfigError>)
    ensures
        checked_as(checked, model_fault(*arguments)),
{
    if arguments.enable_rag && !arguments.rag_built {
        return fault(RAG_NOT_BUILT);
    }
    if arguments.enable_rag {
        if arguments.model_names != 2 {
            return fault(RAG_NEEDS_TWO_MODELS);
        }
    } else if arguments.model_names == 0 || arguments.model_names > 2 {
        return fault(BAD_MODEL_NAMES);
    }
    Ok(())
}

/// Checks that the models have two aliases.
pub fn check_aliases(arguments: &Arguments) -> (checked: Result<(), ConfigError>)
    ensures
        checked_as(checked, pair_fault(arguments.model_aliases, NEEDS_TWO_ALIASES@)),
{
    check_pair(arguments.model_aliases, NEEDS_TWO_ALIASES)
}

/// Checks that the models have two context sizes.
pub fn check_context_sizes(arguments: &Arguments) -> (checked: Result<(), ConfigError>)
    ensures
        checked_as(checked, pair_fault(arguments.context_sizes, NEEDS_TWO_CONTEXT_SIZES@)),
{
    check_pair(arguments.context_sizes, NEEDS_TWO_CONTEXT_SIZES)
}

/// Checks that the models have two batch sizes.
pub fn check_batch_sizes(arguments: &Arguments) -> (checked: Result<(), ConfigError>)
    ensures
        checked_as(checked, pair_fault(arguments.batch_sizes, NEEDS_TWO_BATCH_SIZES@)),
{
    check_pair(arguments.batch_sizes, NEEDS_TWO_BATCH_SIZES)
}

/// Checks that the models have two prompt templates.
pub fn check_templates(arguments: &Arguments) -> (checked: Result<(), ConfigError>)
    ensures
        checked_as(checked, pair_fault(arguments.prompt_templates, NEEDS_TWO_TEMPLATES@)),
{
    check_pair(arguments.prompt_templates, NEEDS_TWO_TEMPLATES)
}

/// Checks that the arguments of a server fit together: the chat and the
/// embedding model each need a name (with retrieval augmentation both, else
/// one or both), an alias, a context size, a batch size and a prompt
/// template. The checks are made in this order, and the first fault is the
/// one reported.
pub fn check_arguments(arguments: &Arguments) -> (checked: Result<(), ConfigError>)
    ensures
        checked_as(checked, argument_fault(*arguments)),
{
    match check_models(arguments) {
        Err(error) => {
            return Err(error);
        },
        Ok(()) => {},
    }
    match check_aliases(arguments) {
        Err(error) => {
            return Err(error);
        },
        Ok(()) => {},
    }
    match check_context_sizes(arguments) {
        Err(error) => {
            return Err(error);
        },
        Ok(()) => {},
    }
    match check_batch_sizes(arguments) {
        Err(error) => {
            return Err(error);
        },
        Ok(()) => {},
    }
    check_templates(arguments)
}

} // verus!
