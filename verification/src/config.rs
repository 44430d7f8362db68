//! Assistant configuration values.
//!
//! Reading and writing the configuration file is not the library's business;
//! the surrounding program loads the file and hands the values in.

use vstd::prelude::*;

verus! {

/// Where the inference collaborator listens and which model it serves.
pub struct OllamaConfig {
    pub server: String,
    pub model: String,
}

/// The whole assistant configuration.
pub struct AssistantConfig {
    pub ollama: OllamaConfig,
}

/// The built-in configuration used when no configuration file exists yet.
pub fn default_config() -> (c: AssistantConfig)
    ensures
        c.ollama.server@ == "localhost:11434"@,
        c.ollama.model@ == "phi-2.7"@,
{
    AssistantConfig {
        ollama: OllamaConfig {
            server: "localhost:11434".to_owned(),
            model: "phi-2.7".to_owned(),
        },
    }
}

/// The inference section of a loaded configuration.
pub fn get_ollama_config(cfg: &AssistantConfig) -> (o: OllamaConfig)
    ensures
        o.server@ == cfg.ollama.server@,
        o.model@ == cfg.ollama.model@,
{
    OllamaConfig { server: cfg.ollama.server.clone(), model: cfg.ollama.model.clone() }
}

} // verus!
