//! The synthesis voice catalogue and where its model files live.
//!
//! Downloading a missing model is external work; the library fixes the
//! catalogue and computes the on-disk locations the downloader fills.

use vstd::prelude::*;

verus! {

/// One synthesis voice: its identifier and where its model and model
/// configuration can be fetched.
pub struct Voice {
    pub id: &'static str,
    pub model_url: &'static str,
    pub config_url: &'static str,
}

/// The built-in voice catalogue.
pub fn voices() -> (r: Vec<Voice>)
    ensures
        r@.len() == 1,
        r@[0].id@ == "en_GB-cori-high"@,
        r@[0].model_url@
            == "https://huggingface.co/rhasspy/piper-voices/resolve/main/en/en_GB/cori/high/en_GB-cori-high.onnx"@,
        r@[0].config_url@
            == "https://huggingface.co/rhasspy/piper-voices/resolve/main/en/en_GB/cori/high/en_GB-cori-high.onnx.json"@,
{
    let mut v: Vec<Voice> = Vec::new();
    v.push(
        Voice {
            id: "en_GB-cori-high",
            model_url: "https://huggingface.co/rhasspy/piper-voices/resolve/main/en/en_GB/cori/high/en_GB-cori-high.onnx",
            config_url: "https://huggingface.co/rhasspy/piper-voices/resolve/main/en/en_GB/cori/high/en_GB-cori-high.onnx.json",
        },
    );
    v
}

/// The directory that holds downloaded voice models.
pub fn models_dir() -> (r: String)
    ensures
        r@ == "./models"@,
{
    "./models".to_owned()
}

/// Where a voice's model file lives under the models directory.
pub fn voice_model_path(voice: &Voice) -> (r: String)
    ensures
        r@ == "./models/"@ + voice.id@ + ".onnx"@,
{
    let mut p = "./models/".to_owned();
    p.append(voice.id);
    p.append(".onnx");
    p
}

/// Where a voice's model configuration file lives under the models
/// directory.
pub fn voice_config_path(voice: &Voice) -> (r: String)
    ensures
        r@ == "./models/"@ + voice.id@ + ".onnx.json"@,
{
    let mut p = "./models/".to_owned();
    p.append(voice.id);
    p.append(".onnx.json");
    p
}

} // verus!
