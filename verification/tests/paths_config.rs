use voice_assistant::config::{default_config, get_ollama_config};
use voice_assistant::error::AssistantError;
use voice_assistant::search_path::updated_search_path;
use voice_assistant::transcriber::{find_whisper_binary, transcript_output_path, trimmed_text};
use voice_assistant::voice::{models_dir, voice_config_path, voice_model_path, voices};

#[test]
fn default_config_values() {
    let c = default_config();
    assert_eq!(c.ollama.server, "localhost:11434");
    assert_eq!(c.ollama.model, "phi-2.7");
}

#[test]
fn ollama_section_is_extracted() {
    let c = default_config();
    let o = get_ollama_config(&c);
    assert_eq!(o.server, "localhost:11434");
    assert_eq!(o.model, "phi-2.7");
}

#[test]
fn whisper_binary_prefers_cli() {
    let r = find_whisper_binary("./repos/whisper.cpp", true, true).unwrap();
    assert_eq!(r, "./repos/whisper.cpp/build/bin/whisper-cli");
    let r = find_whisper_binary("./repos/whisper.cpp", true, false).unwrap();
    assert_eq!(r, "./repos/whisper.cpp/build/bin/whisper-cli");
}

#[test]
fn whisper_binary_falls_back() {
    let r = find_whisper_binary("./repos/whisper.cpp", false, true).unwrap();
    assert_eq!(r, "./repos/whisper.cpp/build/bin/main");
}

#[test]
fn whisper_binary_missing_reports_both_candidates() {
    let r = find_whisper_binary("./repos/whisper.cpp", false, false);
    match r {
        Err(AssistantError::WhisperNotFound { cli, fallback }) => {
            assert_eq!(cli, "./repos/whisper.cpp/build/bin/whisper-cli");
            assert_eq!(fallback, "./repos/whisper.cpp/build/bin/main");
        }
        _ => panic!("expected the not-found error"),
    }
}

#[test]
fn transcript_text_is_trimmed() {
    assert_eq!(trimmed_text(" hello world \n"), "hello world");
    assert_eq!(trimmed_text("\r\n\t  \n"), "");
    assert_eq!(trimmed_text(""), "");
    assert_eq!(trimmed_text("no padding"), "no padding");
    assert_eq!(trimmed_text("\ninner  stays\t"), "inner  stays");
}

#[test]
fn transcript_path_adds_text_suffix() {
    assert_eq!(
        transcript_output_path("records/user_input.wav"),
        "records/user_input.wav.txt"
    );
}

#[test]
fn voice_catalogue_and_model_locations() {
    assert_eq!(models_dir(), "./models");
    let vs = voices();
    assert_eq!(vs.len(), 1);
    assert_eq!(vs[0].id, "en_GB-cori-high");
    assert!(vs[0].model_url.ends_with("/en_GB-cori-high.onnx"));
    assert!(vs[0].config_url.ends_with("/en_GB-cori-high.onnx.json"));
    assert_eq!(voice_model_path(&vs[0]), "./models/en_GB-cori-high.onnx");
    assert_eq!(
        voice_config_path(&vs[0]),
        "./models/en_GB-cori-high.onnx.json"
    );
}

#[test]
fn search_path_from_empty() {
    assert_eq!(updated_search_path("", "/py", "/cwd", ":"), "/py:/cwd");
}

#[test]
fn search_path_prepends_and_appends() {
    assert_eq!(
        updated_search_path("/a:/b", "/py", "/cwd", ":"),
        "/py:/a:/b:/cwd"
    );
}

#[test]
fn search_path_keeps_existing_entries_once() {
    // engine directory already present: not inserted again
    assert_eq!(
        updated_search_path("/py:/a", "/py", "/cwd", ":"),
        "/py:/a:/cwd"
    );
    // working directory already present: not appended again
    assert_eq!(
        updated_search_path("/cwd:/a", "/py", "/cwd", ":"),
        "/py:/cwd:/a"
    );
}

#[test]
fn search_path_drops_empty_entries() {
    assert_eq!(
        updated_search_path("::/a::", "/py", "/cwd", ":"),
        "/py:/a:/cwd"
    );
}

#[test]
fn search_path_equal_required_dirs_added_once() {
    assert_eq!(updated_search_path("/a", "/same", "/same", ":"), "/same:/a");
}

#[test]
fn search_path_windows_separator() {
    assert_eq!(
        updated_search_path("C?py;D?other", "E?py", "F?cwd", ";"),
        "E?py;C?py;D?other;F?cwd"
    );
}
