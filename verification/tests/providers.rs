use stt::audio::PcmAudio;
use stt::config::SpeechToTextConfig;
use stt::{
    create_provider, Action, Backend, Call, CloudflareTranscriber, ConfigError, InferenceSettings,
    Provider, RemoteCall, Session, TranscriberError, TranscriberProvider, WhisperProvider,
};

fn mono_wav(samples: &[i16]) -> Vec<u8> {
    wav(1, 16000, samples)
}

fn wav(channels: u16, rate: u32, samples: &[i16]) -> Vec<u8> {
    let block_align = channels * 2;
    let data_len = samples.len() as u32 * 2;
    let mut out = Vec::new();
    out.extend_from_slice(b"RIFF");
    out.extend_from_slice(&(36 + data_len).to_le_bytes());
    out.extend_from_slice(b"WAVE");
    out.extend_from_slice(b"fmt ");
    out.extend_from_slice(&16u32.to_le_bytes());
    out.extend_from_slice(&1u16.to_le_bytes());
    out.extend_from_slice(&channels.to_le_bytes());
    out.extend_from_slice(&rate.to_le_bytes());
    out.extend_from_slice(&(rate * block_align as u32).to_le_bytes());
    out.extend_from_slice(&block_align.to_le_bytes());
    out.extend_from_slice(&16u16.to_le_bytes());
    out.extend_from_slice(b"data");
    out.extend_from_slice(&data_len.to_le_bytes());
    for sample in samples {
        out.extend_from_slice(&sample.to_le_bytes());
    }
    out
}

fn settings(model_path: Option<&str>, worker_url: Option<&str>) -> SpeechToTextConfig {
    SpeechToTextConfig {
        model_path: model_path.map(|path| path.to_string()),
        worker_url: worker_url.map(|url| url.to_string()),
        api_key: None,
    }
}

#[test]
fn local_provider_refuses_an_empty_buffer() {
    let provider = WhisperProvider::new("models/ggml-base.bin");
    assert_eq!(provider.transcribe(Vec::new()), Err(TranscriberError::InvalidAudioData));
}

#[test]
fn remote_provider_refuses_an_empty_buffer() {
    let provider = CloudflareTranscriber::new("https://stt.example.workers.dev");
    assert_eq!(provider.transcribe(Vec::new()), Err(TranscriberError::InvalidAudioData));
}

#[test]
fn made_providers_refuse_an_empty_buffer() {
    let config = settings(Some("model.bin"), Some("https://worker.example"));
    for backend in [Backend::Local, Backend::Remote] {
        let provider = create_provider(backend, &config).unwrap();
        assert_eq!(provider.transcribe(Vec::new()), Err(TranscriberError::InvalidAudioData));
    }
}

#[test]
fn local_provider_keeps_its_model_path() {
    assert_eq!(WhisperProvider::new("/opt/models/small.bin").model_path(), "/opt/models/small.bin");
}

#[test]
fn remote_provider_keeps_its_worker_url() {
    let provider = CloudflareTranscriber::new("https://stt.example.workers.dev");
    assert_eq!(provider.worker_url(), "https://stt.example.workers.dev");
}

#[test]
fn local_provider_begins_a_session_over_mono_audio() {
    let provider = WhisperProvider::new("model.bin");
    let session = provider.transcribe(mono_wav(&[2, -3, 5, -7])).unwrap();
    assert_eq!(session.action(), Action::CreateState);
    assert_eq!(session.audio().frames(), &vec![2i32, -3, 5, -7]);
    assert_eq!(session.audio().scale(), 32768);
    assert_eq!(session.audio().sample_rate(), 16000);
}

#[test]
fn local_provider_mixes_stereo_down() {
    let provider = WhisperProvider::new("model.bin");
    let session = provider.transcribe(wav(2, 44100, &[100, 300, -8, 8, 32767, 32767])).unwrap();
    assert_eq!(session.audio().frames(), &vec![400i32, 0, 65534]);
    assert_eq!(session.audio().frames().len(), 3);
    assert_eq!(session.audio().scale(), 65536);
    assert_eq!(session.audio().sample_rate(), 44100);
}

#[test]
fn local_session_is_the_one_made_from_the_same_audio() {
    let provider = WhisperProvider::new("model.bin");
    let begun = provider.transcribe(wav(2, 16000, &[1, 2, 3, 4])).unwrap();
    let made = Session::new(PcmAudio::new(2, 16000, vec![1, 2, 3, 4]).unwrap().to_mono());
    assert_eq!(begun, made);
}

#[test]
fn local_provider_refuses_what_is_not_a_wav() {
    let provider = WhisperProvider::new("model.bin");
    let mut wrong_magic = mono_wav(&[1, 2, 3]);
    wrong_magic[0] = b'X';
    assert_eq!(provider.transcribe(wrong_magic), Err(TranscriberError::InvalidAudioData));
    let whole = mono_wav(&[1, 2, 3]);
    assert_eq!(
        provider.transcribe(whole[..30].to_vec()),
        Err(TranscriberError::InvalidAudioData),
    );
    assert_eq!(provider.transcribe(vec![0u8; 64]), Err(TranscriberError::InvalidAudioData));
}

#[test]
fn local_provider_can_be_asked_again() {
    let provider = WhisperProvider::new("model.bin");
    let first = provider.transcribe(mono_wav(&[1, 1])).unwrap();
    let second = provider.transcribe(mono_wav(&[9, 9, 9])).unwrap();
    assert_eq!(first.audio().frames(), &vec![1i32, 1]);
    assert_eq!(second.audio().frames(), &vec![9i32, 9, 9]);
}

#[test]
fn remote_provider_hands_the_buffer_on() {
    let provider = CloudflareTranscriber::new("https://stt.example.workers.dev");
    assert_eq!(
        provider.transcribe(vec![1, 2, 3]),
        Ok(RemoteCall {
            worker_url: "https://stt.example.workers.dev".to_string(),
            audio_data: vec![1, 2, 3],
        }),
    );
}

#[test]
fn local_backend_is_made_from_the_model_path() {
    let provider = create_provider(Backend::Local, &settings(Some("model.bin"), None));
    assert_eq!(provider, Ok(Provider::Local(WhisperProvider::new("model.bin"))));
}

#[test]
fn remote_backend_is_made_from_the_worker_url() {
    let config = settings(None, Some("https://worker.example"));
    let expected = Provider::Remote(CloudflareTranscriber::new("https://worker.example"));
    assert_eq!(create_provider(Backend::Remote, &config), Ok(expected));
}

#[test]
fn local_backend_without_model_path_has_no_provider() {
    assert_eq!(
        create_provider(Backend::Local, &settings(None, Some("https://worker.example"))),
        Err(ConfigError::MissingModelPath),
    );
}

#[test]
fn remote_backend_without_worker_url_has_no_provider() {
    assert_eq!(
        create_provider(Backend::Remote, &settings(Some("model.bin"), None)),
        Err(ConfigError::MissingWorkerUrl),
    );
}

#[test]
fn backend_is_not_inferred_from_the_settings() {
    let config = settings(Some("model.bin"), Some("https://worker.example"));
    assert!(matches!(create_provider(Backend::Local, &config), Ok(Provider::Local(_))));
    assert!(matches!(create_provider(Backend::Remote, &config), Ok(Provider::Remote(_))));
}

#[test]
fn api_key_is_not_needed_to_make_a_provider() {
    let mut config = settings(None, Some("https://worker.example"));
    assert!(create_provider(Backend::Remote, &config).is_ok());
    config.api_key = Some("k-1".to_string());
    assert!(create_provider(Backend::Remote, &config).is_ok());
}

#[test]
fn made_provider_hands_out_the_call_of_its_backend() {
    let config = settings(Some("model.bin"), Some("https://worker.example"));
    let local = create_provider(Backend::Local, &config).unwrap();
    match local.transcribe(mono_wav(&[5, 6])).unwrap() {
        Call::Local(session) => assert_eq!(session.audio().frames(), &vec![5i32, 6]),
        Call::Remote(call) => panic!("a remote call from the local backend: {:?}", call),
    }
    let remote = create_provider(Backend::Remote, &config).unwrap();
    match remote.transcribe(vec![7, 8]).unwrap() {
        Call::Remote(call) => {
            assert_eq!(call.worker_url, "https://worker.example");
            assert_eq!(call.audio_data, vec![7, 8]);
        },
        Call::Local(session) => panic!("a session from the remote backend: {:?}", session),
    }
}

#[test]
fn configuration_errors_say_what_is_missing() {
    assert_eq!(ConfigError::MissingModelPath.message(), "model_path required for local provider");
    assert_eq!(
        ConfigError::MissingWorkerUrl.message(),
        "worker_url required for cloudflare provider",
    );
}

#[test]
fn errors_describe_themselves() {
    assert_eq!(TranscriberError::InvalidAudioData.message(), "Invalid audio data");
    assert_eq!(TranscriberError::Unknown("odd".to_string()).message(), "Unknown error: odd");
    assert_eq!(
        TranscriberError::Whisper("Failed to decode".to_string()).message(),
        "Wishper error: Failed to decode",
    );
    assert_eq!(
        TranscriberError::Provider("worker said no".to_string()).message(),
        "worker said no",
    );
}

#[test]
fn inference_settings_are_fixed() {
    let settings = InferenceSettings::fixed();
    assert_eq!(settings.best_of, 1);
    assert_eq!(settings.language, "sk");
    assert!(!settings.print_special);
    assert!(!settings.print_progress);
    assert!(!settings.print_realtime);
    assert!(!settings.print_timestamps);
    assert_eq!(settings, InferenceSettings::fixed());
}
