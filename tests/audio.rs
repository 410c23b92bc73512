use std::cell::Cell;

use gc2d::audio::{new_audio, AudioManager, AudioSource, AudioSources, AudioType};
use gc2d::cache::ResourceCache;

fn source(name: &str, audio_type: AudioType) -> AudioSource {
    AudioSource { filename: name.to_string(), audio_type }
}

#[test]
fn effects_are_decoded_once_and_music_never() {
    let decodes = Cell::new(0u32);
    let decode = |s: &AudioSource| -> Result<usize, String> {
        decodes.set(decodes.get() + 1);
        Ok(s.filename.len())
    };
    let mut manager: AudioManager<usize> = ResourceCache::new();
    assert_eq!(new_audio(&mut manager, source("boom.wav", AudioType::Effect), &decode), Ok(()));
    assert_eq!(new_audio(&mut manager, source("boom.wav", AudioType::Effect), &decode), Ok(()));
    assert_eq!(new_audio(&mut manager, source("song.mp3", AudioType::Music), &decode), Ok(()));
    assert_eq!(decodes.get(), 1);
    assert_eq!(manager.get(&source("boom.wav", AudioType::Effect)), Some(&Some(8)));
    assert_eq!(manager.get(&source("song.mp3", AudioType::Music)), Some(&None));
    assert_eq!(manager.len(), 2);
}

#[test]
fn failed_effect_is_not_kept() {
    let decode = |_: &AudioSource| -> Result<usize, String> { Err("unsupported format".to_string()) };
    let mut manager: AudioManager<usize> = ResourceCache::new();
    let key = source("bad.xyz", AudioType::Effect);
    assert_eq!(new_audio(&mut manager, key.clone(), &decode), Err("unsupported format".to_string()));
    assert!(!manager.contains(&key));
}

#[test]
fn sources_open_the_device_once_and_keep_the_last_type() {
    let mut sources = AudioSources::new();
    assert_eq!(sources.audio_type_of("a.wav"), None);
    let (key, must_open) = sources.register("a.wav", AudioType::Effect);
    assert_eq!(key, source("a.wav", AudioType::Effect));
    assert!(must_open);
    let (_, must_open) = sources.register("b.mp3", AudioType::Music);
    assert!(!must_open);
    assert_eq!(sources.audio_type_of("a.wav"), Some(AudioType::Effect));
    assert_eq!(sources.audio_type_of("b.mp3"), Some(AudioType::Music));
    sources.register("a.wav", AudioType::Music);
    assert_eq!(sources.audio_type_of("a.wav"), Some(AudioType::Music));
    assert_eq!(sources.audio_type_of("c.ogg"), None);
}
