use uncanny::types::{DomainError, EmotionTint};
use uncanny::voice::{RecordingVoice, VoiceEmitter};

#[test]
fn recording_voice_keeps_lines_in_order() {
    let mut v = RecordingVoice::new();
    assert!(v.log().is_empty());
    v.speak("hello", EmotionTint::Happy);
    v.speak("hmm", EmotionTint::Thinking);
    assert_eq!(v.log().len(), 2);
    assert_eq!(v.log()[0].text, "hello");
    assert_eq!(v.log()[1].emotion, EmotionTint::Thinking);
}

#[test]
fn drain_empties_the_log() {
    let mut v = RecordingVoice::new();
    v.speak("a", EmotionTint::Sad);
    let taken = v.drain();
    assert_eq!(taken.len(), 1);
    assert_eq!(taken[0].text, "a");
    assert_eq!(taken[0].emotion, EmotionTint::Sad);
    assert!(v.drain().is_empty());
}

#[test]
fn domain_error_messages() {
    assert_eq!(DomainError::Inference("model gone".to_string()).message(), "Inference failure: model gone");
    assert_eq!(DomainError::InternalState("x".to_string()).message(), "State inconsistency: x");
    assert_eq!(DomainError::Timeout.message(), "Command timeout");
}
